use vstd::prelude::*;
use crate::vitals::{
    Health, Energy, HealthColor, spec_shown_percent, shown_percent, spec_show_health_bar,
    spec_health_color, health_color, spec_saturate_u8, saturate_u8, spec_show_stamina_bar,
    show_stamina_bar, spec_stamina_bar_offset, stamina_bar_offset,
};
use crate::equipment::{
    Tool, Loadout, EquipSlot, EquippedItem, spec_primary_icon_of, SkillIcon, IconTint, spec_get_tool, spec_secondary_tool, secondary_tool,
    spec_primary_icon, primary_icon, spec_secondary_icon, secondary_icon, spec_secondary_tint,
    secondary_tint,
};
use crate::labels::{BarNumbers, BarLabel, spec_health_label, health_label, spec_energy_label, energy_label};
use crate::hotbar::{
    Slot, SlotContents, Hotbar, ShortcutNumbers, TooltipSource, LabelCorner, spec_slot_at, spec_tooltip_source,
    tooltip_source, spec_shortcut_label, shortcut_label, Cell, FrameLayout, CELL_SIZE, CELL_GAP,
    spec_frame, frame, spec_cell_left, cell_left, lemma_cells_tile_frame,
};

verus! {

/// Everything the skillbar reads about the character and the HUD settings.
///
/// `hp_percent` and `energy_percent` are current over maximum times one
/// hundred, truncated to `u32`, as the HUD's floating-point division gives
/// them.
#[derive(Clone, Copy, Debug)]
pub struct Skillbar {
    pub health: Health,
    pub energy: Energy,
    pub loadout: Loadout,
    pub hotbar: Hotbar,
    pub bar_numbers: BarNumbers,
    pub shortcut_numbers: ShortcutNumbers,
    pub respawn_bound: bool,
    pub slot_bound: [bool; 10],
    pub hp_percent: u32,
    pub energy_percent: u32,
}

/// What the skillbar shows for one hotbar slot.
#[derive(Clone, Copy, Debug, PartialEq, Eq, Structural)]
pub struct SlotPlan {
    pub slot: Slot,
    /// The distance of the slot's left edge from the frame's left edge.
    pub left: u32,
    pub tooltip: TooltipSource,
    pub key_label: Option<LabelCorner>,
}

/// What the skillbar shows.
#[derive(Clone, Debug)]
pub struct SkillbarPlan {
    /// The frame that holds the twelve cells; drawn every frame.
    pub frame: FrameLayout,
    /// The left edge of the primary ability button within the frame.
    pub primary_left: u32,
    /// The left edge of the secondary ability button within the frame.
    pub secondary_left: u32,
    /// The death message and respawn prompt.
    pub death_message: bool,
    /// The health bar, with the colour of its filling, when it is shown.
    pub health_bar: Option<HealthColor>,
    /// The stamina bar, with its distance above the slot frame, when it is
    /// shown.
    pub stamina_bar: Option<u32>,
    pub health_label: Option<BarLabel>,
    pub energy_label: Option<BarLabel>,
    /// The primary ability button's icon; the button is drawn every frame.
    pub primary_icon: SkillIcon,
    /// The secondary ability button's icon; the button is drawn every frame.
    pub secondary_icon: SkillIcon,
    pub secondary_tint: IconTint,
    /// The ten hotbar slots, in order.
    pub slots: Vec<SlotPlan>,
}

/// The health percentage the skillbar works with.
pub open spec fn spec_hp_percent(bar: Skillbar) -> u32 {
    spec_shown_percent(bar.hp_percent, bar.health.is_dead)
}

/// The energy percentage the skillbar works with.
pub open spec fn spec_energy_percent(bar: Skillbar) -> u32 {
    spec_shown_percent(bar.energy_percent, bar.health.is_dead)
}

/// The tool that provides the secondary ability.
pub open spec fn spec_bar_secondary_tool(bar: Skillbar) -> Option<Tool> {
    spec_secondary_tool(
        spec_get_tool(bar.loadout, EquipSlot::Mainhand),
        spec_get_tool(bar.loadout, EquipSlot::Offhand),
    )
}

/// What the skillbar shows for the slot at position `i`.
pub open spec fn spec_slot_plan(bar: Skillbar, i: int) -> SlotPlan {
    SlotPlan {
        slot: spec_slot_at(i),
        left: spec_cell_left(Cell::Slot(spec_slot_at(i))) as u32,
        tooltip: spec_tooltip_source(
            bar.hotbar.slots@[i],
            spec_get_tool(bar.loadout, EquipSlot::Mainhand),
        ),
        key_label: spec_shortcut_label(spec_slot_at(i), bar.shortcut_numbers, bar.slot_bound@[i]),
    }
}

/// Whether `plan` is what the skillbar shows for `bar`.
pub open spec fn plan_matches(bar: Skillbar, plan: SkillbarPlan) -> bool {
    &&& plan.frame == spec_frame()
    &&& plan.primary_left == spec_cell_left(Cell::Primary)
    &&& plan.secondary_left == spec_cell_left(Cell::Secondary)
    &&& plan.death_message == (bar.health.is_dead && bar.respawn_bound)
    &&& plan.health_bar == if spec_show_health_bar(bar.health) {
        Some(spec_health_color(spec_saturate_u8(spec_hp_percent(bar))))
    } else {
        None
    }
    &&& plan.stamina_bar == if spec_show_stamina_bar(bar.health, bar.energy) {
        Some(spec_stamina_bar_offset(bar.health.current != bar.health.maximum))
    } else {
        None
    }
    &&& plan.health_label == spec_health_label(bar.bar_numbers, bar.health, spec_hp_percent(bar))
    &&& plan.energy_label == spec_energy_label(
        bar.bar_numbers,
        bar.health.is_dead,
        bar.energy,
        spec_energy_percent(bar),
    )
    &&& plan.primary_icon == spec_primary_icon(spec_get_tool(bar.loadout, EquipSlot::Mainhand))
    &&& plan.secondary_icon == spec_secondary_icon(spec_bar_secondary_tool(bar))
    &&& plan.secondary_tint == spec_secondary_tint(spec_bar_secondary_tool(bar), bar.energy.current)
    &&& plan.slots@.len() == 10
    &&& forall|i: int| 0 <= i < 10 ==> #[trigger] plan.slots@[i] == spec_slot_plan(bar, i)
}

impl Skillbar {
    /// Gathers what the skillbar reads.
    pub fn new(
        health: Health,
        energy: Energy,
        loadout: Loadout,
        hotbar: Hotbar,
        bar_numbers: BarNumbers,
        shortcut_numbers: ShortcutNumbers,
        respawn_bound: bool,
        slot_bound: [bool; 10],
        hp_percent: u32,
        energy_percent: u32,
    ) -> (bar: Skillbar)
        ensures
            bar.health == health,
            bar.energy == energy,
            bar.loadout == loadout,
            bar.hotbar == hotbar,
            bar.bar_numbers == bar_numbers,
            bar.shortcut_numbers == shortcut_numbers,
            bar.respawn_bound == respawn_bound,
            bar.slot_bound == slot_bound,
            bar.hp_percent == hp_percent,
            bar.energy_percent == energy_percent,
    {
        Skillbar {
            health,
            energy,
            loadout,
            hotbar,
            bar_numbers,
            shortcut_numbers,
            respawn_bound,
            slot_bound,
            hp_percent,
            energy_percent,
        }
    }

    /// Decides everything the skillbar shows this frame.
    pub fn update(&self) -> (plan: SkillbarPlan)
        ensures
            plan_matches(*self, plan),
    {
        let is_dead = self.health.is_dead;
        let hp_percent = shown_percent(self.hp_percent, is_dead);
        let energy_percent = shown_percent(self.energy_percent, is_dead);

        let death_message = is_dead && self.respawn_bound;

        let show_health = self.health.current != self.health.maximum;
        let health_bar = if show_health && !is_dead {
            Some(health_color(saturate_u8(hp_percent)))
        } else {
            None
        };
        let stamina_bar = if show_stamina_bar(self.health, self.energy) {
            Some(stamina_bar_offset(show_health))
        } else {
            None
        };

        let health_label = health_label(self.bar_numbers, self.health, hp_percent);
        let energy_label = energy_label(self.bar_numbers, is_dead, self.energy, energy_percent);

        let active_tool = self.loadout.get_tool(EquipSlot::Mainhand);
        let second_tool = self.loadout.get_tool(EquipSlot::Offhand);
        let primary = primary_icon(active_tool);
        let tool = secondary_tool(active_tool, second_tool);
        let secondary = secondary_icon(tool);
        let tint = secondary_tint(tool, self.energy.current);

        let mut slots: Vec<SlotPlan> = Vec::new();
        let mut i: usize = 0;
        while i < 10
            invariant
                i <= 10,
                active_tool == spec_get_tool(self.loadout, EquipSlot::Mainhand),
                slots@.len() == i,
                forall|j: int| 0 <= j < i ==> #[trigger] slots@[j] == spec_slot_plan(*self, j),
            decreases 10 - i,
        {
            let slot = Slot::from_index(i);
            let contents = self.hotbar.get(slot);
            let plan = SlotPlan {
                slot,
                left: cell_left(Cell::Slot(slot)),
                tooltip: tooltip_source(contents, active_tool),
                key_label: shortcut_label(slot, self.shortcut_numbers, self.slot_bound[i]),
            };
            slots.push(plan);
            i = i + 1;
        }

        SkillbarPlan {
            frame: frame(),
            primary_left: cell_left(Cell::Primary),
            secondary_left: cell_left(Cell::Secondary),
            death_message,
            health_bar,
            stamina_bar,
            health_label,
            energy_label,
            primary_icon: primary,
            secondary_icon: secondary,
            secondary_tint: tint,
            slots,
        }
    }
}

/// Every plan lays the cells out the same way: the frame is 513 by 80 pixels,
/// 10 pixels above the window's bottom; slot one starts at its left edge, each
/// cell lies inside it, slots one to five, the two ability buttons and slots
/// six to ten follow each other left to right a cell and a gap apart, and slot
/// ten ends at the frame's right edge.
pub proof fn lemma_plan_layout(bar: Skillbar, plan: SkillbarPlan, i: int)
    requires
        plan_matches(bar, plan),
        0 <= i < 10,
    ensures
        plan.frame.width == 513,
        plan.frame.height == 80,
        plan.frame.bottom_margin == 10,
        plan.slots@[0].left == 0,
        plan.slots@[9].left + CELL_SIZE == plan.frame.width,
        plan.slots@[i].left + CELL_SIZE <= plan.frame.width,
        i < 4 ==> plan.slots@[i + 1].left == plan.slots@[i].left + CELL_SIZE + CELL_GAP,
        plan.primary_left == plan.slots@[4].left + CELL_SIZE + CELL_GAP,
        plan.secondary_left == plan.primary_left + CELL_SIZE + CELL_GAP,
        plan.slots@[5].left == plan.secondary_left + CELL_SIZE + CELL_GAP,
        5 <= i < 9 ==> plan.slots@[i + 1].left == plan.slots@[i].left + CELL_SIZE + CELL_GAP,
{
    assert(plan.slots@[i] == spec_slot_plan(bar, i));
    assert(plan.slots@[0] == spec_slot_plan(bar, 0));
    assert(plan.slots@[4] == spec_slot_plan(bar, 4));
    assert(plan.slots@[5] == spec_slot_plan(bar, 5));
    assert(plan.slots@[9] == spec_slot_plan(bar, 9));
    if i < 9 {
        assert(plan.slots@[i + 1] == spec_slot_plan(bar, i + 1));
    }
    lemma_cells_tile_frame(Cell::Slot(spec_slot_at(i)), Cell::Primary);
}

/// What the plan shows follows from the inputs: each bar exactly when its
/// value is not full and the character lives; the death message exactly for a
/// dead character with a bound respawn key; the primary icon from the
/// main-hand tool's kind; and for each slot its planned position, the
/// inventory item's tooltip when it holds one, and a key label exactly when key
/// labels are on and a key is bound.
pub proof fn lemma_plan_reads_inputs(bar: Skillbar, plan: SkillbarPlan, i: int)
    requires
        plan_matches(bar, plan),
        0 <= i < 10,
    ensures
        plan.health_bar is Some <==> (!bar.health.is_dead && bar.health.current
            != bar.health.maximum),
        plan.stamina_bar is Some <==> (!bar.health.is_dead && bar.energy.current
            != bar.energy.maximum),
        plan.death_message <==> (bar.health.is_dead && bar.respawn_bound),
        bar.loadout.mainhand matches Some(EquippedItem::Tool(t)) ==> plan.primary_icon
            == spec_primary_icon_of(t.kind),
        !(bar.loadout.mainhand matches Some(EquippedItem::Tool(_))) ==> plan.primary_icon
            == SkillIcon::Nothing,
        plan.slots@[i].slot == spec_slot_at(i),
        forall|j: usize|
            bar.hotbar.slots@[i] == Some(SlotContents::Inventory(j)) ==> plan.slots@[i].tooltip
                == TooltipSource::Item(j),
        bar.hotbar.slots@[i] is None ==> plan.slots@[i].tooltip == TooltipSource::Nothing,
        plan.slots@[i].key_label is Some <==> (bar.shortcut_numbers == ShortcutNumbers::On
            && bar.slot_bound@[i]),
        plan.secondary_tint == IconTint::Hidden <==> spec_bar_secondary_tool(bar) is None,
{
    assert(plan.slots@[i] == spec_slot_plan(bar, i));
}

/// For a dead character the skillbar shows neither bar, labels the bars (when
/// numbers are on) with the dead text, hides nothing else, and shows the death
/// message exactly when a respawn key is bound.
pub proof fn lemma_dead_plan(bar: Skillbar, plan: SkillbarPlan)
    requires
        plan_matches(bar, plan),
        bar.health.is_dead,
    ensures
        plan.health_bar is None,
        plan.stamina_bar is None,
        plan.death_message == bar.respawn_bound,
        bar.bar_numbers != BarNumbers::Off ==> plan.health_label == Some(BarLabel::Dead)
            && plan.energy_label == Some(BarLabel::Dead),
{
}

/// Full health hides the health bar, full energy hides the stamina bar, and a
/// living character's death message is never shown.
pub proof fn lemma_full_vitals_hide_bars(bar: Skillbar, plan: SkillbarPlan)
    requires
        plan_matches(bar, plan),
    ensures
        bar.health.current == bar.health.maximum ==> plan.health_bar is None,
        bar.energy.current == bar.energy.maximum ==> plan.stamina_bar is None,
        !bar.health.is_dead ==> !plan.death_message,
{
}

/// The stamina bar moves up exactly when the health bar is shown above the
/// frame too.
pub proof fn lemma_stamina_bar_makes_room(bar: Skillbar, plan: SkillbarPlan)
    requires
        plan_matches(bar, plan),
        plan.stamina_bar is Some,
    ensures
        plan.stamina_bar == Some(34u32) <==> plan.health_bar is Some,
        plan.stamina_bar == Some(1u32) <==> plan.health_bar is None,
{
}

} // verus!
