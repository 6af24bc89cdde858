use vstd::prelude::*;
use crate::equipment::{Tool, ToolKind};

verus! {

/// The ten hotbar slots, left to right.
#[derive(Clone, Copy, Debug, PartialEq, Eq, Structural)]
pub enum Slot {
    One,
    Two,
    Three,
    Four,
    Five,
    Six,
    Seven,
    Eight,
    Nine,
    Ten,
}

/// The position of a slot in the hotbar, from 0 to 9.
pub open spec fn spec_slot_index(slot: Slot) -> int {
    match slot {
        Slot::One => 0,
        Slot::Two => 1,
        Slot::Three => 2,
        Slot::Four => 3,
        Slot::Five => 4,
        Slot::Six => 5,
        Slot::Seven => 6,
        Slot::Eight => 7,
        Slot::Nine => 8,
        Slot::Ten => 9,
    }
}

/// The slot at a position from 0 to 9.
pub open spec fn spec_slot_at(index: int) -> Slot {
    if index == 0 {
        Slot::One
    } else if index == 1 {
        Slot::Two
    } else if index == 2 {
        Slot::Three
    } else if index == 3 {
        Slot::Four
    } else if index == 4 {
        Slot::Five
    } else if index == 5 {
        Slot::Six
    } else if index == 6 {
        Slot::Seven
    } else if index == 7 {
        Slot::Eight
    } else if index == 8 {
        Slot::Nine
    } else {
        Slot::Ten
    }
}

impl Slot {
    /// The slot's position, from 0 to 9.
    pub fn index(&self) -> (i: usize)
        ensures
            i == spec_slot_index(*self),
            i < 10,
    {
        match self {
            Slot::One => 0,
            Slot::Two => 1,
            Slot::Three => 2,
            Slot::Four => 3,
            Slot::Five => 4,
            Slot::Six => 5,
            Slot::Seven => 6,
            Slot::Eight => 7,
            Slot::Nine => 8,
            Slot::Ten => 9,
        }
    }

    /// The slot at position `index`.
    pub fn from_index(index: usize) -> (slot: Slot)
        requires
            index < 10,
        ensures
            slot == spec_slot_at(index as int),
            spec_slot_index(slot) == index,
    {
        if index == 0 {
            Slot::One
        } else if index == 1 {
            Slot::Two
        } else if index == 2 {
            Slot::Three
        } else if index == 3 {
            Slot::Four
        } else if index == 4 {
            Slot::Five
        } else if index == 5 {
            Slot::Six
        } else if index == 6 {
            Slot::Seven
        } else if index == 7 {
            Slot::Eight
        } else if index == 8 {
            Slot::Nine
        } else {
            Slot::Ten
        }
    }
}

/// What a hotbar slot can hold.
#[derive(Clone, Copy, Debug, PartialEq, Eq, Structural)]
pub enum SlotContents {
    /// The item at an inventory position.
    Inventory(usize),
    /// The third ability of the wielded weapon.
    Ability3,
}

/// The contents of the ten hotbar slots.
#[derive(Clone, Copy, Debug, PartialEq, Eq)]
pub struct Hotbar {
    pub slots: [Option<SlotContents>; 10],
}

impl Hotbar {
    /// What the given slot holds.
    pub fn get(&self, slot: Slot) -> (r: Option<SlotContents>)
        ensures
            r == self.slots@[spec_slot_index(slot)],
    {
        self.slots[slot.index()]
    }
}

/// Whether the hotbar shows the key bound to each slot.
#[derive(Clone, Copy, Debug, PartialEq, Eq, Structural)]
pub enum ShortcutNumbers {
    On,
    Off,
}

/// The third abilities that have a tooltip of their own.
#[derive(Clone, Copy, Debug, PartialEq, Eq, Structural)]
pub enum AbilityTooltip {
    SmashOfDoom,
    SpinLeap,
    Firebomb,
    Whirlwind,
    Burst,
    PossessingArrow,
}

/// The tooltip title of an ability.
pub open spec fn spec_ability_title(t: AbilityTooltip) -> Seq<char> {
    match t {
        AbilityTooltip::SmashOfDoom => "Smash of Doom"@,
        AbilityTooltip::SpinLeap => "Spin Leap"@,
        AbilityTooltip::Firebomb => "Firebomb"@,
        AbilityTooltip::Whirlwind => "Whirlwind"@,
        AbilityTooltip::Burst => "Burst"@,
        AbilityTooltip::PossessingArrow => "Possessing Arrow"@,
    }
}

/// The tooltip description of an ability.
pub open spec fn spec_ability_description(t: AbilityTooltip) -> Seq<char> {
    match t {
        AbilityTooltip::SmashOfDoom => "\nAn AOE attack with knockback. \nLeaps to position of cursor."@,
        AbilityTooltip::SpinLeap => "\nA slashing running spin leap."@,
        AbilityTooltip::Firebomb => "\nWhirls a big fireball into the air. \nExplodes the ground and does\na big amount of damage"@,
        AbilityTooltip::Whirlwind => "\nMove forward while spinning with \n your sword."@,
        AbilityTooltip::Burst => "\nLaunches a burst of arrows at the top \nof a running leap."@,
        AbilityTooltip::PossessingArrow => "\nShoots a poisonous arrow.\nLets you control your target."@,
    }
}

impl AbilityTooltip {
    /// The tooltip's title.
    pub fn title(&self) -> (s: &'static str)
        ensures
            s@ == spec_ability_title(*self),
    {
        match self {
            AbilityTooltip::SmashOfDoom => "Smash of Doom",
            AbilityTooltip::SpinLeap => "Spin Leap",
            AbilityTooltip::Firebomb => "Firebomb",
            AbilityTooltip::Whirlwind => "Whirlwind",
            AbilityTooltip::Burst => "Burst",
            AbilityTooltip::PossessingArrow => "Possessing Arrow",
        }
    }

    /// The tooltip's description.
    pub fn description(&self) -> (s: &'static str)
        ensures
            s@ == spec_ability_description(*self),
    {
        match self {
            AbilityTooltip::SmashOfDoom => "\nAn AOE attack with knockback. \nLeaps to position of cursor.",
            AbilityTooltip::SpinLeap => "\nA slashing running spin leap.",
            AbilityTooltip::Firebomb => "\nWhirls a big fireball into the air. \nExplodes the ground and does\na big amount of damage",
            AbilityTooltip::Whirlwind => "\nMove forward while spinning with \n your sword.",
            AbilityTooltip::Burst => "\nLaunches a burst of arrows at the top \nof a running leap.",
            AbilityTooltip::PossessingArrow => "\nShoots a poisonous arrow.\nLets you control your target.",
        }
    }
}

/// The third ability's tooltip for a tool kind, where it has one.
pub open spec fn spec_ability_tooltip(kind: ToolKind) -> Option<AbilityTooltip> {
    match kind {
        ToolKind::Hammer => Some(AbilityTooltip::SmashOfDoom),
        ToolKind::Axe => Some(AbilityTooltip::SpinLeap),
        ToolKind::Staff => Some(AbilityTooltip::Firebomb),
        ToolKind::Sword => Some(AbilityTooltip::Whirlwind),
        ToolKind::Bow => Some(AbilityTooltip::Burst),
        ToolKind::Debug => Some(AbilityTooltip::PossessingArrow),
        _ => None,
    }
}

/// Where a slot's tooltip comes from.
#[derive(Clone, Copy, Debug, PartialEq, Eq, Structural)]
pub enum TooltipSource {
    /// The slot has no tooltip.
    Nothing,
    /// The name and description of the inventory item at this position, if
    /// there is one.
    Item(usize),
    /// The fixed tooltip of the wielded weapon's third ability.
    Ability(AbilityTooltip),
}

/// A slot's tooltip: an inventory item's own, or for the third-ability slot the
/// main-hand tool's ability tooltip.
pub open spec fn spec_tooltip_source(contents: Option<SlotContents>, mainhand: Option<Tool>) -> TooltipSource {
    match contents {
        Some(SlotContents::Inventory(i)) => TooltipSource::Item(i),
        Some(SlotContents::Ability3) => match mainhand {
            Some(tool) => match spec_ability_tooltip(tool.kind) {
                Some(t) => TooltipSource::Ability(t),
                None => TooltipSource::Nothing,
            },
            None => TooltipSource::Nothing,
        },
        None => TooltipSource::Nothing,
    }
}

/// Decides where a slot's tooltip comes from.
pub fn tooltip_source(contents: Option<SlotContents>, mainhand: Option<Tool>) -> (r: TooltipSource)
    ensures
        r == spec_tooltip_source(contents, mainhand),
        contents is None ==> r == TooltipSource::Nothing,
        forall|i: usize| contents == Some(SlotContents::Inventory(i)) ==> r == TooltipSource::Item(i),
        contents == Some(SlotContents::Ability3) && mainhand is None ==> r == TooltipSource::Nothing,
        mainhand matches Some(t) ==> (contents == Some(SlotContents::Ability3) ==> r == match spec_ability_tooltip(t.kind) {
            Some(a) => TooltipSource::Ability(a),
            None => TooltipSource::Nothing,
        }),
{
    match contents {
        Some(SlotContents::Inventory(i)) => TooltipSource::Item(i),
        Some(SlotContents::Ability3) => {
            let kind = match mainhand {
                Some(tool) => Some(tool.kind),
                None => None,
            };
            match kind {
                Some(ToolKind::Hammer) => TooltipSource::Ability(AbilityTooltip::SmashOfDoom),
                Some(ToolKind::Axe) => TooltipSource::Ability(AbilityTooltip::SpinLeap),
                Some(ToolKind::Staff) => TooltipSource::Ability(AbilityTooltip::Firebomb),
                Some(ToolKind::Sword) => TooltipSource::Ability(AbilityTooltip::Whirlwind),
                Some(ToolKind::Bow) => TooltipSource::Ability(AbilityTooltip::Burst),
                Some(ToolKind::Debug) => TooltipSource::Ability(AbilityTooltip::PossessingArrow),
                _ => TooltipSource::Nothing,
            }
        },
        None => TooltipSource::Nothing,
    }
}

/// A slot holding an inventory item shows that item's tooltip whatever is
/// wielded; an empty slot shows none; the third-ability slot shows the
/// main-hand tool's ability tooltip, and none when nothing is wielded or the
/// kind has no such tooltip.
pub proof fn lemma_tooltip_sources(i: usize, m: Option<Tool>, n: Option<Tool>)
    ensures
        spec_tooltip_source(Some(SlotContents::Inventory(i)), m) == TooltipSource::Item(i),
        spec_tooltip_source(Some(SlotContents::Inventory(i)), m) == spec_tooltip_source(
            Some(SlotContents::Inventory(i)),
            n,
        ),
        spec_tooltip_source(None, m) == TooltipSource::Nothing,
        spec_tooltip_source(Some(SlotContents::Ability3), None) == TooltipSource::Nothing,
        m matches Some(t) ==> spec_tooltip_source(Some(SlotContents::Ability3), m) == match spec_ability_tooltip(t.kind) {
            Some(a) => TooltipSource::Ability(a),
            None => TooltipSource::Nothing,
        },
        spec_ability_tooltip(ToolKind::Hammer) == Some(AbilityTooltip::SmashOfDoom),
        spec_ability_tooltip(ToolKind::Axe) == Some(AbilityTooltip::SpinLeap),
        spec_ability_tooltip(ToolKind::Staff) == Some(AbilityTooltip::Firebomb),
        spec_ability_tooltip(ToolKind::Sword) == Some(AbilityTooltip::Whirlwind),
        spec_ability_tooltip(ToolKind::Bow) == Some(AbilityTooltip::Burst),
        spec_ability_tooltip(ToolKind::Debug) == Some(AbilityTooltip::PossessingArrow),
        spec_ability_tooltip(ToolKind::Dagger) is None,
        spec_ability_tooltip(ToolKind::Sceptre) is None,
        spec_ability_tooltip(ToolKind::Shield) is None,
        spec_ability_tooltip(ToolKind::Unique) is None,
        spec_ability_tooltip(ToolKind::Farming) is None,
        spec_ability_tooltip(ToolKind::Empty) is None,
{
}

/// The slots are numbered one to ten from left to right, and numbering and
/// position undo each other.
pub proof fn lemma_slot_numbering(s: Slot, i: int)
    requires
        0 <= i < 10,
    ensures
        spec_slot_at(spec_slot_index(s)) == s,
        spec_slot_index(spec_slot_at(i)) == i,
        0 <= spec_slot_index(s) < 10,
        spec_slot_index(Slot::One) == 0,
        spec_slot_index(Slot::Two) == 1,
        spec_slot_index(Slot::Three) == 2,
        spec_slot_index(Slot::Four) == 3,
        spec_slot_index(Slot::Five) == 4,
        spec_slot_index(Slot::Six) == 5,
        spec_slot_index(Slot::Seven) == 6,
        spec_slot_index(Slot::Eight) == 7,
        spec_slot_index(Slot::Nine) == 8,
        spec_slot_index(Slot::Ten) == 9,
{
}

/// A key label is shown exactly when key labels are on and a key is bound;
/// slots one to five put it bottom-left and slots six to ten bottom-right.
pub proof fn lemma_shortcut_labels(slot: Slot, numbers: ShortcutNumbers, bound: bool)
    ensures
        spec_shortcut_label(slot, numbers, bound) is Some <==> (numbers == ShortcutNumbers::On
            && bound),
        numbers == ShortcutNumbers::On && bound && spec_slot_index(slot) < 5 ==> spec_shortcut_label(
            slot,
            numbers,
            bound,
        ) == Some(LabelCorner::BottomLeft),
        numbers == ShortcutNumbers::On && bound && spec_slot_index(slot) >= 5 ==> spec_shortcut_label(
            slot,
            numbers,
            bound,
        ) == Some(LabelCorner::BottomRight),
{
}

/// The corner of its shadow that a slot's key label sits in.
#[derive(Clone, Copy, Debug, PartialEq, Eq, Structural)]
pub enum LabelCorner {
    BottomLeft,
    BottomRight,
}

/// Slots one to five, left of the ability buttons, align their key label
/// left; slots six to ten align it right.
pub open spec fn spec_shortcut_corner(slot: Slot) -> LabelCorner {
    if spec_slot_index(slot) < 5 {
        LabelCorner::BottomLeft
    } else {
        LabelCorner::BottomRight
    }
}

/// Where a slot's key label sits: `None` when no label is shown, which is when
/// key labels are off or no key is bound to the slot.
pub open spec fn spec_shortcut_label(slot: Slot, numbers: ShortcutNumbers, bound: bool) -> Option<LabelCorner> {
    if numbers == ShortcutNumbers::On && bound {
        Some(spec_shortcut_corner(slot))
    } else {
        None
    }
}

/// Decides whether and where a slot's key label is shown.
pub fn shortcut_label(slot: Slot, numbers: ShortcutNumbers, bound: bool) -> (r: Option<LabelCorner>)
    ensures
        r == spec_shortcut_label(slot, numbers, bound),
        r is Some <==> (numbers == ShortcutNumbers::On && bound),
        r is Some && spec_slot_index(slot) < 5 ==> r == Some(LabelCorner::BottomLeft),
        r is Some && spec_slot_index(slot) >= 5 ==> r == Some(LabelCorner::BottomRight),
{
    match numbers {
        ShortcutNumbers::On => {
            if bound {
                if slot.index() < 5 {
                    Some(LabelCorner::BottomLeft)
                } else {
                    Some(LabelCorner::BottomRight)
                }
            } else {
                None
            }
        },
        ShortcutNumbers::Off => None,
    }
}

/// The twelve square cells of the skillbar.
#[derive(Clone, Copy, Debug, PartialEq, Eq, Structural)]
pub enum Cell {
    /// A hotbar slot.
    Slot(Slot),
    /// The primary ability button.
    Primary,
    /// The secondary ability button.
    Secondary,
}

/// The side of a cell, in pixels.
pub const CELL_SIZE: u32 = 40;

/// The gap between neighbouring cells, in pixels.
pub const CELL_GAP: u32 = 3;

/// The number of cells.
pub const CELL_COUNT: u32 = 12;

/// The height of the frame that holds the cells, in pixels.
pub const FRAME_HEIGHT: u32 = 80;

/// The frame's distance above the bottom of the window, in pixels.
pub const FRAME_BOTTOM_MARGIN: u32 = 10;

/// The frame that holds the skillbar's cells, centred at the bottom of the
/// window.
#[derive(Clone, Copy, Debug, PartialEq, Eq, Structural)]
pub struct FrameLayout {
    pub width: u32,
    pub height: u32,
    pub bottom_margin: u32,
}

/// The skillbar's frame: twelve cells and eleven gaps wide, 80 pixels high,
/// 10 pixels above the bottom of the window.
pub open spec fn spec_frame() -> FrameLayout {
    FrameLayout {
        width: (CELL_SIZE * CELL_COUNT + CELL_GAP * (CELL_COUNT - 1)) as u32,
        height: FRAME_HEIGHT,
        bottom_margin: FRAME_BOTTOM_MARGIN,
    }
}

/// The skillbar's frame.
pub fn frame() -> (f: FrameLayout)
    ensures
        f == spec_frame(),
        f.width == 513,
        f.height == 80,
        f.bottom_margin == 10,
{
    FrameLayout { width: frame_width(), height: FRAME_HEIGHT, bottom_margin: FRAME_BOTTOM_MARGIN }
}

/// The column of a cell: slots one to five, then the primary and secondary
/// ability buttons, then slots six to ten.
pub open spec fn spec_cell_column(cell: Cell) -> int {
    match cell {
        Cell::Slot(slot) => if spec_slot_index(slot) < 5 {
            spec_slot_index(slot)
        } else {
            spec_slot_index(slot) + 2
        },
        Cell::Primary => 5,
        Cell::Secondary => 6,
    }
}

/// The width of the frame that holds the cells: twelve cells and eleven gaps.
pub open spec fn spec_frame_width() -> int {
    CELL_SIZE * CELL_COUNT + CELL_GAP * (CELL_COUNT - 1)
}

/// The width of the frame that holds the cells.
pub fn frame_width() -> (w: u32)
    ensures
        w == spec_frame_width(),
{
    CELL_SIZE * CELL_COUNT + CELL_GAP * (CELL_COUNT - 1)
}

/// The distance of a cell's left edge from the frame's left edge.
pub open spec fn spec_cell_left(cell: Cell) -> int {
    spec_cell_column(cell) * (CELL_SIZE + CELL_GAP)
}

/// The distance of a cell's left edge from the frame's left edge, in pixels.
pub fn cell_left(cell: Cell) -> (x: u32)
    ensures
        x == spec_cell_left(cell),
{
    let column: u32 = match cell {
        Cell::Slot(slot) => {
            let i = slot.index() as u32;
            if i < 5 {
                i
            } else {
                i + 2
            }
        },
        Cell::Primary => 5,
        Cell::Secondary => 6,
    };
    column * (CELL_SIZE + CELL_GAP)
}

/// The cells fill the frame: each lies inside it, the first starts at its left
/// edge, the last ends at its right edge, and two different cells are at
/// least a cell and a gap apart, so none overlap.
pub proof fn lemma_cells_tile_frame(a: Cell, b: Cell)
    ensures
        0 <= spec_cell_left(a),
        spec_cell_left(a) + CELL_SIZE <= spec_frame_width(),
        spec_cell_left(Cell::Slot(Slot::One)) == 0,
        spec_cell_left(Cell::Slot(Slot::Ten)) + CELL_SIZE == spec_frame_width(),
        a != b ==> (spec_cell_left(a) + CELL_SIZE + CELL_GAP <= spec_cell_left(b) || spec_cell_left(
            b,
        ) + CELL_SIZE + CELL_GAP <= spec_cell_left(a)),
{
}

} // verus!
