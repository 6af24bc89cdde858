use vstd::prelude::*;

verus! {

/// The kinds of tool a character can wield.
#[derive(Clone, Copy, Debug, PartialEq, Eq, Structural)]
pub enum ToolKind {
    Sword,
    Axe,
    Hammer,
    Bow,
    Dagger,
    Staff,
    Sceptre,
    Shield,
    Unique,
    Debug,
    Farming,
    Empty,
}

/// How many hands a tool takes.
#[derive(Clone, Copy, Debug, PartialEq, Eq, Structural)]
pub enum Hands {
    OneHand,
    TwoHand,
}

/// What the skillbar reads of a wielded tool: its kind, its handedness and
/// the energy that its secondary ability costs.
#[derive(Clone, Copy, Debug, PartialEq, Eq, Structural)]
pub struct Tool {
    pub kind: ToolKind,
    pub hands: Hands,
    pub secondary_energy_cost: u32,
}

/// What occupies an equipment slot: a tool, or an item of another kind.
#[derive(Clone, Copy, Debug, PartialEq, Eq, Structural)]
pub enum EquippedItem {
    Tool(Tool),
    Other,
}

/// The equipment slots that hold weapons.
#[derive(Clone, Copy, Debug, PartialEq, Eq, Structural)]
pub enum EquipSlot {
    Mainhand,
    Offhand,
}

/// The items in a character's weapon slots.
#[derive(Clone, Copy, Debug, PartialEq, Eq, Structural)]
pub struct Loadout {
    pub mainhand: Option<EquippedItem>,
    pub offhand: Option<EquippedItem>,
}

/// The icons that the two ability buttons can show.
#[derive(Clone, Copy, Debug, PartialEq, Eq, Structural)]
pub enum SkillIcon {
    TwohSwordM1,
    OnehDaggerM1,
    OnehShieldM1,
    TwohHammerM1,
    TwohAxeM1,
    BowM1,
    Heal0,
    Fireball,
    FlyingRodM1,
    TwohSwordM2,
    OnehDaggerM2,
    OnehShieldM2,
    HammerGolf,
    AxeSpin,
    BowM2,
    HealBomb,
    Flamethrower,
    FlyingRodM2,
    Nothing,
}

/// How the secondary ability's icon is tinted.
#[derive(Clone, Copy, Debug, PartialEq, Eq, Structural)]
pub enum IconTint {
    /// Full colour: the ability can be used now.
    Ready,
    /// Greyed out: not enough energy for the ability.
    Exhausted,
    /// Fully transparent: there is no tool to take the ability from.
    Hidden,
}

/// The tool in an equipment slot, if that slot holds a tool.
pub open spec fn spec_get_tool(loadout: Loadout, slot: EquipSlot) -> Option<Tool> {
    let item = match slot {
        EquipSlot::Mainhand => loadout.mainhand,
        EquipSlot::Offhand => loadout.offhand,
    };
    match item {
        Some(EquippedItem::Tool(tool)) => Some(tool),
        _ => None,
    }
}

impl Loadout {
    /// The tool held in `slot`, or `None` when the slot is empty or holds
    /// something that is not a tool.
    pub fn get_tool(&self, slot: EquipSlot) -> (r: Option<Tool>)
        ensures
            r == spec_get_tool(*self, slot),
            slot == EquipSlot::Mainhand ==> forall|t: Tool|
                (r == Some(t) <==> self.mainhand == Some(EquippedItem::Tool(t))),
            slot == EquipSlot::Offhand ==> forall|t: Tool|
                (r == Some(t) <==> self.offhand == Some(EquippedItem::Tool(t))),
    {
        let item = match slot {
            EquipSlot::Mainhand => self.mainhand,
            EquipSlot::Offhand => self.offhand,
        };
        match item {
            Some(EquippedItem::Tool(tool)) => Some(tool),
            _ => None,
        }
    }
}

/// The icon of the primary ability for a tool kind.
pub open spec fn spec_primary_icon_of(kind: ToolKind) -> SkillIcon {
    match kind {
        ToolKind::Sword => SkillIcon::TwohSwordM1,
        ToolKind::Dagger => SkillIcon::OnehDaggerM1,
        ToolKind::Shield => SkillIcon::OnehShieldM1,
        ToolKind::Hammer => SkillIcon::TwohHammerM1,
        ToolKind::Axe => SkillIcon::TwohAxeM1,
        ToolKind::Bow => SkillIcon::BowM1,
        ToolKind::Sceptre => SkillIcon::Heal0,
        ToolKind::Staff => SkillIcon::Fireball,
        ToolKind::Debug => SkillIcon::FlyingRodM1,
        _ => SkillIcon::Nothing,
    }
}

/// The primary ability's icon: that of the main-hand tool, or none.
pub open spec fn spec_primary_icon(mainhand: Option<Tool>) -> SkillIcon {
    match mainhand {
        Some(tool) => spec_primary_icon_of(tool.kind),
        None => SkillIcon::Nothing,
    }
}

/// Picks the primary ability's icon from the main-hand tool.
pub fn primary_icon(mainhand: Option<Tool>) -> (icon: SkillIcon)
    ensures
        icon == spec_primary_icon(mainhand),
        mainhand is None ==> icon == SkillIcon::Nothing,
        mainhand matches Some(t) ==> icon == spec_primary_icon_of(t.kind),
{
    match mainhand {
        Some(tool) => match tool.kind {
            ToolKind::Sword => SkillIcon::TwohSwordM1,
            ToolKind::Dagger => SkillIcon::OnehDaggerM1,
            ToolKind::Shield => SkillIcon::OnehShieldM1,
            ToolKind::Hammer => SkillIcon::TwohHammerM1,
            ToolKind::Axe => SkillIcon::TwohAxeM1,
            ToolKind::Bow => SkillIcon::BowM1,
            ToolKind::Sceptre => SkillIcon::Heal0,
            ToolKind::Staff => SkillIcon::Fireball,
            ToolKind::Debug => SkillIcon::FlyingRodM1,
            _ => SkillIcon::Nothing,
        },
        None => SkillIcon::Nothing,
    }
}

/// The primary ability's icon depends on the main-hand tool's kind alone:
/// neither its handedness nor its ability cost changes it; an empty main hand
/// shows nothing; and each kind's icon is that kind's primary-ability image.
pub proof fn lemma_primary_icon_by_kind(t: Tool, u: Tool)
    ensures
        t.kind == u.kind ==> spec_primary_icon(Some(t)) == spec_primary_icon(Some(u)),
        spec_primary_icon(Some(t)) == spec_primary_icon_of(t.kind),
        spec_primary_icon(None) == SkillIcon::Nothing,
        spec_primary_icon_of(ToolKind::Sword) == SkillIcon::TwohSwordM1,
        spec_primary_icon_of(ToolKind::Dagger) == SkillIcon::OnehDaggerM1,
        spec_primary_icon_of(ToolKind::Shield) == SkillIcon::OnehShieldM1,
        spec_primary_icon_of(ToolKind::Hammer) == SkillIcon::TwohHammerM1,
        spec_primary_icon_of(ToolKind::Axe) == SkillIcon::TwohAxeM1,
        spec_primary_icon_of(ToolKind::Bow) == SkillIcon::BowM1,
        spec_primary_icon_of(ToolKind::Sceptre) == SkillIcon::Heal0,
        spec_primary_icon_of(ToolKind::Staff) == SkillIcon::Fireball,
        spec_primary_icon_of(ToolKind::Debug) == SkillIcon::FlyingRodM1,
        spec_primary_icon_of(ToolKind::Unique) == SkillIcon::Nothing,
        spec_primary_icon_of(ToolKind::Farming) == SkillIcon::Nothing,
        spec_primary_icon_of(ToolKind::Empty) == SkillIcon::Nothing,
{
}

/// The tool whose secondary ability the second button offers: a two-handed
/// main-hand tool; else a one-handed off-hand tool; else a one-handed
/// main-hand tool; else none.
pub open spec fn spec_secondary_tool(active: Option<Tool>, second: Option<Tool>) -> Option<Tool> {
    if active matches Some(a) && a.hands == Hands::TwoHand {
        active
    } else if second matches Some(s) && s.hands == Hands::OneHand {
        second
    } else if active matches Some(a) && a.hands == Hands::OneHand {
        active
    } else {
        None
    }
}

/// Chooses which wielded tool provides the secondary ability.
pub fn secondary_tool(active: Option<Tool>, second: Option<Tool>) -> (r: Option<Tool>)
    ensures
        r == spec_secondary_tool(active, second),
        active matches Some(a) && a.hands == Hands::TwoHand ==> r == active,
        !(active matches Some(a) && a.hands == Hands::TwoHand) && (second matches Some(s)
            && s.hands == Hands::OneHand) ==> r == second,
        active matches Some(a) && a.hands == Hands::OneHand && !(second matches Some(s) && s.hands
            == Hands::OneHand) ==> r == active,
        active is None && !(second matches Some(s) && s.hands == Hands::OneHand) ==> r is None,
{
    let active_hands = match active {
        Some(tool) => Some(tool.hands),
        None => None,
    };
    let second_hands = match second {
        Some(tool) => Some(tool.hands),
        None => None,
    };
    match (active_hands, second_hands) {
        (Some(Hands::TwoHand), _) => active,
        (_, Some(Hands::OneHand)) => second,
        (Some(Hands::OneHand), _) => active,
        (_, _) => None,
    }
}

/// The secondary ability comes from one of the two wielded tools, never from
/// a two-handed off-hand tool, and a two-handed main-hand tool always
/// provides it.
pub proof fn lemma_secondary_tool_choice(active: Option<Tool>, second: Option<Tool>)
    ensures
        spec_secondary_tool(active, second) == active || spec_secondary_tool(active, second)
            == second || spec_secondary_tool(active, second) is None,
        (active matches Some(a) && a.hands == Hands::TwoHand) ==> spec_secondary_tool(
            active,
            second,
        ) == active,
        spec_secondary_tool(active, second) matches Some(t) ==> (t.hands == Hands::TwoHand
            ==> active == Some(t)),
        spec_secondary_tool(active, second) is None <==> (active is None && !(second matches Some(
            s,
        ) && s.hands == Hands::OneHand)),
{
}

/// The icon of the secondary ability for a tool kind.
pub open spec fn spec_secondary_icon_of(kind: ToolKind) -> SkillIcon {
    match kind {
        ToolKind::Sword => SkillIcon::TwohSwordM2,
        ToolKind::Dagger => SkillIcon::OnehDaggerM2,
        ToolKind::Shield => SkillIcon::OnehShieldM2,
        ToolKind::Hammer => SkillIcon::HammerGolf,
        ToolKind::Axe => SkillIcon::AxeSpin,
        ToolKind::Bow => SkillIcon::BowM2,
        ToolKind::Sceptre => SkillIcon::HealBomb,
        ToolKind::Staff => SkillIcon::Flamethrower,
        ToolKind::Debug => SkillIcon::FlyingRodM2,
        _ => SkillIcon::Nothing,
    }
}

/// The secondary ability's icon: that of the chosen tool, or none.
pub open spec fn spec_secondary_icon(tool: Option<Tool>) -> SkillIcon {
    match tool {
        Some(t) => spec_secondary_icon_of(t.kind),
        None => SkillIcon::Nothing,
    }
}

/// Picks the secondary ability's icon from the chosen tool.
pub fn secondary_icon(tool: Option<Tool>) -> (icon: SkillIcon)
    ensures
        icon == spec_secondary_icon(tool),
        tool is None ==> icon == SkillIcon::Nothing,
        tool matches Some(t) ==> icon == spec_secondary_icon_of(t.kind),
{
    let kind = match tool {
        Some(t) => Some(t.kind),
        None => None,
    };
    match kind {
        Some(ToolKind::Sword) => SkillIcon::TwohSwordM2,
        Some(ToolKind::Dagger) => SkillIcon::OnehDaggerM2,
        Some(ToolKind::Shield) => SkillIcon::OnehShieldM2,
        Some(ToolKind::Hammer) => SkillIcon::HammerGolf,
        Some(ToolKind::Axe) => SkillIcon::AxeSpin,
        Some(ToolKind::Bow) => SkillIcon::BowM2,
        Some(ToolKind::Sceptre) => SkillIcon::HealBomb,
        Some(ToolKind::Staff) => SkillIcon::Flamethrower,
        Some(ToolKind::Debug) => SkillIcon::FlyingRodM2,
        _ => SkillIcon::Nothing,
    }
}

/// The secondary ability's icon depends on the chosen tool's kind alone, and
/// each kind's icon is that kind's secondary-ability image.
pub proof fn lemma_secondary_icon_by_kind(t: Tool, u: Tool)
    ensures
        t.kind == u.kind ==> spec_secondary_icon(Some(t)) == spec_secondary_icon(Some(u)),
        spec_secondary_icon(Some(t)) == spec_secondary_icon_of(t.kind),
        spec_secondary_icon(None) == SkillIcon::Nothing,
        spec_secondary_icon_of(ToolKind::Sword) == SkillIcon::TwohSwordM2,
        spec_secondary_icon_of(ToolKind::Dagger) == SkillIcon::OnehDaggerM2,
        spec_secondary_icon_of(ToolKind::Shield) == SkillIcon::OnehShieldM2,
        spec_secondary_icon_of(ToolKind::Hammer) == SkillIcon::HammerGolf,
        spec_secondary_icon_of(ToolKind::Axe) == SkillIcon::AxeSpin,
        spec_secondary_icon_of(ToolKind::Bow) == SkillIcon::BowM2,
        spec_secondary_icon_of(ToolKind::Sceptre) == SkillIcon::HealBomb,
        spec_secondary_icon_of(ToolKind::Staff) == SkillIcon::Flamethrower,
        spec_secondary_icon_of(ToolKind::Debug) == SkillIcon::FlyingRodM2,
        spec_secondary_icon_of(ToolKind::Unique) == SkillIcon::Nothing,
        spec_secondary_icon_of(ToolKind::Farming) == SkillIcon::Nothing,
        spec_secondary_icon_of(ToolKind::Empty) == SkillIcon::Nothing,
{
}

/// The secondary icon is hidden exactly without a tool; with one it is ready
/// exactly when the energy covers the ability's cost, whatever the tool's
/// kind or handedness.
pub proof fn lemma_secondary_tint_rule(tool: Option<Tool>, energy: u32)
    ensures
        tool is None <==> spec_secondary_tint(tool, energy) == IconTint::Hidden,
        tool matches Some(t) ==> (spec_secondary_tint(tool, energy) == IconTint::Ready <==> energy
            >= t.secondary_energy_cost),
        tool matches Some(t) ==> (spec_secondary_tint(tool, energy) == IconTint::Exhausted
            <==> energy < t.secondary_energy_cost),
{
}

/// The secondary icon's tint: hidden without a tool, otherwise ready when the
/// character's energy covers the ability's cost and greyed out when not.
pub open spec fn spec_secondary_tint(tool: Option<Tool>, energy: u32) -> IconTint {
    match tool {
        Some(t) => if energy >= t.secondary_energy_cost {
            IconTint::Ready
        } else {
            IconTint::Exhausted
        },
        None => IconTint::Hidden,
    }
}

/// Tints the secondary ability's icon.
pub fn secondary_tint(tool: Option<Tool>, energy: u32) -> (tint: IconTint)
    ensures
        tint == spec_secondary_tint(tool, energy),
        tool is None <==> tint == IconTint::Hidden,
        tool matches Some(t) ==> (tint == IconTint::Ready <==> energy >= t.secondary_energy_cost),
        tool matches Some(t) ==> (tint == IconTint::Exhausted <==> energy
            < t.secondary_energy_cost),
{
    match tool {
        Some(t) => {
            if energy >= t.secondary_energy_cost {
                IconTint::Ready
            } else {
                IconTint::Exhausted
            }
        },
        None => IconTint::Hidden,
    }
}

/// Gaining energy never greys out a secondary ability that was usable.
pub proof fn lemma_secondary_tint_monotone(tool: Option<Tool>, low: u32, high: u32)
    requires
        low <= high,
        spec_secondary_tint(tool, low) == IconTint::Ready,
    ensures
        spec_secondary_tint(tool, high) == IconTint::Ready,
{
}

} // verus!
