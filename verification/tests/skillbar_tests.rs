use skillbar::equipment::{
    primary_icon, secondary_icon, secondary_tint, secondary_tool, EquipSlot, EquippedItem, Hands,
    IconTint, Loadout, SkillIcon, Tool, ToolKind,
};
use skillbar::hotbar::{
    cell_left, frame, frame_width, shortcut_label, tooltip_source, AbilityTooltip, Cell, Hotbar,
    LabelCorner, ShortcutNumbers, Slot, SlotContents, TooltipSource,
};
use skillbar::labels::{decimal_string, energy_label, health_label, BarLabel, BarNumbers};
use skillbar::message::respawn_prompt;
use skillbar::skillbar::Skillbar;
use skillbar::vitals::{
    health_color, saturate_u8, show_health_bar, show_stamina_bar, shown_percent,
    stamina_bar_offset, Energy, Health, HealthColor,
};

fn tool(kind: ToolKind, hands: Hands, cost: u32) -> Tool {
    Tool { kind, hands, secondary_energy_cost: cost }
}

fn health(current: u32, maximum: u32, is_dead: bool) -> Health {
    Health { current, maximum, is_dead }
}

#[test]
fn health_color_thresholds() {
    assert_eq!(health_color(0), HealthColor::Critical);
    assert_eq!(health_color(20), HealthColor::Critical);
    assert_eq!(health_color(21), HealthColor::Low);
    assert_eq!(health_color(40), HealthColor::Low);
    assert_eq!(health_color(41), HealthColor::Normal);
    assert_eq!(health_color(100), HealthColor::Normal);
    assert_eq!(health_color(255), HealthColor::Normal);
}

#[test]
fn health_color_never_worsens_with_more_health() {
    let rank = |c: HealthColor| match c {
        HealthColor::Critical => 2,
        HealthColor::Low => 1,
        HealthColor::Normal => 0,
    };
    for p in 0..255u8 {
        assert!(rank(health_color(p + 1)) <= rank(health_color(p)));
    }
}

#[test]
fn saturating_percent() {
    assert_eq!(saturate_u8(0), 0);
    assert_eq!(saturate_u8(100), 100);
    assert_eq!(saturate_u8(255), 255);
    assert_eq!(saturate_u8(256), 255);
    assert_eq!(saturate_u8(u32::MAX), 255);
}

#[test]
fn dead_percent_is_zero() {
    assert_eq!(shown_percent(73, false), 73);
    assert_eq!(shown_percent(73, true), 0);
}

#[test]
fn bars_hidden_when_full_or_dead() {
    assert!(show_health_bar(health(50, 100, false)));
    assert!(!show_health_bar(health(100, 100, false)));
    assert!(!show_health_bar(health(50, 100, true)));
    let e = Energy { current: 10, maximum: 100 };
    assert!(show_stamina_bar(health(100, 100, false), e));
    assert!(!show_stamina_bar(health(100, 100, true), e));
    assert!(!show_stamina_bar(health(1, 100, false), Energy { current: 100, maximum: 100 }));
    assert_eq!(stamina_bar_offset(true), 34);
    assert_eq!(stamina_bar_offset(false), 1);
}

#[test]
fn decimal_strings() {
    assert_eq!(decimal_string(0), "0");
    assert_eq!(decimal_string(7), "7");
    assert_eq!(decimal_string(10), "10");
    assert_eq!(decimal_string(1234567), "1234567");
    assert_eq!(decimal_string(u32::MAX), "4294967295");
}

#[test]
fn decimal_round_trip() {
    for n in [0u32, 1, 9, 10, 99, 100, 65535, 1000000007, u32::MAX] {
        let s = decimal_string(n);
        assert_eq!(s.parse::<u32>().unwrap(), n);
        assert!(s.len() == 1 || !s.starts_with('0'));
    }
}

#[test]
fn label_texts() {
    assert_eq!(BarLabel::Fraction { shown: 12, maximum: 25 }.text("Dead"), "12/25");
    assert_eq!(BarLabel::PercentSign { percent: 57 }.text("Dead"), "57%");
    assert_eq!(BarLabel::Bare { value: 57 }.text("Dead"), "57");
    assert_eq!(BarLabel::Dead.text("Tot"), "Tot");
}

#[test]
fn health_labels() {
    assert_eq!(
        health_label(BarNumbers::Values, health(123, 200, false), 61),
        Some(BarLabel::Fraction { shown: 12, maximum: 20 })
    );
    // A living character with less than ten health still shows one.
    assert_eq!(
        health_label(BarNumbers::Values, health(5, 200, false), 2),
        Some(BarLabel::Fraction { shown: 1, maximum: 20 })
    );
    assert_eq!(
        health_label(BarNumbers::Values, health(0, 200, true), 0),
        Some(BarLabel::Dead)
    );
    assert_eq!(
        health_label(BarNumbers::Percent, health(123, 200, false), 61),
        Some(BarLabel::PercentSign { percent: 61 })
    );
    assert_eq!(
        health_label(BarNumbers::Percent, health(0, 200, true), 0),
        Some(BarLabel::Dead)
    );
    assert_eq!(health_label(BarNumbers::Off, health(123, 200, false), 61), None);
}

#[test]
fn energy_labels() {
    let e = Energy { current: 5, maximum: 1000 };
    assert_eq!(
        energy_label(BarNumbers::Values, false, e, 0),
        Some(BarLabel::Fraction { shown: 0, maximum: 100 })
    );
    assert_eq!(energy_label(BarNumbers::Percent, false, e, 42), Some(BarLabel::Bare { value: 42 }));
    assert_eq!(energy_label(BarNumbers::Percent, true, e, 0), Some(BarLabel::Dead));
    assert_eq!(energy_label(BarNumbers::Off, false, e, 42), None);
}

#[test]
fn get_tool_ignores_other_items() {
    let sword = tool(ToolKind::Sword, Hands::TwoHand, 10);
    let loadout = Loadout { mainhand: Some(EquippedItem::Tool(sword)), offhand: Some(EquippedItem::Other) };
    assert_eq!(loadout.get_tool(EquipSlot::Mainhand), Some(sword));
    assert_eq!(loadout.get_tool(EquipSlot::Offhand), None);
    let empty = Loadout { mainhand: None, offhand: None };
    assert_eq!(empty.get_tool(EquipSlot::Mainhand), None);
}

#[test]
fn primary_icons() {
    let icon = |k| primary_icon(Some(tool(k, Hands::OneHand, 0)));
    assert_eq!(icon(ToolKind::Sword), SkillIcon::TwohSwordM1);
    assert_eq!(icon(ToolKind::Dagger), SkillIcon::OnehDaggerM1);
    assert_eq!(icon(ToolKind::Shield), SkillIcon::OnehShieldM1);
    assert_eq!(icon(ToolKind::Hammer), SkillIcon::TwohHammerM1);
    assert_eq!(icon(ToolKind::Axe), SkillIcon::TwohAxeM1);
    assert_eq!(icon(ToolKind::Bow), SkillIcon::BowM1);
    assert_eq!(icon(ToolKind::Sceptre), SkillIcon::Heal0);
    assert_eq!(icon(ToolKind::Staff), SkillIcon::Fireball);
    assert_eq!(icon(ToolKind::Debug), SkillIcon::FlyingRodM1);
    assert_eq!(icon(ToolKind::Farming), SkillIcon::Nothing);
    assert_eq!(icon(ToolKind::Empty), SkillIcon::Nothing);
    assert_eq!(primary_icon(None), SkillIcon::Nothing);
}

#[test]
fn secondary_icons() {
    let icon = |k| secondary_icon(Some(tool(k, Hands::OneHand, 0)));
    assert_eq!(icon(ToolKind::Sword), SkillIcon::TwohSwordM2);
    assert_eq!(icon(ToolKind::Dagger), SkillIcon::OnehDaggerM2);
    assert_eq!(icon(ToolKind::Shield), SkillIcon::OnehShieldM2);
    assert_eq!(icon(ToolKind::Hammer), SkillIcon::HammerGolf);
    assert_eq!(icon(ToolKind::Axe), SkillIcon::AxeSpin);
    assert_eq!(icon(ToolKind::Bow), SkillIcon::BowM2);
    assert_eq!(icon(ToolKind::Sceptre), SkillIcon::HealBomb);
    assert_eq!(icon(ToolKind::Staff), SkillIcon::Flamethrower);
    assert_eq!(icon(ToolKind::Debug), SkillIcon::FlyingRodM2);
    assert_eq!(icon(ToolKind::Unique), SkillIcon::Nothing);
    assert_eq!(secondary_icon(None), SkillIcon::Nothing);
}

#[test]
fn secondary_tool_choice() {
    let two_main = tool(ToolKind::Hammer, Hands::TwoHand, 1);
    let one_main = tool(ToolKind::Sword, Hands::OneHand, 2);
    let one_off = tool(ToolKind::Shield, Hands::OneHand, 3);
    let two_off = tool(ToolKind::Bow, Hands::TwoHand, 4);
    assert_eq!(secondary_tool(Some(two_main), Some(one_off)), Some(two_main));
    assert_eq!(secondary_tool(Some(one_main), Some(one_off)), Some(one_off));
    assert_eq!(secondary_tool(Some(one_main), Some(two_off)), Some(one_main));
    assert_eq!(secondary_tool(Some(one_main), None), Some(one_main));
    assert_eq!(secondary_tool(None, Some(one_off)), Some(one_off));
    // A two-handed tool in the off hand never provides the ability.
    assert_eq!(secondary_tool(None, Some(two_off)), None);
    assert_eq!(secondary_tool(None, None), None);
}

#[test]
fn secondary_tints() {
    let t = tool(ToolKind::Staff, Hands::TwoHand, 50);
    assert_eq!(secondary_tint(Some(t), 50), IconTint::Ready);
    assert_eq!(secondary_tint(Some(t), 51), IconTint::Ready);
    assert_eq!(secondary_tint(Some(t), 49), IconTint::Exhausted);
    assert_eq!(secondary_tint(None, 1000), IconTint::Hidden);
}

#[test]
fn tooltips() {
    let hammer = tool(ToolKind::Hammer, Hands::TwoHand, 0);
    assert_eq!(tooltip_source(Some(SlotContents::Inventory(4)), Some(hammer)), TooltipSource::Item(4));
    assert_eq!(
        tooltip_source(Some(SlotContents::Ability3), Some(hammer)),
        TooltipSource::Ability(AbilityTooltip::SmashOfDoom)
    );
    assert_eq!(
        tooltip_source(Some(SlotContents::Ability3), Some(tool(ToolKind::Dagger, Hands::OneHand, 0))),
        TooltipSource::Nothing
    );
    assert_eq!(tooltip_source(Some(SlotContents::Ability3), None), TooltipSource::Nothing);
    assert_eq!(tooltip_source(None, Some(hammer)), TooltipSource::Nothing);
    let kinds = [
        (ToolKind::Axe, AbilityTooltip::SpinLeap),
        (ToolKind::Staff, AbilityTooltip::Firebomb),
        (ToolKind::Sword, AbilityTooltip::Whirlwind),
        (ToolKind::Bow, AbilityTooltip::Burst),
        (ToolKind::Debug, AbilityTooltip::PossessingArrow),
    ];
    for (k, t) in kinds {
        assert_eq!(
            tooltip_source(Some(SlotContents::Ability3), Some(tool(k, Hands::TwoHand, 0))),
            TooltipSource::Ability(t)
        );
    }
}

#[test]
fn tooltip_texts() {
    assert_eq!(AbilityTooltip::SmashOfDoom.title(), "Smash of Doom");
    assert_eq!(
        AbilityTooltip::SmashOfDoom.description(),
        "\nAn AOE attack with knockback. \nLeaps to position of cursor."
    );
    assert_eq!(AbilityTooltip::SpinLeap.title(), "Spin Leap");
    assert_eq!(AbilityTooltip::SpinLeap.description(), "\nA slashing running spin leap.");
    assert_eq!(AbilityTooltip::Firebomb.title(), "Firebomb");
    assert_eq!(
        AbilityTooltip::Firebomb.description(),
        "\nWhirls a big fireball into the air. \nExplodes the ground and does\na big amount of damage"
    );
    assert_eq!(AbilityTooltip::Whirlwind.title(), "Whirlwind");
    assert_eq!(
        AbilityTooltip::Whirlwind.description(),
        "\nMove forward while spinning with \n your sword."
    );
    assert_eq!(AbilityTooltip::Burst.title(), "Burst");
    assert_eq!(
        AbilityTooltip::Burst.description(),
        "\nLaunches a burst of arrows at the top \nof a running leap."
    );
    assert_eq!(AbilityTooltip::PossessingArrow.title(), "Possessing Arrow");
    assert_eq!(
        AbilityTooltip::PossessingArrow.description(),
        "\nShoots a poisonous arrow.\nLets you control your target."
    );
}

#[test]
fn shortcut_labels() {
    assert_eq!(shortcut_label(Slot::One, ShortcutNumbers::On, true), Some(LabelCorner::BottomLeft));
    assert_eq!(shortcut_label(Slot::Five, ShortcutNumbers::On, true), Some(LabelCorner::BottomLeft));
    assert_eq!(shortcut_label(Slot::Six, ShortcutNumbers::On, true), Some(LabelCorner::BottomRight));
    assert_eq!(shortcut_label(Slot::Ten, ShortcutNumbers::On, true), Some(LabelCorner::BottomRight));
    assert_eq!(shortcut_label(Slot::Three, ShortcutNumbers::On, false), None);
    assert_eq!(shortcut_label(Slot::Three, ShortcutNumbers::Off, true), None);
}

#[test]
fn slot_indices() {
    let all = [
        Slot::One, Slot::Two, Slot::Three, Slot::Four, Slot::Five,
        Slot::Six, Slot::Seven, Slot::Eight, Slot::Nine, Slot::Ten,
    ];
    for (i, s) in all.iter().enumerate() {
        assert_eq!(s.index(), i);
        assert_eq!(Slot::from_index(i), *s);
    }
}

#[test]
fn cells_tile_the_frame() {
    assert_eq!(frame_width(), 513);
    assert_eq!(frame().height, 80);
    assert_eq!(frame().bottom_margin, 10);
    assert_eq!(cell_left(Cell::Slot(Slot::One)), 0);
    assert_eq!(cell_left(Cell::Slot(Slot::Two)), 43);
    assert_eq!(cell_left(Cell::Slot(Slot::Five)), 172);
    assert_eq!(cell_left(Cell::Primary), 215);
    assert_eq!(cell_left(Cell::Secondary), 258);
    assert_eq!(cell_left(Cell::Slot(Slot::Six)), 301);
    assert_eq!(cell_left(Cell::Slot(Slot::Ten)) + 40, frame_width());
}

#[test]
fn hotbar_get() {
    let mut slots = [None; 10];
    slots[2] = Some(SlotContents::Ability3);
    slots[9] = Some(SlotContents::Inventory(17));
    let hotbar = Hotbar { slots };
    assert_eq!(hotbar.get(Slot::Three), Some(SlotContents::Ability3));
    assert_eq!(hotbar.get(Slot::Ten), Some(SlotContents::Inventory(17)));
    assert_eq!(hotbar.get(Slot::One), None);
}

#[test]
fn respawn_prompts() {
    assert_eq!(respawn_prompt("Press {key} to respawn", "R"), "Press R to respawn");
    assert_eq!(respawn_prompt("{key}{key}", "Enter"), "EnterEnter");
    assert_eq!(respawn_prompt("no placeholder here", "R"), "no placeholder here");
    assert_eq!(respawn_prompt("{ke}y {key", "R"), "{ke}y {key");
    assert_eq!(respawn_prompt("{{key}}", "R"), "{R}");
    assert_eq!(respawn_prompt("Drücke {key} zum Wiederbeleben", "Ö"), "Drücke Ö zum Wiederbeleben");
    assert_eq!(respawn_prompt("", "R"), "");
    assert_eq!(respawn_prompt("{key}", ""), "");
    // Filling in the placeholder itself gives the template back.
    assert_eq!(respawn_prompt("a {key} b", "{key}"), "a {key} b");
    // A key that contains the placeholder is not filled again.
    assert_eq!(respawn_prompt("{key}!", "<{key}>"), "<{key}>!");
}

fn sample_bar(health: Health, energy: Energy, hp: u32, en: u32) -> Skillbar {
    let mut slots = [None; 10];
    slots[0] = Some(SlotContents::Inventory(3));
    slots[4] = Some(SlotContents::Ability3);
    let mut bound = [true; 10];
    bound[7] = false;
    Skillbar::new(
        health,
        energy,
        Loadout {
            mainhand: Some(EquippedItem::Tool(tool(ToolKind::Sword, Hands::OneHand, 20))),
            offhand: Some(EquippedItem::Tool(tool(ToolKind::Dagger, Hands::OneHand, 30))),
        },
        Hotbar { slots },
        BarNumbers::Values,
        ShortcutNumbers::On,
        true,
        bound,
        hp,
        en,
    )
}

#[test]
fn update_wounded_character() {
    let bar = sample_bar(health(150, 1000, false), Energy { current: 25, maximum: 100 }, 15, 25);
    let plan = bar.update();
    assert!(!plan.death_message);
    assert_eq!(plan.health_bar, Some(HealthColor::Critical));
    assert_eq!(plan.stamina_bar, Some(34));
    assert_eq!(plan.health_label, Some(BarLabel::Fraction { shown: 15, maximum: 100 }));
    assert_eq!(plan.energy_label, Some(BarLabel::Fraction { shown: 2, maximum: 10 }));
    assert_eq!(plan.primary_icon, SkillIcon::TwohSwordM1);
    // Two one-handed tools: the off-hand dagger provides the secondary ability.
    assert_eq!(plan.secondary_icon, SkillIcon::OnehDaggerM2);
    assert_eq!(plan.secondary_tint, IconTint::Exhausted);
    assert_eq!(plan.slots.len(), 10);
    assert_eq!(plan.slots[0].tooltip, TooltipSource::Item(3));
    assert_eq!(plan.slots[4].tooltip, TooltipSource::Ability(AbilityTooltip::Whirlwind));
    assert_eq!(plan.slots[1].tooltip, TooltipSource::Nothing);
    assert_eq!(plan.slots[0].key_label, Some(LabelCorner::BottomLeft));
    assert_eq!(plan.slots[9].key_label, Some(LabelCorner::BottomRight));
    assert_eq!(plan.slots[7].key_label, None);
    assert_eq!(plan.slots[6].slot, Slot::Seven);
}

#[test]
fn update_lays_out_frame_and_cells() {
    let bar = sample_bar(health(150, 1000, false), Energy { current: 25, maximum: 100 }, 15, 25);
    let plan = bar.update();
    assert_eq!(plan.frame.width, 513);
    assert_eq!(plan.frame.height, 80);
    assert_eq!(plan.frame.bottom_margin, 10);
    let lefts: Vec<u32> = plan.slots.iter().map(|s| s.left).collect();
    assert_eq!(lefts, vec![0, 43, 86, 129, 172, 301, 344, 387, 430, 473]);
    assert_eq!(plan.primary_left, 215);
    assert_eq!(plan.secondary_left, 258);
    assert_eq!(plan.slots[9].left + 40, plan.frame.width);
}

#[test]
fn update_full_vitals_shows_no_bars() {
    let bar = sample_bar(health(1000, 1000, false), Energy { current: 100, maximum: 100 }, 100, 100);
    let plan = bar.update();
    assert_eq!(plan.health_bar, None);
    assert_eq!(plan.stamina_bar, None);
    assert_eq!(plan.secondary_tint, IconTint::Ready);
    assert_eq!(plan.health_label, Some(BarLabel::Fraction { shown: 100, maximum: 100 }));
}

#[test]
fn update_stamina_alone_sits_low() {
    let bar = sample_bar(health(1000, 1000, false), Energy { current: 10, maximum: 100 }, 100, 10);
    let plan = bar.update();
    assert_eq!(plan.health_bar, None);
    assert_eq!(plan.stamina_bar, Some(1));
}

#[test]
fn update_dead_character() {
    let bar = sample_bar(health(0, 1000, true), Energy { current: 10, maximum: 100 }, 0, 10);
    let plan = bar.update();
    assert!(plan.death_message);
    assert_eq!(plan.health_bar, None);
    assert_eq!(plan.stamina_bar, None);
    assert_eq!(plan.health_label, Some(BarLabel::Dead));
    assert_eq!(plan.energy_label, Some(BarLabel::Dead));
    assert_eq!(plan.health_label.unwrap().text("Dead"), "Dead");
}

#[test]
fn update_percent_labels_and_colors() {
    let mut bar = sample_bar(health(350, 1000, false), Energy { current: 77, maximum: 100 }, 35, 77);
    bar.bar_numbers = BarNumbers::Percent;
    bar.shortcut_numbers = ShortcutNumbers::Off;
    let plan = bar.update();
    assert_eq!(plan.health_bar, Some(HealthColor::Low));
    assert_eq!(plan.health_label.unwrap().text("Dead"), "35%");
    assert_eq!(plan.energy_label.unwrap().text("Dead"), "77");
    assert!(plan.slots.iter().all(|s| s.key_label.is_none()));
    // Without bound respawn key a dead character sees no death message.
    let mut dead = sample_bar(health(0, 1000, true), Energy { current: 0, maximum: 100 }, 0, 0);
    dead.respawn_bound = false;
    assert!(!dead.update().death_message);
}
