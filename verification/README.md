# skillbar

The decisions of a game HUD's skillbar, verified with Verus: which health and
stamina bars it shows and in what colour, the numbers written on them, which
icons the two ability buttons show and whether the secondary one is usable,
each hotbar slot's tooltip and key label, the respawn prompt, and where the
twelve cells sit in their frame.

- `src/vitals.rs`: health and energy, bar visibility, health colour classes.
- `src/equipment.rs`: wielded tools, ability icons, which tool gives the secondary ability.
- `src/labels.rs`: bar labels and their decimal rendering.
- `src/hotbar.rs`: slots, tooltips, key labels, cell layout.
- `src/message.rs`: filling the key's name into the respawn prompt.
- `src/skillbar.rs`: `Skillbar::update`, everything the bar shows in one plan.
- `app/`: floating-point percentages, colours and the conrod widget ids.
