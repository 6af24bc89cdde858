use vstd::prelude::*;

verus! {

/// A character's health as the skillbar reads it.
#[derive(Clone, Copy, Debug, PartialEq, Eq, Structural)]
pub struct Health {
    pub current: u32,
    pub maximum: u32,
    pub is_dead: bool,
}

/// A character's energy (stamina) as the skillbar reads it.
#[derive(Clone, Copy, Debug, PartialEq, Eq, Structural)]
pub struct Energy {
    pub current: u32,
    pub maximum: u32,
}

/// The colour class of the health bar's filling.
#[derive(Clone, Copy, Debug, PartialEq, Eq, Structural)]
pub enum HealthColor {
    /// Twenty percent or less: the pulsing critical colour.
    Critical,
    /// Twenty-one to forty percent.
    Low,
    /// Above forty percent.
    Normal,
}

/// The colour class for a health percentage (already truncated to `u8`).
pub open spec fn spec_health_color(percent: u8) -> HealthColor {
    if percent <= 20 {
        HealthColor::Critical
    } else if percent <= 40 {
        HealthColor::Low
    } else {
        HealthColor::Normal
    }
}

/// How alarming a colour class is: higher is worse.
pub open spec fn severity(color: HealthColor) -> int {
    match color {
        HealthColor::Critical => 2,
        HealthColor::Low => 1,
        HealthColor::Normal => 0,
    }
}

/// Picks the health bar's colour class from the health percentage.
pub fn health_color(percent: u8) -> (color: HealthColor)
    ensures
        color == spec_health_color(percent),
        percent <= 20 ==> color == HealthColor::Critical,
        21 <= percent <= 40 ==> color == HealthColor::Low,
        percent > 40 ==> color == HealthColor::Normal,
{
    if percent <= 20 {
        HealthColor::Critical
    } else if percent <= 40 {
        HealthColor::Low
    } else {
        HealthColor::Normal
    }
}

/// More health never makes the bar's colour more alarming.
pub proof fn lemma_health_color_monotone(low: u8, high: u8)
    requires
        low <= high,
    ensures
        severity(spec_health_color(high)) <= severity(spec_health_color(low)),
{
}

/// The colour classes: twenty percent or less is critical, twenty-one to
/// forty is low, above forty is normal.
pub proof fn lemma_health_color_classes(percent: u8)
    ensures
        percent <= 20 <==> spec_health_color(percent) == HealthColor::Critical,
        (21 <= percent && percent <= 40) <==> spec_health_color(percent) == HealthColor::Low,
        percent > 40 <==> spec_health_color(percent) == HealthColor::Normal,
{
}

/// Which bars are drawn: a dead character sees neither bar; a living one sees
/// the health bar exactly when health is not full and the stamina bar exactly
/// when energy is not full, whatever the current values are, so drained
/// energy or health still shows its bar when the maximum is positive.
pub proof fn lemma_bars_shown(health: Health, energy: Energy)
    ensures
        health.is_dead ==> !spec_show_health_bar(health) && !spec_show_stamina_bar(health, energy),
        !health.is_dead ==> (spec_show_health_bar(health) <==> health.current != health.maximum),
        !health.is_dead ==> (spec_show_stamina_bar(health, energy) <==> energy.current
            != energy.maximum),
        !health.is_dead && energy.current == 0 && energy.maximum > 0 ==> spec_show_stamina_bar(
            health,
            energy,
        ),
        !health.is_dead && health.current == 0 && health.maximum > 0 ==> spec_show_health_bar(
            health,
        ),
{
}

/// The stamina bar sits 34 pixels above the frame when the health bar is
/// shown and 1 pixel above it when not; a dead character's percentages are
/// zero and a living one's are as given; the `u8` narrowing keeps values up
/// to 255 and caps larger ones at 255.
pub proof fn lemma_small_vitals_rules(raw: u32, is_dead: bool)
    ensures
        spec_stamina_bar_offset(true) == 34,
        spec_stamina_bar_offset(false) == 1,
        is_dead ==> spec_shown_percent(raw, is_dead) == 0,
        !is_dead ==> spec_shown_percent(raw, is_dead) == raw,
        raw <= 255 ==> spec_saturate_u8(raw) == raw,
        raw > 255 ==> spec_saturate_u8(raw) == 255,
{
}

/// Narrows a percentage to `u8` the way a saturating numeric cast does.
pub open spec fn spec_saturate_u8(percent: u32) -> u8 {
    if percent > 255 {
        255u8
    } else {
        percent as u8
    }
}

/// Narrows a truncated percentage to `u8`, saturating at 255.
///
/// The skillbar truncates the same floating-point percentage once to `u32`
/// (for its label) and once to `u8` (for the colour); both truncations
/// saturate, so the `u8` one is the `u32` one capped at 255.
pub fn saturate_u8(percent: u32) -> (r: u8)
    ensures
        r == spec_saturate_u8(percent),
        r <= percent,
        percent <= 255 ==> r == percent,
        percent > 255 ==> r == 255,
{
    if percent > 255 {
        255
    } else {
        percent as u8
    }
}

/// The percentage the skillbar works with: zero for a dead character.
pub open spec fn spec_shown_percent(raw_percent: u32, is_dead: bool) -> u32 {
    if is_dead {
        0
    } else {
        raw_percent
    }
}

/// Zeroes a percentage when the character is dead.
pub fn shown_percent(raw_percent: u32, is_dead: bool) -> (r: u32)
    ensures
        r == spec_shown_percent(raw_percent, is_dead),
        is_dead ==> r == 0,
        !is_dead ==> r == raw_percent,
{
    if is_dead {
        0
    } else {
        raw_percent
    }
}

/// The health bar is drawn when health is not full and the character lives.
pub open spec fn spec_show_health_bar(health: Health) -> bool {
    health.current != health.maximum && !health.is_dead
}

/// Decides whether the health bar is drawn.
pub fn show_health_bar(health: Health) -> (r: bool)
    ensures
        r == spec_show_health_bar(health),
        health.is_dead ==> !r,
        !health.is_dead ==> (r <==> health.current != health.maximum),
{
    health.current != health.maximum && !health.is_dead
}

/// The stamina bar is drawn when energy is not full and the character lives.
pub open spec fn spec_show_stamina_bar(health: Health, energy: Energy) -> bool {
    energy.current != energy.maximum && !health.is_dead
}

/// Decides whether the stamina bar is drawn.
pub fn show_stamina_bar(health: Health, energy: Energy) -> (r: bool)
    ensures
        r == spec_show_stamina_bar(health, energy),
        health.is_dead ==> !r,
        !health.is_dead ==> (r <==> energy.current != energy.maximum),
{
    energy.current != energy.maximum && !health.is_dead
}

/// How far (in pixels) above the slot frame the stamina bar sits: it moves up
/// to make room when the health bar is shown.
pub open spec fn spec_stamina_bar_offset(health_bar_shown: bool) -> u32 {
    if health_bar_shown {
        34
    } else {
        1
    }
}

/// The stamina bar's distance above the slot frame.
pub fn stamina_bar_offset(health_bar_shown: bool) -> (r: u32)
    ensures
        r == spec_stamina_bar_offset(health_bar_shown),
        health_bar_shown ==> r == 34,
        !health_bar_shown ==> r == 1,
{
    if health_bar_shown {
        34
    } else {
        1
    }
}

} // verus!
