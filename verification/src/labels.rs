use vstd::prelude::*;
use vstd::string::*;
use crate::vitals::{Health, Energy};

verus! {

/// What numbers the HUD writes on its bars.
#[derive(Clone, Copy, Debug, PartialEq, Eq, Structural)]
pub enum BarNumbers {
    /// Current and maximum value, in tenths.
    Values,
    /// The percentage.
    Percent,
    /// No numbers.
    Off,
}

/// The text on a bar, before it is rendered.
#[derive(Clone, Copy, Debug, PartialEq, Eq, Structural)]
pub enum BarLabel {
    /// `shown/maximum`.
    Fraction { shown: u32, maximum: u32 },
    /// A number followed by a percent sign.
    PercentSign { percent: u32 },
    /// A bare number.
    Bare { value: u32 },
    /// The localised word for a dead character.
    Dead,
}

/// The decimal digit character for `d` (below ten).
pub open spec fn digit_char(d: nat) -> char {
    if d == 0 {
        '0'
    } else if d == 1 {
        '1'
    } else if d == 2 {
        '2'
    } else if d == 3 {
        '3'
    } else if d == 4 {
        '4'
    } else if d == 5 {
        '5'
    } else if d == 6 {
        '6'
    } else if d == 7 {
        '7'
    } else if d == 8 {
        '8'
    } else {
        '9'
    }
}

/// The decimal notation of `n`, without sign or leading zeros.
pub open spec fn decimal(n: nat) -> Seq<char>
    decreases n,
{
    if n < 10 {
        seq![digit_char(n)]
    } else {
        decimal(n / 10).push(digit_char(n % 10))
    }
}

/// The value of a decimal digit character.
pub open spec fn digit_value(c: char) -> int {
    (c as int) - ('0' as int)
}

/// Reads a sequence of decimal digits back as a number.
pub open spec fn decimal_value(s: Seq<char>) -> int
    decreases s.len(),
{
    if s.len() == 0 {
        0
    } else {
        decimal_value(s.drop_last()) * 10 + digit_value(s.last())
    }
}

/// Whether every character is a decimal digit.
pub open spec fn all_digits(s: Seq<char>) -> bool {
    forall|i: int| 0 <= i < s.len() ==> '0' <= #[trigger] s[i] <= '9'
}

proof fn lemma_digit_char(d: nat)
    requires
        d < 10,
    ensures
        '0' <= digit_char(d) <= '9',
        digit_value(digit_char(d)) == d,
{
}

/// The decimal notation of a number is a non-empty string of digits without a
/// leading zero (unless the number is zero), and reading it back gives the
/// number: the notation determines the number.
pub proof fn lemma_decimal_round_trip(n: nat)
    ensures
        decimal(n).len() >= 1,
        all_digits(decimal(n)),
        decimal(n).len() > 1 ==> decimal(n)[0] != '0',
        decimal_value(decimal(n)) == n,
    decreases n,
{
    if n < 10 {
        lemma_digit_char(n);
        assert(decimal(n).drop_last() =~= Seq::<char>::empty());
        assert(decimal_value(Seq::<char>::empty()) == 0);
    } else {
        lemma_decimal_round_trip(n / 10);
        lemma_digit_char(n % 10);
        let s = decimal(n);
        assert(s.drop_last() =~= decimal(n / 10));
        assert(s.last() == digit_char(n % 10));
        assert(decimal_value(s) == (n / 10) * 10 + (n % 10));
        assert(all_digits(s)) by {
            assert forall|i: int| 0 <= i < s.len() implies '0' <= #[trigger] s[i] <= '9' by {
                if i < s.len() - 1 {
                    assert(s[i] == decimal(n / 10)[i]);
                }
            }
        }
        if decimal(n / 10).len() == 1 {
            assert(n / 10 < 10) by {
                if n / 10 >= 10 {
                    lemma_decimal_round_trip(n / 100);
                }
            }
            assert(n / 10 != 0);
            assert(s[0] == digit_char(n / 10));
        }
    }
}

/// Two numbers with the same decimal notation are equal.
pub proof fn lemma_decimal_injective(a: nat, b: nat)
    requires
        decimal(a) == decimal(b),
    ensures
        a == b,
{
    lemma_decimal_round_trip(a);
    lemma_decimal_round_trip(b);
}

/// The one-character string of the digit `d`.
fn digit_str(d: u32) -> (s: &'static str)
    requires
        d < 10,
    ensures
        s@ == seq![digit_char(d as nat)],
{
    proof {
        reveal_strlit("0");
        reveal_strlit("1");
        reveal_strlit("2");
        reveal_strlit("3");
        reveal_strlit("4");
        reveal_strlit("5");
        reveal_strlit("6");
        reveal_strlit("7");
        reveal_strlit("8");
        reveal_strlit("9");
    }
    if d == 0 {
        "0"
    } else if d == 1 {
        "1"
    } else if d == 2 {
        "2"
    } else if d == 3 {
        "3"
    } else if d == 4 {
        "4"
    } else if d == 5 {
        "5"
    } else if d == 6 {
        "6"
    } else if d == 7 {
        "7"
    } else if d == 8 {
        "8"
    } else {
        "9"
    }
}

/// Appends the decimal notation of `n` to `out`.
pub fn push_decimal(out: &mut String, n: u32)
    ensures
        final(out)@ == old(out)@ + decimal(n as nat),
    decreases n,
{
    if n < 10 {
        out.append(digit_str(n));
    } else {
        push_decimal(out, n / 10);
        out.append(digit_str(n % 10));
        assert(decimal(n as nat) == decimal((n / 10) as nat).push(digit_char((n % 10) as nat)));
    }
}

/// The decimal notation of `n` as a string.
pub fn decimal_string(n: u32) -> (s: String)
    ensures
        s@ == decimal(n as nat),
{
    let mut s = String::new();
    push_decimal(&mut s, n);
    assert(s@ =~= decimal(n as nat));
    s
}

/// The rendered text of a label; `dead` is the text shown for a dead character.
pub open spec fn spec_label_text(label: BarLabel, dead: Seq<char>) -> Seq<char> {
    match label {
        BarLabel::Fraction { shown, maximum } => decimal(shown as nat) + seq!['/'] + decimal(
            maximum as nat,
        ),
        BarLabel::PercentSign { percent } => decimal(percent as nat) + seq!['%'],
        BarLabel::Bare { value } => decimal(value as nat),
        BarLabel::Dead => dead,
    }
}

impl BarLabel {
    /// Renders the label; `dead` is the localised text for a dead character.
    pub fn text(&self, dead: &str) -> (s: String)
        ensures
            s@ == spec_label_text(*self, dead@),
    {
        proof {
            reveal_strlit("/");
            reveal_strlit("%");
        }
        match *self {
            BarLabel::Fraction { shown, maximum } => {
                let mut s = String::new();
                push_decimal(&mut s, shown);
                s.append("/");
                push_decimal(&mut s, maximum);
                assert(s@ =~= decimal(shown as nat) + seq!['/'] + decimal(maximum as nat));
                s
            },
            BarLabel::PercentSign { percent } => {
                let mut s = String::new();
                push_decimal(&mut s, percent);
                s.append("%");
                assert(s@ =~= decimal(percent as nat) + seq!['%']);
                s
            },
            BarLabel::Bare { value } => decimal_string(value),
            BarLabel::Dead => {
                let mut s = String::new();
                s.append(dead);
                assert(s@ =~= dead@);
                s
            },
        }
    }
}

/// The health bar's label: values in tenths with the current value shown as at
/// least one, or the percentage with a percent sign; the dead text for a dead
/// character; nothing when numbers are off.
pub open spec fn spec_health_label(numbers: BarNumbers, health: Health, percent: u32) -> Option<
    BarLabel,
> {
    match numbers {
        BarNumbers::Values => if health.is_dead {
            Some(BarLabel::Dead)
        } else {
            Some(
                BarLabel::Fraction {
                    shown: if health.current / 10 >= 1 {
                        health.current / 10
                    } else {
                        1
                    },
                    maximum: health.maximum / 10,
                },
            )
        },
        BarNumbers::Percent => if health.is_dead {
            Some(BarLabel::Dead)
        } else {
            Some(BarLabel::PercentSign { percent })
        },
        BarNumbers::Off => None,
    }
}

/// Chooses the health bar's label.
pub fn health_label(numbers: BarNumbers, health: Health, percent: u32) -> (r: Option<BarLabel>)
    ensures
        r == spec_health_label(numbers, health, percent),
        numbers == BarNumbers::Off ==> r is None,
        numbers != BarNumbers::Off && health.is_dead ==> r == Some(BarLabel::Dead),
        numbers == BarNumbers::Values && !health.is_dead ==> r == Some(
            BarLabel::Fraction {
                shown: if health.current >= 10 {
                    health.current / 10
                } else {
                    1
                },
                maximum: health.maximum / 10,
            },
        ),
        numbers == BarNumbers::Percent && !health.is_dead ==> r == Some(
            BarLabel::PercentSign { percent },
        ),
{
    match numbers {
        BarNumbers::Values => {
            if health.is_dead {
                Some(BarLabel::Dead)
            } else {
                let tenths = health.current / 10;
                let shown = if tenths >= 1 {
                    tenths
                } else {
                    1
                };
                Some(BarLabel::Fraction { shown, maximum: health.maximum / 10 })
            }
        },
        BarNumbers::Percent => {
            if health.is_dead {
                Some(BarLabel::Dead)
            } else {
                Some(BarLabel::PercentSign { percent })
            }
        },
        BarNumbers::Off => None,
    }
}

/// The stamina bar's label: values in tenths, or the bare percentage (the
/// stamina percentage carries no percent sign); the dead text for a dead
/// character; nothing when numbers are off.
pub open spec fn spec_energy_label(numbers: BarNumbers, is_dead: bool, energy: Energy, percent: u32) -> Option<BarLabel> {
    match numbers {
        BarNumbers::Values => if is_dead {
            Some(BarLabel::Dead)
        } else {
            Some(BarLabel::Fraction { shown: energy.current / 10, maximum: energy.maximum / 10 })
        },
        BarNumbers::Percent => if is_dead {
            Some(BarLabel::Dead)
        } else {
            Some(BarLabel::Bare { value: percent })
        },
        BarNumbers::Off => None,
    }
}

/// Chooses the stamina bar's label.
pub fn energy_label(numbers: BarNumbers, is_dead: bool, energy: Energy, percent: u32) -> (r: Option<BarLabel>)
    ensures
        r == spec_energy_label(numbers, is_dead, energy, percent),
        numbers == BarNumbers::Off ==> r is None,
        numbers != BarNumbers::Off && is_dead ==> r == Some(BarLabel::Dead),
        numbers == BarNumbers::Values && !is_dead ==> r == Some(
            BarLabel::Fraction { shown: energy.current / 10, maximum: energy.maximum / 10 },
        ),
        numbers == BarNumbers::Percent && !is_dead ==> r == Some(BarLabel::Bare { value: percent }),
{
    match numbers {
        BarNumbers::Values => {
            if is_dead {
                Some(BarLabel::Dead)
            } else {
                Some(BarLabel::Fraction { shown: energy.current / 10, maximum: energy.maximum / 10 })
            }
        },
        BarNumbers::Percent => {
            if is_dead {
                Some(BarLabel::Dead)
            } else {
                Some(BarLabel::Bare { value: percent })
            }
        },
        BarNumbers::Off => None,
    }
}

/// How labels read: a fraction is the shown value's digits, one '/', then the
/// maximum's digits, and both numbers read back from the text; a percentage is
/// the number's digits followed by '%'; a bare value is just its digits; the
/// dead label is the given dead text.
pub proof fn lemma_label_text_reads_back(a: u32, b: u32, dead: Seq<char>)
    ensures
        ({
            let t = spec_label_text(BarLabel::Fraction { shown: a, maximum: b }, dead);
            let j = decimal(a as nat).len() as int;
            &&& 1 <= j < t.len()
            &&& t[j] == '/'
            &&& t.take(j) == decimal(a as nat)
            &&& t.skip(j + 1) == decimal(b as nat)
            &&& all_digits(t.take(j)) && decimal_value(t.take(j)) == a
            &&& all_digits(t.skip(j + 1)) && decimal_value(t.skip(j + 1)) == b
            &&& t.skip(j + 1).len() >= 1
        }),
        ({
            let t = spec_label_text(BarLabel::PercentSign { percent: a }, dead);
            &&& t.len() >= 2
            &&& t.last() == '%'
            &&& all_digits(t.drop_last()) && decimal_value(t.drop_last()) == a
        }),
        ({
            let t = spec_label_text(BarLabel::Bare { value: a }, dead);
            &&& t.len() >= 1
            &&& all_digits(t) && decimal_value(t) == a
        }),
        spec_label_text(BarLabel::Dead, dead) == dead,
{
    lemma_decimal_round_trip(a as nat);
    lemma_decimal_round_trip(b as nat);
    let da = decimal(a as nat);
    let db = decimal(b as nat);
    let t = spec_label_text(BarLabel::Fraction { shown: a, maximum: b }, dead);
    let j = da.len() as int;
    assert(t =~= da + seq!['/'] + db);
    assert(t.take(j) =~= da);
    assert(t.skip(j + 1) =~= db);
    let p = spec_label_text(BarLabel::PercentSign { percent: a }, dead);
    assert(p.drop_last() =~= da);
}

/// A living character's health label in values never shows zero health.
pub proof fn lemma_living_health_never_zero(health: Health, percent: u32)
    requires
        !health.is_dead,
    ensures
        spec_health_label(BarNumbers::Values, health, percent) matches Some(
            BarLabel::Fraction { shown, .. },
        ) && shown >= 1,
{
}

} // verus!
