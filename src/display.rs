use vstd::prelude::*;

use crate::value::NTValueType;

verus! {

pub open spec fn digit_char(d: nat) -> char {
    if d == 0 {
        '0'
    } else if d == 1 {
        '1'
    } else if d == 2 {
        '2'
    } else if d == 3 {
        '3'
    } else if d == 4 {
        '4'
    } else if d == 5 {
        '5'
    } else if d == 6 {
        '6'
    } else if d == 7 {
        '7'
    } else if d == 8 {
        '8'
    } else {
        '9'
    }
}

/// Decimal digits of `n`, most significant first, with no leading zero.
pub open spec fn decimal(n: nat) -> Seq<char>
    decreases n,
{
    if n < 10 {
        seq![digit_char(n)]
    } else {
        decimal(n / 10).push(digit_char(n % 10))
    }
}

/// Decimal text of an integer, with a leading `-` when it is negative.
pub open spec fn signed_text(i: int) -> Seq<char> {
    if i < 0 {
        seq!['-'] + decimal((-i) as nat)
    } else {
        decimal(i as nat)
    }
}

/// Whole minutes of `t` seconds, rounded toward zero.
pub open spec fn minutes_of(t: int) -> int {
    if t >= 0 {
        t / 60
    } else {
        -((-t) / 60)
    }
}

/// Seconds left over after `minutes_of(t)`; it has the sign of `t`.
pub open spec fn seconds_of(t: int) -> int {
    t - 60 * minutes_of(t)
}

/// `minutes:seconds`, neither padded.
pub open spec fn game_time_text(t: int) -> Seq<char> {
    signed_text(minutes_of(t)) + seq![':'] + signed_text(seconds_of(t))
}

fn digit_str(d: u32) -> (s: &'static str)
    requires
        d < 10,
    ensures
        s@ == seq![digit_char(d as nat)],
{
    proof {
        reveal_strlit("0");
        reveal_strlit("1");
        reveal_strlit("2");
        reveal_strlit("3");
        reveal_strlit("4");
        reveal_strlit("5");
        reveal_strlit("6");
        reveal_strlit("7");
        reveal_strlit("8");
        reveal_strlit("9");
    }
    if d == 0 {
        "0"
    } else if d == 1 {
        "1"
    } else if d == 2 {
        "2"
    } else if d == 3 {
        "3"
    } else if d == 4 {
        "4"
    } else if d == 5 {
        "5"
    } else if d == 6 {
        "6"
    } else if d == 7 {
        "7"
    } else if d == 8 {
        "8"
    } else {
        "9"
    }
}

fn push_decimal(out: &mut String, n: u32)
    ensures
        final(out)@ == old(out)@ + decimal(n as nat),
    decreases n,
{
    if n >= 10 {
        push_decimal(out, n / 10);
    }
    out.append(digit_str(n % 10));
    proof {
        if n < 10 {
            assert(decimal(n as nat) == seq![digit_char(n as nat)]);
        }
    }
    assert(out@ =~= old(out)@ + decimal(n as nat));
}

fn push_signed(out: &mut String, negative: bool, n: u32)
    ensures
        final(out)@ == old(out)@ + signed_text(if negative { -(n as int) } else { n as int }),
{
    if negative && n > 0 {
        proof {
            reveal_strlit("-");
        }
        out.append("-");
    }
    push_decimal(out, n);
    assert(out@ =~= old(out)@ + signed_text(if negative { -(n as int) } else { n as int }));
}

/// The game clock as `minutes:seconds` from whole seconds, or `--:--` when
/// there is no time. Division rounds toward zero, so a negative time shows a
/// `-` on each non-zero part.
pub fn format_game_time(time: Option<i32>) -> (r: String)
    ensures
        time matches Some(t) ==> r@ == game_time_text(t as int),
        time is None ==> r@ == seq!['-', '-', ':', '-', '-'],
{
    match time {
        Some(t) => {
            let negative = t < 0;
            let a: u32 = if negative {
                (-(t as i64)) as u32
            } else {
                t as u32
            };
            let mut out = String::new();
            push_signed(&mut out, negative, a / 60);
            proof {
                reveal_strlit(":");
            }
            out.append(":");
            push_signed(&mut out, negative, a % 60);
            assert(out@ =~= game_time_text(t as int));
            out
        },
        None => {
            proof {
                reveal_strlit("--:--");
            }
            String::from_str("--:--")
        },
    }
}

/// Hint shown for a robot state that has its bindings listed.
pub const BINDINGS_HINT: &'static str = "A: Do something | B: Do other thing | ...";

/// Hint shown when the robot state is missing or not one of the known states.
pub const UNKNOWN_STATE_HINT: &'static str = "Unknown state - bindings will appear here, like A: Intake | ...";

/// The robot states whose input bindings are listed.
pub open spec fn known_state(s: Seq<char>) -> bool {
    ||| s == "IdleToIntake"@
    ||| s == "IdleToShoot"@
    ||| s == "Intake"@
    ||| s == "Shooting"@
    ||| s == "Autodrive"@
    ||| s == "IdleDebug"@
    ||| s == "ManualIntake"@
}

fn is_known_state(s: &String) -> (r: bool)
    ensures
        r == known_state(s@),
{
    *s == String::from_str("IdleToIntake") || *s == String::from_str("IdleToShoot")
        || *s == String::from_str("Intake") || *s == String::from_str("Shooting")
        || *s == String::from_str("Autodrive") || *s == String::from_str("IdleDebug")
        || *s == String::from_str("ManualIntake")
}

/// The input-bindings hint for the current robot state, if there is one.
pub fn input_bindings_hint(state: Option<&String>) -> (r: String)
    ensures
        r@ == (if state matches Some(s) && known_state(s@) {
            BINDINGS_HINT@
        } else {
            UNKNOWN_STATE_HINT@
        }),
{
    let known = match state {
        Some(s) => is_known_state(s),
        None => false,
    };
    if known {
        String::from_str(BINDINGS_HINT)
    } else {
        String::from_str(UNKNOWN_STATE_HINT)
    }
}

/// The text of a string value, or `fallback` when the value is missing or
/// of another type.
pub open spec fn text_or(value: Option<&NTValueType>, fallback: Seq<char>) -> Seq<char> {
    match value {
        Some(NTValueType::String(s)) => s@,
        _ => fallback,
    }
}

/// The text of a string value, or `fallback` when the value is missing or
/// of another type.
pub fn selected_text(value: Option<&NTValueType>, fallback: &str) -> (r: String)
    ensures
        r@ == text_or(value, fallback@),
{
    match value {
        Some(NTValueType::String(s)) => s.clone(),
        _ => String::from_str(fallback),
    }
}

/// `Current State: ` followed by the robot state, or by `Unknown` when the
/// value is missing or not a string.
pub fn state_label(value: Option<&NTValueType>) -> (r: String)
    ensures
        r@ == "Current State: "@ + text_or(value, "Unknown"@),
{
    let mut out = String::from_str("Current State: ");
    match value {
        Some(NTValueType::String(s)) => out.append(s.as_str()),
        _ => out.append("Unknown"),
    }
    out
}

/// Whether the alliance flag reads red: only a boolean `true` does.
pub fn alliance_is_red(value: Option<&NTValueType>) -> (r: bool)
    ensures
        r == (value matches Some(NTValueType::Boolean(b)) && *b),
{
    match value {
        Some(NTValueType::Boolean(b)) => *b,
        _ => false,
    }
}

} // verus!
