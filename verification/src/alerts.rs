use vstd::prelude::*;
use vstd::string::StringExecFns;

verus! {

/// A short text message destined for external notification delivery.
/// Alerts are ephemeral: produced by the classifier, handed straight to
/// the dispatcher, never stored.
#[derive(Debug, Clone)]
pub struct Alert {
    pub text: String,
}

/// The single decimal digit `d` as text.
pub open spec fn digit_text(d: int) -> Seq<char> {
    if d == 0 {
        "0"@
    } else if d == 1 {
        "1"@
    } else if d == 2 {
        "2"@
    } else if d == 3 {
        "3"@
    } else if d == 4 {
        "4"@
    } else if d == 5 {
        "5"@
    } else if d == 6 {
        "6"@
    } else if d == 7 {
        "7"@
    } else if d == 8 {
        "8"@
    } else {
        "9"@
    }
}

/// The decimal digits of `n`, most significant first.
pub open spec fn dec_digits(n: nat) -> Seq<char>
    decreases n,
{
    if n < 10 {
        digit_text(n as int)
    } else {
        dec_digits(n / 10) + digit_text((n % 10) as int)
    }
}

/// Hull health in basis points rendered as a percentage: the whole
/// percent, then up to two fractional digits with trailing zeros dropped.
pub open spec fn percent_text(bp: nat) -> Seq<char> {
    let whole = bp / 100;
    let frac = bp % 100;
    if frac == 0 {
        dec_digits(whole)
    } else if frac % 10 == 0 {
        dec_digits(whole) + "."@ + dec_digits(frac / 10)
    } else if frac < 10 {
        dec_digits(whole) + "."@ + "0"@ + dec_digits(frac)
    } else {
        dec_digits(whole) + "."@ + dec_digits(frac)
    }
}

pub open spec fn shields_down_text() -> Seq<char> {
    "Shields are down"@
}

pub open spec fn hull_damage_text(bp: nat) -> Seq<char> {
    "Taking damage: Hull at "@ + percent_text(bp) + "%"@
}

pub open spec fn fighter_destroyed_text() -> Seq<char> {
    "Fighter destroyed"@
}

pub open spec fn stolen_cargo_text() -> Seq<char> {
    "Stolen cargo collected"@
}

pub open spec fn commander_died_text() -> Seq<char> {
    "Your commander has died"@
}

pub open spec fn no_active_missions_text() -> Seq<char> {
    "No active missions"@
}

pub open spec fn startup_text() -> Seq<char> {
    "ED AFK Notifier has started!"@
}

/// The single decimal digit `d`, as a string slice.
fn digit_str(d: u32) -> (s: &'static str)
    requires
        d < 10,
    ensures
        s@ == digit_text(d as int),
{
    if d == 0 {
        "0"
    } else if d == 1 {
        "1"
    } else if d == 2 {
        "2"
    } else if d == 3 {
        "3"
    } else if d == 4 {
        "4"
    } else if d == 5 {
        "5"
    } else if d == 6 {
        "6"
    } else if d == 7 {
        "7"
    } else if d == 8 {
        "8"
    } else {
        "9"
    }
}

/// Append the decimal digits of `n` to `s`.
fn append_dec_digits(s: &mut String, n: u32)
    ensures
        final(s)@ == old(s)@ + dec_digits(n as nat),
    decreases n,
{
    let ghost s0: Seq<char> = s@;
    if n >= 10 {
        append_dec_digits(s, n / 10);
    }
    let d: u32 = n % 10;
    s.append(digit_str(d));
    proof {
        assert(s@ =~= s0 + dec_digits(n as nat));
    }
}

/// Build the hull-damage alert for a hull health of `bp` basis points.
pub fn hull_damage_alert(bp: u32) -> (a: Alert)
    ensures
        a.text@ == hull_damage_text(bp as nat),
{
    let mut text = String::from_str("Taking damage: Hull at ");
    let whole: u32 = bp / 100;
    let frac: u32 = bp % 100;
    append_dec_digits(&mut text, whole);
    if frac != 0 {
        text.append(".");
        if frac % 10 == 0 {
            append_dec_digits(&mut text, frac / 10);
        } else {
            if frac < 10 {
                text.append("0");
            }
            append_dec_digits(&mut text, frac);
        }
    }
    text.append("%");
    proof {
        assert(text@ =~= hull_damage_text(bp as nat));
    }
    Alert { text }
}

/// The informational heartbeat dispatched once, before the monitor
/// loop begins.
pub fn startup_alert() -> (a: Alert)
    ensures
        a.text@ == startup_text(),
{
    Alert { text: String::from_str("ED AFK Notifier has started!") }
}

} // verus!
