use vstd::prelude::*;

verus! {

/// One entry of an active-missions snapshot: the mission's remaining
/// lifetime in seconds (non-positive once it has expired).
#[derive(Clone, Copy, PartialEq, Eq, Structural, Debug)]
pub struct MissionEntry {
    pub expires_in_seconds: i64,
}

/// The kinds of structured events the monitor distinguishes.
///
/// Hull health is carried as a fraction in basis points (the fraction
/// times 10000), so 400 stands for 4% hull remaining.
#[derive(Debug, Clone)]
pub enum EventContent {
    ShieldState { shields_up: bool },
    HullDamage { is_player: bool, health_basis_points: u32 },
    FighterDestroyed,
    CargoCollected { stolen: bool },
    CommanderDied,
    ActiveMissionsSnapshot { entries: Vec<MissionEntry> },
    MissionAccepted,
    MissionRedirected,
    MissionFailed,
    MissionAbandoned,
    Other,
}

/// A structured event with its timestamp, in milliseconds since the
/// Unix epoch. Timestamps arrive in non-decreasing order.
#[derive(Debug, Clone)]
pub struct Event {
    pub timestamp: i64,
    pub content: EventContent,
}

/// Mission events that end an active mission and decrement the counter.
pub open spec fn is_terminal_mission(c: EventContent) -> bool {
    ||| c is MissionRedirected
    ||| c is MissionFailed
    ||| c is MissionAbandoned
}

/// Mission bookkeeping events: accepts plus the terminal mission events.
pub open spec fn is_mission_delta(c: EventContent) -> bool {
    c is MissionAccepted || is_terminal_mission(c)
}

/// How many snapshot entries still have time left.
pub open spec fn pos_expiry_count(entries: Seq<MissionEntry>) -> int
    decreases entries.len(),
{
    if entries.len() == 0 {
        0
    } else {
        pos_expiry_count(entries.drop_last())
            + if entries.last().expires_in_seconds > 0 { 1int } else { 0int }
    }
}

/// A snapshot the classifier can count: its entry list fits the counter type.
pub open spec fn event_wf(e: Event) -> bool {
    e.content matches EventContent::ActiveMissionsSnapshot { entries } ==> entries@.len()
        <= i64::MAX
}

/// Count the snapshot entries whose `expires_in_seconds` is positive.
pub fn count_positive_expiries(entries: &Vec<MissionEntry>) -> (count: i64)
    requires
        entries@.len() <= i64::MAX,
    ensures
        count == pos_expiry_count(entries@),
        0 <= count <= entries@.len(),
{
    let mut count: i64 = 0;
    let mut i: usize = 0;
    while i < entries.len()
        invariant
            0 <= i <= entries@.len(),
            entries@.len() <= i64::MAX,
            count == pos_expiry_count(entries@.take(i as int)),
            0 <= count <= i,
        decreases entries@.len() - i,
    {
        proof {
            assert(entries@.take(i as int + 1).drop_last() =~= entries@.take(i as int));
            assert(entries@.take(i as int + 1).last() == entries@[i as int]);
        }
        if entries[i].expires_in_seconds > 0 {
            count = count + 1;
        }
        i = i + 1;
    }
    proof {
        assert(entries@.take(entries@.len() as int) =~= entries@);
    }
    count
}

} // verus!
