use vstd::prelude::*;

use crate::alerts::commander_died_text;
use crate::alerts::dec_digits;
use crate::alerts::digit_text;
use crate::alerts::fighter_destroyed_text;
use crate::alerts::hull_damage_text;
use crate::alerts::no_active_missions_text;
use crate::alerts::percent_text;
use crate::alerts::shields_down_text;
use crate::alerts::stolen_cargo_text;
use crate::classifier::next_count;
use crate::classifier::spec_alert;
use crate::events::Event;
use crate::events::EventContent;
use crate::events::is_mission_delta;
use crate::events::is_terminal_mission;
use crate::events::pos_expiry_count;

verus! {

/// The active-mission count after classifying every event of `events`
/// in order, starting from count `init`.
pub open spec fn run_count(events: Seq<Event>, start: int, init: int) -> int
    decreases events.len(),
{
    if events.len() == 0 {
        init
    } else {
        next_count(events.last(), start, run_count(events.drop_last(), start, init))
    }
}

/// The alert raised at position `i` of the run: the classification of
/// `events[i]` against the count reached after the first `i` events.
pub open spec fn run_alert(events: Seq<Event>, start: int, init: int, i: int) -> Option<Seq<char>>
    recommends
        0 <= i < events.len(),
{
    spec_alert(events[i], start, run_count(events.take(i), start, init))
}

/// How many events are accepts timestamped at or after `start`.
pub open spec fn n_accepted(events: Seq<Event>, start: int) -> int
    decreases events.len(),
{
    if events.len() == 0 {
        0
    } else {
        n_accepted(events.drop_last(), start) + if events.last().content is MissionAccepted
            && events.last().timestamp >= start {
            1int
        } else {
            0int
        }
    }
}

/// How many events are terminal mission events timestamped at or after
/// `start`.
pub open spec fn n_terminal(events: Seq<Event>, start: int) -> int
    decreases events.len(),
{
    if events.len() == 0 {
        0
    } else {
        n_terminal(events.drop_last(), start) + if is_terminal_mission(events.last().content)
            && events.last().timestamp >= start {
            1int
        } else {
            0int
        }
    }
}

/// Splitting a run: processing `a + b` from `init` reaches the same
/// count as processing `b` from the count `a` reaches.
pub proof fn lemma_run_count_append(a: Seq<Event>, b: Seq<Event>, start: int, init: int)
    ensures
        run_count(a + b, start, init) == run_count(b, start, run_count(a, start, init)),
    decreases b.len(),
{
    if b.len() == 0 {
        assert(a + b =~= a);
    } else {
        lemma_run_count_append(a, b.drop_last(), start, init);
        assert((a + b).drop_last() =~= a + b.drop_last());
        assert((a + b).last() == b.last());
    }
}

/// Mission bookkeeping is event-sourced: over any sequence of mission
/// bookkeeping events, the count moves from `init` by the number of
/// accepts minus the number of terminal mission events, counting only
/// events timestamped at or after `start`.
pub proof fn lemma_mission_count_trajectory(events: Seq<Event>, start: int, init: int)
    requires
        forall|i: int| 0 <= i < events.len() ==> is_mission_delta(#[trigger] events[i].content),
    ensures
        run_count(events, start, init) == init + n_accepted(events, start) - n_terminal(
            events,
            start,
        ),
    decreases events.len(),
{
    if events.len() > 0 {
        let prefix = events.drop_last();
        assert forall|i: int| 0 <= i < prefix.len() implies is_mission_delta(
            #[trigger] prefix[i].content,
        ) by {
            assert(prefix[i] == events[i]);
        }
        lemma_mission_count_trajectory(prefix, start, init);
        assert(is_mission_delta(events[events.len() - 1].content));
    }
}

/// A bootstrap snapshot seeds the counter whatever its timestamp: after
/// a snapshot followed by mission bookkeeping events, the count is the
/// snapshot's positive-expiry count plus the accepts minus the terminal
/// events at or after `start`.
pub proof fn lemma_bootstrap_snapshot_trajectory(events: Seq<Event>, start: int, init: int)
    requires
        events.len() >= 1,
        events[0].content is ActiveMissionsSnapshot,
        forall|i: int|
            1 <= i < events.len() ==> is_mission_delta(#[trigger] events[i].content),
    ensures
        run_count(events, start, init) == pos_expiry_count(
            events[0].content->ActiveMissionsSnapshot_entries@,
        ) + n_accepted(events.skip(1), start) - n_terminal(events.skip(1), start),
{
    let seeded = pos_expiry_count(events[0].content->ActiveMissionsSnapshot_entries@);
    let head = events.take(1);
    let rest = events.skip(1);
    assert(events =~= head + rest);
    lemma_run_count_append(head, rest, start, init);
    assert(head.drop_last() =~= Seq::<Event>::empty());
    assert(run_count(head, start, init) == seeded);
    assert forall|i: int| 0 <= i < rest.len() implies is_mission_delta(
        #[trigger] rest[i].content,
    ) by {
        assert(rest[i] == events[i + 1]);
    }
    lemma_mission_count_trajectory(rest, start, seeded);
}

/// Every decimal rendering has at least one character.
proof fn lemma_dec_digits_len(n: nat)
    ensures
        dec_digits(n).len() >= 1,
    decreases n,
{
    reveal_strlit("0");
    reveal_strlit("1");
    reveal_strlit("2");
    reveal_strlit("3");
    reveal_strlit("4");
    reveal_strlit("5");
    reveal_strlit("6");
    reveal_strlit("7");
    reveal_strlit("8");
    reveal_strlit("9");
    if n >= 10 {
        lemma_dec_digits_len(n / 10);
    }
}

/// The hull-damage text is longer than any of the fixed alert texts, so
/// it can never be mistaken for one of them.
proof fn lemma_hull_damage_text_long(bp: nat)
    ensures
        hull_damage_text(bp).len() >= 25,
{
    reveal_strlit("Taking damage: Hull at ");
    reveal_strlit("%");
    reveal_strlit(".");
    reveal_strlit("0");
    lemma_dec_digits_len(bp / 100);
    if bp % 100 != 0 {
        if (bp % 100) % 10 == 0 {
            lemma_dec_digits_len((bp % 100) / 10);
        } else {
            lemma_dec_digits_len(bp % 100);
        }
    }
    assert(percent_text(bp).len() >= 1);
}

/// Exactly which classifications raise the "No active missions" text: a
/// terminal mission event at or after the start time that moves the
/// counter from 1 to exactly 0. Every other alert text differs from it.
pub proof fn lemma_alert_is_no_active_missions(e: Event, start: int, count: int)
    ensures
        spec_alert(e, start, count) == Some(no_active_missions_text()) <==> (is_terminal_mission(
            e.content,
        ) && e.timestamp >= start && count == 1),
{
    reveal_strlit("No active missions");
    reveal_strlit("Shields are down");
    reveal_strlit("Fighter destroyed");
    reveal_strlit("Stolen cargo collected");
    reveal_strlit("Your commander has died");
    match e.content {
        EventContent::HullDamage { health_basis_points, .. } => {
            lemma_hull_damage_text_long(health_basis_points as nat);
        },
        _ => {},
    }
    assert(shields_down_text().len() == 16);
    assert(no_active_missions_text().len() == 18);
    assert(fighter_destroyed_text().len() == 17);
    assert(stolen_cargo_text().len() == 22);
    assert(commander_died_text().len() == 23);
}

/// One "No active missions" alert per zero crossing from above, and
/// never otherwise: position `i` of a run raises it exactly when
/// `events[i]` is a terminal mission event at or after `start` and the
/// count reached before it is 1.
pub proof fn lemma_no_active_missions_crossing(events: Seq<Event>, start: int, init: int, i: int)
    requires
        0 <= i < events.len(),
    ensures
        run_alert(events, start, init, i) == Some(no_active_missions_text()) <==> (
        is_terminal_mission(events[i].content) && events[i].timestamp >= start && run_count(
            events.take(i),
            start,
            init,
        ) == 1),
{
    lemma_alert_is_no_active_missions(events[i], start, run_count(events.take(i), start, init));
}

/// Hull damage to anything but the player's own ship is ignored: no
/// alert and no state change, whatever the health fraction.
pub proof fn lemma_npc_hull_damage_ignored(e: Event, start: int, count: int)
    requires
        e.content matches EventContent::HullDamage { is_player: false, .. },
    ensures
        spec_alert(e, start, count) is None,
        next_count(e, start, count) == count,
{
}

/// Any event other than a snapshot that predates the monitor's start
/// time produces no alert and no state change.
pub proof fn lemma_event_before_start_ignored(e: Event, start: int, count: int)
    requires
        e.timestamp < start,
        !(e.content is ActiveMissionsSnapshot),
    ensures
        spec_alert(e, start, count) is None,
        next_count(e, start, count) == count,
{
}

} // verus!
