use vstd::prelude::*;
use vstd::string::StringExecFns;

use crate::alerts::Alert;
use crate::alerts::commander_died_text;
use crate::alerts::fighter_destroyed_text;
use crate::alerts::hull_damage_alert;
use crate::alerts::hull_damage_text;
use crate::alerts::no_active_missions_text;
use crate::alerts::shields_down_text;
use crate::alerts::stolen_cargo_text;
use crate::events::Event;
use crate::events::EventContent;
use crate::events::count_positive_expiries;
use crate::events::event_wf;
use crate::events::is_terminal_mission;
use crate::events::pos_expiry_count;

verus! {

/// The session state derived from the event stream: the number of
/// missions believed active. It is event-sourced (accepts increment it,
/// terminal mission events decrement it) and may transiently go negative
/// when a terminal event arrives without a matching accept; that signed
/// behaviour is deliberate and observable.
#[derive(Clone, Copy, PartialEq, Eq, Structural, Debug)]
pub struct SessionState {
    pub active_mission_count: i64,
}

impl SessionState {
    /// The state at monitor start: no missions known yet.
    pub fn new() -> (s: SessionState)
        ensures
            s.active_mission_count == 0,
    {
        SessionState { active_mission_count: 0 }
    }
}

/// The active-mission count after classifying `e` against start time
/// `start` with count `count`. A snapshot reseeds the counter whatever
/// its timestamp; every other variant is ignored when it predates the
/// start of the monitor.
pub open spec fn next_count(e: Event, start: int, count: int) -> int {
    match e.content {
        EventContent::ActiveMissionsSnapshot { entries } => pos_expiry_count(entries@),
        EventContent::MissionAccepted => if e.timestamp >= start {
            count + 1
        } else {
            count
        },
        EventContent::MissionRedirected => if e.timestamp >= start {
            count - 1
        } else {
            count
        },
        EventContent::MissionFailed => if e.timestamp >= start {
            count - 1
        } else {
            count
        },
        EventContent::MissionAbandoned => if e.timestamp >= start {
            count - 1
        } else {
            count
        },
        _ => count,
    }
}

/// The text of the alert raised by classifying `e` against start time
/// `start` with count `count`, or `None` when the event raises none.
pub open spec fn spec_alert(e: Event, start: int, count: int) -> Option<Seq<char>> {
    if e.timestamp < start && !(e.content is ActiveMissionsSnapshot) {
        None
    } else {
        match e.content {
            EventContent::ShieldState { shields_up } => if !shields_up {
                Some(shields_down_text())
            } else {
                None
            },
            EventContent::HullDamage { is_player, health_basis_points } => if is_player && (
            health_basis_points < 7500 || health_basis_points < 5000 || health_basis_points < 2500
                || health_basis_points < 500) {
                Some(hull_damage_text(health_basis_points as nat))
            } else {
                None
            },
            EventContent::FighterDestroyed => Some(fighter_destroyed_text()),
            EventContent::CargoCollected { stolen } => if stolen {
                Some(stolen_cargo_text())
            } else {
                None
            },
            EventContent::CommanderDied => Some(commander_died_text()),
            EventContent::MissionRedirected => if count - 1 == 0 {
                Some(no_active_missions_text())
            } else {
                None
            },
            EventContent::MissionFailed => if count - 1 == 0 {
                Some(no_active_missions_text())
            } else {
                None
            },
            EventContent::MissionAbandoned => if count - 1 == 0 {
                Some(no_active_missions_text())
            } else {
                None
            },
            _ => None,
        }
    }
}

/// The produced alert carries exactly the text the model calls for.
pub open spec fn alert_matches(a: Option<Alert>, t: Option<Seq<char>>) -> bool {
    match a {
        Some(alert) => t == Some(alert.text@),
        None => t is None,
    }
}

/// The counter has room for one more step in either direction.
pub open spec fn count_in_range(count: i64) -> bool {
    i64::MIN < count < i64::MAX
}

/// Decide the terminal-mission alert: the crossing to exactly zero is
/// the one notification-worthy transition.
fn handle_missions_count(state: &SessionState) -> (alert: Option<Alert>)
    ensures
        alert_matches(
            alert,
            if state.active_mission_count == 0 {
                Some(no_active_missions_text())
            } else {
                None
            },
        ),
{
    if state.active_mission_count == 0 {
        Some(Alert { text: String::from_str("No active missions") })
    } else {
        None
    }
}

/// Classify events already past the start-time filter (and not a
/// snapshot, which `classify` handles before filtering).
fn classify_current(e: &Event, state: &mut SessionState) -> (alert: Option<Alert>)
    requires
        !(e.content is ActiveMissionsSnapshot),
        count_in_range(old(state).active_mission_count),
    ensures
        final(state).active_mission_count == next_count(
            *e,
            e.timestamp as int,
            old(state).active_mission_count as int,
        ),
        alert_matches(
            alert,
            spec_alert(*e, e.timestamp as int, old(state).active_mission_count as int),
        ),
{
    match &e.content {
        EventContent::ShieldState { shields_up } => {
            if !*shields_up {
                Some(Alert { text: String::from_str("Shields are down") })
            } else {
                None
            }
        },
        EventContent::HullDamage { is_player, health_basis_points } => {
            let bp: u32 = *health_basis_points;
            if *is_player && (bp < 7500 || bp < 5000 || bp < 2500 || bp < 500) {
                Some(hull_damage_alert(bp))
            } else {
                None
            }
        },
        EventContent::FighterDestroyed => {
            Some(Alert { text: String::from_str("Fighter destroyed") })
        },
        EventContent::CargoCollected { stolen } => {
            if *stolen {
                Some(Alert { text: String::from_str("Stolen cargo collected") })
            } else {
                None
            }
        },
        EventContent::CommanderDied => {
            Some(Alert { text: String::from_str("Your commander has died") })
        },
        EventContent::MissionAccepted => {
            state.active_mission_count = state.active_mission_count + 1;
            None
        },
        EventContent::MissionRedirected => {
            state.active_mission_count = state.active_mission_count - 1;
            handle_missions_count(state)
        },
        EventContent::MissionFailed => {
            state.active_mission_count = state.active_mission_count - 1;
            handle_missions_count(state)
        },
        EventContent::MissionAbandoned => {
            state.active_mission_count = state.active_mission_count - 1;
            handle_missions_count(state)
        },
        EventContent::ActiveMissionsSnapshot { .. } => vstd::pervasive::unreached(),
        EventContent::Other => None,
    }
}

/// Classify one incoming event: zero or one outbound alert plus the
/// updated session state.
///
/// The one variant classified whatever its age is the active-missions
/// snapshot, which reseeds the counter from the missions already active
/// when the monitor attached (log-only: it never raises an alert). Every
/// other event timestamped before `start_time` produces no alert and no
/// state change.
pub fn classify(e: &Event, start_time: i64, state: &mut SessionState) -> (alert: Option<Alert>)
    requires
        event_wf(*e),
        count_in_range(old(state).active_mission_count),
    ensures
        final(state).active_mission_count == next_count(
            *e,
            start_time as int,
            old(state).active_mission_count as int,
        ),
        alert_matches(
            alert,
            spec_alert(*e, start_time as int, old(state).active_mission_count as int),
        ),
{
    match &e.content {
        EventContent::ActiveMissionsSnapshot { entries } => {
            state.active_mission_count = count_positive_expiries(entries);
            None
        },
        _ => {
            if e.timestamp < start_time {
                None
            } else {
                classify_current(e, state)
            }
        },
    }
}

} // verus!
