use vstd::prelude::*;

use crate::alerts::Alert;
use crate::classifier::SessionState;
use crate::classifier::classify;
use crate::classifier::count_in_range;
use crate::classifier::next_count;
use crate::classifier::spec_alert;
use crate::events::Event;
use crate::events::event_wf;

verus! {

/// What one turn of the monitor loop observes: an event pulled from the
/// source, a failed alert delivery reported by the dispatcher, or the
/// end of the stream.
pub enum LoopInput {
    Pulled(Event),
    DeliveryFailed,
    StreamEnded,
}

/// What the loop must do after a turn: keep going, deliver an alert and
/// keep going, or shut the process down.
pub enum Action {
    Continue,
    Dispatch(Alert),
    Terminate,
}

/// The monitor in its running state: the start time recorded on entry,
/// and the session state fed by the classifier.
pub struct Monitor {
    pub start_time: i64,
    pub state: SessionState,
}

impl Monitor {
    /// Enter the running state at `start_time` (milliseconds since the
    /// Unix epoch), with no missions known yet.
    pub fn new(start_time: i64) -> (m: Monitor)
        ensures
            m.start_time == start_time,
            m.state.active_mission_count == 0,
    {
        Monitor { start_time, state: SessionState::new() }
    }

    /// The next input can be processed: a pulled event is well formed
    /// and the counter has room to move.
    pub open spec fn can_step(self, input: LoopInput) -> bool {
        input matches LoopInput::Pulled(e) ==> event_wf(e) && count_in_range(
            self.state.active_mission_count,
        )
    }

    /// One turn of the monitor loop.
    ///
    /// A pulled event goes to the classifier, whose alert (if any) is
    /// turned into a dispatch. A delivery failure is recovered locally:
    /// the state is untouched and the loop continues, so subsequent
    /// events are still processed. Only the end of the stream
    /// terminates the loop.
    pub fn step(&mut self, input: &LoopInput) -> (action: Action)
        requires
            old(self).can_step(*input),
        ensures
            final(self).start_time == old(self).start_time,
            match *input {
                LoopInput::Pulled(e) => {
                    &&& final(self).state.active_mission_count == next_count(
                        e,
                        old(self).start_time as int,
                        old(self).state.active_mission_count as int,
                    )
                    &&& match spec_alert(
                        e,
                        old(self).start_time as int,
                        old(self).state.active_mission_count as int,
                    ) {
                        Some(t) => action matches Action::Dispatch(a) && a.text@ == t,
                        None => action is Continue,
                    }
                },
                LoopInput::DeliveryFailed => *final(self) == *old(self) && action is Continue,
                LoopInput::StreamEnded => *final(self) == *old(self) && action is Terminate,
            },
    {
        match input {
            LoopInput::Pulled(e) => {
                match classify(e, self.start_time, &mut self.state) {
                    Some(alert) => Action::Dispatch(alert),
                    None => Action::Continue,
                }
            },
            LoopInput::DeliveryFailed => Action::Continue,
            LoopInput::StreamEnded => Action::Terminate,
        }
    }
}

} // verus!
