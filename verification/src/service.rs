//! The vault service's listening loop, as decisions: after each poll of the
//! mediator the service either keeps listening or gives up, counting the
//! failures since its last delivered answer.

use vstd::prelude::*;

verus! {

/// Polls that came back empty are tolerated up to this many failures in a
/// row; the service gives up when the count goes past it.
pub const MAX_CONSECUTIVE_ERRORS: u32 = 5;

/// What one poll of the mediator came to.
#[derive(Debug, Clone, Copy, PartialEq, Eq, Structural)]
pub enum ListenEvent {
    /// A request was answered and the answer was sent.
    Answered,
    /// A request was answered but sending the answer failed.
    SendFailed,
    /// A message arrived that needs no answer.
    Ignored,
    /// The poll returned no message (a timeout or a reconnection).
    Empty,
}

/// What the service does next.
#[derive(Debug, Clone, Copy, PartialEq, Eq, Structural)]
pub enum ListenAction {
    /// Poll again.
    Continue,
    /// Too many failures in a row: stop listening.
    Stop,
}

/// The listening loop's state.
#[derive(Debug, Clone, Copy)]
pub struct Listener {
    /// Failures since the last answer that was delivered.
    pub error_counter: u32,
}

/// The failure count after `event`, from `counter`.
pub open spec fn next_count(counter: int, event: ListenEvent) -> int {
    match event {
        ListenEvent::Answered => 0,
        ListenEvent::SendFailed => counter + 1,
        ListenEvent::Ignored => counter,
        ListenEvent::Empty => counter + 1,
    }
}

/// Whether the service stops after `event`, from failure count `counter`.
pub open spec fn stops_after(counter: int, event: ListenEvent) -> bool {
    event == ListenEvent::Empty && counter + 1 > MAX_CONSECUTIVE_ERRORS
}

/// Whether the service stops at some point while `events` arrive, one after
/// the other, from failure count `counter`.
pub open spec fn stops_during(counter: int, events: Seq<ListenEvent>) -> bool
    decreases events.len(),
{
    if events.len() == 0 {
        false
    } else {
        stops_after(counter, events[0]) || stops_during(
            next_count(counter, events[0]),
            events.drop_first(),
        )
    }
}

/// `n` empty polls.
pub open spec fn empty_polls(n: nat) -> Seq<ListenEvent> {
    Seq::new(n, |i: int| ListenEvent::Empty)
}

impl Listener {
    /// A loop that has seen no failure.
    pub fn new() -> (l: Listener)
        ensures
            l.error_counter == 0,
    {
        Listener { error_counter: 0 }
    }

    /// Takes in what the last poll came to and says what to do next.
    pub fn step(&mut self, event: ListenEvent) -> (action: ListenAction)
        requires
            event == ListenEvent::SendFailed || event == ListenEvent::Empty ==> old(
                self,
            ).error_counter < u32::MAX,
        ensures
            final(self).error_counter == next_count(old(self).error_counter as int, event),
            (action == ListenAction::Stop) == stops_after(old(self).error_counter as int, event),
    {
        match event {
            ListenEvent::Answered => {
                self.error_counter = 0;
                ListenAction::Continue
            },
            ListenEvent::SendFailed => {
                self.error_counter = self.error_counter + 1;
                ListenAction::Continue
            },
            ListenEvent::Ignored => ListenAction::Continue,
            ListenEvent::Empty => {
                self.error_counter = self.error_counter + 1;
                if self.error_counter > MAX_CONSECUTIVE_ERRORS {
                    ListenAction::Stop
                } else {
                    ListenAction::Continue
                }
            },
        }
    }
}

/// The service only ever gives up on an empty poll.
pub proof fn law_stops_only_on_empty_poll(counter: int, event: ListenEvent)
    requires
        stops_after(counter, event),
    ensures
        event == ListenEvent::Empty,
{
}

/// Whatever came before, six empty polls in a row make the service stop.
pub proof fn law_six_empty_polls_stop(counter: int)
    requires
        counter >= 0,
    ensures
        stops_during(counter, empty_polls(6)),
{
    reveal_with_fuel(stops_during, 7);
    let e = empty_polls(6);
    assert(e.drop_first() =~= empty_polls(5));
    assert(empty_polls(5).drop_first() =~= empty_polls(4));
    assert(empty_polls(4).drop_first() =~= empty_polls(3));
    assert(empty_polls(3).drop_first() =~= empty_polls(2));
    assert(empty_polls(2).drop_first() =~= empty_polls(1));
    assert(empty_polls(1).drop_first() =~= empty_polls(0));
}

/// After an answer is delivered the count starts again: five empty polls
/// that follow it do not make the service stop, and a sixth does.
pub proof fn law_delivery_resets_tolerance(counter: int)
    requires
        counter >= 0,
    ensures
        !stops_during(counter, seq![ListenEvent::Answered] + empty_polls(5)),
        stops_during(counter, seq![ListenEvent::Answered] + empty_polls(6)),
{
    reveal_with_fuel(stops_during, 8);
    assert((seq![ListenEvent::Answered] + empty_polls(5)).drop_first() =~= empty_polls(5));
    assert((seq![ListenEvent::Answered] + empty_polls(6)).drop_first() =~= empty_polls(6));
    assert(empty_polls(6).drop_first() =~= empty_polls(5));
    assert(empty_polls(5).drop_first() =~= empty_polls(4));
    assert(empty_polls(4).drop_first() =~= empty_polls(3));
    assert(empty_polls(3).drop_first() =~= empty_polls(2));
    assert(empty_polls(2).drop_first() =~= empty_polls(1));
    assert(empty_polls(1).drop_first() =~= empty_polls(0));
}

/// A message that needs no answer neither counts as a failure nor clears
/// the count: from any count the service goes on, with the same count.
pub proof fn law_ignored_message_keeps_count(counter: int)
    ensures
        next_count(counter, ListenEvent::Ignored) == counter,
        !stops_after(counter, ListenEvent::Ignored),
{
}

/// Messages that need no answer make no difference to when the service
/// stops: putting one anywhere into a run of polls changes nothing.
pub proof fn law_ignored_messages_change_nothing(counter: int, events: Seq<ListenEvent>, i: int)
    requires
        0 <= i <= events.len(),
    ensures
        stops_during(counter, events.insert(i, ListenEvent::Ignored)) == stops_during(counter, events),
    decreases events.len(),
{
    let with = events.insert(i, ListenEvent::Ignored);
    if i == 0 {
        assert(with.drop_first() =~= events);
    } else {
        assert(with[0] == events[0]);
        assert(with.drop_first() =~= events.drop_first().insert(i - 1, ListenEvent::Ignored));
        law_ignored_messages_change_nothing(
            next_count(counter, events[0]),
            events.drop_first(),
            i - 1,
        );
    }
}

} // verus!
