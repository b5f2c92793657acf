//! How the event loops of the two sides turn.
//!
//! A stage says what the loop does now. What comes of it leads to the next stage, or ends the loop
//! with an error.

use crate::text;
use crate::x11::state::X11State;
use vstd::prelude::*;

verus! {

/// What polling found of a file descriptor.
#[derive(Debug, Clone, Copy, PartialEq, Eq, Structural)]
pub struct PollEvents {
    pub readable: bool,
    pub error: bool,
    pub hangup: bool,
}

/// Whether a file descriptor needs attention: there is something to read, or reading would tell
/// that it is broken.
pub open spec fn ready(events: Option<PollEvents>) -> bool {
    events matches Some(events) && (events.readable || events.error || events.hangup)
}

/// Whether a file descriptor needs attention.
pub fn is_ready(events: Option<PollEvents>) -> (needed: bool)
    ensures
        needed == ready(events),
{
    match events {
        Some(events) => events.readable || events.error || events.hangup,
        None => false,
    }
}

/// What looking for a request to set a selection gave.
#[derive(Debug, Clone, Copy, PartialEq, Eq, Structural)]
pub enum Taken {
    /// There is one.
    Request,
    /// There is none.
    Empty,
    /// There will be none any more.
    Disconnected,
}

/// What the X11 loop does.
#[derive(Debug, Clone, Copy, PartialEq, Eq, Structural)]
pub enum X11Stage {
    /// Looks for a request to set a selection; `worked` if it has found one in this round.
    TakeRequest { worked: bool },
    /// Sets a selection.
    SetSelection,
    /// Looks for an event, without waiting; `worked` if it has done anything in this round.
    TakeEvent { worked: bool },
    /// Handles an event.
    HandleEvent,
    /// Flushes the connection; `worked` if it has done anything in this round.
    Flush { worked: bool },
    /// Sleeps until the connection or the wake pipe needs attention.
    Sleep,
    /// Empties the wake pipe.
    DrainWake,
}

/// What came of a stage of the X11 loop, over a kind of string.
#[derive(Debug)]
pub enum X11OutcomeOf<E> {
    Taken(Taken),
    /// How setting a selection or handling an event ended.
    Handled(Result<(), E>),
    /// Whether there is an event. There is none if looking for one failed.
    Event(bool),
    Flushed(Result<(), E>),
    /// What polling the connection and the wake pipe found, or why it failed.
    Polled(Result<(Option<PollEvents>, Option<PollEvents>), E>),
    WakeDrained,
}

/// What came of a stage of the X11 loop.
pub type X11Outcome = X11OutcomeOf<String>;

/// What came of a stage of the X11 loop, as plain values.
pub type X11OutcomeView = X11OutcomeOf<Seq<char>>;

/// The plain values of a result that may be an error message.
pub open spec fn result_view<T>(result: Result<T, String>) -> Result<T, Seq<char>> {
    match result {
        Ok(value) => Ok(value),
        Err(error) => Err(error@),
    }
}

impl View for X11OutcomeOf<String> {
    type V = X11OutcomeView;

    open spec fn view(&self) -> X11OutcomeView {
        match *self {
            X11OutcomeOf::Taken(taken) => X11OutcomeOf::Taken(taken),
            X11OutcomeOf::Handled(result) => X11OutcomeOf::Handled(result_view(result)),
            X11OutcomeOf::Event(found) => X11OutcomeOf::Event(found),
            X11OutcomeOf::Flushed(result) => X11OutcomeOf::Flushed(result_view(result)),
            X11OutcomeOf::Polled(result) => X11OutcomeOf::Polled(result_view(result)),
            X11OutcomeOf::WakeDrained => X11OutcomeOf::WakeDrained,
        }
    }
}

impl X11Stage {
    /// Whether `outcome` is one of this stage.
    pub open spec fn fits<E>(self, outcome: X11OutcomeOf<E>) -> bool {
        match self {
            X11Stage::TakeRequest { .. } => outcome is Taken,
            X11Stage::SetSelection | X11Stage::HandleEvent => outcome is Handled,
            X11Stage::TakeEvent { .. } => outcome is Event,
            X11Stage::Flush { .. } => outcome is Flushed,
            X11Stage::Sleep => outcome is Polled,
            X11Stage::DrainWake => outcome is WakeDrained,
        }
    }

    /// The start of a round.
    pub open spec fn round() -> X11Stage {
        X11Stage::TakeRequest { worked: false }
    }

    /// What the loop does next, or the error it ends with.
    pub open spec fn next(self, outcome: X11OutcomeView) -> Result<X11Stage, Seq<char>> {
        match (self, outcome) {
            (X11Stage::TakeRequest { worked }, X11OutcomeOf::Taken(taken)) => Ok(
                if taken == Taken::Request {
                    X11Stage::SetSelection
                } else {
                    X11Stage::TakeEvent { worked }
                },
            ),
            (X11Stage::SetSelection, X11OutcomeOf::Handled(result)) => match result {
                Ok(_) => Ok(X11Stage::TakeRequest { worked: true }),
                Err(error) => Err(error),
            },
            (X11Stage::TakeEvent { worked }, X11OutcomeOf::Event(found)) => Ok(
                if found {
                    X11Stage::HandleEvent
                } else {
                    X11Stage::Flush { worked }
                },
            ),
            (X11Stage::HandleEvent, X11OutcomeOf::Handled(result)) => match result {
                Ok(_) => Ok(X11Stage::TakeEvent { worked: true }),
                Err(error) => Err(error),
            },
            (X11Stage::Flush { worked }, _) => Ok(
                if worked {
                    X11Stage::round()
                } else {
                    X11Stage::Sleep
                },
            ),
            (X11Stage::Sleep, X11OutcomeOf::Polled(result)) => match result {
                Ok((_, wake)) => Ok(
                    if ready(wake) {
                        X11Stage::DrainWake
                    } else {
                        X11Stage::round()
                    },
                ),
                Err(error) => Err(text::message("Failed to poll X11 event fds"@, error)),
            },
            _ => Ok(X11Stage::round()),
        }
    }

    /// Whether the loop, in this round, has found nothing to do so far.
    pub open spec fn idle(self) -> bool {
        match self {
            X11Stage::TakeRequest { worked } => !worked,
            X11Stage::TakeEvent { worked } => !worked,
            X11Stage::Flush { worked } => !worked,
            X11Stage::Sleep => true,
            _ => false,
        }
    }

    /// The stage the loop starts with.
    pub fn start() -> (stage: X11Stage)
        ensures
            stage == X11Stage::round(),
    {
        X11Stage::TakeRequest { worked: false }
    }

    /// Whether `outcome` is one of this stage.
    pub fn accepts(&self, outcome: &X11Outcome) -> (accepted: bool)
        ensures
            accepted == self.fits(outcome@),
    {
        match (self, outcome) {
            (X11Stage::TakeRequest { .. }, X11OutcomeOf::Taken(_)) => true,
            (X11Stage::SetSelection, X11OutcomeOf::Handled(_)) => true,
            (X11Stage::HandleEvent, X11OutcomeOf::Handled(_)) => true,
            (X11Stage::TakeEvent { .. }, X11OutcomeOf::Event(_)) => true,
            (X11Stage::Flush { .. }, X11OutcomeOf::Flushed(_)) => true,
            (X11Stage::Sleep, X11OutcomeOf::Polled(_)) => true,
            (X11Stage::DrainWake, X11OutcomeOf::WakeDrained) => true,
            _ => false,
        }
    }
}

impl X11State {
    /// Turns the X11 loop: what it does after `stage`, given what came of that. It ends when
    /// setting a selection, handling an event or polling fails; flushing may fail.
    pub fn run_event_loop(stage: X11Stage, outcome: X11Outcome) -> (next: Result<X11Stage, String>)
        requires
            stage.fits(outcome@),
        ensures
            result_view(next) == stage.next(outcome@),
    {
        match (stage, outcome) {
            (X11Stage::TakeRequest { worked }, X11OutcomeOf::Taken(taken)) => match taken {
                Taken::Request => Ok(X11Stage::SetSelection),
                Taken::Empty | Taken::Disconnected => Ok(X11Stage::TakeEvent { worked }),
            },
            (X11Stage::SetSelection, X11OutcomeOf::Handled(result)) => match result {
                Ok(_) => Ok(X11Stage::TakeRequest { worked: true }),
                Err(error) => Err(error),
            },
            (X11Stage::TakeEvent { worked }, X11OutcomeOf::Event(found)) => {
                if found {
                    Ok(X11Stage::HandleEvent)
                } else {
                    Ok(X11Stage::Flush { worked })
                }
            },
            (X11Stage::HandleEvent, X11OutcomeOf::Handled(result)) => match result {
                Ok(_) => Ok(X11Stage::TakeEvent { worked: true }),
                Err(error) => Err(error),
            },
            (X11Stage::Flush { worked }, _) => {
                if worked {
                    Ok(X11Stage::start())
                } else {
                    Ok(X11Stage::Sleep)
                }
            },
            (X11Stage::Sleep, X11OutcomeOf::Polled(result)) => match result {
                Ok((_, wake)) => {
                    if is_ready(wake) {
                        Ok(X11Stage::DrainWake)
                    } else {
                        Ok(X11Stage::start())
                    }
                },
                Err(error) => Err(
                    text::failure_message("Failed to poll X11 event fds", error.as_str()),
                ),
            },
            _ => Ok(X11Stage::start()),
        }
    }
}

/// What the Wayland loop does.
#[derive(Debug, Clone, Copy, PartialEq, Eq, Structural)]
pub enum WaylandStage {
    /// Looks for a request to set a selection; `worked` if it has found one in this round.
    TakeRequest { worked: bool },
    /// Sets a selection.
    SetSelection,
    /// Dispatches the events that have been read; `worked` if a selection was set in this round.
    Dispatch { worked: bool },
    /// Flushes the connection; `worked` if it has done anything in this round.
    Flush { worked: bool },
    /// Prepares to read events.
    PrepareRead,
    /// Sleeps until the connection or the wake pipe needs attention, ready to read.
    Sleep,
    /// Reads events; `wake` if the wake pipe needs attention.
    Read { wake: bool },
    /// Dispatches the events just read; `wake` if the wake pipe needs attention.
    DispatchRead { wake: bool },
    /// Empties the wake pipe.
    DrainWake,
}

/// What came of a stage of the Wayland loop, over a kind of string.
#[derive(Debug)]
pub enum WaylandOutcomeOf<E> {
    Taken(Taken),
    SelectionSet,
    /// How many events were dispatched.
    Dispatched(Result<usize, E>),
    Flushed(Result<(), E>),
    /// Whether reading can begin. It cannot while there are events to dispatch.
    Prepared(bool),
    /// What polling the connection and the wake pipe found, or why it failed.
    Polled(Result<(Option<PollEvents>, Option<PollEvents>), E>),
    Read(Result<(), E>),
    WakeDrained,
}

/// What came of a stage of the Wayland loop.
pub type WaylandOutcome = WaylandOutcomeOf<String>;

/// What came of a stage of the Wayland loop, as plain values.
pub type WaylandOutcomeView = WaylandOutcomeOf<Seq<char>>;

impl View for WaylandOutcomeOf<String> {
    type V = WaylandOutcomeView;

    open spec fn view(&self) -> WaylandOutcomeView {
        match *self {
            WaylandOutcomeOf::Taken(taken) => WaylandOutcomeOf::Taken(taken),
            WaylandOutcomeOf::SelectionSet => WaylandOutcomeOf::SelectionSet,
            WaylandOutcomeOf::Dispatched(result) => {
                WaylandOutcomeOf::Dispatched(result_view(result))
            },
            WaylandOutcomeOf::Flushed(result) => WaylandOutcomeOf::Flushed(result_view(result)),
            WaylandOutcomeOf::Prepared(prepared) => WaylandOutcomeOf::Prepared(prepared),
            WaylandOutcomeOf::Polled(result) => WaylandOutcomeOf::Polled(result_view(result)),
            WaylandOutcomeOf::Read(result) => WaylandOutcomeOf::Read(result_view(result)),
            WaylandOutcomeOf::WakeDrained => WaylandOutcomeOf::WakeDrained,
        }
    }
}

impl WaylandStage {
    /// Whether `outcome` is one of this stage.
    pub open spec fn fits<E>(self, outcome: WaylandOutcomeOf<E>) -> bool {
        match self {
            WaylandStage::TakeRequest { .. } => outcome is Taken,
            WaylandStage::SetSelection => outcome is SelectionSet,
            WaylandStage::Dispatch { .. } | WaylandStage::DispatchRead { .. } => {
                outcome is Dispatched
            },
            WaylandStage::Flush { .. } => outcome is Flushed,
            WaylandStage::PrepareRead => outcome is Prepared,
            WaylandStage::Sleep => outcome is Polled,
            WaylandStage::Read { .. } => outcome is Read,
            WaylandStage::DrainWake => outcome is WakeDrained,
        }
    }

    /// The start of a round.
    pub open spec fn round() -> WaylandStage {
        WaylandStage::TakeRequest { worked: false }
    }

    /// The end of a round: the wake pipe is emptied if it needs attention.
    pub open spec fn closing(wake: bool) -> WaylandStage {
        if wake {
            WaylandStage::DrainWake
        } else {
            WaylandStage::round()
        }
    }

    /// What the loop does next, or the error it ends with.
    pub open spec fn next(self, outcome: WaylandOutcomeView) -> Result<WaylandStage, Seq<char>> {
        match (self, outcome) {
            (WaylandStage::TakeRequest { worked }, WaylandOutcomeOf::Taken(taken)) => Ok(
                if taken == Taken::Request {
                    WaylandStage::SetSelection
                } else {
                    WaylandStage::Dispatch { worked }
                },
            ),
            (WaylandStage::SetSelection, _) => Ok(WaylandStage::TakeRequest { worked: true }),
            (WaylandStage::Dispatch { worked }, WaylandOutcomeOf::Dispatched(result)) => {
                match result {
                    Ok(count) => Ok(WaylandStage::Flush { worked: worked || count > 0 }),
                    Err(error) => Err(text::message("Wayland dispatch error"@, error)),
                }
            },
            (WaylandStage::Flush { worked }, WaylandOutcomeOf::Flushed(result)) => match result {
                Ok(_) => Ok(
                    if worked {
                        WaylandStage::round()
                    } else {
                        WaylandStage::PrepareRead
                    },
                ),
                Err(error) => Err(text::message("Wayland flush error"@, error)),
            },
            (WaylandStage::PrepareRead, WaylandOutcomeOf::Prepared(prepared)) => Ok(
                if prepared {
                    WaylandStage::Sleep
                } else {
                    WaylandStage::round()
                },
            ),
            (WaylandStage::Sleep, WaylandOutcomeOf::Polled(result)) => match result {
                Ok((own, wake)) => Ok(
                    if ready(own) {
                        WaylandStage::Read { wake: ready(wake) }
                    } else {
                        WaylandStage::closing(ready(wake))
                    },
                ),
                Err(error) => Err(text::message("Failed to poll Wayland event fds"@, error)),
            },
            (WaylandStage::Read { wake }, WaylandOutcomeOf::Read(result)) => match result {
                Ok(_) => Ok(WaylandStage::DispatchRead { wake }),
                Err(error) => Err(text::message("Wayland read error"@, error)),
            },
            (WaylandStage::DispatchRead { wake }, WaylandOutcomeOf::Dispatched(result)) => {
                match result {
                    Ok(_) => Ok(WaylandStage::closing(wake)),
                    Err(error) => Err(text::message("Wayland dispatch error"@, error)),
                }
            },
            _ => Ok(WaylandStage::round()),
        }
    }

    /// Whether the loop, in this round, has found nothing to do so far.
    pub open spec fn idle(self) -> bool {
        match self {
            WaylandStage::TakeRequest { worked } => !worked,
            WaylandStage::Dispatch { worked } => !worked,
            WaylandStage::Flush { worked } => !worked,
            WaylandStage::PrepareRead => true,
            WaylandStage::Sleep => true,
            _ => false,
        }
    }

    /// The stage the loop starts with.
    pub fn start() -> (stage: WaylandStage)
        ensures
            stage == WaylandStage::round(),
    {
        WaylandStage::TakeRequest { worked: false }
    }

    fn close(wake: bool) -> (stage: WaylandStage)
        ensures
            stage == WaylandStage::closing(wake),
    {
        if wake {
            WaylandStage::DrainWake
        } else {
            WaylandStage::start()
        }
    }

    /// Whether `outcome` is one of this stage.
    pub fn accepts(&self, outcome: &WaylandOutcome) -> (accepted: bool)
        ensures
            accepted == self.fits(outcome@),
    {
        match (self, outcome) {
            (WaylandStage::TakeRequest { .. }, WaylandOutcomeOf::Taken(_)) => true,
            (WaylandStage::SetSelection, WaylandOutcomeOf::SelectionSet) => true,
            (WaylandStage::Dispatch { .. }, WaylandOutcomeOf::Dispatched(_)) => true,
            (WaylandStage::DispatchRead { .. }, WaylandOutcomeOf::Dispatched(_)) => true,
            (WaylandStage::Flush { .. }, WaylandOutcomeOf::Flushed(_)) => true,
            (WaylandStage::PrepareRead, WaylandOutcomeOf::Prepared(_)) => true,
            (WaylandStage::Sleep, WaylandOutcomeOf::Polled(_)) => true,
            (WaylandStage::Read { .. }, WaylandOutcomeOf::Read(_)) => true,
            (WaylandStage::DrainWake, WaylandOutcomeOf::WakeDrained) => true,
            _ => false,
        }
    }
}

/// Turns the Wayland loop: what it does after `stage`, given what came of that. It ends when
/// dispatching, flushing, polling or reading fails.
pub fn run_wayland_event_loop(stage: WaylandStage, outcome: WaylandOutcome) -> (next: Result<
    WaylandStage,
    String,
>)
    requires
        stage.fits(outcome@),
    ensures
        result_view(next) == stage.next(outcome@),
{
    match (stage, outcome) {
        (WaylandStage::TakeRequest { worked }, WaylandOutcomeOf::Taken(taken)) => match taken {
            Taken::Request => Ok(WaylandStage::SetSelection),
            Taken::Empty | Taken::Disconnected => Ok(WaylandStage::Dispatch { worked }),
        },
        (WaylandStage::SetSelection, _) => Ok(WaylandStage::TakeRequest { worked: true }),
        (WaylandStage::Dispatch { worked }, WaylandOutcomeOf::Dispatched(result)) => {
            match result {
                Ok(count) => Ok(WaylandStage::Flush { worked: worked || count > 0 }),
                Err(error) => Err(text::failure_message("Wayland dispatch error", error.as_str())),
            }
        },
        (WaylandStage::Flush { worked }, WaylandOutcomeOf::Flushed(result)) => match result {
            Ok(_) => {
                if worked {
                    Ok(WaylandStage::start())
                } else {
                    Ok(WaylandStage::PrepareRead)
                }
            },
            Err(error) => Err(text::failure_message("Wayland flush error", error.as_str())),
        },
        (WaylandStage::PrepareRead, WaylandOutcomeOf::Prepared(prepared)) => {
            if prepared {
                Ok(WaylandStage::Sleep)
            } else {
                Ok(WaylandStage::start())
            }
        },
        (WaylandStage::Sleep, WaylandOutcomeOf::Polled(result)) => match result {
            Ok((own, wake)) => {
                if is_ready(own) {
                    Ok(WaylandStage::Read { wake: is_ready(wake) })
                } else {
                    Ok(WaylandStage::close(is_ready(wake)))
                }
            },
            Err(error) => Err(
                text::failure_message("Failed to poll Wayland event fds", error.as_str()),
            ),
        },
        (WaylandStage::Read { wake }, WaylandOutcomeOf::Read(result)) => match result {
            Ok(_) => Ok(WaylandStage::DispatchRead { wake }),
            Err(error) => Err(text::failure_message("Wayland read error", error.as_str())),
        },
        (WaylandStage::DispatchRead { wake }, WaylandOutcomeOf::Dispatched(result)) => {
            match result {
                Ok(_) => Ok(WaylandStage::close(wake)),
                Err(error) => Err(text::failure_message("Wayland dispatch error", error.as_str())),
            }
        },
        _ => Ok(WaylandStage::start()),
    }
}

/// The stage that the X11 loop comes to from `stage` when `outcomes` come one after the other, if
/// it does not end.
pub open spec fn x11_stage_after(stage: X11Stage, outcomes: Seq<X11OutcomeView>) -> Option<X11Stage>
    decreases outcomes.len(),
{
    if outcomes.len() == 0 {
        Some(stage)
    } else {
        match x11_stage_after(stage, outcomes.drop_last()) {
            Some(last) => match last.next(outcomes.last()) {
                Ok(next) if last.fits(outcomes.last()) => Some(next),
                _ => None,
            },
            None => None,
        }
    }
}

/// The X11 loop is idle only if nothing has come since the round began: it sleeps only after a
/// round in which it found no request and no event.
pub proof fn law_x11_loop_sleeps_only_when_idle(outcomes: Seq<X11OutcomeView>)
    requires
        forall|n: int|
            0 < n < outcomes.len() ==> #[trigger] x11_stage_after(
                X11Stage::round(),
                outcomes.take(n),
            ) != Some(X11Stage::round()),
    ensures
        X11Stage::Sleep.idle(),
        x11_stage_after(X11Stage::round(), outcomes) matches Some(stage) && stage.idle() && stage
            != X11Stage::round() ==> forall|i: int|
            0 <= i < outcomes.len() ==> #[trigger] outcomes[i] != X11OutcomeView::Taken(
                Taken::Request,
            ) && outcomes[i] != X11OutcomeView::Event(true),
    decreases outcomes.len(),
{
    if outcomes.len() > 0 {
        let before = outcomes.drop_last();
        assert(before =~= outcomes.take(outcomes.len() - 1));
        assert forall|n: int| 0 < n < before.len() implies #[trigger] x11_stage_after(
            X11Stage::round(),
            before.take(n),
        ) != Some(X11Stage::round()) by {
            assert(before.take(n) =~= outcomes.take(n));
        }
        law_x11_loop_sleeps_only_when_idle(before);
        assert forall|i: int|
            0 <= i < before.len() implies before[i] == #[trigger] outcomes[i] by {}
    }
}

/// Between two sleeps the X11 loop begins a round, and so looks for requests and events: whatever
/// it was woken for is not slept over.
pub proof fn law_x11_loop_looks_before_it_sleeps_again(outcomes: Seq<X11OutcomeView>)
    ensures
        outcomes.len() > 0 && x11_stage_after(X11Stage::Sleep, outcomes) == Some(X11Stage::Sleep)
            ==> exists|n: int|
            0 < n < outcomes.len() && #[trigger] x11_stage_after(X11Stage::Sleep, outcomes.take(n))
                == Some(X11Stage::round()),
{
    if outcomes.len() > 0 {
        lemma_x11_loop_after_sleep(outcomes);
    }
}

proof fn lemma_x11_loop_after_sleep(outcomes: Seq<X11OutcomeView>)
    requires
        outcomes.len() > 0,
    ensures
        x11_stage_after(X11Stage::Sleep, outcomes) matches Some(stage) ==> stage
            == X11Stage::round() || stage is DrainWake || exists|n: int|
            0 < n < outcomes.len() && #[trigger] x11_stage_after(X11Stage::Sleep, outcomes.take(n))
                == Some(X11Stage::round()),
    decreases outcomes.len(),
{
    let round = Some(X11Stage::round());
    let before = outcomes.drop_last();
    assert(before =~= outcomes.take(outcomes.len() - 1));
    if before.len() > 0 {
        lemma_x11_loop_after_sleep(before);
        if exists|n: int|
            0 < n < before.len() && #[trigger] x11_stage_after(X11Stage::Sleep, before.take(n))
                == round {
            let n = choose|n: int|
                0 < n < before.len() && #[trigger] x11_stage_after(X11Stage::Sleep, before.take(n))
                    == round;
            assert(before.take(n) =~= outcomes.take(n));
            assert(x11_stage_after(X11Stage::Sleep, outcomes.take(n)) == round);
        } else if x11_stage_after(X11Stage::Sleep, before) == round {
            let n = outcomes.len() - 1;
            assert(x11_stage_after(X11Stage::Sleep, outcomes.take(n)) == round);
        }
    } else {
        assert(x11_stage_after(X11Stage::Sleep, before) == Some(X11Stage::Sleep));
    }
}

/// The stage that the Wayland loop comes to from `stage` when `outcomes` come one after the other,
/// if it does not end.
pub open spec fn wayland_stage_after(
    stage: WaylandStage,
    outcomes: Seq<WaylandOutcomeView>,
) -> Option<WaylandStage>
    decreases outcomes.len(),
{
    if outcomes.len() == 0 {
        Some(stage)
    } else {
        match wayland_stage_after(stage, outcomes.drop_last()) {
            Some(last) => match last.next(outcomes.last()) {
                Ok(next) if last.fits(outcomes.last()) => Some(next),
                _ => None,
            },
            None => None,
        }
    }
}

/// The Wayland loop is idle only if nothing has come since the round began: it sleeps only after a
/// round in which it found no request and dispatched no event.
pub proof fn law_wayland_loop_sleeps_only_when_idle(outcomes: Seq<WaylandOutcomeView>)
    requires
        forall|n: int|
            0 < n < outcomes.len() ==> #[trigger] wayland_stage_after(
                WaylandStage::round(),
                outcomes.take(n),
            ) != Some(WaylandStage::round()),
    ensures
        WaylandStage::Sleep.idle(),
        wayland_stage_after(WaylandStage::round(), outcomes) matches Some(stage) && stage.idle()
            && stage != WaylandStage::round() ==> forall|i: int|
            0 <= i < outcomes.len() ==> #[trigger] outcomes[i] != WaylandOutcomeView::Taken(
                Taken::Request,
            ) && (outcomes[i] matches WaylandOutcomeOf::Dispatched(Ok(count)) ==> count == 0),
    decreases outcomes.len(),
{
    if outcomes.len() > 0 {
        let before = outcomes.drop_last();
        assert(before =~= outcomes.take(outcomes.len() - 1));
        assert forall|n: int| 0 < n < before.len() implies #[trigger] wayland_stage_after(
            WaylandStage::round(),
            before.take(n),
        ) != Some(WaylandStage::round()) by {
            assert(before.take(n) =~= outcomes.take(n));
        }
        law_wayland_loop_sleeps_only_when_idle(before);
        assert forall|i: int|
            0 <= i < before.len() implies before[i] == #[trigger] outcomes[i] by {}
    }
}

/// Between two sleeps the Wayland loop begins a round, and so looks for requests and events:
/// whatever it was woken for is not slept over.
pub proof fn law_wayland_loop_looks_before_it_sleeps_again(outcomes: Seq<WaylandOutcomeView>)
    ensures
        outcomes.len() > 0 && wayland_stage_after(WaylandStage::Sleep, outcomes) == Some(
            WaylandStage::Sleep,
        ) ==> exists|n: int|
            0 < n < outcomes.len() && #[trigger] wayland_stage_after(
                WaylandStage::Sleep,
                outcomes.take(n),
            ) == Some(WaylandStage::round()),
{
    if outcomes.len() > 0 {
        lemma_wayland_loop_after_sleep(outcomes);
    }
}

proof fn lemma_wayland_loop_after_sleep(outcomes: Seq<WaylandOutcomeView>)
    requires
        outcomes.len() > 0,
    ensures
        wayland_stage_after(WaylandStage::Sleep, outcomes) matches Some(stage) ==> stage
            == WaylandStage::round() || stage is Read || stage is DispatchRead || stage is DrainWake
            || exists|n: int|
            0 < n < outcomes.len() && #[trigger] wayland_stage_after(
                WaylandStage::Sleep,
                outcomes.take(n),
            ) == Some(WaylandStage::round()),
    decreases outcomes.len(),
{
    let round = Some(WaylandStage::round());
    let before = outcomes.drop_last();
    assert(before =~= outcomes.take(outcomes.len() - 1));
    if before.len() > 0 {
        lemma_wayland_loop_after_sleep(before);
        if exists|n: int|
            0 < n < before.len() && #[trigger] wayland_stage_after(
                WaylandStage::Sleep,
                before.take(n),
            ) == round {
            let n = choose|n: int|
                0 < n < before.len() && #[trigger] wayland_stage_after(
                    WaylandStage::Sleep,
                    before.take(n),
                ) == round;
            assert(before.take(n) =~= outcomes.take(n));
            assert(wayland_stage_after(WaylandStage::Sleep, outcomes.take(n)) == round);
        } else if wayland_stage_after(WaylandStage::Sleep, before) == round {
            let n = outcomes.len() - 1;
            assert(wayland_stage_after(WaylandStage::Sleep, outcomes.take(n)) == round);
        }
    } else {
        assert(wayland_stage_after(WaylandStage::Sleep, before) == Some(WaylandStage::Sleep));
    }
}

/// A file descriptor needs attention exactly if polling found at least one of the three events.
pub proof fn law_when_attention_is_needed(readable: bool, error: bool, hangup: bool)
    ensures
        ready(Some(PollEvents { readable, error, hangup })) <==> readable || error || hangup,
        !ready(None),
{
}

/// A round of the X11 loop begins with the requests to set a selection. It takes all of them before
/// it looks for an event, and what it has done so far is not forgotten on the way.
pub proof fn law_x11_loop_takes_requests_first(worked: bool)
    ensures
        X11Stage::round() == (X11Stage::TakeRequest { worked: false }),
        (X11Stage::TakeRequest { worked }).next(X11OutcomeOf::Taken(Taken::Request)) == Ok::<
            X11Stage,
            Seq<char>,
        >(X11Stage::SetSelection),
        X11Stage::SetSelection.next(X11OutcomeOf::Handled(Ok(()))) == Ok::<X11Stage, Seq<char>>(
            X11Stage::TakeRequest { worked: true },
        ),
        (X11Stage::TakeRequest { worked }).next(X11OutcomeOf::Taken(Taken::Empty)) == Ok::<
            X11Stage,
            Seq<char>,
        >(X11Stage::TakeEvent { worked }),
        (X11Stage::TakeRequest { worked }).next(X11OutcomeOf::Taken(Taken::Disconnected)) == Ok::<
            X11Stage,
            Seq<char>,
        >(X11Stage::TakeEvent { worked }),
{
}

/// Then the X11 loop handles all events there are, and flushes.
pub proof fn law_x11_loop_handles_all_events(worked: bool)
    ensures
        (X11Stage::TakeEvent { worked }).next(X11OutcomeOf::Event(true)) == Ok::<
            X11Stage,
            Seq<char>,
        >(X11Stage::HandleEvent),
        X11Stage::HandleEvent.next(X11OutcomeOf::Handled(Ok(()))) == Ok::<X11Stage, Seq<char>>(
            X11Stage::TakeEvent { worked: true },
        ),
        (X11Stage::TakeEvent { worked }).next(X11OutcomeOf::Event(false)) == Ok::<
            X11Stage,
            Seq<char>,
        >(X11Stage::Flush { worked }),
{
}

/// After flushing, whether that has worked or not, the X11 loop begins another round if it has done
/// anything in this one, and sleeps otherwise. When it wakes up it empties the wake pipe if that
/// needs attention, and begins a round.
pub proof fn law_x11_loop_sleeps_and_wakes(
    flushed: Result<(), Seq<char>>,
    own: Option<PollEvents>,
    wake: Option<PollEvents>,
)
    ensures
        (X11Stage::Flush { worked: true }).next(X11OutcomeOf::Flushed(flushed)) == Ok::<
            X11Stage,
            Seq<char>,
        >(X11Stage::TakeRequest { worked: false }),
        (X11Stage::Flush { worked: false }).next(X11OutcomeOf::Flushed(flushed)) == Ok::<
            X11Stage,
            Seq<char>,
        >(X11Stage::Sleep),
        X11Stage::Sleep.next(X11OutcomeOf::Polled(Ok((own, wake)))) == Ok::<X11Stage, Seq<char>>(
            match wake {
                Some(events) if events.readable || events.error || events.hangup => {
                    X11Stage::DrainWake
                },
                _ => X11Stage::TakeRequest { worked: false },
            },
        ),
        X11Stage::DrainWake.next(X11OutcomeOf::WakeDrained) == Ok::<X11Stage, Seq<char>>(
            X11Stage::TakeRequest { worked: false },
        ),
{
}

/// The X11 loop ends in three ways only: setting a selection fails, handling an event fails, each
/// with its own error, or polling fails.
pub proof fn law_x11_loop_ends_with_an_error(
    stage: X11Stage,
    outcome: X11OutcomeView,
    error: Seq<char>,
)
    requires
        stage.fits(outcome),
    ensures
        X11Stage::SetSelection.next(X11OutcomeOf::Handled(Err(error))) == Err::<
            X11Stage,
            Seq<char>,
        >(error),
        X11Stage::HandleEvent.next(X11OutcomeOf::Handled(Err(error))) == Err::<X11Stage, Seq<char>>(
            error,
        ),
        X11Stage::Sleep.next(X11OutcomeOf::Polled(Err(error))) == Err::<X11Stage, Seq<char>>(
            "Failed to poll X11 event fds"@ + ": "@ + error,
        ),
        stage.next(outcome) is Err ==> outcome is Handled || outcome is Polled,
{
}

/// Each stage of the X11 loop has its own outcome.
pub proof fn law_x11_outcomes(stage: X11Stage, outcome: X11OutcomeView)
    ensures
        stage.fits(outcome) <==> match outcome {
            X11OutcomeOf::Taken(_) => stage is TakeRequest,
            X11OutcomeOf::Handled(_) => stage is SetSelection || stage is HandleEvent,
            X11OutcomeOf::Event(_) => stage is TakeEvent,
            X11OutcomeOf::Flushed(_) => stage is Flush,
            X11OutcomeOf::Polled(_) => stage is Sleep,
            X11OutcomeOf::WakeDrained => stage is DrainWake,
        },
{
}

/// A round of the Wayland loop begins with the requests to set a selection. It takes all of them
/// before it dispatches events, and what it has done so far is not forgotten on the way.
pub proof fn law_wayland_loop_takes_requests_first(worked: bool, count: usize)
    ensures
        WaylandStage::round() == (WaylandStage::TakeRequest { worked: false }),
        (WaylandStage::TakeRequest { worked }).next(WaylandOutcomeOf::Taken(Taken::Request))
            == Ok::<WaylandStage, Seq<char>>(WaylandStage::SetSelection),
        WaylandStage::SetSelection.next(WaylandOutcomeOf::SelectionSet) == Ok::<
            WaylandStage,
            Seq<char>,
        >(WaylandStage::TakeRequest { worked: true }),
        (WaylandStage::TakeRequest { worked }).next(WaylandOutcomeOf::Taken(Taken::Empty)) == Ok::<
            WaylandStage,
            Seq<char>,
        >(WaylandStage::Dispatch { worked }),
        (WaylandStage::TakeRequest { worked }).next(WaylandOutcomeOf::Taken(Taken::Disconnected))
            == Ok::<WaylandStage, Seq<char>>(WaylandStage::Dispatch { worked }),
        (WaylandStage::Dispatch { worked }).next(WaylandOutcomeOf::Dispatched(Ok(count))) == Ok::<
            WaylandStage,
            Seq<char>,
        >(WaylandStage::Flush { worked: worked || count != 0 }),
{
}

/// After flushing, the Wayland loop begins another round if it has done anything in this one. It
/// prepares to read otherwise, and sleeps only if that is possible.
pub proof fn law_wayland_loop_sleeps()
    ensures
        (WaylandStage::Flush { worked: true }).next(WaylandOutcomeOf::Flushed(Ok(()))) == Ok::<
            WaylandStage,
            Seq<char>,
        >(WaylandStage::TakeRequest { worked: false }),
        (WaylandStage::Flush { worked: false }).next(WaylandOutcomeOf::Flushed(Ok(()))) == Ok::<
            WaylandStage,
            Seq<char>,
        >(WaylandStage::PrepareRead),
        WaylandStage::PrepareRead.next(WaylandOutcomeOf::Prepared(true)) == Ok::<
            WaylandStage,
            Seq<char>,
        >(WaylandStage::Sleep),
        WaylandStage::PrepareRead.next(WaylandOutcomeOf::Prepared(false)) == Ok::<
            WaylandStage,
            Seq<char>,
        >(WaylandStage::TakeRequest { worked: false }),
{
}

/// When the Wayland loop wakes up it reads and dispatches if the connection needs attention, then
/// empties the wake pipe if that does, and then begins a round.
pub proof fn law_wayland_loop_wakes(
    own: Option<PollEvents>,
    wake: Option<PollEvents>,
    count: usize,
)
    ensures
        ({
            let reading = own matches Some(events) && (events.readable || events.error
                || events.hangup);
            let draining = wake matches Some(events) && (events.readable || events.error
                || events.hangup);
            let last = if draining {
                WaylandStage::DrainWake
            } else {
                WaylandStage::TakeRequest { worked: false }
            };
            &&& WaylandStage::Sleep.next(WaylandOutcomeOf::Polled(Ok((own, wake)))) == Ok::<
                WaylandStage,
                Seq<char>,
            >(
                if reading {
                    WaylandStage::Read { wake: draining }
                } else {
                    last
                },
            )
            &&& (WaylandStage::Read { wake: draining }).next(WaylandOutcomeOf::Read(Ok(())))
                == Ok::<WaylandStage, Seq<char>>(WaylandStage::DispatchRead { wake: draining })
            &&& (WaylandStage::DispatchRead { wake: draining }).next(
                WaylandOutcomeOf::Dispatched(Ok(count)),
            ) == Ok::<WaylandStage, Seq<char>>(last)
        }),
        (WaylandStage::Read { wake: true }).next(WaylandOutcomeOf::Read(Ok(()))) == Ok::<
            WaylandStage,
            Seq<char>,
        >(WaylandStage::DispatchRead { wake: true }),
        (WaylandStage::Read { wake: false }).next(WaylandOutcomeOf::Read(Ok(()))) == Ok::<
            WaylandStage,
            Seq<char>,
        >(WaylandStage::DispatchRead { wake: false }),
        (WaylandStage::DispatchRead { wake: true }).next(WaylandOutcomeOf::Dispatched(Ok(count)))
            == Ok::<WaylandStage, Seq<char>>(WaylandStage::DrainWake),
        (WaylandStage::DispatchRead { wake: false }).next(WaylandOutcomeOf::Dispatched(Ok(count)))
            == Ok::<WaylandStage, Seq<char>>(WaylandStage::TakeRequest { worked: false }),
        WaylandStage::DrainWake.next(WaylandOutcomeOf::WakeDrained) == Ok::<
            WaylandStage,
            Seq<char>,
        >(WaylandStage::TakeRequest { worked: false }),
{
}

/// The Wayland loop ends when dispatching, flushing, polling or reading fails, and says which.
pub proof fn law_wayland_loop_ends_with_an_error(worked: bool, wake: bool, error: Seq<char>)
    ensures
        (WaylandStage::Dispatch { worked }).next(WaylandOutcomeOf::Dispatched(Err(error))) == Err::<
            WaylandStage,
            Seq<char>,
        >("Wayland dispatch error"@ + ": "@ + error),
        (WaylandStage::Flush { worked }).next(WaylandOutcomeOf::Flushed(Err(error))) == Err::<
            WaylandStage,
            Seq<char>,
        >("Wayland flush error"@ + ": "@ + error),
        WaylandStage::Sleep.next(WaylandOutcomeOf::Polled(Err(error))) == Err::<
            WaylandStage,
            Seq<char>,
        >("Failed to poll Wayland event fds"@ + ": "@ + error),
        (WaylandStage::Read { wake }).next(WaylandOutcomeOf::Read(Err(error))) == Err::<
            WaylandStage,
            Seq<char>,
        >("Wayland read error"@ + ": "@ + error),
        (WaylandStage::DispatchRead { wake }).next(WaylandOutcomeOf::Dispatched(Err(error)))
            == Err::<WaylandStage, Seq<char>>("Wayland dispatch error"@ + ": "@ + error),
{
}

/// Each stage of the Wayland loop has its own outcome.
pub proof fn law_wayland_outcomes(stage: WaylandStage, outcome: WaylandOutcomeView)
    ensures
        stage.fits(outcome) <==> match outcome {
            WaylandOutcomeOf::Taken(_) => stage is TakeRequest,
            WaylandOutcomeOf::SelectionSet => stage is SetSelection,
            WaylandOutcomeOf::Dispatched(_) => stage is Dispatch || stage is DispatchRead,
            WaylandOutcomeOf::Flushed(_) => stage is Flush,
            WaylandOutcomeOf::Prepared(_) => stage is PrepareRead,
            WaylandOutcomeOf::Polled(_) => stage is Sleep,
            WaylandOutcomeOf::Read(_) => stage is Read,
            WaylandOutcomeOf::WakeDrained => stage is DrainWake,
        },
{
}

/// The plain values of a result leave nothing out.
pub proof fn law_view_of_a_result<T>(result: Result<T, String>)
    ensures
        match result {
            Ok(value) => result_view(result) == Ok::<T, Seq<char>>(value),
            Err(error) => result_view(result) == Err::<T, Seq<char>>(error@),
        },
{
}

/// The plain values of the outcomes leave nothing out.
pub proof fn law_view_of_an_outcome(x11: X11Outcome, wayland: WaylandOutcome)
    ensures
        match x11 {
            X11OutcomeOf::Taken(taken) => x11@ == X11OutcomeView::Taken(taken),
            X11OutcomeOf::Handled(result) => x11@ == X11OutcomeView::Handled(result_view(result)),
            X11OutcomeOf::Event(found) => x11@ == X11OutcomeView::Event(found),
            X11OutcomeOf::Flushed(result) => x11@ == X11OutcomeView::Flushed(result_view(result)),
            X11OutcomeOf::Polled(result) => x11@ == X11OutcomeView::Polled(result_view(result)),
            X11OutcomeOf::WakeDrained => x11@ == X11OutcomeView::WakeDrained,
        },
        match wayland {
            WaylandOutcomeOf::Taken(taken) => wayland@ == WaylandOutcomeView::Taken(taken),
            WaylandOutcomeOf::SelectionSet => wayland@ == WaylandOutcomeView::SelectionSet,
            WaylandOutcomeOf::Dispatched(result) => wayland@ == WaylandOutcomeView::Dispatched(
                result_view(result),
            ),
            WaylandOutcomeOf::Flushed(result) => wayland@ == WaylandOutcomeView::Flushed(
                result_view(result),
            ),
            WaylandOutcomeOf::Prepared(prepared) => wayland@ == WaylandOutcomeView::Prepared(
                prepared,
            ),
            WaylandOutcomeOf::Polled(result) => wayland@ == WaylandOutcomeView::Polled(
                result_view(result),
            ),
            WaylandOutcomeOf::Read(result) => wayland@ == WaylandOutcomeView::Read(
                result_view(result),
            ),
            WaylandOutcomeOf::WakeDrained => wayland@ == WaylandOutcomeView::WakeDrained,
        },
{
}

} // verus!
