use clip_bridge::event_loop::{
    is_ready, run_wayland_event_loop, PollEvents, Taken, WaylandOutcome, WaylandOutcomeOf,
    WaylandStage, X11Outcome, X11OutcomeOf, X11Stage,
};
use clip_bridge::x11::X11State;

const QUIET: PollEvents = PollEvents { readable: false, error: false, hangup: false };
const READABLE: PollEvents = PollEvents { readable: true, error: false, hangup: false };

fn x11(stage: X11Stage, outcome: X11Outcome) -> Result<X11Stage, String> {
    assert!(stage.accepts(&outcome));
    X11State::run_event_loop(stage, outcome)
}

fn wayland(stage: WaylandStage, outcome: WaylandOutcome) -> Result<WaylandStage, String> {
    assert!(stage.accepts(&outcome));
    run_wayland_event_loop(stage, outcome)
}

#[test]
fn any_of_three_events_needs_attention() {
    assert!(is_ready(Some(READABLE)));
    assert!(is_ready(Some(PollEvents { error: true, ..QUIET })));
    assert!(is_ready(Some(PollEvents { hangup: true, ..QUIET })));
    assert!(!is_ready(Some(QUIET)));
    assert!(!is_ready(None));
}

#[test]
fn the_x11_loop_sleeps_after_an_idle_round() {
    let stage = X11Stage::start();
    assert_eq!(stage, X11Stage::TakeRequest { worked: false });
    let stage = x11(stage, X11OutcomeOf::Taken(Taken::Empty)).unwrap();
    assert_eq!(stage, X11Stage::TakeEvent { worked: false });
    let stage = x11(stage, X11OutcomeOf::Event(false)).unwrap();
    assert_eq!(stage, X11Stage::Flush { worked: false });
    let stage = x11(stage, X11OutcomeOf::Flushed(Err("broken".to_string()))).unwrap();
    assert_eq!(stage, X11Stage::Sleep);
    let woken = x11(stage, X11OutcomeOf::Polled(Ok((None, Some(READABLE))))).unwrap();
    assert_eq!(woken, X11Stage::DrainWake);
    assert_eq!(x11(woken, X11OutcomeOf::WakeDrained).unwrap(), X11Stage::start());
    let readable = x11(stage, X11OutcomeOf::Polled(Ok((Some(READABLE), Some(QUIET))))).unwrap();
    assert_eq!(readable, X11Stage::start());
}

#[test]
fn the_x11_loop_turns_again_after_work() {
    let stage = x11(X11Stage::start(), X11OutcomeOf::Taken(Taken::Request)).unwrap();
    assert_eq!(stage, X11Stage::SetSelection);
    let stage = x11(stage, X11OutcomeOf::Handled(Ok(()))).unwrap();
    assert_eq!(stage, X11Stage::TakeRequest { worked: true });
    let stage = x11(stage, X11OutcomeOf::Taken(Taken::Disconnected)).unwrap();
    assert_eq!(stage, X11Stage::TakeEvent { worked: true });
    let stage = x11(stage, X11OutcomeOf::Event(true)).unwrap();
    assert_eq!(stage, X11Stage::HandleEvent);
    let stage = x11(stage, X11OutcomeOf::Handled(Ok(()))).unwrap();
    assert_eq!(stage, X11Stage::TakeEvent { worked: true });
    let stage = x11(stage, X11OutcomeOf::Event(false)).unwrap();
    assert_eq!(stage, X11Stage::Flush { worked: true });
    assert_eq!(x11(stage, X11OutcomeOf::Flushed(Ok(()))).unwrap(), X11Stage::start());
}

#[test]
fn the_x11_loop_ends_with_an_error() {
    let error = x11(X11Stage::SetSelection, X11OutcomeOf::Handled(Err("no".to_string())));
    assert_eq!(error, Err("no".to_string()));
    let error = x11(X11Stage::HandleEvent, X11OutcomeOf::Handled(Err("no".to_string())));
    assert_eq!(error, Err("no".to_string()));
    let error = x11(X11Stage::Sleep, X11OutcomeOf::Polled(Err("EBADF".to_string())));
    assert_eq!(error, Err("Failed to poll X11 event fds: EBADF".to_string()));
}

#[test]
fn outcomes_of_other_stages_are_not_accepted() {
    assert!(!X11Stage::Sleep.accepts(&X11OutcomeOf::WakeDrained));
    assert!(!WaylandStage::Sleep.accepts(&WaylandOutcomeOf::WakeDrained));
}

#[test]
fn the_wayland_loop_reads_what_has_come() {
    let stage = wayland(WaylandStage::start(), WaylandOutcomeOf::Taken(Taken::Empty)).unwrap();
    assert_eq!(stage, WaylandStage::Dispatch { worked: false });
    let stage = wayland(stage, WaylandOutcomeOf::Dispatched(Ok(0))).unwrap();
    assert_eq!(stage, WaylandStage::Flush { worked: false });
    let stage = wayland(stage, WaylandOutcomeOf::Flushed(Ok(()))).unwrap();
    assert_eq!(stage, WaylandStage::PrepareRead);
    let busy = wayland(stage, WaylandOutcomeOf::Prepared(false)).unwrap();
    assert_eq!(busy, WaylandStage::start());
    let stage = wayland(stage, WaylandOutcomeOf::Prepared(true)).unwrap();
    assert_eq!(stage, WaylandStage::Sleep);
    let stage =
        wayland(stage, WaylandOutcomeOf::Polled(Ok((Some(READABLE), Some(READABLE))))).unwrap();
    assert_eq!(stage, WaylandStage::Read { wake: true });
    let stage = wayland(stage, WaylandOutcomeOf::Read(Ok(()))).unwrap();
    assert_eq!(stage, WaylandStage::DispatchRead { wake: true });
    let stage = wayland(stage, WaylandOutcomeOf::Dispatched(Ok(3))).unwrap();
    assert_eq!(stage, WaylandStage::DrainWake);
    let stage = wayland(stage, WaylandOutcomeOf::WakeDrained).unwrap();
    assert_eq!(stage, WaylandStage::start());
}

#[test]
fn the_wayland_loop_wakes_for_requests() {
    let stage =
        wayland(WaylandStage::Sleep, WaylandOutcomeOf::Polled(Ok((None, Some(READABLE))))).unwrap();
    assert_eq!(stage, WaylandStage::DrainWake);
    let stage = wayland(WaylandStage::start(), WaylandOutcomeOf::Taken(Taken::Request)).unwrap();
    assert_eq!(stage, WaylandStage::SetSelection);
    let stage = wayland(stage, WaylandOutcomeOf::SelectionSet).unwrap();
    assert_eq!(stage, WaylandStage::TakeRequest { worked: true });
    let stage = wayland(stage, WaylandOutcomeOf::Taken(Taken::Empty)).unwrap();
    let stage = wayland(stage, WaylandOutcomeOf::Dispatched(Ok(0))).unwrap();
    assert_eq!(stage, WaylandStage::Flush { worked: true });
    let stage = wayland(stage, WaylandOutcomeOf::Flushed(Ok(()))).unwrap();
    assert_eq!(stage, WaylandStage::start());
}

#[test]
fn dispatched_events_are_work() {
    let stage = wayland(
        WaylandStage::Dispatch { worked: false },
        WaylandOutcomeOf::Dispatched(Ok(1)),
    );
    assert_eq!(stage, Ok(WaylandStage::Flush { worked: true }));
}

#[test]
fn the_wayland_loop_ends_with_an_error() {
    let gone = || "gone".to_string();
    assert_eq!(
        wayland(WaylandStage::Dispatch { worked: true }, WaylandOutcomeOf::Dispatched(Err(gone()))),
        Err("Wayland dispatch error: gone".to_string())
    );
    assert_eq!(
        wayland(WaylandStage::Flush { worked: true }, WaylandOutcomeOf::Flushed(Err(gone()))),
        Err("Wayland flush error: gone".to_string())
    );
    assert_eq!(
        wayland(WaylandStage::Sleep, WaylandOutcomeOf::Polled(Err(gone()))),
        Err("Failed to poll Wayland event fds: gone".to_string())
    );
    assert_eq!(
        wayland(WaylandStage::Read { wake: false }, WaylandOutcomeOf::Read(Err(gone()))),
        Err("Wayland read error: gone".to_string())
    );
    assert_eq!(
        wayland(
            WaylandStage::DispatchRead { wake: false },
            WaylandOutcomeOf::Dispatched(Err(gone()))
        ),
        Err("Wayland dispatch error: gone".to_string())
    );
}
