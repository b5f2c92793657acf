use clip_bridge::x11::atoms::{AtomTable, ATOM_NAMES};
use clip_bridge::x11::protocol::{AskOf, Query, ReplyOf, Request, RequestOf, WindowAttributes};
use clip_bridge::x11::setup::{
    Screen, SetupStageOf, SetupStep, COPY_FROM_PARENT, SELECTION_EVENTS, WINDOW_EVENTS,
};
use clip_bridge::x11::{protocol, X11Setup, X11State};
use clip_bridge::{
    CLIPBOARD_ATOM, IMAGE_MIME_TYPES, INCR_ATOM, MULTIPLE_ATOM, PRIMARY_ATOM, TARGETS_ATOM,
    TEXT_PLAIN_ATOM, TEXT_PLAIN_UTF8_ATOM, UTF8_STRING_ATOM,
};
use x11rb::protocol::xfixes::SelectionEventMask;
use x11rb::protocol::xproto::{AtomEnum, EventMask, Property, WindowClass};

const WINDOW: u32 = 77;
const SCREEN: Screen = Screen { root: 5, root_depth: 24, root_visual: 33 };

/// Prepares against a server that numbers atoms from 101 on and fails at the exchange of the
/// given number, if there is one. Gives the requests that were sent, too.
fn prepare(failing: Option<usize>) -> (Vec<Request>, Result<X11State, String>) {
    let mut sent = Vec::new();
    let mut atom = 100;
    let mut number = 0;
    let mut step = X11Setup::start(SCREEN);
    loop {
        let fails = failing == Some(number);
        number += 1;
        let (setup, reply) = match step {
            SetupStep::Done(result) => return (sent, result),
            SetupStep::Run { commands, setup } => {
                let message = commands[0].failure_message("broken");
                sent.extend(commands.into_iter().map(|command| command.request));
                (setup, if fails { ReplyOf::Failed(message) } else { ReplyOf::Done })
            }
            SetupStep::Ask { query, setup } => {
                let message = query.reply_failure_message("broken");
                let reply = match query.ask {
                    _ if fails => ReplyOf::Failed(message),
                    AskOf::GenerateId => ReplyOf::Id(WINDOW),
                    AskOf::XfixesVersion { major: 5, minor: 0 } => ReplyOf::Version,
                    AskOf::InternAtom { .. } => {
                        atom += 1;
                        ReplyOf::Atom(atom)
                    }
                    other => panic!("{other:?}"),
                };
                (setup, reply)
            }
        };
        assert!(setup.accepts(&reply));
        step = setup.resume(reply);
    }
}

#[test]
fn test_x11_state_initialization() {
    let (_, x11_state) = prepare(None);
    assert!(x11_state.is_ok(), "Failed to initialize X11State");
}

#[test]
fn test_atom_interning() {
    let (_, x11_state) = prepare(None);
    let x11_state = x11_state.unwrap();

    // Test that all required atoms are interned
    let mut required_atoms = vec![
        CLIPBOARD_ATOM,
        PRIMARY_ATOM,
        TARGETS_ATOM,
        MULTIPLE_ATOM,
        INCR_ATOM,
        UTF8_STRING_ATOM,
        TEXT_PLAIN_UTF8_ATOM,
        TEXT_PLAIN_ATOM,
    ];
    required_atoms.extend_from_slice(&IMAGE_MIME_TYPES);

    for atom_name in required_atoms {
        assert!(x11_state.get_atom(atom_name).is_some(), "Atom {} not interned", atom_name);
    }
}

#[test]
fn every_name_has_the_atom_that_was_told_for_it() {
    let state = prepare(None).1.unwrap();
    assert_eq!(state.window, WINDOW);
    assert!(state.knows_all_atoms());
    for (i, name) in ATOM_NAMES.iter().enumerate() {
        assert_eq!(state.get_atom(name), Some(101 + i as u32));
    }
    assert_eq!(state.get_atom("STRING"), None);
    assert_eq!(state.get_atom("TEXT"), None);
}

#[test]
fn a_hidden_window_is_made_and_both_selections_are_watched() {
    let (sent, _) = prepare(None);
    assert_eq!(sent.len(), 5);
    match &sent[0] {
        RequestOf::CreateWindow(attributes) => assert_eq!(
            *attributes,
            WindowAttributes {
                depth: 24,
                window: WINDOW,
                parent: 5,
                x: 0,
                y: 0,
                width: 1,
                height: 1,
                border_width: 0,
                class: COPY_FROM_PARENT,
                visual: 33,
                event_mask: WINDOW_EVENTS,
            }
        ),
        other => panic!("{other:?}"),
    }
    assert!(matches!(sent[1], RequestOf::Flush));
    assert!(matches!(
        sent[2],
        RequestOf::SelectSelectionInput {
            window: WINDOW,
            selection: 101,
            event_mask: SELECTION_EVENTS
        }
    ));
    assert!(matches!(
        sent[3],
        RequestOf::SelectSelectionInput { window: WINDOW, selection: 1, event_mask: SELECTION_EVENTS }
    ));
    assert!(matches!(sent[4], RequestOf::Flush));
}

#[test]
fn a_failed_exchange_ends_the_preparations() {
    let error = |number: usize| prepare(Some(number)).1.unwrap_err();
    assert_eq!(error(0), "Failed to generate window ID: broken");
    assert_eq!(error(1), "Failed to create window: broken");
    assert_eq!(error(2), "Failed to get XFixes version reply: broken");
    assert_eq!(error(3), "Failed to get atom reply for CLIPBOARD: broken");
    assert_eq!(error(13), "Failed to get atom reply for image/jpg: broken");
    assert_eq!(error(14), "Failed to select XFixes clipboard input: broken");
}

#[test]
fn a_question_that_cannot_be_put_is_told_apart() {
    let query = Query {
        ask: AskOf::GenerateId,
        send_failure: "sending".to_string(),
        reply_failure: "answering".to_string(),
    };
    assert_eq!(query.send_failure_message("x"), "sending: x");
    assert_eq!(query.reply_failure_message("x"), "answering: x");
}

#[test]
fn replies_of_other_stages_do_not_fit() {
    match X11Setup::start(SCREEN) {
        SetupStep::Ask { setup, .. } => {
            assert!(setup.accepts(&ReplyOf::Id(1)));
            assert!(setup.accepts(&ReplyOf::Failed(String::new())));
            assert!(!setup.accepts(&ReplyOf::Done));
            assert!(!setup.accepts(&ReplyOf::Atom(1)));
        }
        other => panic!("{other:?}"),
    }
}

#[test]
fn preparations_that_cannot_be_taken_up_accept_nothing() {
    let setup = X11Setup {
        screen: SCREEN,
        stage: SetupStageOf::Select { window: WINDOW, atoms: AtomTable::new() },
    };
    assert!(!setup.accepts(&ReplyOf::Done));
    let mut atoms = AtomTable::new();
    atoms.insert(CLIPBOARD_ATOM, 101);
    assert!(atoms.knows_first(0));
    assert!(atoms.knows_first(1));
    assert!(!atoms.knows_first(2));
    assert!(!atoms.knows_first(usize::MAX));
    let setup = X11Setup {
        screen: SCREEN,
        stage: SetupStageOf::Intern { window: WINDOW, atoms, index: 2 },
    };
    assert!(!setup.accepts(&ReplyOf::Atom(1)));
}

#[test]
fn the_last_atom_of_a_name_counts() {
    let mut table = AtomTable::new();
    assert_eq!(table.get("A"), None);
    table.insert("A", 1);
    table.insert("B", 2);
    table.insert("A", 3);
    assert_eq!(table.get("A"), Some(3));
    assert_eq!(table.get("B"), Some(2));
    assert_eq!(table.get("a"), None);
}

#[test]
fn numbers_are_those_of_the_protocol() {
    assert_eq!(protocol::ATOM_NONE, u32::from(AtomEnum::NONE));
    assert_eq!(protocol::ATOM_ANY, u32::from(AtomEnum::ANY));
    assert_eq!(protocol::ATOM_PRIMARY, u32::from(AtomEnum::PRIMARY));
    assert_eq!(protocol::ATOM_ATOM, u32::from(AtomEnum::ATOM));
    assert_eq!(protocol::WINDOW_NONE, x11rb::NONE);
    assert_eq!(protocol::CURRENT_TIME, x11rb::CURRENT_TIME);
    assert_eq!(
        protocol::SELECTION_NOTIFY_EVENT,
        x11rb::protocol::xproto::SELECTION_NOTIFY_EVENT
    );
    assert_eq!(protocol::PROPERTY_NEW_VALUE, u8::from(Property::NEW_VALUE));
    assert_eq!(COPY_FROM_PARENT, u16::from(WindowClass::COPY_FROM_PARENT));
    assert_eq!(
        WINDOW_EVENTS,
        u32::from(EventMask::PROPERTY_CHANGE | EventMask::STRUCTURE_NOTIFY)
    );
    assert_eq!(
        SELECTION_EVENTS,
        u32::from(
            SelectionEventMask::SET_SELECTION_OWNER
                | SelectionEventMask::SELECTION_WINDOW_DESTROY
                | SelectionEventMask::SELECTION_CLIENT_CLOSE
        )
    );
}
