use clip_bridge::x11::atoms::{AtomTable, ATOM_NAMES};
use clip_bridge::x11::incr::{Arrived, IncrRead, INCR_POLLS};
use clip_bridge::x11::protocol::{
    Ask, AskOf, Event, Polled, PropertyNotifyEvent, Reply, ReplyOf, Request, RequestOf,
    SelectionClearEvent, SelectionNotifyEvent, SelectionRequestEvent, XfixesSelectionNotifyEvent,
};
use clip_bridge::x11::task::{FetchOf, PurposeOf, ServeOf, StageOf, Step, Task};
use clip_bridge::x11::wait::{NotifyWait, Waited, NOTIFY_POLLS};
use clip_bridge::x11::X11State;
use clip_bridge::{decode_clipboard_content, ClipboardContent, ClipboardType, SyncEvent};
use compact_str::{CompactString, ToCompactString};
use std::collections::VecDeque;
use std::sync::Arc;

const WINDOW: u32 = 77;
const OTHER: u32 = 88;

const CLIPBOARD: u32 = 101;
const TARGETS: u32 = 103;
const MULTIPLE: u32 = 104;
const INCR: u32 = 105;
const UTF8_STRING: u32 = 106;
const TEXT_UTF8: u32 = 107;
const TEXT_PLAIN: u32 = 108;
const PNG: u32 = 109;
const JPEG: u32 = 110;
const JPG: u32 = 111;

const PRIMARY: u32 = 1;
const ATOM: u32 = 4;

fn new_state() -> X11State {
    let mut atoms = AtomTable::new();
    for (i, name) in ATOM_NAMES.iter().enumerate() {
        atoms.insert(name, 101 + i as u32);
    }
    let state = X11State::new(WINDOW, atoms);
    assert!(state.knows_all_atoms());
    state
}

fn text(content: &str) -> ClipboardContent {
    ClipboardContent::Text(content.to_compact_string())
}

fn png(bytes: &[u8]) -> ClipboardContent {
    decode_clipboard_content("image/png", bytes.to_vec()).unwrap()
}

#[derive(Debug)]
enum Exchange {
    Sent(Request),
    Asked(Ask),
}

type Outcome = Result<Option<SyncEvent>, String>;

/// Carries a step through: commands are all sent, questions are answered by `replies` in order.
fn carry_out(state: &mut X11State, first: Step, replies: Vec<Reply>) -> (Vec<Exchange>, Outcome) {
    let mut replies = VecDeque::from(replies);
    let mut exchanges = Vec::new();
    let mut step = first;
    loop {
        let (task, reply) = match step {
            Step::Done(outcome) => {
                assert!(replies.is_empty(), "{replies:?}");
                return (exchanges, outcome);
            }
            Step::Run { commands, task } => {
                exchanges.extend(commands.into_iter().map(|command| Exchange::Sent(command.request)));
                (task, ReplyOf::Done)
            }
            Step::Ask { query, task } => {
                exchanges.push(Exchange::Asked(query.ask));
                (task, replies.pop_front().expect("a question without an answer"))
            }
        };
        assert!(task.accepts(&reply), "{reply:?}");
        step = state.resume(task, reply);
    }
}

/// Carries a step through that asks nothing, and gives the requests.
fn requests(state: &mut X11State, step: Step) -> Vec<Request> {
    let (exchanges, outcome) = carry_out(state, step, Vec::new());
    assert!(matches!(outcome, Ok(None)));
    exchanges
        .into_iter()
        .map(|exchange| match exchange {
            Exchange::Sent(request) => request,
            Exchange::Asked(ask) => panic!("{ask:?}"),
        })
        .collect()
}

fn hold(state: &mut X11State, content: ClipboardContent, selection: ClipboardType) {
    let step = state.set_clipboard_content(content, selection);
    requests(state, step);
}

fn request(selection: u32, target: u32, property: u32) -> SelectionRequestEvent {
    SelectionRequestEvent { time: 9, requestor: OTHER, selection, target, property }
}

fn notify(target: u32, property: u32) -> SelectionNotifyEvent {
    SelectionNotifyEvent {
        response_type: 31,
        sequence: 3,
        time: 9,
        requestor: WINDOW,
        selection: CLIPBOARD,
        target,
        property,
    }
}

fn polled(event: Event) -> Reply {
    ReplyOf::Polled(Polled::Event(event))
}

fn answered(target: u32, property: u32) -> Reply {
    polled(Event::SelectionNotify(notify(target, property)))
}

fn new_value(property: u32) -> Reply {
    polled(Event::PropertyNotify(PropertyNotifyEvent { atom: property, state: 0 }))
}

fn value(type_: u32, bytes: &[u8]) -> Reply {
    ReplyOf::Property { type_, format: 8, value: bytes.to_vec() }
}

fn list(words: &[u32]) -> Reply {
    let value = words.iter().flat_map(|word| word.to_ne_bytes()).collect();
    ReplyOf::Property { type_: ATOM, format: 32, value }
}

fn nothing(times: u32) -> Vec<Reply> {
    (0..times).map(|_| ReplyOf::Polled(Polled::Nothing)).collect()
}

/// What the notification at the end of an answer says of the property.
fn notified_property(requests: &[Request], event: SelectionRequestEvent) -> u32 {
    assert!(matches!(requests[requests.len() - 1], RequestOf::Flush));
    match requests[requests.len() - 2] {
        RequestOf::SendEvent { destination, event: sent } => {
            assert_eq!(destination, event.requestor);
            assert_eq!(
                sent,
                SelectionNotifyEvent {
                    response_type: 31,
                    sequence: 0,
                    time: event.time,
                    requestor: event.requestor,
                    selection: event.selection,
                    target: event.target,
                    property: sent.property,
                }
            );
            sent.property
        }
        ref other => panic!("{other:?}"),
    }
}

fn is_refused(state: &mut X11State, event: SelectionRequestEvent) -> bool {
    let step = state.handle_selection_request(event);
    let sent = requests(state, step);
    sent.len() == 2 && notified_property(&sent, event) == 0
}

/// The bytes that a request is answered with.
fn given_out(state: &mut X11State, event: SelectionRequestEvent) -> Vec<u8> {
    let step = state.handle_selection_request(event);
    let sent = requests(state, step);
    assert_eq!(sent.len(), 3);
    let at = notified_property(&sent, event);
    match &sent[0] {
        RequestOf::ReplaceProperty8 { window, property, type_, data } => {
            assert_eq!((*window, *property, *type_), (OTHER, at, event.target));
            data.clone()
        }
        other => panic!("{other:?}"),
    }
}

/// The targets that are told.
fn told(state: &mut X11State, selection: u32) -> Vec<u32> {
    let event = request(selection, TARGETS, 500);
    let step = state.handle_selection_request(event);
    let sent = requests(state, step);
    assert_eq!(sent.len(), 3);
    assert_eq!(notified_property(&sent, event), 500);
    match &sent[0] {
        RequestOf::ReplaceProperty32 { window, property, type_, words } => {
            assert_eq!((*window, *property, *type_), (OTHER, 500, ATOM));
            words.clone()
        }
        other => panic!("{other:?}"),
    }
}

fn is_fetched(outcome: Outcome, expected: &ClipboardContent, selection: ClipboardType) -> bool {
    match outcome {
        Ok(Some(SyncEvent::X11ToWayland { content, clipboard_type })) => {
            content == *expected && clipboard_type == selection
        }
        _ => false,
    }
}

fn asked_names(exchanges: &[Exchange]) -> Vec<String> {
    exchanges
        .iter()
        .filter_map(|exchange| match exchange {
            Exchange::Asked(AskOf::InternAtom { name }) => Some(name.clone()),
            _ => None,
        })
        .collect()
}

fn converted_targets(exchanges: &[Exchange]) -> Vec<u32> {
    exchanges
        .iter()
        .filter_map(|exchange| match exchange {
            Exchange::Sent(RequestOf::ConvertSelection {
                requestor: WINDOW, target, time: 0, ..
            }) => Some(*target),
            _ => None,
        })
        .collect()
}

fn polls(exchanges: &[Exchange]) -> usize {
    exchanges
        .iter()
        .filter(|exchange| matches!(exchange, Exchange::Asked(AskOf::Poll { delay_ms: 20 })))
        .count()
}

fn deleted(exchanges: &[Exchange]) -> Vec<u32> {
    exchanges
        .iter()
        .filter_map(|exchange| match exchange {
            Exchange::Sent(RequestOf::DeleteProperty { window: WINDOW, property }) => {
                Some(*property)
            }
            _ => None,
        })
        .collect()
}

#[test]
fn atoms_stand_for_formats() {
    let state = new_state();
    assert_eq!(state.mime_type_for_atom(PNG), Some("image/png"));
    assert_eq!(state.mime_type_for_atom(UTF8_STRING), Some("UTF8_STRING"));
    assert_eq!(state.mime_type_for_atom(TEXT_UTF8), Some("text/plain;charset=utf-8"));
    assert_eq!(state.mime_type_for_atom(TARGETS), None);
    assert_eq!(state.mime_type_for_atom(0), None);
}

#[test]
fn targets_of_a_content_are_its_formats_and_the_question() {
    let state = new_state();
    assert_eq!(
        state.target_atoms_for_content(Some(&text("a"))),
        vec![TEXT_UTF8, TEXT_PLAIN, UTF8_STRING, TARGETS]
    );
    assert_eq!(state.target_atoms_for_content(Some(&png(&[1]))), vec![PNG, TARGETS]);
    assert_eq!(state.target_atoms_for_content(Some(&ClipboardContent::Empty)), vec![TARGETS]);
    assert_eq!(state.target_atoms_for_content(None), vec![TARGETS]);
}

#[test]
fn offered_targets_are_wanted_in_order_of_preference() {
    let state = new_state();
    assert_eq!(
        state.choose_supported_targets(&[TEXT_PLAIN, 999, JPEG, UTF8_STRING]),
        vec![(JPEG, "image/jpeg"), (UTF8_STRING, "UTF8_STRING"), (TEXT_PLAIN, "text/plain")]
    );
    assert_eq!(state.choose_supported_targets(&[999]), vec![]);
}

#[test]
fn everything_is_wanted_of_an_owner_that_offers_nothing() {
    let state = new_state();
    assert_eq!(
        state.choose_supported_targets(&[]),
        vec![
            (PNG, "image/png"),
            (JPEG, "image/jpeg"),
            (JPG, "image/jpg"),
            (TEXT_UTF8, "text/plain;charset=utf-8"),
            (UTF8_STRING, "UTF8_STRING"),
            (TEXT_PLAIN, "text/plain"),
        ]
    );
}

#[test]
fn a_selection_is_taken_over() {
    let mut state = new_state();
    let step = state.set_clipboard_content(text("hi"), ClipboardType::Clipboard);
    let sent = requests(&mut state, step);
    assert_eq!(sent.len(), 4);
    match &sent[0] {
        RequestOf::ReplaceProperty8 { window, property, type_, data } => {
            assert_eq!((*window, *property, *type_), (WINDOW, TEXT_UTF8, TEXT_UTF8));
            assert_eq!(data, b"hi");
        }
        other => panic!("{other:?}"),
    }
    assert!(matches!(sent[1], RequestOf::Flush));
    assert!(matches!(
        sent[2],
        RequestOf::SetSelectionOwner { owner: WINDOW, selection: CLIPBOARD, time: 0 }
    ));
    assert!(matches!(sent[3], RequestOf::Flush));
    assert_eq!(given_out(&mut state, request(CLIPBOARD, TEXT_PLAIN, 500)), b"hi");
    assert!(is_refused(&mut state, request(PRIMARY, TEXT_PLAIN, 500)));
}

#[test]
fn the_primary_selection_has_its_own_content() {
    let mut state = new_state();
    hold(&mut state, text("one"), ClipboardType::Clipboard);
    let step = state.set_clipboard_content(png(&[7]), ClipboardType::Primary);
    let sent = requests(&mut state, step);
    assert!(matches!(
        sent[2],
        RequestOf::SetSelectionOwner { owner: WINDOW, selection: PRIMARY, time: 0 }
    ));
    assert_eq!(given_out(&mut state, request(PRIMARY, PNG, 500)), vec![7]);
    assert_eq!(given_out(&mut state, request(CLIPBOARD, UTF8_STRING, 500)), b"one");
}

#[test]
fn nothing_cannot_be_set() {
    let mut state = new_state();
    let step = state.set_clipboard_content(ClipboardContent::Empty, ClipboardType::Clipboard);
    let (_, outcome) = carry_out(&mut state, step, Vec::new());
    assert_eq!(outcome.unwrap_err(), "Cannot set empty clipboard content");
}

#[test]
fn a_format_without_an_atom_cannot_be_set() {
    let mut state = new_state();
    let content = ClipboardContent::Data {
        mime_type: CompactString::new("image/gif"),
        bytes: Arc::from(vec![1u8]),
        hash: 1,
    };
    let step = state.set_clipboard_content(content, ClipboardType::Clipboard);
    let (_, outcome) = carry_out(&mut state, step, Vec::new());
    assert_eq!(outcome.unwrap_err(), "MIME atom not interned: image/gif");
}

#[test]
fn a_selection_that_could_not_be_taken_over_is_not_held() {
    let mut state = new_state();
    match state.set_clipboard_content(text("hi"), ClipboardType::Clipboard) {
        Step::Run { commands, task } => {
            let messages: Vec<String> =
                commands.iter().map(|command| command.failure_message("gone")).collect();
            assert_eq!(
                messages,
                vec![
                    "Failed to change property: gone",
                    "Failed to flush connection: gone",
                    "Failed to set selection owner: gone",
                    "Failed to flush connection: gone",
                ]
            );
            let step = state.resume(task, ReplyOf::Failed(messages[2].clone()));
            match step {
                Step::Done(Err(error)) => {
                    assert_eq!(error, "Failed to set selection owner: gone");
                }
                other => panic!("{other:?}"),
            }
        }
        other => panic!("{other:?}"),
    }
    assert!(is_refused(&mut state, request(CLIPBOARD, TEXT_PLAIN, 500)));
}

#[test]
fn targets_are_told() {
    let mut state = new_state();
    assert_eq!(told(&mut state, CLIPBOARD), vec![TARGETS]);
    hold(&mut state, text("x"), ClipboardType::Clipboard);
    assert_eq!(told(&mut state, CLIPBOARD), vec![TEXT_UTF8, TEXT_PLAIN, UTF8_STRING, TARGETS]);
    assert_eq!(told(&mut state, PRIMARY), vec![TARGETS]);
    hold(&mut state, png(&[1]), ClipboardType::Clipboard);
    assert_eq!(told(&mut state, CLIPBOARD), vec![PNG, TARGETS]);
}

#[test]
fn told_targets_are_served() {
    let mut state = new_state();
    hold(&mut state, text("gr\u{fc}n"), ClipboardType::Clipboard);
    for target in told(&mut state, CLIPBOARD) {
        if target != TARGETS {
            let bytes = given_out(&mut state, request(CLIPBOARD, target, 500));
            assert_eq!(bytes, "gr\u{fc}n".as_bytes());
        }
    }
}

#[test]
fn what_is_not_held_is_refused() {
    let mut state = new_state();
    assert!(is_refused(&mut state, request(CLIPBOARD, TEXT_PLAIN, 500)));
    hold(&mut state, text("x"), ClipboardType::Clipboard);
    assert!(is_refused(&mut state, request(CLIPBOARD, PNG, 500)));
    assert!(is_refused(&mut state, request(CLIPBOARD, 999, 500)));
    assert!(is_refused(&mut state, request(999, TEXT_PLAIN, 500)));
}

#[test]
fn a_request_without_a_property_is_answered_in_the_target() {
    let mut state = new_state();
    hold(&mut state, text("x"), ClipboardType::Clipboard);
    let event = request(CLIPBOARD, TEXT_PLAIN, 0);
    let step = state.handle_selection_request(event);
    let sent = requests(&mut state, step);
    assert_eq!(notified_property(&sent, event), TEXT_PLAIN);
    assert!(matches!(
        sent[0],
        RequestOf::ReplaceProperty8 { window: OTHER, property: TEXT_PLAIN, type_: TEXT_PLAIN, .. }
    ));
}

#[test]
fn a_content_is_written_for_a_target() {
    let state = new_state();
    let content = text("x");
    let command = state.write_content_for_target(OTHER, 500, TARGETS, &content).unwrap();
    match &command.request {
        RequestOf::ReplaceProperty32 { words, .. } => {
            assert_eq!(*words, vec![TEXT_UTF8, TEXT_PLAIN, UTF8_STRING, TARGETS]);
        }
        other => panic!("{other:?}"),
    }
    assert_eq!(command.failure_message("e"), "Failed to change TARGETS property: e");
    let command = state.write_content_for_target(OTHER, 500, TEXT_PLAIN, &content).unwrap();
    assert_eq!(command.failure_message("e"), "Failed to change selection property: e");
    assert!(state.write_content_for_target(OTHER, 500, PNG, &content).is_none());
    assert!(state.write_content_for_target(OTHER, 500, 999, &content).is_none());
}

#[test]
fn a_multiple_request_is_answered_pair_by_pair() {
    let mut state = new_state();
    hold(&mut state, text("x"), ClipboardType::Clipboard);
    let event = request(CLIPBOARD, MULTIPLE, 500);
    let step = state.handle_selection_request(event);
    let words = [TEXT_PLAIN, 601, PNG, 602, TARGETS, 603, UTF8_STRING, 0, TEXT_UTF8];
    let (exchanges, outcome) = carry_out(&mut state, step, vec![list(&words)]);
    assert!(matches!(outcome, Ok(None)));
    assert!(matches!(
        exchanges[0],
        Exchange::Asked(AskOf::Property {
            delete: false,
            window: OTHER,
            property: 500,
            type_: ATOM,
            offset: 0,
            length: 1024
        })
    ));
    let sent: Vec<Request> = exchanges
        .into_iter()
        .filter_map(|exchange| match exchange {
            Exchange::Sent(request) => Some(request),
            Exchange::Asked(_) => None,
        })
        .collect();
    assert_eq!(sent.len(), 5);
    assert!(matches!(
        &sent[0],
        RequestOf::ReplaceProperty8 { window: OTHER, property: 601, type_: TEXT_PLAIN, data }
            if data == b"x"
    ));
    assert!(matches!(
        &sent[1],
        RequestOf::ReplaceProperty32 { window: OTHER, property: 603, type_: ATOM, .. }
    ));
    match &sent[2] {
        RequestOf::ReplaceProperty32 { window: OTHER, property: 500, type_: ATOM, words } => {
            assert_eq!(
                *words,
                vec![TEXT_PLAIN, 601, PNG, 0, TARGETS, 603, UTF8_STRING, 0, TEXT_UTF8]
            );
        }
        other => panic!("{other:?}"),
    }
    assert_eq!(notified_property(&sent, event), 500);
}

#[test]
fn a_multiple_request_without_words_is_answered_with_none() {
    let mut state = new_state();
    hold(&mut state, text("x"), ClipboardType::Clipboard);
    let event = request(CLIPBOARD, MULTIPLE, 500);
    let step = state.handle_selection_request(event);
    let (exchanges, outcome) =
        carry_out(&mut state, step, vec![value(ATOM, &[1, 0, 0, 0, 2, 0, 0, 0])]);
    assert!(matches!(outcome, Ok(None)));
    assert!(matches!(
        &exchanges[1],
        Exchange::Sent(RequestOf::ReplaceProperty32 { property: 500, words, .. })
            if words.is_empty()
    ));
}

#[test]
fn a_multiple_answer_depends_on_its_list_alone() {
    let state = new_state();
    let event = request(CLIPBOARD, MULTIPLE, 0);
    let commands = state.answer_multiple(event, None, vec![TEXT_PLAIN, 601, TARGETS, 602]);
    assert_eq!(commands.len(), 4);
    assert!(matches!(
        &commands[0].request,
        RequestOf::ReplaceProperty32 { property: 602, words, .. } if *words == vec![TARGETS]
    ));
    assert!(matches!(
        &commands[1].request,
        RequestOf::ReplaceProperty32 { property: MULTIPLE, words, .. }
            if *words == vec![TEXT_PLAIN, 0, TARGETS, 602]
    ));
    assert_eq!(commands[1].failure_message("e"), "Failed to update MULTIPLE property: e");
    assert_eq!(commands[2].failure_message("e"), "Failed to send event: e");
}

#[test]
fn a_failed_answer_is_reported() {
    let state = &mut new_state();
    match state.handle_selection_request(request(CLIPBOARD, MULTIPLE, 500)) {
        Step::Ask { query, task } => {
            assert_eq!(query.send_failure_message("e"), "Failed to get property: e");
            let message = query.reply_failure_message("e");
            assert_eq!(message, "Failed to get property reply: e");
            assert!(matches!(
                state.resume(task, ReplyOf::Failed(message.clone())),
                Step::Done(Err(error)) if error == message
            ));
        }
        other => panic!("{other:?}"),
    }
}

#[test]
fn a_lost_selection_is_forgotten() {
    let mut state = new_state();
    hold(&mut state, text("one"), ClipboardType::Clipboard);
    hold(&mut state, text("two"), ClipboardType::Primary);
    assert_eq!(
        state.handle_selection_clear(SelectionClearEvent { selection: CLIPBOARD }),
        Ok(())
    );
    assert!(is_refused(&mut state, request(CLIPBOARD, TEXT_PLAIN, 500)));
    assert_eq!(given_out(&mut state, request(PRIMARY, TEXT_PLAIN, 500)), b"two");
    let step =
        state.handle_event(Event::SelectionClear(SelectionClearEvent { selection: PRIMARY }));
    assert!(matches!(step, Step::Done(Ok(None))));
    assert!(is_refused(&mut state, request(PRIMARY, TEXT_PLAIN, 500)));
}

#[test]
fn other_events_are_passed_over() {
    let mut state = new_state();
    let event = PropertyNotifyEvent { atom: 3, state: 0 };
    assert_eq!(state.handle_property_notify(event), Ok(()));
    assert!(matches!(
        state.handle_event(Event::PropertyNotify(event)),
        Step::Done(Ok(None))
    ));
    assert!(matches!(state.handle_event(Event::Other), Step::Done(Ok(None))));
}

#[test]
fn a_new_owner_is_asked_for_the_most_wanted_target() {
    let mut state = new_state();
    let event = XfixesSelectionNotifyEvent { owner: OTHER, selection: CLIPBOARD };
    let step = state.handle_event(Event::XfixesSelectionNotify(event));
    let (exchanges, outcome) = carry_out(
        &mut state,
        step,
        vec![
            ReplyOf::Owner(OTHER),
            ReplyOf::Atom(700),
            ReplyOf::Polled(Polled::Nothing),
            answered(TARGETS, 700),
            list(&[TEXT_PLAIN, TARGETS, PNG]),
            ReplyOf::Atom(701),
            answered(PNG, 701),
            value(PNG, &[1, 2, 3]),
        ],
    );
    assert!(is_fetched(outcome, &png(&[1, 2, 3]), ClipboardType::Clipboard));
    assert!(matches!(
        exchanges[0],
        Exchange::Asked(AskOf::SelectionOwner { selection: CLIPBOARD })
    ));
    assert_eq!(asked_names(&exchanges), vec!["CLIP_TEMP_TARGETS", "CLIP_TEMP_0"]);
    assert_eq!(converted_targets(&exchanges), vec![TARGETS, PNG]);
    assert_eq!(deleted(&exchanges), vec![700, 701]);
    assert_eq!(polls(&exchanges), 3);
    assert!(exchanges.iter().any(|exchange| matches!(
        exchange,
        Exchange::Asked(AskOf::Property {
            delete: false,
            window: WINDOW,
            property: 700,
            type_: ATOM,
            offset: 0,
            length: 1024
        })
    )));
    assert!(exchanges.iter().any(|exchange| matches!(
        exchange,
        Exchange::Asked(AskOf::Property {
            delete: false,
            window: WINDOW,
            property: 701,
            type_: 0,
            offset: 0,
            length: u32::MAX
        })
    )));
    assert_eq!(given_out(&mut state, request(CLIPBOARD, PNG, 500)), vec![1, 2, 3]);
}

#[test]
fn we_and_nobody_are_not_asked() {
    let mut state = new_state();
    for owner in [WINDOW, 0] {
        let event = XfixesSelectionNotifyEvent { owner, selection: CLIPBOARD };
        assert!(matches!(state.handle_xfixes_selection_notify(event), Step::Done(Ok(None))));
        let step = state.request_clipboard_content(ClipboardType::Clipboard);
        let (exchanges, outcome) = carry_out(&mut state, step, vec![ReplyOf::Owner(owner)]);
        assert!(matches!(outcome, Ok(None)));
        assert_eq!(exchanges.len(), 1);
    }
}

#[test]
fn the_primary_selection_is_fetched() {
    let mut state = new_state();
    let event = XfixesSelectionNotifyEvent { owner: OTHER, selection: PRIMARY };
    let step = state.handle_xfixes_selection_notify(event);
    let (exchanges, outcome) = carry_out(
        &mut state,
        step,
        vec![
            ReplyOf::Owner(OTHER),
            ReplyOf::Atom(700),
            answered(TARGETS, 700),
            list(&[UTF8_STRING]),
            ReplyOf::Atom(701),
            answered(UTF8_STRING, 701),
            value(UTF8_STRING, b"sel"),
        ],
    );
    assert!(matches!(
        exchanges[0],
        Exchange::Asked(AskOf::SelectionOwner { selection: PRIMARY })
    ));
    assert!(is_fetched(outcome, &text("sel"), ClipboardType::Primary));
    assert_eq!(given_out(&mut state, request(PRIMARY, TEXT_PLAIN, 500)), b"sel");
    assert!(is_refused(&mut state, request(CLIPBOARD, TEXT_PLAIN, 500)));
}

#[test]
fn a_refused_target_is_followed_by_the_next() {
    let mut state = new_state();
    let step = state.request_clipboard_content(ClipboardType::Clipboard);
    let (exchanges, outcome) = carry_out(
        &mut state,
        step,
        vec![
            ReplyOf::Owner(OTHER),
            ReplyOf::Atom(700),
            answered(TARGETS, 700),
            list(&[PNG, JPEG, UTF8_STRING, TEXT_PLAIN]),
            ReplyOf::Atom(701),
            answered(PNG, 0),
            ReplyOf::Atom(702),
            answered(JPEG, 702),
            value(JPEG, &[]),
            ReplyOf::Atom(703),
            answered(UTF8_STRING, 703),
            value(0, b"no type"),
            ReplyOf::Atom(704),
            answered(TEXT_PLAIN, 704),
            value(TEXT_PLAIN, b"at last"),
        ],
    );
    assert!(is_fetched(outcome, &text("at last"), ClipboardType::Clipboard));
    assert_eq!(
        asked_names(&exchanges),
        vec!["CLIP_TEMP_TARGETS", "CLIP_TEMP_0", "CLIP_TEMP_1", "CLIP_TEMP_2", "CLIP_TEMP_3"]
    );
    assert_eq!(converted_targets(&exchanges), vec![TARGETS, PNG, JPEG, UTF8_STRING, TEXT_PLAIN]);
    assert_eq!(deleted(&exchanges), vec![700, 702, 703, 704]);
}

#[test]
fn a_silent_owner_is_given_up() {
    let mut state = new_state();
    hold(&mut state, text("kept"), ClipboardType::Clipboard);
    let step = state.request_clipboard_content(ClipboardType::Clipboard);
    let mut replies = vec![ReplyOf::Owner(OTHER), ReplyOf::Atom(700)];
    replies.extend(nothing(NOTIFY_POLLS));
    for index in 0..6 {
        replies.push(ReplyOf::Atom(701 + index));
        replies.extend(nothing(NOTIFY_POLLS));
    }
    let (exchanges, outcome) = carry_out(&mut state, step, replies);
    assert!(matches!(outcome, Ok(None)));
    assert_eq!(polls(&exchanges), 7 * 25);
    assert_eq!(
        converted_targets(&exchanges),
        vec![TARGETS, PNG, JPEG, JPG, TEXT_UTF8, UTF8_STRING, TEXT_PLAIN]
    );
    assert_eq!(given_out(&mut state, request(CLIPBOARD, TEXT_PLAIN, 500)), b"kept");
}

#[test]
fn an_owner_without_targets_is_asked_for_everything() {
    for told in [
        vec![answered(TARGETS, 0)],
        vec![answered(TARGETS, 700), value(ATOM, &[1, 2, 3, 4])],
    ] {
        let mut state = new_state();
        let step = state.request_clipboard_content(ClipboardType::Clipboard);
        let mut replies = vec![ReplyOf::Owner(OTHER), ReplyOf::Atom(700)];
        replies.extend(told);
        replies.extend([ReplyOf::Atom(701), answered(PNG, 701), value(PNG, &[5])]);
        let (exchanges, outcome) = carry_out(&mut state, step, replies);
        assert!(is_fetched(outcome, &png(&[5]), ClipboardType::Clipboard));
        assert_eq!(converted_targets(&exchanges), vec![TARGETS, PNG]);
    }
}

#[test]
fn an_owner_with_nothing_for_us_is_left_alone() {
    let mut state = new_state();
    let step = state.request_clipboard_content(ClipboardType::Clipboard);
    let (exchanges, outcome) = carry_out(
        &mut state,
        step,
        vec![ReplyOf::Owner(OTHER), ReplyOf::Atom(700), answered(TARGETS, 700), list(&[999])],
    );
    assert!(matches!(outcome, Ok(None)));
    assert_eq!(converted_targets(&exchanges), vec![TARGETS]);
}

#[test]
fn the_type_tells_the_format_before_the_target() {
    let state = new_state();
    let content = state.decode_selection_content(TEXT_PLAIN, PNG, vec![1]).unwrap().unwrap();
    assert!(content == png(&[1]));
    let content = state.decode_selection_content(TEXT_PLAIN, 999, b"a".to_vec()).unwrap().unwrap();
    assert!(content == text("a"));
    assert!(state.decode_selection_content(998, 999, vec![1]).unwrap().is_none());
    let error = state.decode_selection_content(TEXT_PLAIN, 999, vec![0xff]).unwrap_err();
    assert_eq!(
        error,
        "Failed to decode text/plain as UTF-8: invalid utf-8 sequence of 1 bytes from index 0"
    );
}

#[test]
fn what_is_written_is_read_back() {
    let mut writer = new_state();
    let reader = new_state();
    for content in [text("round"), png(&[4, 5, 6])] {
        hold(&mut writer, content.clone(), ClipboardType::Clipboard);
        for target in told(&mut writer, CLIPBOARD) {
            if target != TARGETS {
                let bytes = given_out(&mut writer, request(CLIPBOARD, target, 500));
                let read = reader.decode_selection_content(target, target, bytes).unwrap();
                assert!(read == Some(content.clone()));
            }
        }
    }
}

#[test]
fn bad_text_fails_a_request_and_is_passed_over_in_silence_otherwise() {
    let replies = || {
        vec![
            ReplyOf::Owner(OTHER),
            ReplyOf::Atom(700),
            answered(TARGETS, 700),
            list(&[UTF8_STRING]),
            ReplyOf::Atom(701),
            answered(UTF8_STRING, 701),
            value(UTF8_STRING, &[0xff]),
        ]
    };
    let mut state = new_state();
    let step = state.request_clipboard_content(ClipboardType::Clipboard);
    let (_, outcome) = carry_out(&mut state, step, replies());
    assert_eq!(
        outcome.unwrap_err(),
        "Failed to decode UTF8_STRING as UTF-8: invalid utf-8 sequence of 1 bytes from index 0"
    );
    let event = XfixesSelectionNotifyEvent { owner: OTHER, selection: CLIPBOARD };
    let step = state.handle_xfixes_selection_notify(event);
    let (_, outcome) = carry_out(&mut state, step, replies());
    assert!(matches!(outcome, Ok(None)));
    assert!(is_refused(&mut state, request(CLIPBOARD, TEXT_PLAIN, 500)));
}

#[test]
fn a_failed_exchange_ends_a_request() {
    let mut state = new_state();
    let failed = || ReplyOf::Failed("gone".to_string());
    let step = state.request_clipboard_content(ClipboardType::Clipboard);
    let (_, outcome) = carry_out(&mut state, step, vec![failed()]);
    assert_eq!(outcome.unwrap_err(), "gone");
    let event = XfixesSelectionNotifyEvent { owner: OTHER, selection: CLIPBOARD };
    let step = state.handle_xfixes_selection_notify(event);
    let (_, outcome) = carry_out(&mut state, step, vec![failed()]);
    assert!(matches!(outcome, Ok(None)));
}

#[test]
fn every_question_says_what_failed() {
    let mut state = new_state();
    let mut step = state.request_clipboard_content(ClipboardType::Clipboard);
    let mut replies = VecDeque::from(vec![
        ReplyOf::Owner(OTHER),
        ReplyOf::Atom(700),
        answered(TARGETS, 700),
        list(&[PNG]),
        ReplyOf::Atom(701),
        answered(PNG, 701),
        value(INCR, &[]),
        new_value(701),
        value(PNG, &[]),
    ]);
    let mut messages = Vec::new();
    loop {
        let (task, reply) = match step {
            Step::Done(_) => break,
            Step::Run { commands, task } => {
                messages.push(commands[0].failure_message("e"));
                assert_eq!(commands[1].failure_message("e"), "Failed to flush connection: e");
                (task, ReplyOf::Done)
            }
            Step::Ask { query, task } => {
                if !matches!(query.ask, AskOf::Poll { .. }) {
                    messages.push(query.send_failure_message("e"));
                    messages.push(query.reply_failure_message("e"));
                }
                (task, replies.pop_front().unwrap())
            }
        };
        step = state.resume(task, reply);
    }
    assert_eq!(
        messages,
        vec![
            "Failed to get selection owner: e",
            "Failed to get selection owner reply: e",
            "Failed to intern atom CLIP_TEMP_TARGETS: e",
            "Failed to get atom reply for CLIP_TEMP_TARGETS: e",
            "Failed to convert TARGETS selection: e",
            "Failed to get TARGETS property: e",
            "Failed to get TARGETS property reply: e",
            "Failed to delete TARGETS property: e",
            "Failed to intern atom CLIP_TEMP_0: e",
            "Failed to get atom reply for CLIP_TEMP_0: e",
            "Failed to convert selection: e",
            "Failed to get property: e",
            "Failed to get property reply: e",
            "Failed to delete INCR property: e",
            "Failed to get INCR chunk: e",
            "Failed to get INCR chunk reply: e",
        ]
    );
}

#[test]
fn a_notified_content_is_fetched() {
    let mut state = new_state();
    let step = state.handle_event(Event::SelectionNotify(notify(TEXT_PLAIN, 600)));
    let (exchanges, outcome) = carry_out(&mut state, step, vec![value(999, b"told")]);
    assert!(is_fetched(outcome, &text("told"), ClipboardType::Clipboard));
    assert_eq!(deleted(&exchanges), vec![600]);
    assert_eq!(given_out(&mut state, request(CLIPBOARD, UTF8_STRING, 500)), b"told");
}

#[test]
fn a_notification_without_a_property_or_a_value_is_passed_over() {
    let mut state = new_state();
    assert!(matches!(state.handle_selection_notify(notify(TEXT_PLAIN, 0)), Step::Done(Ok(None))));
    let step = state.handle_selection_notify(notify(TEXT_PLAIN, 600));
    let (exchanges, outcome) = carry_out(&mut state, step, vec![value(TEXT_PLAIN, b"")]);
    assert!(matches!(outcome, Ok(None)));
    assert_eq!(deleted(&exchanges), vec![600]);
    let step = state.handle_selection_notify(notify(998, 600));
    let (_, outcome) = carry_out(&mut state, step, vec![value(999, b"unreadable")]);
    assert!(matches!(outcome, Ok(None)));
}

#[test]
fn a_content_in_pieces_is_joined() {
    let mut state = new_state();
    let step = state.handle_selection_notify(notify(PNG, 600));
    let (exchanges, outcome) = carry_out(
        &mut state,
        step,
        vec![
            value(INCR, &[9, 0, 0, 0]),
            new_value(999),
            new_value(600),
            value(PNG, &[1, 2]),
            polled(Event::PropertyNotify(PropertyNotifyEvent { atom: 600, state: 1 })),
            new_value(600),
            value(JPEG, &[3]),
            new_value(600),
            value(0, &[]),
        ],
    );
    assert!(is_fetched(outcome, &png(&[1, 2, 3]), ClipboardType::Clipboard));
    assert_eq!(deleted(&exchanges), vec![600]);
    assert_eq!(polls(&exchanges), 5);
    assert!(exchanges.iter().any(|exchange| matches!(
        exchange,
        Exchange::Asked(AskOf::Property {
            delete: true,
            window: WINDOW,
            property: 600,
            type_: 0,
            offset: 0,
            length: u32::MAX
        })
    )));
}

#[test]
fn a_transfer_that_stops_counts_for_what_has_come() {
    let mut state = new_state();
    let step = state.handle_selection_notify(notify(PNG, 600));
    let mut replies = vec![value(INCR, &[]), new_value(600), value(PNG, &[1])];
    replies.extend(nothing(INCR_POLLS - 1));
    let (exchanges, outcome) = carry_out(&mut state, step, replies);
    assert!(is_fetched(outcome, &png(&[1]), ClipboardType::Clipboard));
    assert_eq!(polls(&exchanges), 500);
}

#[test]
fn a_transfer_of_nothing_is_nothing() {
    let mut state = new_state();
    let step = state.handle_selection_notify(notify(PNG, 600));
    let mut replies = vec![value(INCR, &[])];
    replies.extend(nothing(INCR_POLLS));
    let (_, outcome) = carry_out(&mut state, step, replies);
    assert!(matches!(outcome, Ok(None)));
}

#[test]
fn requests_are_answered_during_a_fetch() {
    let mut state = new_state();
    hold(&mut state, text("ours"), ClipboardType::Clipboard);
    let step = state.request_clipboard_content(ClipboardType::Primary);
    let (exchanges, outcome) = carry_out(
        &mut state,
        step,
        vec![
            ReplyOf::Owner(OTHER),
            ReplyOf::Atom(700),
            polled(Event::SelectionRequest(request(CLIPBOARD, TEXT_PLAIN, 500))),
            answered(TARGETS, 700),
            list(&[TEXT_PLAIN]),
            ReplyOf::Atom(701),
            polled(Event::SelectionRequest(request(CLIPBOARD, MULTIPLE, 501))),
            list(&[TEXT_PLAIN, 601]),
            ReplyOf::Polled(Polled::Failed),
            polled(Event::SelectionNotify(notify(999, 998))),
            answered(TEXT_PLAIN, 701),
            value(TEXT_PLAIN, b"theirs"),
        ],
    );
    assert!(is_fetched(outcome, &text("theirs"), ClipboardType::Primary));
    let notified: Vec<u32> = exchanges
        .iter()
        .filter_map(|exchange| match exchange {
            Exchange::Sent(RequestOf::SendEvent { destination: OTHER, event }) => {
                Some(event.property)
            }
            _ => None,
        })
        .collect();
    assert_eq!(notified, vec![500, 501]);
}

#[test]
fn a_request_during_a_fetch_uses_up_a_poll() {
    let mut state = new_state();
    let step = state.request_clipboard_content(ClipboardType::Clipboard);
    let mut replies = vec![ReplyOf::Owner(OTHER), ReplyOf::Atom(700)];
    replies.extend(nothing(NOTIFY_POLLS - 1));
    replies.push(polled(Event::SelectionRequest(request(CLIPBOARD, TEXT_PLAIN, 500))));
    replies.push(ReplyOf::Failed("stop".to_string()));
    let (exchanges, outcome) = carry_out(&mut state, step, replies);
    assert_eq!(outcome.unwrap_err(), "stop");
    assert_eq!(polls(&exchanges), 25);
    assert_eq!(asked_names(&exchanges), vec!["CLIP_TEMP_TARGETS", "CLIP_TEMP_0"]);
}

#[test]
fn the_first_answer_ends_a_wait() {
    let mut wait = NotifyWait::new(TARGETS, 700);
    assert_eq!(wait.polls_left, 25);
    let other = Polled::Event(Event::SelectionNotify(notify(999, 998)));
    assert_eq!(wait.wait_for_selection_notify(other), Waited::Nothing);
    let asked = request(CLIPBOARD, TARGETS, 500);
    assert_eq!(
        wait.wait_for_selection_notify(Polled::Event(Event::SelectionRequest(asked))),
        Waited::Request(asked)
    );
    assert_eq!(wait.wait_for_selection_notify(Polled::Failed), Waited::Nothing);
    for answer in [notify(TARGETS, 0), notify(999, 700)] {
        assert_eq!(
            wait.wait_for_selection_notify(Polled::Event(Event::SelectionNotify(answer))),
            Waited::Found(answer)
        );
    }
    assert_eq!(wait.polls_left, 20);
}

#[test]
fn pieces_are_joined_however_they_are_cut() {
    let mut transfer = IncrRead::new(600);
    assert_eq!(transfer.polls_left, 500);
    let arrived =
        Polled::Event(Event::PropertyNotify(PropertyNotifyEvent { atom: 600, state: 0 }));
    assert_eq!(transfer.handle_poll(arrived), Arrived::Piece);
    assert_eq!(transfer.handle_poll(Polled::Nothing), Arrived::Nothing);
    transfer.add_piece(0, vec![1]);
    transfer.add_piece(PNG, vec![2, 3]);
    transfer.add_piece(JPEG, vec![4]);
    assert_eq!(transfer.polls_left, 498);
    assert_eq!(transfer.finish(), Some((PNG, vec![1, 2, 3, 4])));
    assert_eq!(IncrRead::new(600).finish(), None);
}

#[test]
fn replies_that_a_task_does_not_wait_for_do_not_fit() {
    let state = new_state();
    match state.request_clipboard_content(ClipboardType::Clipboard) {
        Step::Ask { task, .. } => {
            assert!(task.accepts(&ReplyOf::Owner(1)));
            assert!(task.accepts(&ReplyOf::Failed(String::new())));
            assert!(!task.accepts(&ReplyOf::Done));
            assert!(!task.accepts(&ReplyOf::Polled(Polled::Nothing)));
        }
        other => panic!("{other:?}"),
    }
}

#[test]
fn words_of_a_list_are_in_machine_order() {
    let mut state = new_state();
    let step = state.request_clipboard_content(ClipboardType::Clipboard);
    let mut bytes: Vec<u8> = Vec::new();
    bytes.extend(JPG.to_ne_bytes());
    bytes.extend([1, 2, 3]);
    let (exchanges, outcome) = carry_out(
        &mut state,
        step,
        vec![
            ReplyOf::Owner(OTHER),
            ReplyOf::Atom(700),
            answered(TARGETS, 700),
            ReplyOf::Property { type_: ATOM, format: 32, value: bytes },
            ReplyOf::Atom(701),
            answered(JPG, 0),
        ],
    );
    assert!(matches!(outcome, Ok(None)));
    assert_eq!(converted_targets(&exchanges), vec![TARGETS, JPG]);
}

#[test]
fn a_state_without_its_atoms_is_told_apart() {
    let state = X11State::new(5, AtomTable::new());
    assert_eq!(state.window, 5);
    assert!(!state.knows_all_atoms());
    let mut atoms = AtomTable::new();
    for name in &ATOM_NAMES[..10] {
        atoms.insert(name, 3);
    }
    assert!(!X11State::new(5, atoms).knows_all_atoms());
}

#[test]
fn an_answer_counts_until_the_last_look() {
    let property_change = |atom: u32, state: u8| {
        polled(Event::PropertyNotify(PropertyNotifyEvent { atom, state }))
    };
    let mut state = new_state();
    let step = state.request_clipboard_content(ClipboardType::Clipboard);
    let mut replies = vec![ReplyOf::Owner(OTHER), ReplyOf::Atom(700), property_change(700, 0)];
    replies.extend(nothing(NOTIFY_POLLS - 2));
    replies.extend([answered(TARGETS, 700), list(&[TEXT_UTF8]), ReplyOf::Atom(701)]);
    replies.extend([property_change(700, 1), property_change(701, 0)]);
    replies.extend([polled(Event::SelectionRequest(request(CLIPBOARD, TEXT_PLAIN, 500)))]);
    replies.extend(nothing(NOTIFY_POLLS - 4));
    replies.extend([answered(TEXT_UTF8, 701), value(TEXT_UTF8, b"late")]);
    let (exchanges, outcome) = carry_out(&mut state, step, replies);
    assert!(is_fetched(outcome, &text("late"), ClipboardType::Clipboard));
    assert_eq!(polls(&exchanges), 50);
}

#[test]
fn a_long_transfer_is_cut_off_when_its_looks_are_used_up() {
    let mut state = new_state();
    let step = state.handle_selection_notify(notify(PNG, 600));
    let mut replies = vec![value(INCR, &[0, 4, 0, 0])];
    let mut expected = Vec::new();
    for number in 0..250 {
        replies.push(polled(Event::PropertyNotify(PropertyNotifyEvent { atom: 600, state: 1 })));
        replies.push(new_value(600));
        replies.push(value(PNG, &[number as u8]));
        expected.push(number as u8);
    }
    let (exchanges, outcome) = carry_out(&mut state, step, replies);
    assert!(is_fetched(outcome, &png(&expected), ClipboardType::Clipboard));
    assert_eq!(polls(&exchanges), 500);
}

#[test]
fn requests_are_answered_during_a_transfer() {
    let mut state = new_state();
    hold(&mut state, text("ours"), ClipboardType::Primary);
    let step = state.handle_selection_notify(notify(PNG, 600));
    let (exchanges, outcome) = carry_out(
        &mut state,
        step,
        vec![
            value(INCR, &[2, 0, 0, 0]),
            new_value(600),
            value(PNG, &[1]),
            polled(Event::SelectionRequest(request(PRIMARY, MULTIPLE, 500))),
            list(&[TEXT_PLAIN, 601]),
            new_value(600),
            value(PNG, &[2]),
            polled(Event::SelectionRequest(request(PRIMARY, TEXT_PLAIN, 501))),
            new_value(600),
            value(PNG, &[]),
        ],
    );
    assert!(is_fetched(outcome, &png(&[1, 2]), ClipboardType::Clipboard));
    let answers = exchanges
        .iter()
        .filter(|exchange| matches!(exchange, Exchange::Sent(RequestOf::SendEvent { .. })))
        .count();
    assert_eq!(answers, 2);
}

#[test]
fn tasks_that_cannot_be_taken_up_accept_nothing() {
    let requested = |targets| PurposeOf::Requested {
        clipboard_type: ClipboardType::Clipboard,
        quiet: false,
        targets,
        index: 0,
    };
    let notified =
        || PurposeOf::Notified { target: PNG, clipboard_type: ClipboardType::Clipboard };
    let spent = NotifyWait { target: PNG, property: 700, polls_left: 0 };
    let polled = ReplyOf::Polled(Polled::Nothing);
    let atom = ReplyOf::Atom(1);

    let task = Task::Fetch(FetchOf { purpose: requested(vec![]), stage: StageOf::DataAtom });
    assert!(!task.accepts(&atom));
    let task = Task::Fetch(FetchOf {
        purpose: requested(vec![(PNG, "image/png")]),
        stage: StageOf::DataAtom,
    });
    assert!(task.accepts(&atom));
    let task = Task::Fetch(FetchOf { purpose: notified(), stage: StageOf::TargetsAtom });
    assert!(!task.accepts(&atom));
    let task = Task::Fetch(FetchOf {
        purpose: requested(vec![(PNG, "image/png")]),
        stage: StageOf::DataWait(spent),
    });
    assert!(!task.accepts(&polled));
    let task = Task::Fetch(FetchOf {
        purpose: notified(),
        stage: StageOf::Received { data: Some((PNG, vec![])) },
    });
    assert!(!task.accepts(&ReplyOf::Done));
    let task = Task::Interrupted(
        FetchOf { purpose: notified(), stage: StageOf::Read { property: 700 } },
        ServeOf::Answered,
    );
    assert!(!task.accepts(&ReplyOf::Done));
    let task = Task::Interrupted(
        FetchOf { purpose: requested(vec![]), stage: StageOf::TargetsWait(spent) },
        ServeOf::Answered,
    );
    assert!(task.accepts(&ReplyOf::Done));
}
