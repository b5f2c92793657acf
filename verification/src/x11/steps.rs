//! What each exchange of a fetch is, and what comes of it.

use crate::content;
use crate::content::ClipboardContent;
use crate::foreign;
use crate::sync;
use crate::sync::{ClipboardType, Side, SyncEvent};
use crate::text;
use crate::x11::fetch;
use crate::x11::incr;
use crate::x11::incr::IncrReadView;
use crate::x11::laws;
use crate::x11::protocol;
use crate::x11::protocol::{
    AskView, CommandView, Event, Polled, PropertyNotifyEvent, ReplyOf, ReplyView, RequestOf,
    RequestView, SelectionClearEvent, SelectionNotifyEvent, SelectionRequestEvent,
    XfixesSelectionNotifyEvent,
};
use crate::x11::serve;
use crate::x11::serve::AnswerOf;
use crate::x11::state::X11View;
use crate::x11::task;
use crate::x11::task::{
    FetchOf, FetchView, PurposeOf, PurposeView, ServeOf, ServeView, StageOf, StageView, Step,
    StepView, Task, TaskView,
};
use crate::x11::wait::NotifyWait;
use vstd::prelude::*;

verus! {

/// Work that ends without an error and without anything to forward is finished. An error ends a
/// fetch with it, unless it is a quiet request, which it ends without one.
pub proof fn law_how_fetches_end(
    clipboard_type: ClipboardType,
    target: u32,
    targets: Seq<(u32, Seq<char>)>,
    index: usize,
    error: Seq<char>,
)
    ensures
        fetch::finished() == StepView::Done(Ok(None)),
        fetch::failed(
            PurposeOf::Requested { clipboard_type, quiet: true, targets, index },
            error,
        ) == StepView::Done(Ok(None)),
        fetch::failed(
            PurposeOf::Requested { clipboard_type, quiet: false, targets, index },
            error,
        ) == StepView::Done(Err(error)),
        fetch::failed(PurposeOf::Notified { target, clipboard_type }, error) == StepView::Done(
            Err(error),
        ),
{
}

/// An exchange that fails, of a fetch or of an answer in between, ends the fetch and changes
/// nothing.
pub proof fn law_failed_exchange_ends_a_fetch(
    state: X11View,
    fetch: FetchView,
    serve: ServeView,
    error: Seq<char>,
    words: Seq<u32>,
)
    ensures
        fetch::resumed(state, TaskView::Fetch(fetch), ReplyOf::Failed(error), words) == (
            state,
            fetch::failed(fetch.purpose, error),
        ),
        fetch::resumed(
            state,
            TaskView::Interrupted(fetch, serve),
            ReplyOf::Failed(error),
            words,
        ) == (state, fetch::failed(fetch.purpose, error)),
{
}

/// The selection and the target of a fetch are those it was begun with, or the target being tried.
pub proof fn law_purpose_of_a_fetch(
    clipboard_type: ClipboardType,
    quiet: bool,
    target: u32,
    targets: Seq<(u32, Seq<char>)>,
    index: usize,
    tried: Seq<(u32, Seq<char>)>,
)
    ensures
        ({
            let notified: PurposeView = PurposeOf::Notified { target, clipboard_type };
            let requested: PurposeView = PurposeOf::Requested {
                clipboard_type,
                quiet,
                targets,
                index,
            };
            &&& notified.clipboard_type() == clipboard_type
            &&& requested.clipboard_type() == clipboard_type
            &&& notified.target() == target
            &&& requested.target() == targets[index as int].0
            &&& requested.trying(tried) == (PurposeView::Requested {
                clipboard_type,
                quiet,
                targets: tried,
                index: 0,
            })
        }),
{
}

/// A request for a content begins with the question who owns the selection that was asked for.
pub proof fn law_request_begins_with_the_owner(state: X11View, quiet: bool)
    ensures
        fetch::requested(state, ClipboardType::Clipboard, quiet) matches StepView::Ask {
            query,
            task,
        } && query.ask == (AskView::SelectionOwner { selection: state.atoms["CLIPBOARD"@] })
            && query.send_failure == "Failed to get selection owner"@ && query.reply_failure
            == "Failed to get selection owner reply"@ && task == TaskView::Fetch(
            FetchOf {
                purpose: PurposeOf::Requested {
                    clipboard_type: ClipboardType::Clipboard,
                    quiet,
                    targets: Seq::empty(),
                    index: 0,
                },
                stage: StageOf::Owner,
            },
        ),
        fetch::requested(state, ClipboardType::Primary, quiet) matches StepView::Ask { query, task }
            && query.ask == (AskView::SelectionOwner { selection: 1 }) && query.send_failure
            == "Failed to get selection owner"@ && query.reply_failure
            == "Failed to get selection owner reply"@ && task == TaskView::Fetch(
            FetchOf {
                purpose: PurposeOf::Requested {
                    clipboard_type: ClipboardType::Primary,
                    quiet,
                    targets: Seq::empty(),
                    index: 0,
                },
                stage: StageOf::Owner,
            },
        ),
{
}

/// An owner other than us and nobody is asked for its targets, for which a property is named first.
/// We and nobody end the request.
pub proof fn law_reply_to_the_owner(
    state: X11View,
    purpose: PurposeView,
    owner: u32,
    words: Seq<u32>,
)
    ensures
        ({
            let (after, step) = fetch::resumed(
                state,
                TaskView::Fetch(FetchOf { purpose, stage: StageOf::Owner }),
                ReplyOf::Owner(owner),
                words,
            );
            &&& after == state
            &&& owner == state.window || owner == 0 ==> step == StepView::Done(Ok(None))
            &&& owner != state.window && owner != 0 ==> (step matches StepView::Ask { query, task }
                && query == protocol::intern_view("CLIP_TEMP_TARGETS"@) && task == TaskView::Fetch(
                FetchOf { purpose, stage: StageOf::TargetsAtom },
            ))
        }),
{
}

/// Whether `commands` ask the owner of a selection for a target, and nothing else: the selection
/// goes by its own atom, the answer is to come to our window into `property`, and the time is the
/// server's.
pub open spec fn asks_the_owner(
    state: X11View,
    commands: Seq<CommandView>,
    clipboard_type: ClipboardType,
    target: u32,
    property: u32,
    failure: Seq<char>,
) -> bool {
    &&& commands.len() == 2
    &&& commands[0].request == (RequestView::ConvertSelection {
        requestor: state.window,
        selection: match clipboard_type {
            ClipboardType::Clipboard => state.atoms["CLIPBOARD"@],
            ClipboardType::Primary => 1,
        },
        target,
        property,
        time: 0,
    })
    &&& commands[0].failure == failure
    &&& commands[1] == protocol::flush_view()
}

/// A fetch asks the owner of its own selection: first for the targets, into the property whose atom
/// was just told, and later for the target being tried, again into the property just told.
pub proof fn law_conversions_are_for_the_selection(
    state: X11View,
    clipboard_type: ClipboardType,
    quiet: bool,
    targets: Seq<(u32, Seq<char>)>,
    index: usize,
    property: u32,
    words: Seq<u32>,
)
    ensures
        ({
            let purpose = PurposeOf::Requested { clipboard_type, quiet, targets, index };
            let (after, step) = fetch::resumed(
                state,
                TaskView::Fetch(FetchOf { purpose, stage: StageOf::TargetsAtom }),
                ReplyOf::Atom(property),
                words,
            );
            after == state && (step matches StepView::Run { commands, task } && asks_the_owner(
                state,
                commands,
                clipboard_type,
                state.atoms["TARGETS"@],
                property,
                "Failed to convert TARGETS selection"@,
            ) && task == TaskView::Fetch(
                FetchOf { purpose, stage: StageOf::TargetsConvert { property } },
            ))
        }),
        ({
            let purpose = PurposeOf::Requested { clipboard_type, quiet, targets, index };
            let (after, step) = fetch::resumed(
                state,
                TaskView::Fetch(FetchOf { purpose, stage: StageOf::DataAtom }),
                ReplyOf::Atom(property),
                words,
            );
            after == state && (step matches StepView::Run { commands, task } && asks_the_owner(
                state,
                commands,
                clipboard_type,
                targets[index as int].0,
                property,
                "Failed to convert selection"@,
            ) && task == TaskView::Fetch(
                FetchOf { purpose, stage: StageOf::DataConvert { property } },
            ))
        }),
{
}

proof fn lemma_pairs_are_written_only(
    state: X11View,
    requestor: u32,
    content: Option<content::ContentView>,
    words: Seq<u32>,
    count: nat,
)
    ensures
        forall|i: int|
            #![trigger serve::pairs_written(state, requestor, content, words, count)[i]]
            0 <= i < serve::pairs_written(state, requestor, content, words, count).len() ==> {
                let all = serve::pairs_written(state, requestor, content, words, count);
                all[i].request is ReplaceProperty8 || all[i].request is ReplaceProperty32
            },
    decreases count,
{
    if count > 0 {
        lemma_pairs_are_written_only(state, requestor, content, words, (count - 1) as nat);
        let all = serve::pairs_written(state, requestor, content, words, count);
        let rest = serve::pairs_written(state, requestor, content, words, (count - 1) as nat);
        assert forall|i: int| 0 <= i < all.len() implies (#[trigger] all[i]).request
            is ReplaceProperty8 || all[i].request is ReplaceProperty32 by {
            if i < rest.len() {
                assert(all[i] == rest[i]);
            }
        }
    }
}

proof fn lemma_answers_do_not_convert(
    state: X11View,
    event: SelectionRequestEvent,
    content: Option<content::ContentView>,
    words: Seq<u32>,
)
    ensures
        serve::answer(state, event) matches AnswerOf::Commands(commands) ==> forall|i: int|
            0 <= i < commands.len() ==> !((#[trigger] commands[i]).request is ConvertSelection),
        forall|i: int|
            0 <= i < serve::multiple_answer(state, event, content, words).len() ==> !((
            #[trigger] serve::multiple_answer(state, event, content, words)[i]).request
                is ConvertSelection),
{
    let pairs = serve::pairs_written(state, event.requestor, content, words, words.len() / 2);
    lemma_pairs_are_written_only(state, event.requestor, content, words, words.len() / 2);
    let all = serve::multiple_answer(state, event, content, words);
    assert forall|i: int| 0 <= i < all.len() implies !((#[trigger] all[i]).request
        is ConvertSelection) by {
        if i < pairs.len() {
            assert(all[i] == pairs[i]);
        }
    }
}

/// Whatever comes of an exchange, a request to an owner that follows it is one of a fetch, and is
/// for the selection of that fetch, with our window as the one to be answered.
pub proof fn law_every_conversion_is_for_the_selection(
    state: X11View,
    task: TaskView,
    reply: ReplyView,
    words: Seq<u32>,
    i: int,
)
    requires
        task.wf(),
        task.accepts(reply),
    ensures
        fetch::resumed(state, task, reply, words).1 matches StepView::Run { commands, .. } ==> (0
            <= i < commands.len() ==> (commands[i].request matches RequestOf::ConvertSelection {
            requestor,
            selection,
            property,
            time,
            ..
        } ==> {
            &&& requestor == state.window
            &&& time == 0
            &&& reply == ReplyView::Atom(property)
            &&& laws::purpose_of(task) matches Some(purpose) && selection == match purpose {
                PurposeOf::Notified { clipboard_type, .. } => match clipboard_type {
                    ClipboardType::Clipboard => state.atoms["CLIPBOARD"@],
                    ClipboardType::Primary => 1,
                },
                PurposeOf::Requested { clipboard_type, .. } => match clipboard_type {
                    ClipboardType::Clipboard => state.atoms["CLIPBOARD"@],
                    ClipboardType::Primary => 1,
                },
            }
        })),
{
    match task {
        TaskView::Serve(ServeOf::List { event, content }) => {
            lemma_answers_do_not_convert(state, event, content, words);
        },
        TaskView::Interrupted(_, ServeOf::List { event, content }) => {
            lemma_answers_do_not_convert(state, event, content, words);
        },
        TaskView::Fetch(_) => {
            if let ReplyOf::Polled(Polled::Event(Event::SelectionRequest(event))) = reply {
                lemma_answers_do_not_convert(state, event, None, words);
            }
        },
        _ => {},
    }
}

/// Once an owner has been asked, the wait for its answer begins: for what was asked for, and with
/// twenty-five looks.
pub proof fn law_waits_begin(
    state: X11View,
    purpose: PurposeView,
    property: u32,
    words: Seq<u32>,
)
    ensures
        ({
            let (after, step) = fetch::resumed(
                state,
                TaskView::Fetch(FetchOf { purpose, stage: StageOf::TargetsConvert { property } }),
                ReplyOf::Done,
                words,
            );
            after == state && (step matches StepView::Ask { query, task } && query
                == protocol::poll_view() && task == TaskView::Fetch(
                FetchOf {
                    purpose,
                    stage: StageOf::TargetsWait(
                        NotifyWait {
                            target: state.atoms["TARGETS"@],
                            property,
                            polls_left: 25,
                        },
                    ),
                },
            ))
        }),
        ({
            let (after, step) = fetch::resumed(
                state,
                TaskView::Fetch(FetchOf { purpose, stage: StageOf::DataConvert { property } }),
                ReplyOf::Done,
                words,
            );
            after == state && (step matches StepView::Ask { query, task } && query
                == protocol::poll_view() && task == TaskView::Fetch(
                FetchOf {
                    purpose,
                    stage: StageOf::DataWait(
                        NotifyWait { target: purpose.target(), property, polls_left: 25 },
                    ),
                },
            ))
        }),
        ({
            let (after, step) = fetch::resumed(
                state,
                TaskView::Fetch(FetchOf { purpose, stage: StageOf::IncrDelete { property } }),
                ReplyOf::Done,
                words,
            );
            after == state && (step matches StepView::Ask { query, task } && query
                == protocol::poll_view() && task == TaskView::Fetch(
                FetchOf { purpose, stage: StageOf::IncrPoll(IncrReadView::start(property)) },
            ))
        }),
{
}

/// The answer to a wait has the property that it names read: the list of targets as atoms, at most
/// so many as fit, and the content whole, whatever its type. The property stays for the moment. An
/// answer that names none is a refusal.
pub proof fn law_answers_are_read(
    state: X11View,
    purpose: PurposeView,
    wait: NotifyWait,
    notify: SelectionNotifyEvent,
    words: Seq<u32>,
)
    requires
        notify.target == wait.target || notify.property == wait.property,
    ensures
        ({
            let (after, step) = fetch::resumed(
                state,
                TaskView::Fetch(FetchOf { purpose, stage: StageOf::TargetsWait(wait) }),
                ReplyOf::Polled(Polled::Event(Event::SelectionNotify(notify))),
                words,
            );
            &&& after == state
            &&& notify.property == 0 ==> step == fetch::targets_known(state, purpose, Seq::empty())
            &&& notify.property != 0 ==> (step matches StepView::Ask { query, task } && query.ask
                == (AskView::Property {
                delete: false,
                window: state.window,
                property: notify.property,
                type_: 4,
                offset: 0,
                length: 1024,
            }) && query.send_failure == "Failed to get TARGETS property"@ && query.reply_failure
                == "Failed to get TARGETS property"@ + " reply"@ && task == TaskView::Fetch(
                FetchOf { purpose, stage: StageOf::TargetsRead { property: notify.property } },
            ))
        }),
        ({
            let (after, step) = fetch::resumed(
                state,
                TaskView::Fetch(FetchOf { purpose, stage: StageOf::DataWait(wait) }),
                ReplyOf::Polled(Polled::Event(Event::SelectionNotify(notify))),
                words,
            );
            &&& after == state
            &&& notify.property == 0 ==> step == fetch::given_up(purpose)
            &&& notify.property != 0 ==> step == fetch::property_asked(
                state,
                purpose,
                notify.property,
            )
        }),
{
}

/// A content is read whole from the property of our window that it was put into, whatever its type,
/// and the property stays for the moment.
pub proof fn law_content_is_read(state: X11View, purpose: PurposeView, property: u32)
    ensures
        fetch::property_asked(state, purpose, property) matches StepView::Ask { query, task }
            && query.ask == (AskView::Property {
            delete: false,
            window: state.window,
            property,
            type_: 0,
            offset: 0,
            length: 0xffff_ffff,
        }) && query.send_failure == "Failed to get property"@ && query.reply_failure
            == "Failed to get property"@ + " reply"@ && task == TaskView::Fetch(
            FetchOf { purpose, stage: StageOf::Read { property } },
        ),
{
}

/// A request of another client that comes in during a wait or a transfer is answered as it would be
/// at any other time, and the fetch then goes on where it was, with one look less.
pub proof fn law_requests_interrupt(
    state: X11View,
    purpose: PurposeView,
    wait: NotifyWait,
    transfer: IncrReadView,
    event: SelectionRequestEvent,
    words: Seq<u32>,
)
    requires
        wait.polls_left > 0,
        transfer.polls_left > 0,
    ensures
        fetch::resumed(
            state,
            TaskView::Fetch(FetchOf { purpose, stage: StageOf::TargetsWait(wait) }),
            ReplyOf::Polled(Polled::Event(Event::SelectionRequest(event))),
            words,
        ) == (
            state,
            fetch::interrupted(
                state,
                FetchOf { purpose, stage: StageOf::TargetsWait(wait.polled()) },
                event,
            ),
        ),
        fetch::resumed(
            state,
            TaskView::Fetch(FetchOf { purpose, stage: StageOf::DataWait(wait) }),
            ReplyOf::Polled(Polled::Event(Event::SelectionRequest(event))),
            words,
        ) == (
            state,
            fetch::interrupted(
                state,
                FetchOf { purpose, stage: StageOf::DataWait(wait.polled()) },
                event,
            ),
        ),
        fetch::resumed(
            state,
            TaskView::Fetch(FetchOf { purpose, stage: StageOf::IncrPoll(transfer) }),
            ReplyOf::Polled(Polled::Event(Event::SelectionRequest(event))),
            words,
        ) == (
            state,
            fetch::interrupted(
                state,
                FetchOf { purpose, stage: StageOf::IncrPoll(transfer.polled()) },
                event,
            ),
        ),
{
}

/// An answer in between sends the commands of the answer, or reads the list and then sends them,
/// and afterwards the fetch looks again.
pub proof fn law_interruptions_are_answers(
    state: X11View,
    fetch: FetchView,
    event: SelectionRequestEvent,
    content: Option<content::ContentView>,
    list: ReplyView,
    words: Seq<u32>,
)
    requires
        list is Property,
    ensures
        match serve::answer(state, event) {
            AnswerOf::Commands(commands) => fetch::interrupted(state, fetch, event) == (
            StepView::Run { commands, task: TaskView::Interrupted(fetch, ServeOf::Answered) })
                && fetch::served(state, event) == (StepView::Run {
                commands,
                task: TaskView::Serve(ServeOf::Answered),
            }),
            AnswerOf::List { query, content } => fetch::interrupted(state, fetch, event) == (
            StepView::Ask {
                query,
                task: TaskView::Interrupted(fetch, ServeOf::List { event, content }),
            }) && fetch::served(state, event) == (StepView::Ask {
                query,
                task: TaskView::Serve(ServeOf::List { event, content }),
            }),
        },
        fetch::resumed(
            state,
            TaskView::Interrupted(fetch, ServeOf::List { event, content }),
            list,
            words,
        ) == (
            state,
            StepView::Run {
                commands: serve::multiple_answer(state, event, content, words),
                task: TaskView::Interrupted(fetch, ServeOf::Answered),
            },
        ),
        fetch::resumed(
            state,
            TaskView::Interrupted(fetch, ServeOf::Answered),
            ReplyOf::Done,
            words,
        ) == fetch::polled_again(state, fetch),
        fetch::resumed(state, TaskView::Serve(ServeOf::List { event, content }), list, words) == (
            state,
            StepView::Run {
                commands: serve::multiple_answer(state, event, content, words),
                task: TaskView::Serve(ServeOf::Answered),
            },
        ),
{
}

/// Whether looking for an event gave something that a wait has no use for.
pub open spec fn is_nothing_to_a_wait(wait: NotifyWait, polled: Polled) -> bool {
    match polled {
        Polled::Event(Event::SelectionNotify(notify)) => notify.target != wait.target
            && notify.property != wait.property,
        Polled::Event(Event::SelectionRequest(_)) => false,
        _ => true,
    }
}

/// Whether looking for an event gave something that a transfer has no use for.
pub open spec fn is_nothing_to_a_transfer(transfer: IncrReadView, polled: Polled) -> bool {
    match polled {
        Polled::Event(Event::PropertyNotify(event)) => event.atom != transfer.property
            || event.state != 0,
        Polled::Event(Event::SelectionRequest(_)) => false,
        _ => true,
    }
}

/// Anything else that comes during a wait or a transfer is dropped, and uses up a look.
pub proof fn law_other_events_are_dropped(
    state: X11View,
    purpose: PurposeView,
    wait: NotifyWait,
    transfer: IncrReadView,
    polled: Polled,
    words: Seq<u32>,
)
    requires
        wait.polls_left > 0,
        transfer.polls_left > 0,
    ensures
        is_nothing_to_a_wait(wait, polled) ==> fetch::resumed(
            state,
            TaskView::Fetch(FetchOf { purpose, stage: StageOf::TargetsWait(wait) }),
            ReplyOf::Polled(polled),
            words,
        ) == fetch::polled_again(
            state,
            FetchOf { purpose, stage: StageOf::TargetsWait(wait.polled()) },
        ),
        is_nothing_to_a_wait(wait, polled) ==> fetch::resumed(
            state,
            TaskView::Fetch(FetchOf { purpose, stage: StageOf::DataWait(wait) }),
            ReplyOf::Polled(polled),
            words,
        ) == fetch::polled_again(
            state,
            FetchOf { purpose, stage: StageOf::DataWait(wait.polled()) },
        ),
        is_nothing_to_a_transfer(transfer, polled) ==> fetch::resumed(
            state,
            TaskView::Fetch(FetchOf { purpose, stage: StageOf::IncrPoll(transfer) }),
            ReplyOf::Polled(polled),
            words,
        ) == fetch::polled_again(
            state,
            FetchOf { purpose, stage: StageOf::IncrPoll(transfer.polled()) },
        ),
{
}

/// As long as looks are left, a wait or a transfer looks again and stays what it is. When none is
/// left, a wait for targets goes on as if none were offered, a wait for a content gives the target
/// up, and a transfer is taken in as it is.
pub proof fn law_looks_run_out(
    state: X11View,
    purpose: PurposeView,
    wait: NotifyWait,
    transfer: IncrReadView,
)
    ensures
        ({
            let targets = FetchOf { purpose, stage: StageOf::TargetsWait(wait) };
            let data = FetchOf { purpose, stage: StageOf::DataWait(wait) };
            &&& wait.polls_left > 0 ==> fetch::polled_again(state, targets) == (
                state,
                StepView::Ask { query: protocol::poll_view(), task: TaskView::Fetch(targets) },
            )
            &&& wait.polls_left > 0 ==> fetch::polled_again(state, data) == (
                state,
                StepView::Ask { query: protocol::poll_view(), task: TaskView::Fetch(data) },
            )
            &&& wait.polls_left == 0 ==> fetch::polled_again(state, targets) == (
                state,
                fetch::targets_known(state, purpose, Seq::empty()),
            )
            &&& wait.polls_left == 0 ==> fetch::polled_again(state, data) == (
                state,
                fetch::given_up(purpose),
            )
        }),
        ({
            let pieces = FetchOf { purpose, stage: StageOf::IncrPoll(transfer) };
            &&& transfer.polls_left > 0 ==> fetch::polled_again(state, pieces) == (
                state,
                StepView::Ask { query: protocol::poll_view(), task: TaskView::Fetch(pieces) },
            )
            &&& transfer.polls_left == 0 ==> fetch::polled_again(state, pieces) == fetch::taken_in(
                state,
                purpose,
                transfer.received(),
            )
        }),
{
}

/// Whether `commands` delete a property of our window, and do nothing else.
pub open spec fn deletes(
    state: X11View,
    commands: Seq<CommandView>,
    property: u32,
    failure: Seq<char>,
) -> bool {
    &&& commands.len() == 2
    &&& commands[0].request == (RequestView::DeleteProperty { window: state.window, property })
    &&& commands[0].failure == failure
    &&& commands[1] == protocol::flush_view()
}

/// The list of targets, once read, is kept and its property deleted; the targets wanted of it are
/// then tried.
pub proof fn law_targets_are_taken(
    state: X11View,
    purpose: PurposeView,
    property: u32,
    list: ReplyView,
    words: Seq<u32>,
    offered: Seq<u32>,
)
    requires
        list is Property,
    ensures
        ({
            let (after, step) = fetch::resumed(
                state,
                TaskView::Fetch(FetchOf { purpose, stage: StageOf::TargetsRead { property } }),
                list,
                words,
            );
            after == state && (step matches StepView::Run { commands, task } && deletes(
                state,
                commands,
                property,
                "Failed to delete TARGETS property"@,
            ) && task == TaskView::Fetch(
                FetchOf { purpose, stage: StageOf::TargetsDelete { offered: words } },
            ))
        }),
        fetch::resumed(
            state,
            TaskView::Fetch(FetchOf { purpose, stage: StageOf::TargetsDelete { offered } }),
            ReplyOf::Done,
            words,
        ) == (state, fetch::targets_known(state, purpose, offered)),
{
}

/// The targets wanted of those offered are tried from the first one on, each with a property of its
/// own number. Without any, the request has ended.
pub proof fn law_targets_are_tried(
    state: X11View,
    clipboard_type: ClipboardType,
    quiet: bool,
    before: Seq<(u32, Seq<char>)>,
    at: usize,
    offered: Seq<u32>,
)
    ensures
        ({
            let step = fetch::targets_known(
                state,
                PurposeOf::Requested { clipboard_type, quiet, targets: before, index: at },
                offered,
            );
            let wanted = state.wanted_targets(offered);
            &&& wanted.len() == 0 ==> step == StepView::Done(Ok(None))
            &&& wanted.len() > 0 ==> (step matches StepView::Ask { query, task } && query
                == protocol::intern_view("CLIP_TEMP_"@ + seq!['0']) && task == TaskView::Fetch(
                FetchOf {
                    purpose: PurposeOf::Requested {
                        clipboard_type,
                        quiet,
                        targets: wanted,
                        index: 0,
                    },
                    stage: StageOf::DataAtom,
                },
            ))
        }),
{
    assert(text::decimal(0) =~= seq!['0']);
}

/// A target that is given up gives way to the next one, with a property of its number, and the
/// request has ended after the last. What came by itself is just let go.
pub proof fn law_targets_give_way(
    clipboard_type: ClipboardType,
    quiet: bool,
    target: u32,
    targets: Seq<(u32, Seq<char>)>,
    index: usize,
)
    requires
        index < targets.len() <= usize::MAX,
    ensures
        fetch::given_up(PurposeOf::Notified { target, clipboard_type }) == StepView::Done(Ok(None)),
        ({
            let step = fetch::given_up(
                PurposeOf::Requested { clipboard_type, quiet, targets, index },
            );
            &&& index + 1 == targets.len() ==> step == StepView::Done(Ok(None))
            &&& index + 1 < targets.len() ==> (step matches StepView::Ask { query, task } && query
                == protocol::intern_view(
                "CLIP_TEMP_"@ + text::decimal((index + 1) as nat),
            ) && task == TaskView::Fetch(
                FetchOf {
                    purpose: PurposeOf::Requested {
                        clipboard_type,
                        quiet,
                        targets,
                        index: (index + 1) as usize,
                    },
                    stage: StageOf::DataAtom,
                },
            ))
        }),
        fetch::property_name(index as nat) == "CLIP_TEMP_"@ + text::decimal(index as nat),
{
}

/// What was read of a content: the announcement of a transfer has the property deleted, so that the
/// transfer begins. Otherwise the property is deleted and what it held is kept, with its type, if
/// it has a type and a value.
pub proof fn law_what_is_read(
    state: X11View,
    purpose: PurposeView,
    property: u32,
    type_: u32,
    format: u8,
    value: Seq<u8>,
    words: Seq<u32>,
)
    ensures
        ({
            let (after, step) = fetch::resumed(
                state,
                TaskView::Fetch(FetchOf { purpose, stage: StageOf::Read { property } }),
                ReplyOf::Property { type_, format, value },
                words,
            );
            &&& after == state
            &&& step matches StepView::Run { commands, task } && if type_ == state.atoms["INCR"@] {
                deletes(state, commands, property, "Failed to delete INCR property"@) && task
                    == TaskView::Fetch(
                    FetchOf { purpose, stage: StageOf::IncrDelete { property } },
                )
            } else {
                deletes(state, commands, property, "Failed to delete property"@) && task
                    == TaskView::Fetch(
                    FetchOf {
                        purpose,
                        stage: StageOf::Received {
                            data: if type_ != 0 && value.len() > 0 {
                                Some((type_, value))
                            } else {
                                None
                            },
                        },
                    },
                )
            }
        }),
{
}

/// However many pieces have come, the news of the next one has the whole value of the property of
/// our window read, whatever its type, and deleted once read, which has the owner put the next one
/// there.
pub proof fn law_every_piece_is_read_and_deleted(
    state: X11View,
    purpose: PurposeView,
    transfer: IncrReadView,
    words: Seq<u32>,
)
    requires
        transfer.polls_left > 0,
    ensures
        ({
            let (after, step) = fetch::resumed(
                state,
                TaskView::Fetch(FetchOf { purpose, stage: StageOf::IncrPoll(transfer) }),
                ReplyOf::Polled(
                    Polled::Event(
                        Event::PropertyNotify(
                            PropertyNotifyEvent { atom: transfer.property, state: 0 },
                        ),
                    ),
                ),
                words,
            );
            after == state && (step matches StepView::Ask { query, task } && query.ask == (
            AskView::Property {
                delete: true,
                window: state.window,
                property: transfer.property,
                type_: 0,
                offset: 0,
                length: 0xffff_ffff,
            }) && query.send_failure == "Failed to get INCR chunk"@ && query.reply_failure
                == "Failed to get INCR chunk"@ + " reply"@ && task == TaskView::Fetch(
                FetchOf { purpose, stage: StageOf::IncrPiece(transfer.polled()) },
            ))
        }),
{
}

/// A piece is added to the transfer, which looks for the next one; an empty one ends it.
pub proof fn law_pieces_are_added(
    state: X11View,
    purpose: PurposeView,
    transfer: IncrReadView,
    type_: u32,
    format: u8,
    value: Seq<u8>,
    words: Seq<u32>,
)
    ensures
        ({
            let taken = fetch::resumed(
                state,
                TaskView::Fetch(FetchOf { purpose, stage: StageOf::IncrPiece(transfer) }),
                ReplyOf::Property { type_, format, value },
                words,
            );
            &&& value.len() == 0 ==> taken == fetch::taken_in(state, purpose, transfer.received())
            &&& value.len() > 0 ==> taken == fetch::polled_again(
                state,
                FetchOf {
                    purpose,
                    stage: StageOf::IncrPoll(transfer.with_piece(type_, value)),
                },
            )
        }),
{
}

/// Once the property is deleted, what it held is taken in.
pub proof fn law_what_was_read_is_taken_in(
    state: X11View,
    purpose: PurposeView,
    data: Option<(u32, Seq<u8>)>,
    words: Seq<u32>,
)
    ensures
        fetch::resumed(
            state,
            TaskView::Fetch(FetchOf { purpose, stage: StageOf::Received { data } }),
            ReplyOf::Done,
            words,
        ) == fetch::taken_in(state, purpose, data),
{
}

/// What was received is decoded in the format that its type stands for, or else in the one that the
/// target does; it is nothing if neither stands for one.
pub proof fn law_format_of_a_selection(
    state: X11View,
    target: u32,
    property_type: u32,
    bytes: Seq<u8>,
)
    ensures
        ({
            let decoded = fetch::selection_content(state, target, property_type, bytes);
            match (state.mime_for(property_type), state.mime_for(target)) {
                (Some(own), _) => match content::decode(own, bytes) {
                    Ok(content) => decoded == Ok::<Option<content::ContentView>, Seq<char>>(
                        Some(content),
                    ),
                    Err(error) => decoded == Err::<Option<content::ContentView>, Seq<char>>(error),
                },
                (None, Some(asked)) => match content::decode(asked, bytes) {
                    Ok(content) => decoded == Ok::<Option<content::ContentView>, Seq<char>>(
                        Some(content),
                    ),
                    Err(error) => decoded == Err::<Option<content::ContentView>, Seq<char>>(error),
                },
                (None, None) => decoded == Ok::<Option<content::ContentView>, Seq<char>>(None),
            }
        }),
{
}

/// A content that was received is held for the selection of the fetch, and handed out for it as one
/// that came from X11. Bytes that cannot be decoded fail the fetch. Nothing, and what is in no
/// known format, is given up, and so is an empty content that was asked for. Only what is handed
/// out changes anything.
pub proof fn law_what_is_taken_in(
    state: X11View,
    purpose: PurposeView,
    property_type: u32,
    bytes: Seq<u8>,
)
    ensures
        fetch::taken_in(state, purpose, None) == (state, fetch::given_up(purpose)),
        ({
            let taken = fetch::taken_in(state, purpose, Some((property_type, bytes)));
            let target = match purpose {
                PurposeOf::Notified { target, .. } => target,
                PurposeOf::Requested { targets, index, .. } => targets[index as int].0,
            };
            let clipboard_type = match purpose {
                PurposeOf::Notified { clipboard_type, .. } => clipboard_type,
                PurposeOf::Requested { clipboard_type, .. } => clipboard_type,
            };
            match fetch::selection_content(state, target, property_type, bytes) {
                Err(error) => taken == (state, fetch::failed(purpose, error)),
                Ok(None) => taken == (state, fetch::given_up(purpose)),
                Ok(Some(content)) => if content.bytes().len() == 0 && purpose is Requested {
                    taken == (state, fetch::given_up(purpose))
                } else {
                    &&& taken.0.atoms == state.atoms
                    &&& taken.0.window == state.window
                    &&& taken.0.contents == (match clipboard_type {
                        ClipboardType::Clipboard => sync::Selections {
                            clipboard: Some(content),
                            primary: state.contents.primary,
                        },
                        ClipboardType::Primary => sync::Selections {
                            clipboard: state.contents.clipboard,
                            primary: Some(content),
                        },
                    })
                    &&& taken.1 == StepView::Done(
                        Ok(
                            Some(
                                sync::SyncEventView { from: Side::X11, content, clipboard_type },
                            ),
                        ),
                    )
                },
            }
        }),
{
}

/// Setting a selection puts the content, text or image, into the property of our window that is
/// named like its format, and claims the selection, once, by that selection's own atom and for our
/// window. The content is then to be kept for that selection. Nothing, and a content without an
/// atom for its format, is refused.
pub proof fn law_setting_claims_the_selection(
    state: X11View,
    content: content::ContentView,
    clipboard_type: ClipboardType,
    mime_type: Seq<char>,
)
    ensures
        content.primary() is None ==> fetch::claimed(state, content, clipboard_type)
            == StepView::Done(Err("Cannot set empty clipboard content"@)),
        content.primary() == Some(mime_type) && !state.atoms.contains_key(mime_type)
            ==> fetch::claimed(state, content, clipboard_type) == StepView::Done(
            Err("MIME atom not interned: "@ + mime_type),
        ),
        content.primary() == Some(mime_type) && state.atoms.contains_key(mime_type) ==> (
        fetch::claimed(state, content, clipboard_type) matches StepView::Run { commands, task } && {
            &&& commands.len() == 4
            &&& commands[0].request == (RequestView::ReplaceProperty8 {
                window: state.window,
                property: state.atoms[mime_type],
                type_: state.atoms[mime_type],
                data: content.bytes(),
            })
            &&& commands[0].failure == "Failed to change property"@
            &&& commands[1] == protocol::flush_view()
            &&& commands[2].request == (RequestView::SetSelectionOwner {
                owner: state.window,
                selection: match clipboard_type {
                    ClipboardType::Clipboard => state.atoms["CLIPBOARD"@],
                    ClipboardType::Primary => 1,
                },
                time: 0,
            })
            &&& commands[2].failure == "Failed to set selection owner"@
            &&& commands[3] == protocol::flush_view()
            &&& task == (TaskView::Store { content, clipboard_type })
        }),
{
}

/// A content is kept for the selection once it has been claimed; if that fails, nothing changes.
pub proof fn law_claimed_content_is_kept(
    state: X11View,
    content: content::ContentView,
    clipboard_type: ClipboardType,
    error: Seq<char>,
    words: Seq<u32>,
)
    ensures
        ({
            let task = TaskView::Store { content, clipboard_type };
            let (after, step) = fetch::resumed(state, task, ReplyOf::Done, words);
            &&& step == StepView::Done(Ok(None))
            &&& after.atoms == state.atoms
            &&& after.window == state.window
            &&& after.contents == (match clipboard_type {
                ClipboardType::Clipboard => sync::Selections {
                    clipboard: Some(content),
                    primary: state.contents.primary,
                },
                ClipboardType::Primary => sync::Selections {
                    clipboard: state.contents.clipboard,
                    primary: Some(content),
                },
            })
            &&& fetch::resumed(state, task, ReplyOf::Failed(error), words) == (
                state,
                StepView::Done(Err(error)),
            )
        }),
{
}

/// The news of another owner begins a quiet request for the selection it names, unless that owner
/// is us or nobody.
pub proof fn law_new_owner_is_asked(state: X11View, owner: u32, selection: u32)
    ensures
        fetch::handled(
            state,
            Event::XfixesSelectionNotify(XfixesSelectionNotifyEvent { owner, selection }),
        ) == (
            state,
            if owner == state.window || owner == 0 {
                StepView::Done(Ok(None))
            } else if selection == state.atoms["CLIPBOARD"@] {
                fetch::requested(state, ClipboardType::Clipboard, true)
            } else {
                fetch::requested(state, ClipboardType::Primary, true)
            },
        ),
        fetch::owner_changed(state, XfixesSelectionNotifyEvent { owner, selection })
            == fetch::handled(
            state,
            Event::XfixesSelectionNotify(XfixesSelectionNotifyEvent { owner, selection }),
        ).1,
{
}

/// A notification that comes by itself has the property that it names read, for the selection and
/// the target that it names; one that names no property leads to nothing.
pub proof fn law_notified_content_is_read(state: X11View, event: SelectionNotifyEvent)
    ensures
        fetch::handled(state, Event::SelectionNotify(event)) == (
            state,
            if event.property == 0 {
                StepView::Done(Ok(None))
            } else {
                fetch::property_asked(
                    state,
                    PurposeOf::Notified {
                        target: event.target,
                        clipboard_type: if event.selection == state.atoms["CLIPBOARD"@] {
                            ClipboardType::Clipboard
                        } else {
                            ClipboardType::Primary
                        },
                    },
                    event.property,
                )
            },
        ),
        fetch::notified(state, event) == fetch::handled(state, Event::SelectionNotify(event)).1,
{
}

/// A selection that is lost holds nothing any more, and the other one what it did. Other events
/// change nothing and lead to nothing.
pub proof fn law_lost_and_other_events(
    state: X11View,
    clear: SelectionClearEvent,
    notify: PropertyNotifyEvent,
)
    ensures
        ({
            let (after, step) = fetch::handled(state, Event::SelectionClear(clear));
            &&& step == StepView::Done(Ok(None))
            &&& after.atoms == state.atoms
            &&& after.window == state.window
            &&& clear.selection == state.atoms["CLIPBOARD"@] ==> after.contents == (
            sync::Selections { clipboard: None, primary: state.contents.primary })
            &&& clear.selection != state.atoms["CLIPBOARD"@] ==> after.contents == (
            sync::Selections { clipboard: state.contents.clipboard, primary: None })
        }),
        fetch::handled(state, Event::PropertyNotify(notify)) == (state, StepView::Done(Ok(None))),
        fetch::handled(state, Event::Other) == (state, StepView::Done(Ok(None))),
{
}

/// A request that comes as an event is served, and nothing else is done about it.
pub proof fn law_request_events_are_served(state: X11View, event: SelectionRequestEvent)
    ensures
        fetch::handled(state, Event::SelectionRequest(event)) == (
            state,
            fetch::served(state, event),
        ),
{
}

/// The words of a list are taken from the value that was read for it, whether the list is one of
/// targets or of a multiple request, alone or during a fetch; a value that is not one of words has
/// none, and so has every other reply.
pub proof fn law_words_of_a_list(
    fetch: FetchView,
    purpose: PurposeView,
    property: u32,
    event: SelectionRequestEvent,
    content: Option<content::ContentView>,
    type_: u32,
    format: u8,
    value: Seq<u8>,
    words: Seq<u32>,
    other: TaskView,
    reply: ReplyView,
)
    ensures
        ({
            let list = ReplyView::Property { type_, format, value };
            let read = if format == 32 {
                foreign::words_of(value, words)
            } else {
                words.len() == 0
            };
            &&& fetch::words_in(
                TaskView::Fetch(FetchOf { purpose, stage: StageOf::TargetsRead { property } }),
                list,
                words,
            ) <==> read
            &&& fetch::words_in(TaskView::Serve(ServeOf::List { event, content }), list, words)
                <==> read
            &&& fetch::words_in(
                TaskView::Interrupted(fetch, ServeOf::List { event, content }),
                list,
                words,
            ) <==> read
        }),
        !(reply is Property) || (match other {
            TaskView::Serve(ServeOf::List { .. }) => false,
            TaskView::Interrupted(_, ServeOf::List { .. }) => false,
            TaskView::Fetch(fetch) => !(fetch.stage is TargetsRead),
            _ => true,
        }) ==> (fetch::words_in(other, reply, words) <==> words.len() == 0),
{
    assert(words.len() == 0 <==> words =~= Seq::<u32>::empty());
}

/// What a task waits for, and so what it can be taken up with. Any exchange may also have failed,
/// but for a look, which always gives something.
pub proof fn law_what_a_task_waits_for(task: TaskView, reply: ReplyView)
    ensures
        task.accepts(reply) <==> match task {
            TaskView::Store { .. } => reply is Done || reply is Failed,
            TaskView::Serve(ServeOf::Answered) => reply is Done || reply is Failed,
            TaskView::Interrupted(_, ServeOf::Answered) => reply is Done || reply is Failed,
            TaskView::Serve(ServeOf::List { .. }) => reply is Property || reply is Failed,
            TaskView::Interrupted(_, ServeOf::List { .. }) => reply is Property || reply is Failed,
            TaskView::Fetch(fetch) => match fetch.stage {
                StageOf::Owner => reply is Owner || reply is Failed,
                StageOf::TargetsAtom => reply is Atom || reply is Failed,
                StageOf::DataAtom => reply is Atom || reply is Failed,
                StageOf::TargetsConvert { .. } => reply is Done || reply is Failed,
                StageOf::TargetsDelete { .. } => reply is Done || reply is Failed,
                StageOf::DataConvert { .. } => reply is Done || reply is Failed,
                StageOf::IncrDelete { .. } => reply is Done || reply is Failed,
                StageOf::Received { .. } => reply is Done || reply is Failed,
                StageOf::TargetsRead { .. } => reply is Property || reply is Failed,
                StageOf::Read { .. } => reply is Property || reply is Failed,
                StageOf::IncrPiece(_) => reply is Property || reply is Failed,
                StageOf::TargetsWait(_) => reply is Polled,
                StageOf::DataWait(_) => reply is Polled,
                StageOf::IncrPoll(_) => reply is Polled,
            },
        },
{
}

/// Which tasks can be taken up. A fetch that follows a notification is past the targets; one that
/// tries a target has it among its targets; one that looks has a look left, unless it is being
/// interrupted; and what has been received is not empty.
pub proof fn law_which_tasks_go_on(task: TaskView)
    ensures
        task.wf() <==> match task {
            TaskView::Store { .. } => true,
            TaskView::Serve(_) => true,
            TaskView::Fetch(fetch) => fetch.wf() && match fetch.stage {
                StageOf::TargetsWait(wait) => wait.polls_left > 0,
                StageOf::DataWait(wait) => wait.polls_left > 0,
                StageOf::IncrPoll(transfer) => transfer.polls_left > 0,
                _ => true,
            },
            TaskView::Interrupted(fetch, _) => fetch.wf() && (fetch.stage is TargetsWait
                || fetch.stage is DataWait || fetch.stage is IncrPoll),
        },
        laws::purpose_of(task) is Some ==> {
            let fetch = match task {
                TaskView::Fetch(fetch) => fetch,
                TaskView::Interrupted(fetch, _) => fetch,
                _ => arbitrary(),
            };
            let early = fetch.stage is Owner || fetch.stage is TargetsAtom || fetch.stage
                is TargetsConvert || fetch.stage is TargetsWait || fetch.stage is TargetsRead
                || fetch.stage is TargetsDelete;
            let asking = fetch.stage is DataAtom || fetch.stage is DataConvert || fetch.stage
                is DataWait;
            fetch.wf() <==> {
                &&& match fetch.purpose {
                    PurposeOf::Notified { .. } => !early && !asking,
                    PurposeOf::Requested { targets, index, .. } => early || index < targets.len()
                        <= usize::MAX,
                }
                &&& fetch.stage matches StageOf::Received { data: Some((_, bytes)) }
                    ==> bytes.len() > 0
            }
        },
{
}

/// The plain values of purposes, stages and fetches leave nothing out.
pub proof fn law_view_of_a_fetch(
    purpose: task::Purpose,
    stage: task::Stage,
    fetch: task::Fetch,
)
    ensures
        match purpose {
            PurposeOf::Notified { target, clipboard_type } => purpose@ == (PurposeView::Notified {
                target,
                clipboard_type,
            }),
            PurposeOf::Requested { clipboard_type, quiet, targets, index } => purpose@ == (
            PurposeView::Requested {
                clipboard_type,
                quiet,
                targets: crate::x11::state::targets_view(targets@),
                index,
            }),
        },
        match stage {
            StageOf::Owner => stage@ == StageView::Owner,
            StageOf::TargetsAtom => stage@ == StageView::TargetsAtom,
            StageOf::TargetsConvert { property } => stage@ == (StageView::TargetsConvert {
                property,
            }),
            StageOf::TargetsWait(wait) => stage@ == StageView::TargetsWait(wait),
            StageOf::TargetsRead { property } => stage@ == (StageView::TargetsRead { property }),
            StageOf::TargetsDelete { offered } => stage@ == (StageView::TargetsDelete {
                offered: offered@,
            }),
            StageOf::DataAtom => stage@ == StageView::DataAtom,
            StageOf::DataConvert { property } => stage@ == (StageView::DataConvert { property }),
            StageOf::DataWait(wait) => stage@ == StageView::DataWait(wait),
            StageOf::Read { property } => stage@ == (StageView::Read { property }),
            StageOf::IncrDelete { property } => stage@ == (StageView::IncrDelete { property }),
            StageOf::IncrPoll(transfer) => stage@ == StageView::IncrPoll(transfer@),
            StageOf::IncrPiece(transfer) => stage@ == StageView::IncrPiece(transfer@),
            StageOf::Received { data } => stage@ == (StageView::Received {
                data: incr::received_view(data),
            }),
        },
        fetch@.purpose == fetch.purpose@,
        fetch@.stage == fetch.stage@,
{
}

/// The plain values of tasks and steps, and of how work ended, leave nothing out.
pub proof fn law_view_of_a_task(
    serve: task::Serve,
    task: Task,
    step: Step,
    outcome: Result<Option<SyncEvent>, String>,
    decoded: Result<Option<ClipboardContent>, String>,
)
    ensures
        match serve {
            ServeOf::List { event, content } => serve@ == (ServeView::List {
                event,
                content: sync::optional_view(content),
            }),
            ServeOf::Answered => serve@ == ServeView::Answered,
        },
        match task {
            Task::Store { content, clipboard_type } => task@ == (TaskView::Store {
                content: content@,
                clipboard_type,
            }),
            Task::Serve(serve) => task@ == TaskView::Serve(serve@),
            Task::Fetch(fetch) => task@ == TaskView::Fetch(fetch@),
            Task::Interrupted(fetch, serve) => task@ == TaskView::Interrupted(fetch@, serve@),
        },
        match step {
            Step::Run { commands, task } => step@ == (StepView::Run {
                commands: protocol::commands_view(commands@),
                task: task@,
            }),
            Step::Ask { query, task } => step@ == (StepView::Ask { query: query@, task: task@ }),
            Step::Done(outcome) => step@ == StepView::Done(task::outcome_view(outcome)),
        },
        match outcome {
            Ok(Some(event)) => task::outcome_view(outcome) == Ok::<
                Option<sync::SyncEventView>,
                Seq<char>,
            >(Some(event@)),
            Ok(None) => task::outcome_view(outcome) == Ok::<
                Option<sync::SyncEventView>,
                Seq<char>,
            >(None),
            Err(error) => task::outcome_view(outcome) == Err::<
                Option<sync::SyncEventView>,
                Seq<char>,
            >(error@),
        },
        match decoded {
            Ok(content) => fetch::selection_view(decoded) == Ok::<
                Option<content::ContentView>,
                Seq<char>,
            >(sync::optional_view(content)),
            Err(error) => fetch::selection_view(decoded) == Err::<
                Option<content::ContentView>,
                Seq<char>,
            >(error@),
        },
{
}

/// A step leaves work that can go on: after commands it waits for their being sent, after a
/// question for the answer to that question.
pub proof fn law_steps_can_go_on(step: StepView)
    ensures
        step.wf() <==> match step {
            StepView::Run { task, .. } => task.wf() && task.accepts(ReplyView::Done),
            StepView::Ask { query, task } => task.wf() && match query.ask {
                AskView::InternAtom { .. } => task.accepts(ReplyView::Atom(0)),
                AskView::SelectionOwner { .. } => task.accepts(ReplyView::Owner(0)),
                AskView::Property { .. } => task.accepts(
                    ReplyView::Property { type_: 0, format: 0, value: Seq::empty() },
                ),
                AskView::Poll { .. } => task.accepts(ReplyView::Polled(Polled::Nothing)),
                _ => false,
            },
            StepView::Done(_) => true,
        },
{
}

} // verus!
