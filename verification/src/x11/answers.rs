//! What other clients get when they ask for a selection.

use crate::content;
use crate::content::ClipboardContent;
use crate::sync;
use crate::x11::fetch;
use crate::x11::laws;
use crate::x11::protocol;
use crate::x11::protocol::{
    AskView, Command, CommandView, Event, RequestOf, RequestView, ReplyView, SelectionNotifyEvent,
    SelectionRequestEvent,
};
use crate::x11::serve;
use crate::x11::serve::{Answer, AnswerOf, AnswerView};
use crate::x11::state::X11View;
use crate::x11::task::{ServeOf, StepView, TaskView};
use vstd::prelude::*;

verus! {

/// An answer goes into the property that the client named, or else into the one named like the
/// target.
pub proof fn law_where_an_answer_goes(event: SelectionRequestEvent)
    ensures
        event.property != 0 ==> serve::answer_property(event) == event.property,
        event.property == 0 ==> serve::answer_property(event) == event.target,
{
}

/// An answer ends with a notification to the client that asked, which repeats what it asked and
/// names the property, and with a flush.
pub proof fn law_end_of_an_answer(event: SelectionRequestEvent, property: u32)
    ensures
        serve::notification(event, property).request == (RequestView::SendEvent {
            destination: event.requestor,
            event: SelectionNotifyEvent {
                response_type: 31,
                sequence: 0,
                time: event.time,
                requestor: event.requestor,
                selection: event.selection,
                target: event.target,
                property,
            },
        }),
        serve::notification(event, property).failure == "Failed to send event"@,
        serve::closing(event, property).len() == 2,
        serve::closing(event, property)[0] == serve::notification(event, property),
        serve::closing(event, property)[1] == protocol::flush_view(),
{
}

/// A list of atoms is written as such, into the property and the window that were said.
pub proof fn law_written_atoms(window: u32, property: u32, words: Seq<u32>, failure: Seq<char>)
    ensures
        serve::atoms_written(window, property, words, failure).request == (
        RequestView::ReplaceProperty32 { window, property, type_: 4, words }),
        serve::atoms_written(window, property, words, failure).failure == failure,
{
}

/// What is written of a content into a property of another client's window: the targets for the
/// question which there are, or else the content's bytes in the format that the target stands for,
/// typed as the target. Nothing is written for a target that stands for no format of the content.
pub proof fn law_written_content(
    state: X11View,
    requestor: u32,
    property: u32,
    target: u32,
    content: content::ContentView,
    mime_type: Seq<char>,
)
    ensures
        ({
            let written = serve::content_written(state, requestor, property, target, content);
            if target == state.atoms["TARGETS"@] {
                written matches Some(command) && command.request == (
                RequestView::ReplaceProperty32 {
                    window: requestor,
                    property,
                    type_: 4,
                    words: state.targets_for(Some(content)),
                }) && command.failure == "Failed to change TARGETS property"@
            } else {
                &&& state.mime_for(target) is None ==> written is None
                &&& state.mime_for(target) == Some(mime_type) && content.bytes_for(mime_type)
                    is None ==> written is None
                &&& state.mime_for(target) == Some(mime_type) && content.bytes_for(mime_type)
                    is Some ==> (written matches Some(command) && command.request == (
                RequestView::ReplaceProperty8 {
                    window: requestor,
                    property,
                    type_: target,
                    data: content.bytes_for(mime_type).unwrap(),
                }) && command.failure == "Failed to change selection property"@)
            }
        }),
{
}

/// What a pair of a multiple request gets: nothing without a property; the targets of what is held
/// for the question which there are; otherwise what is written of the content, if one is held.
pub proof fn law_written_pair(
    state: X11View,
    requestor: u32,
    content: Option<content::ContentView>,
    target: u32,
    property: u32,
)
    ensures
        ({
            let written = serve::pair_written(state, requestor, content, target, property);
            &&& property == 0 ==> written is None
            &&& property != 0 && target == state.atoms["TARGETS"@] ==> (written matches Some(
                command,
            ) && command.request == (RequestView::ReplaceProperty32 {
                window: requestor,
                property,
                type_: 4,
                words: state.targets_for(content),
            }) && command.failure == "Failed to change TARGETS property"@)
            &&& property != 0 && target != state.atoms["TARGETS"@] && content is None
                ==> written is None
            &&& property != 0 && target != state.atoms["TARGETS"@] && content is Some ==> written
                == serve::content_written(state, requestor, property, target, content.unwrap())
        }),
{
}

/// The pairs of a multiple request are dealt with one after the other, each for itself.
pub proof fn law_pairs_one_by_one(
    state: X11View,
    requestor: u32,
    content: Option<content::ContentView>,
    words: Seq<u32>,
    count: nat,
)
    ensures
        serve::pairs_written(state, requestor, content, words, 0).len() == 0,
        ({
            let before = serve::pairs_written(state, requestor, content, words, count);
            let target = words[2 * count as int];
            let property = words[2 * count as int + 1];
            serve::pairs_written(state, requestor, content, words, count + 1) == before
                + match serve::pair_written(state, requestor, content, target, property) {
                Some(command) => seq![command],
                None => Seq::empty(),
            }
        }),
{
    let before = serve::pairs_written(state, requestor, content, words, count);
    assert(before + Seq::empty() =~= before);
    assert(forall|command: CommandView| before + seq![command] =~= #[trigger] before.push(command));
}

/// The list of a multiple request is given back with the null atom in place of the properties of
/// the pairs that got nothing. Everything else in it stays, a last word without a partner too.
pub proof fn law_marked_pairs(
    state: X11View,
    requestor: u32,
    content: Option<content::ContentView>,
    words: Seq<u32>,
    i: int,
)
    requires
        0 <= i < words.len(),
    ensures
        ({
            let marked = serve::pairs_marked(state, requestor, content, words);
            &&& marked.len() == words.len()
            &&& i % 2 == 0 ==> marked[i] == words[i]
            &&& i % 2 == 1 ==> marked[i] == match serve::pair_written(
                state,
                requestor,
                content,
                words[i - 1],
                words[i],
            ) {
                Some(_) => words[i],
                None => 0,
            }
        }),
{
}

/// The answer to a multiple request is what its pairs get, the list with the marks, in the property
/// it came in, and the end of every answer.
pub proof fn law_whole_multiple_answer(
    state: X11View,
    event: SelectionRequestEvent,
    content: Option<content::ContentView>,
    words: Seq<u32>,
)
    ensures
        ({
            let all = serve::multiple_answer(state, event, content, words);
            let pairs = serve::pairs_written(
                state,
                event.requestor,
                content,
                words,
                words.len() / 2,
            );
            let property = if event.property == 0 {
                event.target
            } else {
                event.property
            };
            let n = pairs.len() as int;
            &&& all.len() == n + 3
            &&& all.take(n) == pairs
            &&& all[n].request == (RequestView::ReplaceProperty32 {
                window: event.requestor,
                property,
                type_: 4,
                words: serve::pairs_marked(state, event.requestor, content, words),
            })
            &&& all[n].failure == "Failed to update MULTIPLE property"@
            &&& all[n + 1] == serve::notification(event, property)
            &&& all[n + 2] == protocol::flush_view()
        }),
{
    let all = serve::multiple_answer(state, event, content, words);
    let pairs = serve::pairs_written(state, event.requestor, content, words, words.len() / 2);
    assert(all.take(pairs.len() as int) =~= pairs);
}

/// The content that a request gets is the one held for the selection it names.
pub open spec fn asked_content(
    state: X11View,
    event: SelectionRequestEvent,
) -> Option<content::ContentView> {
    if event.selection == state.atoms["CLIPBOARD"@] {
        state.contents.clipboard
    } else if event.selection == 1 {
        state.contents.primary
    } else {
        None
    }
}

/// The question which targets there are is always answered, with those of what is held for the
/// selection.
pub proof fn law_answer_to_the_question(state: X11View, event: SelectionRequestEvent)
    requires
        event.target == state.atoms["TARGETS"@],
    ensures
        serve::answer(state, event) matches AnswerOf::Commands(commands) && {
            let property = if event.property == 0 {
                event.target
            } else {
                event.property
            };
            &&& commands.len() == 3
            &&& commands[0].request == (RequestView::ReplaceProperty32 {
                window: event.requestor,
                property,
                type_: 4,
                words: state.targets_for(asked_content(state, event)),
            })
            &&& commands[0].failure == "Failed to change property32"@
            &&& commands[1] == serve::notification(event, property)
            &&& commands[2] == protocol::flush_view()
        },
{
}

/// A multiple request has its list read from the client's own property, and is answered with what
/// was held when it came.
pub proof fn law_answer_to_a_multiple_request(state: X11View, event: SelectionRequestEvent)
    requires
        event.target != state.atoms["TARGETS"@],
        event.target == state.atoms["MULTIPLE"@],
    ensures
        serve::answer(state, event) matches AnswerOf::List { query, content } && {
            &&& query.ask == (AskView::Property {
                delete: false,
                window: event.requestor,
                property: if event.property == 0 {
                    event.target
                } else {
                    event.property
                },
                type_: 4,
                offset: 0,
                length: 1024,
            })
            &&& query.send_failure == "Failed to get property"@
            &&& query.reply_failure == "Failed to get property"@ + " reply"@
            &&& content == asked_content(state, event)
        },
{
}

/// A request for data is answered with the bytes of what is held for the selection, if it can be
/// given out as the target, and the notification then names the property. Otherwise nothing is
/// written, and the notification names none.
pub proof fn law_answer_with_data(
    state: X11View,
    event: SelectionRequestEvent,
    content: content::ContentView,
    mime_type: Seq<char>,
)
    requires
        event.target != state.atoms["TARGETS"@],
        event.target != state.atoms["MULTIPLE"@],
    ensures
        asked_content(state, event) is None || state.mime_for(event.target) is None || (
        asked_content(state, event) == Some(content) && state.mime_for(event.target) == Some(
            mime_type,
        ) && content.bytes_for(mime_type) is None) ==> (serve::answer(
            state,
            event,
        ) matches AnswerOf::Commands(commands) && commands.len() == 2 && commands[0]
            == serve::notification(event, 0) && commands[1] == protocol::flush_view()),
        asked_content(state, event) == Some(content) && state.mime_for(event.target) == Some(
            mime_type,
        ) && content.bytes_for(mime_type) is Some ==> (serve::answer(
            state,
            event,
        ) matches AnswerOf::Commands(commands) && {
            let property = if event.property == 0 {
                event.target
            } else {
                event.property
            };
            &&& commands.len() == 3
            &&& commands[0].request == (RequestView::ReplaceProperty8 {
                window: event.requestor,
                property,
                type_: event.target,
                data: content.bytes_for(mime_type).unwrap(),
            })
            &&& commands[0].failure == "Failed to change selection property"@
            &&& commands[1] == serve::notification(event, property)
            &&& commands[2] == protocol::flush_view()
        }),
{
}

/// Whether `commands` notify the client that asked, once, just before the flush at the end.
pub open spec fn tells_the_client(
    commands: Seq<CommandView>,
    event: SelectionRequestEvent,
) -> bool {
    &&& commands.len() >= 2
    &&& commands[commands.len() - 1].request is Flush
    &&& commands[commands.len() - 2].request matches RequestOf::SendEvent {
        destination,
        event: notify,
    } && {
        &&& destination == event.requestor
        &&& notify.requestor == event.requestor
        &&& notify.selection == event.selection
        &&& notify.target == event.target
        &&& notify.time == event.time
    }
    &&& forall|i: int|
        0 <= i < commands.len() - 2 ==> !((#[trigger] commands[i]).request is SendEvent)
}

/// Every request of another client that comes as an event is answered, and leaves what is held as
/// it is. The answer begins at once, and tells the client in the end: by the commands that come
/// first, or, for a multiple request, by those that come when its list has been read.
pub proof fn law_every_request_event_is_answered(
    state: X11View,
    event: SelectionRequestEvent,
    list: ReplyView,
    words: Seq<u32>,
)
    requires
        list is Property,
    ensures
        ({
            let (after, step) = fetch::handled(state, Event::SelectionRequest(event));
            &&& after == state
            &&& match step {
                StepView::Run { commands, task } => {
                    &&& tells_the_client(commands, event)
                    &&& serve::answer(state, event) == AnswerView::Commands(commands)
                    &&& task == TaskView::Serve(ServeOf::Answered)
                },
                StepView::Ask { query, task } => {
                    &&& event.target == state.atoms["MULTIPLE"@]
                    &&& query.ask matches AskView::Property { delete: false, window, .. } && window
                        == event.requestor
                    &&& fetch::resumed(state, task, list, words).0 == state
                    &&& fetch::resumed(state, task, list, words).1 matches StepView::Run {
                        commands,
                        task: last,
                    } && tells_the_client(commands, event) && commands == serve::multiple_answer(
                        state,
                        event,
                        asked_content(state, event),
                        words,
                    ) && last == TaskView::Serve(ServeOf::Answered)
                },
                StepView::Done(_) => false,
            }
        }),
{
    laws::law_every_request_is_answered_once(state, event, words);
    if let AnswerOf::Commands(commands) = serve::answer(state, event) {
        assert(tells_the_client(commands, event));
    }
}

/// Once an answer has been sent, the work on it has ended; if it could not be, it ends with the
/// message for that. Neither changes what is held.
pub proof fn law_answers_end(
    state: X11View,
    event: SelectionRequestEvent,
    content: Option<content::ContentView>,
    error: Seq<char>,
    words: Seq<u32>,
)
    ensures
        fetch::resumed(state, TaskView::Serve(ServeOf::Answered), ReplyView::Done, words) == (
            state,
            StepView::Done(Ok(None)),
        ),
        fetch::resumed(
            state,
            TaskView::Serve(ServeOf::Answered),
            ReplyView::Failed(error),
            words,
        ) == (state, StepView::Done(Err(error))),
        fetch::resumed(
            state,
            TaskView::Serve(ServeOf::List { event, content }),
            ReplyView::Failed(error),
            words,
        ) == (state, StepView::Done(Err(error))),
{
}

/// The plain values of an answer, of an optional command and of a borrowed content leave nothing
/// out.
pub proof fn law_view_of_an_answer(
    answer: Answer,
    command: Option<Command>,
    held: Option<&ClipboardContent>,
)
    ensures
        match answer {
            AnswerOf::Commands(commands) => answer@ == AnswerView::Commands(
                protocol::commands_view(commands@),
            ),
            AnswerOf::List { query, content } => answer@ == (AnswerView::List {
                query: query@,
                content: sync::optional_view(content),
            }),
        },
        match command {
            Some(inner) => serve::optional_command_view(command) == Some(inner@),
            None => serve::optional_command_view(command) is None,
        },
        match held {
            Some(inner) => serve::borrowed_view(held) == Some(inner@),
            None => serve::borrowed_view(held) is None,
        },
{
}

} // verus!
