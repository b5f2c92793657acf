//! Fetching a selection's content from its owner, and everything else that takes more than one
//! exchange.

use crate::content;
use crate::content::{decode_clipboard_content, ClipboardContent};
use crate::foreign;
use crate::mime;
use crate::sync;
use crate::sync::{ClipboardType, Side, SyncEvent};
use crate::text;
use crate::x11::atoms;
use crate::x11::incr;
use crate::x11::incr::{Arrived, IncrReadOf};
use crate::x11::protocol;
use crate::x11::protocol::{
    AskOf, Command, CommandView, Event, PropertyNotifyEvent, Query, QueryView, Reply, ReplyOf,
    ReplyView, RequestOf, SelectionClearEvent, SelectionNotifyEvent, SelectionRequestEvent,
    XfixesSelectionNotifyEvent, ATOM_ANY, ATOM_ATOM, ATOM_NONE, CURRENT_TIME, WINDOW_NONE,
};
use crate::x11::serve;
use crate::x11::serve::AnswerOf;
use crate::x11::state;
use crate::x11::state::{X11State, X11View};
use crate::x11::task;
use crate::x11::task::{
    Fetch, FetchOf, FetchView, Purpose, PurposeOf, PurposeView, ServeOf, StageOf, Step, StepView,
    Task, TaskView,
};
use crate::x11::wait::{NotifyWait, Waited, NOTIFY_POLLS};
use vstd::prelude::*;
use vstd::slice::slice_to_vec;

verus! {

/// How much of the list of targets is read, in words.
pub const TARGETS_LENGTH: u32 = 1024;

/// How much of a content is read, in words: all of it.
pub const WHOLE_LENGTH: u32 = 0xffff_ffff;

/// Work that has ended with nothing to forward.
pub open spec fn finished() -> StepView {
    StepView::Done(Ok(None))
}

/// Work that has failed.
pub open spec fn failed(purpose: PurposeView, error: Seq<char>) -> StepView {
    match purpose {
        PurposeOf::Requested { quiet: true, .. } => finished(),
        _ => StepView::Done(Err(error)),
    }
}

impl PurposeOf<Seq<(u32, Seq<char>)>> {
    /// The selection that is fetched.
    pub open spec fn clipboard_type(self) -> ClipboardType {
        match self {
            PurposeOf::Notified { clipboard_type, .. } => clipboard_type,
            PurposeOf::Requested { clipboard_type, .. } => clipboard_type,
        }
    }

    /// The target that the content comes as.
    pub open spec fn target(self) -> u32 {
        match self {
            PurposeOf::Notified { target, .. } => target,
            PurposeOf::Requested { targets, index, .. } => targets[index as int].0,
        }
    }

    /// The same with another list of targets, to be tried from the first one on.
    pub open spec fn trying(self, tried: Seq<(u32, Seq<char>)>) -> PurposeView {
        match self {
            PurposeOf::Requested { clipboard_type, quiet, .. } => PurposeOf::Requested {
                clipboard_type,
                quiet,
                targets: tried,
                index: 0,
            },
            _ => self,
        }
    }
}

/// The name of the property that the target at `index` is asked for into.
pub open spec fn property_name(index: nat) -> Seq<char> {
    "CLIP_TEMP_"@ + text::decimal(index)
}

/// Goes on to the target at the index, if there is one.
pub open spec fn target_tried(purpose: PurposeView) -> StepView {
    match purpose {
        PurposeOf::Requested { targets, index, .. } => if index < targets.len() {
            StepView::Ask {
                query: protocol::intern_view(property_name(index as nat)),
                task: TaskView::Fetch(FetchOf { purpose, stage: StageOf::DataAtom }),
            }
        } else {
            finished()
        },
        PurposeOf::Notified { .. } => finished(),
    }
}

/// Goes on to the next target, if we ask for the content and there is another one.
pub open spec fn given_up(purpose: PurposeView) -> StepView {
    match purpose {
        PurposeOf::Requested { clipboard_type, quiet, targets, index } => target_tried(
            PurposeOf::Requested { clipboard_type, quiet, targets, index: (index + 1) as usize },
        ),
        PurposeOf::Notified { .. } => finished(),
    }
}

/// Goes on to the targets to ask for, given those that the owner offers.
pub open spec fn targets_known(
    state: X11View,
    purpose: PurposeView,
    offered: Seq<u32>,
) -> StepView {
    target_tried(purpose.trying(state.wanted_targets(offered)))
}

/// The commands that ask a selection's owner to put `target` into a property of our window.
pub open spec fn converted(
    state: X11View,
    clipboard_type: ClipboardType,
    target: u32,
    property: u32,
    failure: Seq<char>,
) -> Seq<CommandView> {
    seq![
        CommandView {
            request: RequestOf::ConvertSelection {
                requestor: state.window,
                selection: state.selection_atom(clipboard_type),
                target,
                property,
                time: CURRENT_TIME,
            },
            failure,
        },
        protocol::flush_view(),
    ]
}

/// The commands that delete a property of our window.
pub open spec fn deleted(state: X11View, property: u32, failure: Seq<char>) -> Seq<CommandView> {
    seq![
        CommandView {
            request: RequestOf::DeleteProperty { window: state.window, property },
            failure,
        },
        protocol::flush_view(),
    ]
}

/// The content that bytes of a property type are when they were asked for as `target`: the type
/// tells the format, and the target does if the type tells none. Nothing if neither does.
pub open spec fn selection_content(
    state: X11View,
    target: u32,
    property_type: u32,
    bytes: Seq<u8>,
) -> Result<Option<content::ContentView>, Seq<char>> {
    let mime_type = match state.mime_for(property_type) {
        Some(mime_type) => Some(mime_type),
        None => state.mime_for(target),
    };
    match mime_type {
        Some(mime_type) => match content::decode(mime_type, bytes) {
            Ok(content) => Ok(Some(content)),
            Err(error) => Err(error),
        },
        None => Ok(None),
    }
}

/// Takes in what a property held: a content is kept and forwarded. Nothing, or nothing we can
/// read, makes a request go on to the next target.
pub open spec fn taken_in(
    state: X11View,
    purpose: PurposeView,
    data: Option<(u32, Seq<u8>)>,
) -> (X11View, StepView) {
    match data {
        None => (state, given_up(purpose)),
        Some((property_type, bytes)) => match selection_content(
            state,
            purpose.target(),
            property_type,
            bytes,
        ) {
            Err(error) => (state, failed(purpose, error)),
            Ok(None) => (state, given_up(purpose)),
            Ok(Some(content)) => if purpose is Requested && content.bytes().len() == 0 {
                (state, given_up(purpose))
            } else {
                (
                    state.holding(purpose.clipboard_type(), Some(content)),
                    StepView::Done(
                        Ok(
                            Some(
                                sync::SyncEventView {
                                    from: Side::X11,
                                    content,
                                    clipboard_type: purpose.clipboard_type(),
                                },
                            ),
                        ),
                    ),
                )
            },
        },
    }
}

/// Looks for another event, or goes on without if that has been done often enough.
pub open spec fn polled_again(state: X11View, fetch: FetchView) -> (X11View, StepView) {
    if fetch.stage.may_poll() {
        (
            state,
            StepView::Ask { query: protocol::poll_view(), task: TaskView::Fetch(fetch) },
        )
    } else {
        match fetch.stage {
            StageOf::TargetsWait(_) => (
                state,
                targets_known(state, fetch.purpose, Seq::empty()),
            ),
            StageOf::IncrPoll(transfer) => taken_in(state, fetch.purpose, transfer.received()),
            _ => (state, given_up(fetch.purpose)),
        }
    }
}

/// Answers a request that came in by itself.
pub open spec fn served(state: X11View, event: SelectionRequestEvent) -> StepView {
    match serve::answer(state, event) {
        AnswerOf::Commands(commands) => StepView::Run {
            commands,
            task: TaskView::Serve(ServeOf::Answered),
        },
        AnswerOf::List { query, content } => StepView::Ask {
            query,
            task: TaskView::Serve(ServeOf::List { event, content }),
        },
    }
}

/// Answers a request that came in during a fetch.
pub open spec fn interrupted(
    state: X11View,
    fetch: FetchView,
    event: SelectionRequestEvent,
) -> StepView {
    match serve::answer(state, event) {
        AnswerOf::Commands(commands) => StepView::Run {
            commands,
            task: TaskView::Interrupted(fetch, ServeOf::Answered),
        },
        AnswerOf::List { query, content } => StepView::Ask {
            query,
            task: TaskView::Interrupted(fetch, ServeOf::List { event, content }),
        },
    }
}

/// The fetch at another stage, with the commands that lead to it.
pub open spec fn run_to(
    purpose: PurposeView,
    commands: Seq<CommandView>,
    stage: task::StageView,
) -> StepView {
    StepView::Run { commands, task: TaskView::Fetch(FetchOf { purpose, stage }) }
}

/// The fetch at another stage, with the query that leads to it.
pub open spec fn ask_to(
    purpose: PurposeView,
    query: QueryView,
    stage: task::StageView,
) -> StepView {
    StepView::Ask { query, task: TaskView::Fetch(FetchOf { purpose, stage }) }
}

/// Takes a fetch up with what came of its last exchange, which did not fail. `words` are those of
/// the list of targets, if that is what came.
pub open spec fn fetched(
    state: X11View,
    fetch: FetchView,
    reply: ReplyView,
    words: Seq<u32>,
) -> (X11View, StepView) {
    let purpose = fetch.purpose;
    match (fetch.stage, reply) {
        (StageOf::Owner, ReplyOf::Owner(owner)) => (
            state,
            if owner == state.window || owner == WINDOW_NONE {
                finished()
            } else {
                ask_to(
                    purpose,
                    protocol::intern_view("CLIP_TEMP_TARGETS"@),
                    StageOf::TargetsAtom,
                )
            },
        ),
        (StageOf::TargetsAtom, ReplyOf::Atom(property)) => (
            state,
            run_to(
                purpose,
                converted(
                    state,
                    purpose.clipboard_type(),
                    state.atoms[mime::TARGETS_ATOM@],
                    property,
                    "Failed to convert TARGETS selection"@,
                ),
                StageOf::TargetsConvert { property },
            ),
        ),
        (StageOf::TargetsConvert { property }, ReplyOf::Done) => polled_again(
            state,
            FetchOf {
                purpose,
                stage: StageOf::TargetsWait(
                    NotifyWait {
                        target: state.atoms[mime::TARGETS_ATOM@],
                        property,
                        polls_left: NOTIFY_POLLS,
                    },
                ),
            },
        ),
        (StageOf::TargetsWait(wait), ReplyOf::Polled(polled)) => match wait.sees(polled) {
            Waited::Found(notify) => (
                state,
                if notify.property == ATOM_NONE {
                    targets_known(state, purpose, Seq::empty())
                } else {
                    ask_to(
                        purpose,
                        protocol::property_view(
                            false,
                            state.window,
                            notify.property,
                            ATOM_ATOM,
                            TARGETS_LENGTH,
                            "Failed to get TARGETS property"@,
                        ),
                        StageOf::TargetsRead { property: notify.property },
                    )
                },
            ),
            Waited::Request(event) => (
                state,
                interrupted(
                    state,
                    FetchOf { purpose, stage: StageOf::TargetsWait(wait.polled()) },
                    event,
                ),
            ),
            Waited::Nothing => polled_again(
                state,
                FetchOf { purpose, stage: StageOf::TargetsWait(wait.polled()) },
            ),
        },
        (StageOf::TargetsRead { property }, ReplyOf::Property { .. }) => (
            state,
            run_to(
                purpose,
                deleted(state, property, "Failed to delete TARGETS property"@),
                StageOf::TargetsDelete { offered: words },
            ),
        ),
        (StageOf::TargetsDelete { offered }, ReplyOf::Done) => (
            state,
            targets_known(state, purpose, offered),
        ),
        (StageOf::DataAtom, ReplyOf::Atom(property)) => (
            state,
            run_to(
                purpose,
                converted(
                    state,
                    purpose.clipboard_type(),
                    purpose.target(),
                    property,
                    "Failed to convert selection"@,
                ),
                StageOf::DataConvert { property },
            ),
        ),
        (StageOf::DataConvert { property }, ReplyOf::Done) => polled_again(
            state,
            FetchOf {
                purpose,
                stage: StageOf::DataWait(
                    NotifyWait {
                        target: purpose.target(),
                        property,
                        polls_left: NOTIFY_POLLS,
                    },
                ),
            },
        ),
        (StageOf::DataWait(wait), ReplyOf::Polled(polled)) => match wait.sees(polled) {
            Waited::Found(notify) => (
                state,
                if notify.property == ATOM_NONE {
                    given_up(purpose)
                } else {
                    property_asked(state, purpose, notify.property)
                },
            ),
            Waited::Request(event) => (
                state,
                interrupted(
                    state,
                    FetchOf { purpose, stage: StageOf::DataWait(wait.polled()) },
                    event,
                ),
            ),
            Waited::Nothing => polled_again(
                state,
                FetchOf { purpose, stage: StageOf::DataWait(wait.polled()) },
            ),
        },
        (StageOf::Read { property }, ReplyOf::Property { type_, value, .. }) => (
            state,
            if type_ == state.atoms[mime::INCR_ATOM@] {
                run_to(
                    purpose,
                    deleted(state, property, "Failed to delete INCR property"@),
                    StageOf::IncrDelete { property },
                )
            } else {
                run_to(
                    purpose,
                    deleted(state, property, "Failed to delete property"@),
                    StageOf::Received {
                        data: if type_ == ATOM_NONE || value.len() == 0 {
                            None
                        } else {
                            Some((type_, value))
                        },
                    },
                )
            },
        ),
        (StageOf::IncrDelete { property }, ReplyOf::Done) => polled_again(
            state,
            FetchOf {
                purpose,
                stage: StageOf::IncrPoll(incr::IncrReadView::start(property)),
            },
        ),
        (StageOf::IncrPoll(transfer), ReplyOf::Polled(polled)) => match transfer.sees(polled) {
            Arrived::Piece => (
                state,
                ask_to(
                    purpose,
                    protocol::property_view(
                        true,
                        state.window,
                        transfer.property,
                        ATOM_ANY,
                        WHOLE_LENGTH,
                        "Failed to get INCR chunk"@,
                    ),
                    StageOf::IncrPiece(transfer.polled()),
                ),
            ),
            Arrived::Request(event) => (
                state,
                interrupted(
                    state,
                    FetchOf { purpose, stage: StageOf::IncrPoll(transfer.polled()) },
                    event,
                ),
            ),
            Arrived::Nothing => polled_again(
                state,
                FetchOf { purpose, stage: StageOf::IncrPoll(transfer.polled()) },
            ),
        },
        (StageOf::IncrPiece(transfer), ReplyOf::Property { type_, value, .. }) => {
            if value.len() == 0 {
                taken_in(state, purpose, transfer.received())
            } else {
                polled_again(
                    state,
                    FetchOf {
                        purpose,
                        stage: StageOf::IncrPoll(transfer.with_piece(type_, value)),
                    },
                )
            }
        },
        (StageOf::Received { data }, ReplyOf::Done) => taken_in(state, purpose, data),
        _ => (state, finished()),
    }
}

/// Asks for the property that a content was put into.
pub open spec fn property_asked(state: X11View, purpose: PurposeView, property: u32) -> StepView {
    ask_to(
        purpose,
        protocol::property_view(
            false,
            state.window,
            property,
            ATOM_ANY,
            WHOLE_LENGTH,
            "Failed to get property"@,
        ),
        StageOf::Read { property },
    )
}

/// Whether a task waits for a list of atoms.
pub open spec fn wants_words(task: TaskView) -> bool {
    match task {
        TaskView::Serve(ServeOf::List { .. }) => true,
        TaskView::Interrupted(_, ServeOf::List { .. }) => true,
        TaskView::Fetch(FetchOf { stage: StageOf::TargetsRead { .. }, .. }) => true,
        _ => false,
    }
}

/// Whether `words` are those of the list of atoms in `reply`, if `task` waits for one; there are
/// none if the value is not one of words.
pub open spec fn words_in(task: TaskView, reply: ReplyView, words: Seq<u32>) -> bool {
    match reply {
        ReplyOf::Property { format, value, .. } => if wants_words(task) && format == 32 {
            foreign::words_of(value, words)
        } else {
            words == Seq::<u32>::empty()
        },
        _ => words == Seq::<u32>::empty(),
    }
}

/// Takes a task up with what came of its last exchange.
pub open spec fn resumed(
    state: X11View,
    task: TaskView,
    reply: ReplyView,
    words: Seq<u32>,
) -> (X11View, StepView) {
    match (task, reply) {
        (TaskView::Fetch(fetch), ReplyOf::Failed(error)) => (state, failed(fetch.purpose, error)),
        (TaskView::Interrupted(fetch, _), ReplyOf::Failed(error)) => (
            state,
            failed(fetch.purpose, error),
        ),
        (_, ReplyOf::Failed(error)) => (state, StepView::Done(Err(error))),
        (TaskView::Store { content, clipboard_type }, _) => (
            state.holding(clipboard_type, Some(content)),
            finished(),
        ),
        (TaskView::Serve(ServeOf::List { event, content }), _) => (
            state,
            StepView::Run {
                commands: serve::multiple_answer(state, event, content, words),
                task: TaskView::Serve(ServeOf::Answered),
            },
        ),
        (TaskView::Serve(ServeOf::Answered), _) => (state, finished()),
        (TaskView::Interrupted(fetch, ServeOf::List { event, content }), _) => (
            state,
            StepView::Run {
                commands: serve::multiple_answer(state, event, content, words),
                task: TaskView::Interrupted(fetch, ServeOf::Answered),
            },
        ),
        (TaskView::Interrupted(fetch, ServeOf::Answered), _) => polled_again(state, fetch),
        (TaskView::Fetch(fetch), _) => fetched(state, fetch, reply, words),
    }
}

fn fail(purpose: &Purpose, error: String) -> (step: Step)
    ensures
        step@ == failed(purpose@, error@),
{
    match purpose {
        PurposeOf::Requested { quiet, .. } => if *quiet {
            Step::Done(Ok(None))
        } else {
            Step::Done(Err(error))
        },
        PurposeOf::Notified { .. } => Step::Done(Err(error)),
    }
}

fn try_target(purpose: Purpose) -> (step: Step)
    ensures
        step@ == target_tried(purpose@),
        step@.wf(),
{
    let next = match &purpose {
        PurposeOf::Requested { targets, index, .. } => if *index < targets.len() {
            Some(*index)
        } else {
            None
        },
        PurposeOf::Notified { .. } => None,
    };
    match next {
        Some(index) => {
            let number = text::decimal_text(index);
            let name = text::followed("CLIP_TEMP_", number.as_str());
            Step::Ask {
                query: protocol::intern(name.as_str()),
                task: Task::Fetch(FetchOf { purpose, stage: StageOf::DataAtom }),
            }
        },
        None => Step::Done(Ok(None)),
    }
}

fn give_up(purpose: Purpose) -> (step: Step)
    requires
        purpose@ matches PurposeOf::Requested { targets, index, .. } ==> index < targets.len(),
    ensures
        step@ == given_up(purpose@),
        step@.wf(),
{
    match purpose {
        PurposeOf::Requested { clipboard_type, quiet, targets, index } => {
            assert(index < targets.len());
            try_target(PurposeOf::Requested { clipboard_type, quiet, targets, index: index + 1 })
        },
        PurposeOf::Notified { .. } => Step::Done(Ok(None)),
    }
}

fn two(first: Command, second: Command) -> (commands: Vec<Command>)
    ensures
        protocol::commands_view(commands@) == seq![first@, second@],
{
    let mut commands: Vec<Command> = Vec::new();
    commands.push(first);
    commands.push(second);
    assert(protocol::commands_view(commands@) =~= seq![first@, second@]);
    commands
}

fn asked(purpose: Purpose, query: Query, stage: task::Stage) -> (step: Step)
    ensures
        step@ == ask_to(purpose@, query@, stage@),
{
    Step::Ask { query, task: Task::Fetch(FetchOf { purpose, stage }) }
}

fn run(purpose: Purpose, commands: Vec<Command>, stage: task::Stage) -> (step: Step)
    ensures
        step@ == run_to(purpose@, protocol::commands_view(commands@), stage@),
{
    Step::Run { commands, task: Task::Fetch(FetchOf { purpose, stage }) }
}

fn target_of(purpose: &Purpose) -> (target: u32)
    requires
        purpose@ matches PurposeOf::Requested { targets, index, .. } ==> index < targets.len(),
    ensures
        target == purpose@.target(),
{
    match purpose {
        PurposeOf::Notified { target, .. } => *target,
        PurposeOf::Requested { targets, index, .. } => targets[*index].0,
    }
}

fn clipboard_type_of(purpose: &Purpose) -> (clipboard_type: ClipboardType)
    ensures
        clipboard_type == purpose@.clipboard_type(),
{
    match purpose {
        PurposeOf::Notified { clipboard_type, .. } => *clipboard_type,
        PurposeOf::Requested { clipboard_type, .. } => *clipboard_type,
    }
}

/// The plain values of what decoding a selection gave.
pub open spec fn selection_view(decoded: Result<Option<ClipboardContent>, String>) -> Result<
    Option<content::ContentView>,
    Seq<char>,
> {
    match decoded {
        Ok(content) => Ok(sync::optional_view(content)),
        Err(error) => Err(error@),
    }
}

impl X11State {
    fn try_targets(&self, purpose: Purpose, offered: &[u32]) -> (step: Step)
        requires
            purpose@ is Requested,
        ensures
            step@ == targets_known(self@, purpose@, offered@),
            step@.wf(),
    {
        match purpose {
            PurposeOf::Requested { clipboard_type, quiet, .. } => try_target(
                PurposeOf::Requested {
                    clipboard_type,
                    quiet,
                    targets: self.choose_supported_targets(offered),
                    index: 0,
                },
            ),
            PurposeOf::Notified { .. } => Step::Done(Ok(None)),
        }
    }

    /// Asks a selection's owner for its content as `target`.
    fn convert_selection(
        &self,
        clipboard_type: ClipboardType,
        target: u32,
        property: u32,
        failure: &'static str,
    ) -> (commands: Vec<Command>)
        requires
            self@.wf(),
        ensures
            protocol::commands_view(commands@) == converted(
                self@,
                clipboard_type,
                target,
                property,
                failure@,
            ),
    {
        two(
            Command {
                request: RequestOf::ConvertSelection {
                    requestor: self.window,
                    selection: self.selection_atom(clipboard_type),
                    target,
                    property,
                    time: CURRENT_TIME,
                },
                failure,
            },
            protocol::flush(),
        )
    }

    fn delete_property(&self, property: u32, failure: &'static str) -> (commands: Vec<Command>)
        ensures
            protocol::commands_view(commands@) == deleted(self@, property, failure@),
    {
        two(
            Command {
                request: RequestOf::DeleteProperty { window: self.window, property },
                failure,
            },
            protocol::flush(),
        )
    }

    fn read_selection_property(&self, purpose: Purpose, property: u32) -> (step: Step)
        ensures
            step@ == property_asked(self@, purpose@, property),
    {
        let query = protocol::get_property(
            false,
            self.window,
            property,
            ATOM_ANY,
            WHOLE_LENGTH,
            "Failed to get property",
        );
        asked(purpose, query, StageOf::Read { property })
    }

    /// Makes a content of bytes that came in a property of the given type after `target` was asked
    /// for.
    pub fn decode_selection_content(
        &self,
        target: u32,
        property_type: u32,
        bytes: Vec<u8>,
    ) -> (decoded: Result<Option<ClipboardContent>, String>)
        ensures
            selection_view(decoded) == selection_content(self@, target, property_type, bytes@),
    {
        let mime_type = match self.mime_type_for_atom(property_type) {
            Some(mime_type) => Some(mime_type),
            None => self.mime_type_for_atom(target),
        };
        match mime_type {
            Some(mime_type) => match decode_clipboard_content(mime_type, bytes) {
                Ok(content) => Ok(Some(content)),
                Err(error) => Err(error),
            },
            None => Ok(None),
        }
    }

    fn take_in(&mut self, purpose: Purpose, data: Option<(u32, Vec<u8>)>) -> (step: Step)
        requires
            purpose@ matches PurposeOf::Requested { targets, index, .. } ==> index < targets.len(),
        ensures
            (final(self)@, step@) == taken_in(old(self)@, purpose@, incr::received_view(data)),
            step@.wf(),
    {
        let (property_type, bytes) = match data {
            Some(data) => data,
            None => {
                return give_up(purpose);
            },
        };
        match self.decode_selection_content(target_of(&purpose), property_type, bytes) {
            Err(error) => fail(&purpose, error),
            Ok(None) => give_up(purpose),
            Ok(Some(content)) => {
                let requested = match &purpose {
                    PurposeOf::Requested { .. } => true,
                    PurposeOf::Notified { .. } => false,
                };
                if requested && content.is_empty() {
                    give_up(purpose)
                } else {
                    let clipboard_type = clipboard_type_of(&purpose);
                    self.hold(clipboard_type, Some(content.clone()));
                    Step::Done(Ok(Some(SyncEvent::X11ToWayland { content, clipboard_type })))
                }
            },
        }
    }

    fn poll_again(&mut self, fetch: Fetch) -> (step: Step)
        requires
            fetch@.wf(),
            fetch@.stage.expects() == task::Expected::Polled,
        ensures
            (final(self)@, step@) == polled_again(old(self)@, fetch@),
            step@.wf(),
    {
        let may_poll = match &fetch.stage {
            StageOf::TargetsWait(wait) => wait.polls_left > 0,
            StageOf::DataWait(wait) => wait.polls_left > 0,
            StageOf::IncrPoll(transfer) => transfer.polls_left > 0,
            _ => false,
        };
        if may_poll {
            return Step::Ask { query: protocol::poll(), task: Task::Fetch(fetch) };
        }
        match fetch.stage {
            StageOf::TargetsWait(_) => {
                let offered: Vec<u32> = Vec::new();
                assert(offered@ =~= Seq::<u32>::empty());
                self.try_targets(fetch.purpose, offered.as_slice())
            },
            StageOf::IncrPoll(transfer) => self.take_in(fetch.purpose, transfer.finish()),
            _ => give_up(fetch.purpose),
        }
    }

    fn interrupt(&self, fetch: Fetch, event: SelectionRequestEvent) -> (step: Step)
        requires
            self@.wf(),
            fetch@.wf(),
            fetch@.stage.expects() == task::Expected::Polled,
        ensures
            step@ == interrupted(self@, fetch@, event),
            step@.wf(),
    {
        match self.answer_request(event) {
            AnswerOf::Commands(commands) => Step::Run {
                commands,
                task: Task::Interrupted(fetch, ServeOf::Answered),
            },
            AnswerOf::List { query, content } => Step::Ask {
                query,
                task: Task::Interrupted(fetch, ServeOf::List { event, content }),
            },
        }
    }

    fn resume_wait(
        &mut self,
        purpose: Purpose,
        waiting: NotifyWait,
        polled: protocol::Polled,
        for_targets: bool,
    ) -> (step: Step)
        requires
            old(self)@.wf(),
            waiting.polls_left > 0,
            ({
                let stage: task::StageView = if for_targets {
                    StageOf::TargetsWait(waiting)
                } else {
                    StageOf::DataWait(waiting)
                };
                FetchView { purpose: purpose@, stage }.wf()
            }),
        ensures
            (final(self)@, step@) == fetched(
                old(self)@,
                FetchOf {
                    purpose: purpose@,
                    stage: if for_targets {
                        StageOf::TargetsWait(waiting)
                    } else {
                        StageOf::DataWait(waiting)
                    },
                },
                ReplyOf::Polled(polled),
                Seq::empty(),
            ),
            step@.wf(),
    {
        let mut wait = waiting;
        match wait.wait_for_selection_notify(polled) {
            Waited::Found(notify) => {
                if for_targets {
                    self.read_targets(purpose, notify.property)
                } else if notify.property == ATOM_NONE {
                    give_up(purpose)
                } else {
                    self.read_selection_property(purpose, notify.property)
                }
            },
            Waited::Request(event) => {
                let stage = if for_targets {
                    StageOf::TargetsWait(wait)
                } else {
                    StageOf::DataWait(wait)
                };
                self.interrupt(FetchOf { purpose, stage }, event)
            },
            Waited::Nothing => {
                let stage = if for_targets {
                    StageOf::TargetsWait(wait)
                } else {
                    StageOf::DataWait(wait)
                };
                self.poll_again(FetchOf { purpose, stage })
            },
        }
    }

    fn read_targets(&self, purpose: Purpose, property: u32) -> (step: Step)
        requires
            purpose@ is Requested,
        ensures
            step@ == (if property == ATOM_NONE {
                targets_known(self@, purpose@, Seq::empty())
            } else {
                ask_to(
                    purpose@,
                    protocol::property_view(
                        false,
                        self@.window,
                        property,
                        ATOM_ATOM,
                        TARGETS_LENGTH,
                        "Failed to get TARGETS property"@,
                    ),
                    StageOf::TargetsRead { property },
                )
            }),
            step@.wf(),
    {
        if property == ATOM_NONE {
            let offered: Vec<u32> = Vec::new();
            assert(offered@ =~= Seq::<u32>::empty());
            return self.try_targets(purpose, offered.as_slice());
        }
        let query = protocol::get_property(
            false,
            self.window,
            property,
            ATOM_ATOM,
            TARGETS_LENGTH,
            "Failed to get TARGETS property",
        );
        asked(purpose, query, StageOf::TargetsRead { property })
    }

    fn resume_fetch(&mut self, fetch: Fetch, reply: Reply, words: Vec<u32>) -> (step: Step)
        requires
            old(self)@.wf(),
            TaskView::Fetch(fetch@).wf(),
            TaskView::Fetch(fetch@).accepts(reply@),
            !(reply@ is Failed),
        ensures
            (final(self)@, step@) == fetched(old(self)@, fetch@, reply@, words@),
            final(self)@.wf(),
            step@.wf(),
    {
        proof {
            assert(atoms::atom_names()[2] == mime::TARGETS_ATOM@);
            assert(atoms::atom_names()[4] == mime::INCR_ATOM@);
        }
        let purpose = fetch.purpose;
        match (fetch.stage, reply) {
            (StageOf::Owner, ReplyOf::Owner(owner)) => {
                if owner == self.window || owner == WINDOW_NONE {
                    Step::Done(Ok(None))
                } else {
                    asked(purpose, protocol::intern("CLIP_TEMP_TARGETS"), StageOf::TargetsAtom)
                }
            },
            (StageOf::TargetsAtom, ReplyOf::Atom(property)) => {
                let commands = self.convert_selection(
                    clipboard_type_of(&purpose),
                    self.known_atom(mime::TARGETS_ATOM),
                    property,
                    "Failed to convert TARGETS selection",
                );
                run(purpose, commands, StageOf::TargetsConvert { property })
            },
            (StageOf::TargetsConvert { property }, ReplyOf::Done) => {
                let wait = NotifyWait::new(self.known_atom(mime::TARGETS_ATOM), property);
                self.poll_again(FetchOf { purpose, stage: StageOf::TargetsWait(wait) })
            },
            (StageOf::TargetsWait(wait), ReplyOf::Polled(polled)) => self.resume_wait(
                purpose,
                wait,
                polled,
                true,
            ),
            (StageOf::TargetsRead { property }, ReplyOf::Property { .. }) => {
                let commands = self.delete_property(property, "Failed to delete TARGETS property");
                run(purpose, commands, StageOf::TargetsDelete { offered: words })
            },
            (StageOf::TargetsDelete { offered }, ReplyOf::Done) => self.try_targets(
                purpose,
                offered.as_slice(),
            ),
            (StageOf::DataAtom, ReplyOf::Atom(property)) => {
                let commands = self.convert_selection(
                    clipboard_type_of(&purpose),
                    target_of(&purpose),
                    property,
                    "Failed to convert selection",
                );
                run(purpose, commands, StageOf::DataConvert { property })
            },
            (StageOf::DataConvert { property }, ReplyOf::Done) => {
                let wait = NotifyWait::new(target_of(&purpose), property);
                self.poll_again(FetchOf { purpose, stage: StageOf::DataWait(wait) })
            },
            (StageOf::DataWait(wait), ReplyOf::Polled(polled)) => self.resume_wait(
                purpose,
                wait,
                polled,
                false,
            ),
            (StageOf::Read { property }, ReplyOf::Property { type_, value, .. }) => {
                if type_ == self.known_atom(mime::INCR_ATOM) {
                    let commands = self.delete_property(property, "Failed to delete INCR property");
                    run(purpose, commands, StageOf::IncrDelete { property })
                } else {
                    let commands = self.delete_property(property, "Failed to delete property");
                    let data = if type_ == ATOM_NONE || value.len() == 0 {
                        None
                    } else {
                        Some((type_, value))
                    };
                    run(purpose, commands, StageOf::Received { data })
                }
            },
            (StageOf::IncrDelete { property }, ReplyOf::Done) => {
                let transfer = IncrReadOf::new(property);
                self.poll_again(FetchOf { purpose, stage: StageOf::IncrPoll(transfer) })
            },
            (StageOf::IncrPoll(transfer), ReplyOf::Polled(polled)) => {
                let mut transfer = transfer;
                match transfer.handle_poll(polled) {
                    Arrived::Piece => {
                        let query = protocol::get_property(
                            true,
                            self.window,
                            transfer.property,
                            ATOM_ANY,
                            WHOLE_LENGTH,
                            "Failed to get INCR chunk",
                        );
                        asked(purpose, query, StageOf::IncrPiece(transfer))
                    },
                    Arrived::Request(event) => self.interrupt(
                        FetchOf { purpose, stage: StageOf::IncrPoll(transfer) },
                        event,
                    ),
                    Arrived::Nothing => self.poll_again(
                        FetchOf { purpose, stage: StageOf::IncrPoll(transfer) },
                    ),
                }
            },
            (StageOf::IncrPiece(transfer), ReplyOf::Property { type_, value, .. }) => {
                if value.len() == 0 {
                    self.take_in(purpose, transfer.finish())
                } else {
                    let mut transfer = transfer;
                    transfer.add_piece(type_, value);
                    self.poll_again(FetchOf { purpose, stage: StageOf::IncrPoll(transfer) })
                }
            },
            (StageOf::Received { data }, ReplyOf::Done) => self.take_in(purpose, data),
            _ => Step::Done(Ok(None)),
        }
    }

    /// Takes a task up with what came of its last exchange, given the words of the list of atoms
    /// that came, if one did.
    pub fn resume_with_words(&mut self, task: Task, reply: Reply, words: Vec<u32>) -> (step: Step)
        requires
            old(self)@.wf(),
            task@.wf(),
            task@.accepts(reply@),
        ensures
            (final(self)@, step@) == resumed(old(self)@, task@, reply@, words@),
            final(self)@.wf(),
            step@.wf(),
    {
        match (task, reply) {
            (Task::Fetch(fetch), ReplyOf::Failed(error)) => fail(&fetch.purpose, error),
            (Task::Interrupted(fetch, _), ReplyOf::Failed(error)) => fail(&fetch.purpose, error),
            (_, ReplyOf::Failed(error)) => Step::Done(Err(error)),
            (Task::Store { content, clipboard_type }, _) => {
                self.hold(clipboard_type, Some(content));
                Step::Done(Ok(None))
            },
            (Task::Serve(ServeOf::List { event, content }), _) => Step::Run {
                commands: self.answer_multiple(event, content.as_ref(), words),
                task: Task::Serve(ServeOf::Answered),
            },
            (Task::Serve(ServeOf::Answered), _) => Step::Done(Ok(None)),
            (Task::Interrupted(fetch, ServeOf::List { event, content }), _) => Step::Run {
                commands: self.answer_multiple(event, content.as_ref(), words),
                task: Task::Interrupted(fetch, ServeOf::Answered),
            },
            (Task::Interrupted(fetch, ServeOf::Answered), _) => self.poll_again(fetch),
            (Task::Fetch(fetch), reply) => self.resume_fetch(fetch, reply, words),
        }
    }

    /// Takes a task up with what came of its last exchange.
    pub fn resume(&mut self, task: Task, reply: Reply) -> (step: Step)
        requires
            old(self)@.wf(),
            task@.wf(),
            task@.accepts(reply@),
        ensures
            exists|words: Seq<u32>|
                #![trigger words_in(task@, reply@, words)]
                words_in(task@, reply@, words) && (final(self)@, step@) == resumed(
                    old(self)@,
                    task@,
                    reply@,
                    words,
                ),
            final(self)@.wf(),
            step@.wf(),
    {
        let wants_words = match &task {
            Task::Serve(ServeOf::List { .. }) => true,
            Task::Interrupted(_, ServeOf::List { .. }) => true,
            Task::Fetch(fetch) => match &fetch.stage {
                StageOf::TargetsRead { .. } => true,
                _ => false,
            },
            _ => false,
        };
        let mut words: Vec<u32> = Vec::new();
        assert(words@ =~= Seq::<u32>::empty());
        if wants_words {
            if let ReplyOf::Property { format, value, .. } = &reply {
                if let Some(list) = foreign::value32(*format, value) {
                    words = list;
                }
            }
        }
        assert(words_in(task@, reply@, words@));
        self.resume_with_words(task, reply, words)
    }

    /// Answers another client that asks for a selection's content.
    pub fn handle_selection_request(&self, event: SelectionRequestEvent) -> (step: Step)
        requires
            self@.wf(),
        ensures
            step@ == served(self@, event),
            step@.wf(),
    {
        match self.answer_request(event) {
            AnswerOf::Commands(commands) => Step::Run {
                commands,
                task: Task::Serve(ServeOf::Answered),
            },
            AnswerOf::List { query, content } => Step::Ask {
                query,
                task: Task::Serve(ServeOf::List { event, content }),
            },
        }
    }

    /// Fetches a content that a selection's owner has put into a property.
    pub fn handle_selection_notify(&self, event: SelectionNotifyEvent) -> (step: Step)
        requires
            self@.wf(),
        ensures
            step@ == notified(self@, event),
            step@.wf(),
    {
        if event.property == ATOM_NONE {
            return Step::Done(Ok(None));
        }
        let purpose = PurposeOf::Notified {
            target: event.target,
            clipboard_type: self.selection_type(event.selection),
        };
        self.read_selection_property(purpose, event.property)
    }

    /// Forgets the content of a selection that is no longer ours.
    pub fn handle_selection_clear(&mut self, event: SelectionClearEvent) -> (result: Result<
        (),
        String,
    >)
        requires
            old(self)@.wf(),
        ensures
            result == Ok::<(), String>(()),
            final(self)@ == old(self)@.holding(old(self)@.selection_type(event.selection), None),
    {
        let clipboard_type = self.selection_type(event.selection);
        self.hold(clipboard_type, None);
        Ok(())
    }

    /// Takes no notice of a property change outside a transfer.
    pub fn handle_property_notify(&self, event: PropertyNotifyEvent) -> (result: Result<(), String>)
        ensures
            result == Ok::<(), String>(()),
    {
        Ok(())
    }

    /// Fetches the content of a selection that has a new owner.
    pub fn handle_xfixes_selection_notify(&self, event: XfixesSelectionNotifyEvent) -> (step: Step)
        requires
            self@.wf(),
        ensures
            step@ == owner_changed(self@, event),
            step@.wf(),
    {
        if event.owner == self.window || event.owner == WINDOW_NONE {
            Step::Done(Ok(None))
        } else {
            self.begin_request(self.selection_type(event.selection), true)
        }
    }

    /// Fetches the content of a selection from its owner, unless that is us or nobody.
    pub fn request_clipboard_content(&self, clipboard_type: ClipboardType) -> (step: Step)
        requires
            self@.wf(),
        ensures
            step@ == requested(self@, clipboard_type, false),
            step@.wf(),
    {
        self.begin_request(clipboard_type, false)
    }

    fn begin_request(&self, clipboard_type: ClipboardType, quiet: bool) -> (step: Step)
        requires
            self@.wf(),
        ensures
            step@ == requested(self@, clipboard_type, quiet),
            step@.wf(),
    {
        let targets: Vec<(u32, &'static str)> = Vec::new();
        assert(state::targets_view(targets@) =~= Seq::<(u32, Seq<char>)>::empty());
        let query = Query {
            ask: AskOf::SelectionOwner { selection: self.selection_atom(clipboard_type) },
            send_failure: "Failed to get selection owner".to_string(),
            reply_failure: "Failed to get selection owner reply".to_string(),
        };
        asked(
            PurposeOf::Requested { clipboard_type, quiet, targets, index: 0 },
            query,
            StageOf::Owner,
        )
    }

    /// Takes a selection over with `content`: the content is put into a property of our window,
    /// the selection is claimed, and the content is kept once that has worked.
    pub fn set_clipboard_content(
        &self,
        content: ClipboardContent,
        clipboard_type: ClipboardType,
    ) -> (step: Step)
        requires
            self@.wf(),
        ensures
            step@ == claimed(self@, content@, clipboard_type),
            step@.wf(),
    {
        let selection = self.selection_atom(clipboard_type);
        let (content_atom, data) = match content.primary_mime_type() {
            None => {
                return Step::Done(Err("Cannot set empty clipboard content".to_string()));
            },
            Some(mime_type) => match self.get_atom(mime_type) {
                None => {
                    return Step::Done(
                        Err(text::followed("MIME atom not interned: ", mime_type)),
                    );
                },
                Some(atom) => {
                    proof {
                        content::law_offers(content@, mime_type@);
                        assert(content@.offered()[0] == mime_type@);
                    }
                    match content.bytes_for_mime(mime_type) {
                        None => {
                            return Step::Done(
                                Err(text::followed("Content cannot be represented as ", mime_type)),
                            );
                        },
                        Some(bytes) => (atom, slice_to_vec(bytes)),
                    }
                },
            },
        };
        let window = self.window;
        let mut commands = two(
            Command {
                request: RequestOf::ReplaceProperty8 {
                    window,
                    property: content_atom,
                    type_: content_atom,
                    data,
                },
                failure: "Failed to change property",
            },
            protocol::flush(),
        );
        let mut claim = two(
            Command {
                request: RequestOf::SetSelectionOwner {
                    owner: window,
                    selection,
                    time: CURRENT_TIME,
                },
                failure: "Failed to set selection owner",
            },
            protocol::flush(),
        );
        let ghost first = commands@;
        let ghost second = claim@;
        commands.append(&mut claim);
        assert(protocol::commands_view(commands@) =~= protocol::commands_view(first)
            + protocol::commands_view(second));
        proof {
            if let StepView::Run { commands: expected, .. } = claimed(
                self@,
                content@,
                clipboard_type,
            ) {
                assert(protocol::commands_view(commands@) =~= expected);
            }
        }
        Step::Run { commands, task: Task::Store { content, clipboard_type } }
    }

    /// Begins whatever an event calls for.
    pub fn handle_event(&mut self, event: Event) -> (step: Step)
        requires
            old(self)@.wf(),
        ensures
            (final(self)@, step@) == handled(old(self)@, event),
            final(self)@.wf(),
            step@.wf(),
    {
        match event {
            Event::SelectionRequest(event) => self.handle_selection_request(event),
            Event::SelectionNotify(event) => self.handle_selection_notify(event),
            Event::SelectionClear(event) => {
                let _ = self.handle_selection_clear(event);
                Step::Done(Ok(None))
            },
            Event::PropertyNotify(event) => {
                let _ = self.handle_property_notify(event);
                Step::Done(Ok(None))
            },
            Event::XfixesSelectionNotify(event) => self.handle_xfixes_selection_notify(event),
            Event::Other => Step::Done(Ok(None)),
        }
    }
}

/// Fetches a content that a selection's owner has put into a property; nothing if it says that it
/// has not.
pub open spec fn notified(state: X11View, event: SelectionNotifyEvent) -> StepView {
    if event.property == ATOM_NONE {
        finished()
    } else {
        property_asked(
            state,
            PurposeOf::Notified {
                target: event.target,
                clipboard_type: state.selection_type(event.selection),
            },
            event.property,
        )
    }
}

/// Fetches the content of a selection from its owner.
pub open spec fn requested(
    state: X11View,
    clipboard_type: ClipboardType,
    quiet: bool,
) -> StepView {
    ask_to(
        PurposeOf::Requested { clipboard_type, quiet, targets: Seq::empty(), index: 0 },
        QueryView {
            ask: AskOf::SelectionOwner { selection: state.selection_atom(clipboard_type) },
            send_failure: "Failed to get selection owner"@,
            reply_failure: "Failed to get selection owner reply"@,
        },
        StageOf::Owner,
    )
}

/// Fetches the content of a selection that has a new owner, unless that is us or nobody. A failure
/// is passed over.
pub open spec fn owner_changed(state: X11View, event: XfixesSelectionNotifyEvent) -> StepView {
    if event.owner == state.window || event.owner == WINDOW_NONE {
        finished()
    } else {
        requested(state, state.selection_type(event.selection), true)
    }
}

/// Takes a selection over with `content`. Nothing cannot be held, nor what has a format without an
/// atom.
pub open spec fn claimed(
    state: X11View,
    content: content::ContentView,
    clipboard_type: ClipboardType,
) -> StepView {
    match content.primary() {
        None => StepView::Done(Err("Cannot set empty clipboard content"@)),
        Some(mime_type) => match atoms::lookup(state.atoms, mime_type) {
            None => StepView::Done(Err("MIME atom not interned: "@ + mime_type)),
            Some(atom) => StepView::Run {
                commands: seq![
                    CommandView {
                        request: RequestOf::ReplaceProperty8 {
                            window: state.window,
                            property: atom,
                            type_: atom,
                            data: content.bytes(),
                        },
                        failure: "Failed to change property"@,
                    },
                    protocol::flush_view(),
                    CommandView {
                        request: RequestOf::SetSelectionOwner {
                            owner: state.window,
                            selection: state.selection_atom(clipboard_type),
                            time: CURRENT_TIME,
                        },
                        failure: "Failed to set selection owner"@,
                    },
                    protocol::flush_view(),
                ],
                task: TaskView::Store { content, clipboard_type },
            },
        },
    }
}

/// Begins whatever an event calls for.
pub open spec fn handled(state: X11View, event: Event) -> (X11View, StepView) {
    match event {
        Event::SelectionRequest(event) => (state, served(state, event)),
        Event::SelectionNotify(event) => (state, notified(state, event)),
        Event::SelectionClear(event) => (
            state.holding(state.selection_type(event.selection), None),
            finished(),
        ),
        Event::PropertyNotify(_) => (state, finished()),
        Event::XfixesSelectionNotify(event) => (state, owner_changed(state, event)),
        Event::Other => (state, finished()),
    }
}

} // verus!
