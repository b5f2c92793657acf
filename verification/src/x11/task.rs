//! Work that takes several exchanges with the X server.
//!
//! A [`Step`] says what to exchange next and carries the [`Task`] to take up again with what came
//! of it.

use crate::content;
use crate::content::ClipboardContent;
use crate::sync;
use crate::sync::{ClipboardType, SyncEvent};
use crate::x11::incr;
use crate::x11::incr::IncrReadOf;
use crate::x11::protocol;
use crate::x11::protocol::{
    Command, CommandView, Query, QueryView, Reply, ReplyOf, SelectionRequestEvent,
};
use crate::x11::state;
use crate::x11::wait::NotifyWait;
use vstd::prelude::*;

verus! {

/// Why a content is fetched, over a kind of target list.
#[derive(Debug)]
pub enum PurposeOf<T> {
    /// A selection's owner has put it into a property, as `target`.
    Notified { target: u32, clipboard_type: ClipboardType },
    /// We ask for it, as one of `targets` after the other; the one at `index` is being tried.
    Requested {
        clipboard_type: ClipboardType,
        /// Whether a failure is passed over in silence.
        quiet: bool,
        targets: T,
        index: usize,
    },
}

/// How far a fetch has come, over a kind of byte string and of word string.
#[derive(Debug)]
pub enum StageOf<B, W> {
    /// The selection's owner has been asked for.
    Owner,
    /// The atom of the property for the list of targets has been asked for.
    TargetsAtom,
    /// The owner is being asked for its targets.
    TargetsConvert { property: u32 },
    /// The owner is to put its targets into a property.
    TargetsWait(NotifyWait),
    /// The list of targets has been asked for.
    TargetsRead { property: u32 },
    /// The property with the list of targets is being deleted.
    TargetsDelete { offered: W },
    /// The atom of the property for the content has been asked for.
    DataAtom,
    /// The owner is being asked for the content.
    DataConvert { property: u32 },
    /// The owner is to put the content into a property.
    DataWait(NotifyWait),
    /// The property with the content has been asked for.
    Read { property: u32 },
    /// The property is being deleted so that the content can come through it in pieces.
    IncrDelete { property: u32 },
    /// The next piece is to come.
    IncrPoll(IncrReadOf<B>),
    /// The next piece has been asked for.
    IncrPiece(IncrReadOf<B>),
    /// The property is being deleted; this is what it held, with its type.
    Received { data: Option<(u32, B)> },
}

/// A content being fetched.
#[derive(Debug)]
pub struct FetchOf<B, W, T> {
    pub purpose: PurposeOf<T>,
    pub stage: StageOf<B, W>,
}

/// Why a content is fetched.
pub type Purpose = PurposeOf<Vec<(u32, &'static str)>>;

/// Why a content is fetched, as plain values.
pub type PurposeView = PurposeOf<Seq<(u32, Seq<char>)>>;

/// How far a fetch has come.
pub type Stage = StageOf<Vec<u8>, Vec<u32>>;

/// How far a fetch has come, as plain values.
pub type StageView = StageOf<Seq<u8>, Seq<u32>>;

/// A content being fetched.
pub type Fetch = FetchOf<Vec<u8>, Vec<u32>, Vec<(u32, &'static str)>>;

/// A content being fetched, as plain values.
pub type FetchView = FetchOf<Seq<u8>, Seq<u32>, Seq<(u32, Seq<char>)>>;

impl View for PurposeOf<Vec<(u32, &'static str)>> {
    type V = PurposeView;

    open spec fn view(&self) -> PurposeView {
        match *self {
            PurposeOf::Notified { target, clipboard_type } => {
                PurposeOf::Notified { target, clipboard_type }
            },
            PurposeOf::Requested { clipboard_type, quiet, targets, index } => {
                PurposeOf::Requested {
                    clipboard_type,
                    quiet,
                    targets: state::targets_view(targets@),
                    index,
                }
            },
        }
    }
}

impl View for StageOf<Vec<u8>, Vec<u32>> {
    type V = StageView;

    open spec fn view(&self) -> StageView {
        match *self {
            StageOf::Owner => StageOf::Owner,
            StageOf::TargetsAtom => StageOf::TargetsAtom,
            StageOf::TargetsConvert { property } => StageOf::TargetsConvert { property },
            StageOf::TargetsWait(wait) => StageOf::TargetsWait(wait),
            StageOf::TargetsRead { property } => StageOf::TargetsRead { property },
            StageOf::TargetsDelete { offered } => StageOf::TargetsDelete { offered: offered@ },
            StageOf::DataAtom => StageOf::DataAtom,
            StageOf::DataConvert { property } => StageOf::DataConvert { property },
            StageOf::DataWait(wait) => StageOf::DataWait(wait),
            StageOf::Read { property } => StageOf::Read { property },
            StageOf::IncrDelete { property } => StageOf::IncrDelete { property },
            StageOf::IncrPoll(transfer) => StageOf::IncrPoll(transfer@),
            StageOf::IncrPiece(transfer) => StageOf::IncrPiece(transfer@),
            StageOf::Received { data } => StageOf::Received { data: incr::received_view(data) },
        }
    }
}

impl View for FetchOf<Vec<u8>, Vec<u32>, Vec<(u32, &'static str)>> {
    type V = FetchView;

    open spec fn view(&self) -> FetchView {
        FetchOf { purpose: self.purpose@, stage: self.stage@ }
    }
}

/// A request of another client being answered, over a kind of content.
#[derive(Debug)]
pub enum ServeOf<C> {
    /// The list of a multiple request has been asked for.
    List { event: SelectionRequestEvent, content: C },
    /// The answer is being sent.
    Answered,
}

/// A request of another client being answered.
pub type Serve = ServeOf<Option<ClipboardContent>>;

/// A request of another client being answered, as plain values.
pub type ServeView = ServeOf<Option<content::ContentView>>;

impl View for ServeOf<Option<ClipboardContent>> {
    type V = ServeView;

    open spec fn view(&self) -> ServeView {
        match *self {
            ServeOf::List { event, content } => ServeOf::List {
                event,
                content: sync::optional_view(content),
            },
            ServeOf::Answered => ServeOf::Answered,
        }
    }
}

/// Work that waits for what comes of an exchange.
#[derive(Debug)]
pub enum Task {
    /// A selection is being taken over; the content is kept once it is ours.
    Store { content: ClipboardContent, clipboard_type: ClipboardType },
    /// A request is being answered.
    Serve(Serve),
    /// A content is being fetched.
    Fetch(Fetch),
    /// A request is being answered while a content is being fetched.
    Interrupted(Fetch, Serve),
}

/// Work that waits for what comes of an exchange, as plain values.
pub enum TaskView {
    Store { content: content::ContentView, clipboard_type: ClipboardType },
    Serve(ServeView),
    Fetch(FetchView),
    Interrupted(FetchView, ServeView),
}

impl View for Task {
    type V = TaskView;

    open spec fn view(&self) -> TaskView {
        match self {
            Task::Store { content, clipboard_type } => TaskView::Store {
                content: content@,
                clipboard_type: *clipboard_type,
            },
            Task::Serve(serve) => TaskView::Serve(serve@),
            Task::Fetch(fetch) => TaskView::Fetch(fetch@),
            Task::Interrupted(fetch, serve) => TaskView::Interrupted(fetch@, serve@),
        }
    }
}

/// What comes next.
#[derive(Debug)]
pub enum Step {
    /// Send the commands in order, up to the first that fails.
    Run { commands: Vec<Command>, task: Task },
    /// Ask for something.
    Ask { query: Query, task: Task },
    /// The work has ended: in failure, or else perhaps with something to forward.
    Done(Result<Option<SyncEvent>, String>),
}

/// What comes next, as plain values.
pub enum StepView {
    Run { commands: Seq<CommandView>, task: TaskView },
    Ask { query: QueryView, task: TaskView },
    Done(Result<Option<sync::SyncEventView>, Seq<char>>),
}

/// The plain values of how work ended.
pub open spec fn outcome_view(outcome: Result<Option<SyncEvent>, String>) -> Result<
    Option<sync::SyncEventView>,
    Seq<char>,
> {
    match outcome {
        Ok(Some(event)) => Ok(Some(event@)),
        Ok(None) => Ok(None),
        Err(error) => Err(error@),
    }
}

impl View for Step {
    type V = StepView;

    open spec fn view(&self) -> StepView {
        match self {
            Step::Run { commands, task } => StepView::Run {
                commands: protocol::commands_view(commands@),
                task: task@,
            },
            Step::Ask { query, task } => StepView::Ask { query: query@, task: task@ },
            Step::Done(outcome) => StepView::Done(outcome_view(*outcome)),
        }
    }
}

/// What a task waits for.
#[derive(Debug, Clone, Copy, PartialEq, Eq, Structural)]
pub enum Expected {
    Done,
    Atom,
    Owner,
    Property,
    Polled,
}

impl<B, W> StageOf<B, W> {
    /// What a fetch waits for.
    pub open spec fn expects(self) -> Expected {
        match self {
            StageOf::Owner => Expected::Owner,
            StageOf::TargetsAtom | StageOf::DataAtom => Expected::Atom,
            StageOf::TargetsConvert { .. } | StageOf::TargetsDelete { .. } => Expected::Done,
            StageOf::DataConvert { .. } | StageOf::IncrDelete { .. } => Expected::Done,
            StageOf::Received { .. } => Expected::Done,
            StageOf::TargetsWait(_) | StageOf::DataWait(_) | StageOf::IncrPoll(_) => {
                Expected::Polled
            },
            StageOf::TargetsRead { .. } | StageOf::Read { .. } | StageOf::IncrPiece(_) => {
                Expected::Property
            },
        }
    }

    /// Whether a fetch at this stage may look for another event.
    pub open spec fn may_poll(self) -> bool {
        match self {
            StageOf::TargetsWait(wait) => wait.polls_left > 0,
            StageOf::DataWait(wait) => wait.polls_left > 0,
            StageOf::IncrPoll(transfer) => transfer.polls_left > 0,
            _ => false,
        }
    }

    /// Whether a fetch at this stage still looks for the targets.
    pub open spec fn before_targets(self) -> bool {
        self is Owner || self is TargetsAtom || self is TargetsConvert || self is TargetsWait
            || self is TargetsRead || self is TargetsDelete
    }

    /// Whether a fetch at this stage has asked for a target and not been answered.
    pub open spec fn before_answer(self) -> bool {
        self is DataAtom || self is DataConvert || self is DataWait
    }
}

impl FetchOf<Seq<u8>, Seq<u32>, Seq<(u32, Seq<char>)>> {
    /// Whether the stage fits the purpose: targets are only looked for when we ask, and the one
    /// being tried is among them. What has been received is not empty.
    pub open spec fn wf(self) -> bool {
        &&& match self.purpose {
            PurposeOf::Notified { .. } => !self.stage.before_targets()
                && !self.stage.before_answer(),
            PurposeOf::Requested { targets, index, .. } => !self.stage.before_targets() ==> index
                < targets.len() <= usize::MAX,
        }
        &&& self.stage matches StageOf::Received { data: Some((_, bytes)) } ==> bytes.len() > 0
    }
}

impl<C> ServeOf<C> {
    /// What an answer waits for.
    pub open spec fn expects(self) -> Expected {
        match self {
            ServeOf::List { .. } => Expected::Property,
            ServeOf::Answered => Expected::Done,
        }
    }
}

impl TaskView {
    /// Whether the task can be taken up.
    pub open spec fn wf(self) -> bool {
        match self {
            TaskView::Store { .. } => true,
            TaskView::Serve(_) => true,
            TaskView::Fetch(fetch) => fetch.wf() && (fetch.stage.expects() == Expected::Polled
                ==> fetch.stage.may_poll()),
            TaskView::Interrupted(fetch, _) => fetch.wf() && fetch.stage.expects()
                == Expected::Polled,
        }
    }

    /// What the task waits for.
    pub open spec fn expects(self) -> Expected {
        match self {
            TaskView::Store { .. } => Expected::Done,
            TaskView::Serve(serve) => serve.expects(),
            TaskView::Fetch(fetch) => fetch.stage.expects(),
            TaskView::Interrupted(_, serve) => serve.expects(),
        }
    }

    /// Whether the task can be taken up with `reply`: it is what the task waits for, or says that
    /// the exchange failed. Looking for an event always gives something.
    pub open spec fn accepts<B, E>(self, reply: ReplyOf<B, E>) -> bool {
        match self.expects() {
            Expected::Done => reply is Done || reply is Failed,
            Expected::Atom => reply is Atom || reply is Failed,
            Expected::Owner => reply is Owner || reply is Failed,
            Expected::Property => reply is Property || reply is Failed,
            Expected::Polled => reply is Polled,
        }
    }
}

impl StepView {
    /// Whether the task of the step, if it has one, can be taken up.
    pub open spec fn wf(self) -> bool {
        match self {
            StepView::Run { task, .. } => task.wf() && task.expects() == Expected::Done,
            StepView::Ask { query, task } => task.wf() && match query.ask {
                protocol::AskOf::InternAtom { .. } => task.expects() == Expected::Atom,
                protocol::AskOf::SelectionOwner { .. } => task.expects() == Expected::Owner,
                protocol::AskOf::Property { .. } => task.expects() == Expected::Property,
                protocol::AskOf::Poll { .. } => task.expects() == Expected::Polled,
                _ => false,
            },
            StepView::Done(_) => true,
        }
    }
}

impl FetchOf<Vec<u8>, Vec<u32>, Vec<(u32, &'static str)>> {
    /// Whether the stage fits the purpose.
    fn fits(&self) -> (fitting: bool)
        ensures
            fitting == self@.wf(),
    {
        let before_targets = match &self.stage {
            StageOf::Owner | StageOf::TargetsAtom | StageOf::TargetsConvert { .. } => true,
            StageOf::TargetsWait(_) | StageOf::TargetsRead { .. } => true,
            StageOf::TargetsDelete { .. } => true,
            _ => false,
        };
        let before_answer = match &self.stage {
            StageOf::DataAtom | StageOf::DataConvert { .. } | StageOf::DataWait(_) => true,
            _ => false,
        };
        let purposeful = match &self.purpose {
            PurposeOf::Notified { .. } => !before_targets && !before_answer,
            PurposeOf::Requested { targets, index, .. } => before_targets || *index
                < targets.len(),
        };
        purposeful && match &self.stage {
            StageOf::Received { data: Some((_, bytes)) } => bytes.len() > 0,
            _ => true,
        }
    }
}

impl Task {
    /// Whether the task can be taken up.
    fn is_ready(&self) -> (ready: bool)
        ensures
            ready == self@.wf(),
    {
        match self {
            Task::Store { .. } | Task::Serve(_) => true,
            Task::Fetch(fetch) => fetch.fits() && match &fetch.stage {
                StageOf::TargetsWait(wait) | StageOf::DataWait(wait) => wait.polls_left > 0,
                StageOf::IncrPoll(transfer) => transfer.polls_left > 0,
                _ => true,
            },
            Task::Interrupted(fetch, _) => fetch.fits() && match &fetch.stage {
                StageOf::TargetsWait(_) | StageOf::DataWait(_) | StageOf::IncrPoll(_) => true,
                _ => false,
            },
        }
    }

    /// Whether the task can be taken up with `reply`.
    pub fn accepts(&self, reply: &Reply) -> (accepted: bool)
        ensures
            accepted == (self@.wf() && self@.accepts(reply@)),
    {
        if !self.is_ready() {
            return false;
        }
        let expected = match self {
            Task::Store { .. } => Expected::Done,
            Task::Serve(serve) | Task::Interrupted(_, serve) => match serve {
                ServeOf::List { .. } => Expected::Property,
                ServeOf::Answered => Expected::Done,
            },
            Task::Fetch(fetch) => match &fetch.stage {
                StageOf::Owner => Expected::Owner,
                StageOf::TargetsAtom | StageOf::DataAtom => Expected::Atom,
                StageOf::TargetsConvert { .. } | StageOf::TargetsDelete { .. } => Expected::Done,
                StageOf::DataConvert { .. } | StageOf::IncrDelete { .. } => Expected::Done,
                StageOf::Received { .. } => Expected::Done,
                StageOf::TargetsWait(_) | StageOf::DataWait(_) | StageOf::IncrPoll(_) => {
                    Expected::Polled
                },
                StageOf::TargetsRead { .. } | StageOf::Read { .. } | StageOf::IncrPiece(_) => {
                    Expected::Property
                },
            },
        };
        match (expected, reply) {
            (Expected::Done, ReplyOf::Done) => true,
            (Expected::Atom, ReplyOf::Atom(_)) => true,
            (Expected::Owner, ReplyOf::Owner(_)) => true,
            (Expected::Property, ReplyOf::Property { .. }) => true,
            (Expected::Polled, ReplyOf::Polled(_)) => true,
            (Expected::Polled, _) => false,
            (_, ReplyOf::Failed(_)) => true,
            _ => false,
        }
    }
}

} // verus!
