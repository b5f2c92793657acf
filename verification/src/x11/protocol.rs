//! What is exchanged with the X server, as plain values.
//!
//! A [`Command`] is sent and either fails or not. A [`Query`] is answered by a [`Reply`] other
//! than [`Reply::Done`]. Both know what is said when they fail.

use crate::text;
use vstd::prelude::*;

verus! {

/// An X11 atom.
pub type Atom = u32;

/// An X11 window.
pub type Window = u32;

/// The null atom: no property, no type.
pub const ATOM_NONE: u32 = 0;

/// Stands for any property type.
pub const ATOM_ANY: u32 = 0;

/// The predefined atom of the primary selection.
pub const ATOM_PRIMARY: u32 = 1;

/// The predefined type of properties that hold atoms.
pub const ATOM_ATOM: u32 = 4;

/// The null window: nobody.
pub const WINDOW_NONE: u32 = 0;

/// The server's own time.
pub const CURRENT_TIME: u32 = 0;

/// The event code of a selection notification.
pub const SELECTION_NOTIFY_EVENT: u8 = 31;

/// The state of a property that has been given a value.
pub const PROPERTY_NEW_VALUE: u8 = 0;

/// Another client asks for the content of a selection that we own.
#[derive(Debug, Clone, Copy, PartialEq, Eq, Structural)]
pub struct SelectionRequestEvent {
    pub time: u32,
    pub requestor: u32,
    pub selection: u32,
    pub target: u32,
    pub property: u32,
}

/// A selection's owner has answered a request, or we answer one.
#[derive(Debug, Clone, Copy, PartialEq, Eq, Structural)]
pub struct SelectionNotifyEvent {
    pub response_type: u8,
    pub sequence: u16,
    pub time: u32,
    pub requestor: u32,
    pub selection: u32,
    pub target: u32,
    pub property: u32,
}

/// We no longer own a selection.
#[derive(Debug, Clone, Copy, PartialEq, Eq, Structural)]
pub struct SelectionClearEvent {
    pub selection: u32,
}

/// A property of our window has changed.
#[derive(Debug, Clone, Copy, PartialEq, Eq, Structural)]
pub struct PropertyNotifyEvent {
    pub atom: u32,
    pub state: u8,
}

/// A selection has a new owner.
#[derive(Debug, Clone, Copy, PartialEq, Eq, Structural)]
pub struct XfixesSelectionNotifyEvent {
    pub owner: u32,
    pub selection: u32,
}

/// An event from the X server.
#[derive(Debug, Clone, Copy, PartialEq, Eq, Structural)]
pub enum Event {
    SelectionRequest(SelectionRequestEvent),
    SelectionNotify(SelectionNotifyEvent),
    SelectionClear(SelectionClearEvent),
    PropertyNotify(PropertyNotifyEvent),
    XfixesSelectionNotify(XfixesSelectionNotifyEvent),
    /// Any event that the bridge does not look into.
    Other,
}

/// What looking for an event gave.
#[derive(Debug, Clone, Copy, PartialEq, Eq, Structural)]
pub enum Polled {
    Event(Event),
    Nothing,
    Failed,
}

/// A window to be created.
#[derive(Debug, Clone, Copy, PartialEq, Eq, Structural)]
pub struct WindowAttributes {
    pub depth: u8,
    pub window: u32,
    pub parent: u32,
    pub x: i16,
    pub y: i16,
    pub width: u16,
    pub height: u16,
    pub border_width: u16,
    pub class: u16,
    pub visual: u32,
    pub event_mask: u32,
}

/// A request to the X server that is not answered, over a kind of byte string and a kind of word
/// string.
#[derive(Debug)]
pub enum RequestOf<B, W> {
    CreateWindow(WindowAttributes),
    /// Asks to be told when a selection changes hands.
    SelectSelectionInput { window: u32, selection: u32, event_mask: u32 },
    /// Gives a property a value of bytes, whatever it held before.
    ReplaceProperty8 { window: u32, property: u32, type_: u32, data: B },
    /// Gives a property a value of 32-bit words, whatever it held before.
    ReplaceProperty32 { window: u32, property: u32, type_: u32, words: W },
    DeleteProperty { window: u32, property: u32 },
    /// Asks a selection's owner to put its content, as `target`, into a property of `requestor`.
    ConvertSelection { requestor: u32, selection: u32, target: u32, property: u32, time: u32 },
    SetSelectionOwner { owner: u32, selection: u32, time: u32 },
    /// Sends a notification to one window, whichever events it has asked for.
    SendEvent { destination: u32, event: SelectionNotifyEvent },
    /// Makes sure that everything so far has been sent.
    Flush,
}

/// A request to the X server that is not answered.
pub type Request = RequestOf<Vec<u8>, Vec<u32>>;

/// Such a request as plain values.
pub type RequestView = RequestOf<Seq<u8>, Seq<u32>>;

impl View for RequestOf<Vec<u8>, Vec<u32>> {
    type V = RequestView;

    open spec fn view(&self) -> RequestView {
        match *self {
            RequestOf::CreateWindow(attributes) => RequestOf::CreateWindow(attributes),
            RequestOf::SelectSelectionInput { window, selection, event_mask } => {
                RequestOf::SelectSelectionInput { window, selection, event_mask }
            },
            RequestOf::ReplaceProperty8 { window, property, type_, data } => {
                RequestOf::ReplaceProperty8 { window, property, type_, data: data@ }
            },
            RequestOf::ReplaceProperty32 { window, property, type_, words } => {
                RequestOf::ReplaceProperty32 { window, property, type_, words: words@ }
            },
            RequestOf::DeleteProperty { window, property } => {
                RequestOf::DeleteProperty { window, property }
            },
            RequestOf::ConvertSelection { requestor, selection, target, property, time } => {
                RequestOf::ConvertSelection { requestor, selection, target, property, time }
            },
            RequestOf::SetSelectionOwner { owner, selection, time } => {
                RequestOf::SetSelectionOwner { owner, selection, time }
            },
            RequestOf::SendEvent { destination, event } => {
                RequestOf::SendEvent { destination, event }
            },
            RequestOf::Flush => RequestOf::Flush,
        }
    }
}

/// A request, and what is said when it fails.
#[derive(Debug)]
pub struct Command {
    pub request: Request,
    pub failure: &'static str,
}

/// A command as plain values.
pub struct CommandView {
    pub request: RequestView,
    pub failure: Seq<char>,
}

impl View for Command {
    type V = CommandView;

    open spec fn view(&self) -> CommandView {
        CommandView { request: self.request@, failure: self.failure@ }
    }
}

/// The plain values of a list of commands.
pub open spec fn commands_view(commands: Seq<Command>) -> Seq<CommandView> {
    Seq::new(commands.len(), |i: int| commands[i]@)
}

impl Command {
    /// What is said when the command fails with `error`.
    pub fn failure_message(&self, error: &str) -> (text: String)
        ensures
            text@ == text::message(self@.failure, error@),
    {
        text::failure_message(self.failure, error)
    }
}

/// A command that flushes the connection.
pub open spec fn flush_view() -> CommandView {
    CommandView { request: RequestOf::Flush, failure: "Failed to flush connection"@ }
}

/// Flushes the connection.
pub(crate) fn flush() -> (command: Command)
    ensures
        command@ == flush_view(),
{
    Command { request: RequestOf::Flush, failure: "Failed to flush connection" }
}

/// A question to the X server, over a kind of string.
#[derive(Debug)]
pub enum AskOf<N> {
    /// A window that is not in use: answered by [`ReplyOf::Id`].
    GenerateId,
    /// The version of the XFixes extension, given the one we know: answered by
    /// [`ReplyOf::Version`].
    XfixesVersion { major: u32, minor: u32 },
    /// The atom of a name, made if there is none: answered by [`ReplyOf::Atom`].
    InternAtom { name: N },
    /// The window that owns a selection: answered by [`ReplyOf::Owner`].
    SelectionOwner { selection: u32 },
    /// The value of a property of the given type, from `offset` on and at most `length` words,
    /// deleted once read if so asked: answered by [`ReplyOf::Property`].
    Property { delete: bool, window: u32, property: u32, type_: u32, offset: u32, length: u32 },
    /// The next event, after waiting for `delay_ms` milliseconds: answered by
    /// [`ReplyOf::Polled`].
    Poll { delay_ms: u64 },
}

/// A question to the X server.
pub type Ask = AskOf<String>;

/// Such a question as plain values.
pub type AskView = AskOf<Seq<char>>;

impl View for AskOf<String> {
    type V = AskView;

    open spec fn view(&self) -> AskView {
        match *self {
            AskOf::GenerateId => AskOf::GenerateId,
            AskOf::XfixesVersion { major, minor } => AskOf::XfixesVersion { major, minor },
            AskOf::InternAtom { name } => AskOf::InternAtom { name: name@ },
            AskOf::SelectionOwner { selection } => AskOf::SelectionOwner { selection },
            AskOf::Property { delete, window, property, type_, offset, length } => {
                AskOf::Property { delete, window, property, type_, offset, length }
            },
            AskOf::Poll { delay_ms } => AskOf::Poll { delay_ms },
        }
    }
}

/// A question, and what is said when it cannot be put and when it is not answered.
#[derive(Debug)]
pub struct Query {
    pub ask: Ask,
    pub send_failure: String,
    pub reply_failure: String,
}

/// A query as plain values.
pub struct QueryView {
    pub ask: AskView,
    pub send_failure: Seq<char>,
    pub reply_failure: Seq<char>,
}

impl View for Query {
    type V = QueryView;

    open spec fn view(&self) -> QueryView {
        QueryView {
            ask: self.ask@,
            send_failure: self.send_failure@,
            reply_failure: self.reply_failure@,
        }
    }
}

impl Query {
    /// What is said when the question cannot be put.
    pub fn send_failure_message(&self, error: &str) -> (text: String)
        ensures
            text@ == text::message(self@.send_failure, error@),
    {
        text::failure_message(self.send_failure.as_str(), error)
    }

    /// What is said when the question is put and not answered.
    pub fn reply_failure_message(&self, error: &str) -> (text: String)
        ensures
            text@ == text::message(self@.reply_failure, error@),
    {
        text::failure_message(self.reply_failure.as_str(), error)
    }
}

/// What came of commands or of a query, over a kind of byte string and a kind of string.
#[derive(Debug)]
pub enum ReplyOf<B, E> {
    /// All commands have been sent.
    Done,
    Id(u32),
    Version,
    Atom(u32),
    Owner(u32),
    Property { type_: u32, format: u8, value: B },
    Polled(Polled),
    /// A command or the query has failed, with the message that it gives for that.
    Failed(E),
}

/// What came of commands or of a query.
pub type Reply = ReplyOf<Vec<u8>, String>;

/// Such an outcome as plain values.
pub type ReplyView = ReplyOf<Seq<u8>, Seq<char>>;

impl View for ReplyOf<Vec<u8>, String> {
    type V = ReplyView;

    open spec fn view(&self) -> ReplyView {
        match *self {
            ReplyOf::Done => ReplyOf::Done,
            ReplyOf::Id(id) => ReplyOf::Id(id),
            ReplyOf::Version => ReplyOf::Version,
            ReplyOf::Atom(atom) => ReplyOf::Atom(atom),
            ReplyOf::Owner(owner) => ReplyOf::Owner(owner),
            ReplyOf::Property { type_, format, value } => {
                ReplyOf::Property { type_, format, value: value@ }
            },
            ReplyOf::Polled(polled) => ReplyOf::Polled(polled),
            ReplyOf::Failed(error) => ReplyOf::Failed(error@),
        }
    }
}

/// The query for the atom of `name`.
pub open spec fn intern_view(name: Seq<char>) -> QueryView {
    QueryView {
        ask: AskOf::InternAtom { name },
        send_failure: "Failed to intern atom "@ + name,
        reply_failure: "Failed to get atom reply for "@ + name,
    }
}

/// Asks for the atom of `name`.
pub(crate) fn intern(name: &str) -> (query: Query)
    ensures
        query@ == intern_view(name@),
{
    Query {
        ask: AskOf::InternAtom { name: name.to_string() },
        send_failure: text::followed("Failed to intern atom ", name),
        reply_failure: text::followed("Failed to get atom reply for ", name),
    }
}

/// The query for the value of a property; `failure` is said when it cannot be put.
pub open spec fn property_view(
    delete: bool,
    window: u32,
    property: u32,
    type_: u32,
    length: u32,
    failure: Seq<char>,
) -> QueryView {
    QueryView {
        ask: AskOf::Property { delete, window, property, type_, offset: 0, length },
        send_failure: failure,
        reply_failure: failure + " reply"@,
    }
}

/// Asks for the value of a property.
pub(crate) fn get_property(
    delete: bool,
    window: u32,
    property: u32,
    type_: u32,
    length: u32,
    failure: &str,
) -> (query: Query)
    ensures
        query@ == property_view(delete, window, property, type_, length, failure@),
{
    Query {
        ask: AskOf::Property { delete, window, property, type_, offset: 0, length },
        send_failure: failure.to_string(),
        reply_failure: text::followed(failure, " reply"),
    }
}

/// How long a wait for an answer sleeps before it looks for the next event, in milliseconds.
pub const POLL_DELAY_MS: u64 = 20;

/// The query for the next event. It does not fail: [`Polled::Failed`] is one of its answers.
pub open spec fn poll_view() -> QueryView {
    QueryView {
        ask: AskOf::Poll { delay_ms: POLL_DELAY_MS },
        send_failure: ""@,
        reply_failure: ""@,
    }
}

/// Asks for the next event.
pub(crate) fn poll() -> (query: Query)
    ensures
        query@ == poll_view(),
{
    Query {
        ask: AskOf::Poll { delay_ms: POLL_DELAY_MS },
        send_failure: "".to_string(),
        reply_failure: "".to_string(),
    }
}

/// Flushing is asked for as such.
pub proof fn law_flush()
    ensures
        flush_view().request is Flush,
        flush_view().failure == "Failed to flush connection"@,
{
}

/// A query for an atom names what it is wanted for, also when it fails.
pub proof fn law_intern(name: Seq<char>)
    ensures
        intern_view(name).ask == (AskView::InternAtom { name }),
        intern_view(name).send_failure == "Failed to intern atom "@ + name,
        intern_view(name).reply_failure == "Failed to get atom reply for "@ + name,
{
}

/// A query for a property asks for its value from the beginning on, exactly as it was said.
pub proof fn law_property_query(
    delete: bool,
    window: u32,
    property: u32,
    type_: u32,
    length: u32,
    failure: Seq<char>,
)
    ensures
        ({
            let query = property_view(delete, window, property, type_, length, failure);
            &&& query.ask == (AskView::Property {
                delete,
                window,
                property,
                type_,
                offset: 0,
                length,
            })
            &&& query.send_failure == failure
            &&& query.reply_failure == failure + " reply"@
        }),
{
}

/// A look for the next event comes after a sleep of twenty milliseconds.
pub proof fn law_poll()
    ensures
        poll_view().ask == (AskView::Poll { delay_ms: 20 }),
{
}

/// The plain values of a request leave nothing out.
pub proof fn law_view_of_a_request(request: Request)
    ensures
        match request {
            RequestOf::CreateWindow(attributes) => request@ == RequestView::CreateWindow(
                attributes,
            ),
            RequestOf::SelectSelectionInput { window, selection, event_mask } => request@ == (
            RequestView::SelectSelectionInput { window, selection, event_mask }),
            RequestOf::ReplaceProperty8 { window, property, type_, data } => request@ == (
            RequestView::ReplaceProperty8 { window, property, type_, data: data@ }),
            RequestOf::ReplaceProperty32 { window, property, type_, words } => request@ == (
            RequestView::ReplaceProperty32 { window, property, type_, words: words@ }),
            RequestOf::DeleteProperty { window, property } => request@ == (
            RequestView::DeleteProperty { window, property }),
            RequestOf::ConvertSelection { requestor, selection, target, property, time } => {
                request@ == (RequestView::ConvertSelection {
                    requestor,
                    selection,
                    target,
                    property,
                    time,
                })
            },
            RequestOf::SetSelectionOwner { owner, selection, time } => request@ == (
            RequestView::SetSelectionOwner { owner, selection, time }),
            RequestOf::SendEvent { destination, event } => request@ == (RequestView::SendEvent {
                destination,
                event,
            }),
            RequestOf::Flush => request@ == RequestView::Flush,
        },
{
}

/// The plain values of commands, questions and queries leave nothing out.
pub proof fn law_view_of_a_command(commands: Seq<Command>, ask: Ask, query: Query)
    ensures
        commands_view(commands).len() == commands.len(),
        forall|i: int|
            0 <= i < commands.len() ==> (#[trigger] commands_view(commands)[i]).request
                == commands[i].request@ && commands_view(commands)[i].failure
                == commands[i].failure@,
        match ask {
            AskOf::GenerateId => ask@ == AskView::GenerateId,
            AskOf::XfixesVersion { major, minor } => ask@ == (AskView::XfixesVersion {
                major,
                minor,
            }),
            AskOf::InternAtom { name } => ask@ == (AskView::InternAtom { name: name@ }),
            AskOf::SelectionOwner { selection } => ask@ == (AskView::SelectionOwner { selection }),
            AskOf::Property { delete, window, property, type_, offset, length } => ask@ == (
            AskView::Property { delete, window, property, type_, offset, length }),
            AskOf::Poll { delay_ms } => ask@ == (AskView::Poll { delay_ms }),
        },
        query@.ask == query.ask@,
        query@.send_failure == query.send_failure@,
        query@.reply_failure == query.reply_failure@,
{
}

/// The plain values of a reply leave nothing out.
pub proof fn law_view_of_a_reply(reply: Reply)
    ensures
        match reply {
            ReplyOf::Done => reply@ == ReplyView::Done,
            ReplyOf::Id(id) => reply@ == ReplyView::Id(id),
            ReplyOf::Version => reply@ == ReplyView::Version,
            ReplyOf::Atom(atom) => reply@ == ReplyView::Atom(atom),
            ReplyOf::Owner(owner) => reply@ == ReplyView::Owner(owner),
            ReplyOf::Property { type_, format, value } => reply@ == (ReplyView::Property {
                type_,
                format,
                value: value@,
            }),
            ReplyOf::Polled(polled) => reply@ == ReplyView::Polled(polled),
            ReplyOf::Failed(error) => reply@ == ReplyView::Failed(error@),
        },
{
}

} // verus!
