//! Answering other clients that ask for a selection's content.

use crate::content;
use crate::content::ClipboardContent;
use crate::mime;
use crate::sync;
use crate::x11::atoms;
use crate::x11::protocol;
use crate::x11::protocol::{
    Command, CommandView, Query, RequestOf, SelectionNotifyEvent, SelectionRequestEvent, ATOM_ATOM,
    ATOM_NONE, SELECTION_NOTIFY_EVENT,
};
use crate::x11::state::{X11State, X11View};
use vstd::prelude::*;
use vstd::slice::slice_to_vec;

verus! {

/// How much of the list of a multiple request is read, in words.
pub const LIST_LENGTH: u32 = 1024;

/// The property an answer goes into. Old clients name none: they are answered in the property
/// named like the target.
pub open spec fn answer_property(event: SelectionRequestEvent) -> u32 {
    if event.property == ATOM_NONE {
        event.target
    } else {
        event.property
    }
}

/// The notification that a request has been answered in `property`, or refused if that is the null
/// atom.
pub open spec fn notification(event: SelectionRequestEvent, property: u32) -> CommandView {
    CommandView {
        request: RequestOf::SendEvent {
            destination: event.requestor,
            event: SelectionNotifyEvent {
                response_type: SELECTION_NOTIFY_EVENT,
                sequence: 0,
                time: event.time,
                requestor: event.requestor,
                selection: event.selection,
                target: event.target,
                property,
            },
        },
        failure: "Failed to send event"@,
    }
}

/// What every answer ends with.
pub open spec fn closing(event: SelectionRequestEvent, property: u32) -> Seq<CommandView> {
    seq![notification(event, property), protocol::flush_view()]
}

/// Writes a list of atoms into a property of another client's window.
pub open spec fn atoms_written(
    window: u32,
    property: u32,
    words: Seq<u32>,
    failure: Seq<char>,
) -> CommandView {
    CommandView {
        request: RequestOf::ReplaceProperty32 { window, property, type_: ATOM_ATOM, words },
        failure,
    }
}

/// Writes `content` as `target` into a property of another client's window; nothing if it cannot
/// be given out as that.
pub open spec fn content_written(
    state: X11View,
    requestor: u32,
    property: u32,
    target: u32,
    content: content::ContentView,
) -> Option<CommandView> {
    if target == state.atoms[mime::TARGETS_ATOM@] {
        Some(
            atoms_written(
                requestor,
                property,
                state.targets_for(Some(content)),
                "Failed to change TARGETS property"@,
            ),
        )
    } else {
        match state.mime_for(target) {
            Some(mime_type) => match content.bytes_for(mime_type) {
                Some(bytes) => Some(
                    CommandView {
                        request: RequestOf::ReplaceProperty8 {
                            window: requestor,
                            property,
                            type_: target,
                            data: bytes,
                        },
                        failure: "Failed to change selection property"@,
                    },
                ),
                None => None,
            },
            None => None,
        }
    }
}

/// Writes what one pair of a multiple request asks for; nothing if it cannot be had.
pub open spec fn pair_written(
    state: X11View,
    requestor: u32,
    content: Option<content::ContentView>,
    target: u32,
    property: u32,
) -> Option<CommandView> {
    if property == ATOM_NONE {
        None
    } else if target == state.atoms[mime::TARGETS_ATOM@] {
        Some(
            atoms_written(
                requestor,
                property,
                state.targets_for(content),
                "Failed to change TARGETS property"@,
            ),
        )
    } else {
        match content {
            Some(content) => content_written(state, requestor, property, target, content),
            None => None,
        }
    }
}

/// Writes what the first `count` pairs of a multiple request ask for, leaving out those that
/// cannot be had.
pub open spec fn pairs_written(
    state: X11View,
    requestor: u32,
    content: Option<content::ContentView>,
    words: Seq<u32>,
    count: nat,
) -> Seq<CommandView>
    decreases count,
{
    if count == 0 {
        Seq::empty()
    } else {
        let i = 2 * (count - 1);
        let rest = pairs_written(state, requestor, content, words, (count - 1) as nat);
        match pair_written(state, requestor, content, words[i], words[i + 1]) {
            Some(command) => rest.push(command),
            None => rest,
        }
    }
}

/// The list of a multiple request once it has been answered: the property of a pair that could not
/// be had is replaced by the null atom, everything else stays.
pub open spec fn pairs_marked(
    state: X11View,
    requestor: u32,
    content: Option<content::ContentView>,
    words: Seq<u32>,
) -> Seq<u32> {
    Seq::new(
        words.len(),
        |i: int|
            if i % 2 == 1 && pair_written(state, requestor, content, words[i - 1], words[i])
                is None {
                ATOM_NONE
            } else {
                words[i]
            },
    )
}

/// The answer to a multiple request whose list is `words`.
pub open spec fn multiple_answer(
    state: X11View,
    event: SelectionRequestEvent,
    content: Option<content::ContentView>,
    words: Seq<u32>,
) -> Seq<CommandView> {
    pairs_written(state, event.requestor, content, words, words.len() / 2).push(
        atoms_written(
            event.requestor,
            answer_property(event),
            pairs_marked(state, event.requestor, content, words),
            "Failed to update MULTIPLE property"@,
        ),
    ) + closing(event, answer_property(event))
}

/// How a request is answered, over a kind of content, of commands and of query.
#[derive(Debug)]
pub enum AnswerOf<C, L, Q> {
    /// By these commands.
    Commands(L),
    /// By commands that depend on a list that has to be read first. The content is the one held
    /// when the request came.
    List { query: Q, content: C },
}

/// How a request is answered.
pub type Answer = AnswerOf<Option<ClipboardContent>, Vec<Command>, Query>;

/// How a request is answered, as plain values.
pub type AnswerView = AnswerOf<
    Option<content::ContentView>,
    Seq<CommandView>,
    protocol::QueryView,
>;

impl View for AnswerOf<Option<ClipboardContent>, Vec<Command>, Query> {
    type V = AnswerView;

    open spec fn view(&self) -> AnswerView {
        match *self {
            AnswerOf::Commands(commands) => AnswerOf::Commands(
                protocol::commands_view(commands@),
            ),
            AnswerOf::List { query, content } => AnswerOf::List {
                query: query@,
                content: sync::optional_view(content),
            },
        }
    }
}

/// How a request is answered: the question which targets there are by a list of them, a multiple
/// request once its list is read, a request for a format that the content has by the content, and
/// any other one by a refusal.
pub open spec fn answer(state: X11View, event: SelectionRequestEvent) -> AnswerView {
    let property = answer_property(event);
    let content = state.held(event.selection);
    if event.target == state.atoms[mime::TARGETS_ATOM@] {
        AnswerOf::Commands(
            seq![
                atoms_written(
                    event.requestor,
                    property,
                    state.targets_for(content),
                    "Failed to change property32"@,
                ),
            ] + closing(event, property),
        )
    } else if event.target == state.atoms[mime::MULTIPLE_ATOM@] {
        AnswerOf::List {
            query: protocol::property_view(
                false,
                event.requestor,
                property,
                ATOM_ATOM,
                LIST_LENGTH,
                "Failed to get property"@,
            ),
            content,
        }
    } else {
        match content {
            Some(held) => match content_written(
                state,
                event.requestor,
                property,
                event.target,
                held,
            ) {
                Some(command) => AnswerOf::Commands(seq![command] + closing(event, property)),
                None => AnswerOf::Commands(closing(event, ATOM_NONE)),
            },
            None => AnswerOf::Commands(closing(event, ATOM_NONE)),
        }
    }
}

fn write_atoms(
    window: u32,
    property: u32,
    words: Vec<u32>,
    failure: &'static str,
) -> (command: Command)
    ensures
        command@ == atoms_written(window, property, words@, failure@),
{
    Command {
        request: RequestOf::ReplaceProperty32 { window, property, type_: ATOM_ATOM, words },
        failure,
    }
}

fn close(commands: &mut Vec<Command>, event: SelectionRequestEvent, property: u32)
    ensures
        protocol::commands_view(final(commands)@) == protocol::commands_view(old(commands)@)
            + closing(event, property),
{
    let notify = Command {
        request: RequestOf::SendEvent {
            destination: event.requestor,
            event: SelectionNotifyEvent {
                response_type: SELECTION_NOTIFY_EVENT,
                sequence: 0,
                time: event.time,
                requestor: event.requestor,
                selection: event.selection,
                target: event.target,
                property,
            },
        },
        failure: "Failed to send event",
    };
    commands.push(notify);
    commands.push(protocol::flush());
    assert(protocol::commands_view(commands@) =~= protocol::commands_view(old(commands)@) + closing(
        event,
        property,
    ));
}

/// The plain values of an optional command.
pub open spec fn optional_command_view(command: Option<Command>) -> Option<CommandView> {
    match command {
        Some(command) => Some(command@),
        None => None,
    }
}

/// The plain values of a borrowed optional content.
pub open spec fn borrowed_view(content: Option<&ClipboardContent>) -> Option<content::ContentView> {
    match content {
        Some(content) => Some(content@),
        None => None,
    }
}

impl X11State {
    /// Writes `content` as `target` into a property of another client's window, if it can be given
    /// out as that.
    pub fn write_content_for_target(
        &self,
        requestor: u32,
        property: u32,
        target: u32,
        content: &ClipboardContent,
    ) -> (command: Option<Command>)
        requires
            self@.wf(),
        ensures
            optional_command_view(command) == content_written(
                self@,
                requestor,
                property,
                target,
                content@,
            ),
    {
        assert(atoms::atom_names()[2] == mime::TARGETS_ATOM@);
        if target == self.known_atom(mime::TARGETS_ATOM) {
            let targets = self.target_atoms_for_content(Some(content));
            return Some(
                write_atoms(requestor, property, targets, "Failed to change TARGETS property"),
            );
        }
        match self.mime_type_for_atom(target) {
            Some(mime_type) => match content.bytes_for_mime(mime_type) {
                Some(bytes) => Some(
                    Command {
                        request: RequestOf::ReplaceProperty8 {
                            window: requestor,
                            property,
                            type_: target,
                            data: slice_to_vec(bytes),
                        },
                        failure: "Failed to change selection property",
                    },
                ),
                None => None,
            },
            None => None,
        }
    }

    fn write_pair(
        &self,
        requestor: u32,
        content: Option<&ClipboardContent>,
        target: u32,
        property: u32,
    ) -> (command: Option<Command>)
        requires
            self@.wf(),
        ensures
            optional_command_view(command) == pair_written(
                self@,
                requestor,
                borrowed_view(content),
                target,
                property,
            ),
    {
        assert(atoms::atom_names()[2] == mime::TARGETS_ATOM@);
        if property == ATOM_NONE {
            None
        } else if target == self.known_atom(mime::TARGETS_ATOM) {
            let targets = self.target_atoms_for_content(content);
            Some(write_atoms(requestor, property, targets, "Failed to change TARGETS property"))
        } else {
            match content {
                Some(content) => self.write_content_for_target(
                    requestor,
                    property,
                    target,
                    content,
                ),
                None => None,
            }
        }
    }

    /// The commands that answer a multiple request whose list is `words`.
    pub fn answer_multiple(
        &self,
        event: SelectionRequestEvent,
        content: Option<&ClipboardContent>,
        words: Vec<u32>,
    ) -> (commands: Vec<Command>)
        requires
            self@.wf(),
        ensures
            protocol::commands_view(commands@) == multiple_answer(
                self@,
                event,
                borrowed_view(content),
                words@,
            ),
    {
        let ghost asked = words@;
        let ghost held = borrowed_view(content);
        let mut words = words;
        let mut commands: Vec<Command> = Vec::new();
        let mut i: usize = 0;
        assert(protocol::commands_view(commands@) =~= Seq::<CommandView>::empty());
        while i < words.len() / 2
            invariant
                self@.wf(),
                i <= asked.len() / 2,
                words@.len() == asked.len(),
                held == borrowed_view(content),
                protocol::commands_view(commands@) == pairs_written(
                    self@,
                    event.requestor,
                    held,
                    asked,
                    i as nat,
                ),
                forall|j: int|
                    0 <= j < 2 * i ==> words@[j] == pairs_marked(
                        self@,
                        event.requestor,
                        held,
                        asked,
                    )[j],
                forall|j: int| 2 * i <= j < asked.len() ==> words@[j] == asked[j],
            decreases asked.len() / 2 - i,
        {
            let ghost before = commands@;
            match self.write_pair(event.requestor, content, words[2 * i], words[2 * i + 1]) {
                Some(command) => {
                    commands.push(command);
                    assert(protocol::commands_view(commands@) =~= protocol::commands_view(
                        before,
                    ).push(command@));
                },
                None => {
                    words.set(2 * i + 1, ATOM_NONE);
                },
            }
            i += 1;
        }
        assert(words@ =~= pairs_marked(self@, event.requestor, held, asked));
        let ghost before = commands@;
        let property = if event.property == ATOM_NONE {
            event.target
        } else {
            event.property
        };
        let update = write_atoms(
            event.requestor,
            property,
            words,
            "Failed to update MULTIPLE property",
        );
        commands.push(update);
        assert(protocol::commands_view(commands@) =~= protocol::commands_view(before).push(
            update@,
        ));
        close(&mut commands, event, property);
        commands
    }

    /// How a request for a selection's content is answered.
    pub fn answer_request(&self, event: SelectionRequestEvent) -> (answer: Answer)
        requires
            self@.wf(),
        ensures
            answer@ == self::answer(self@, event),
    {
        proof {
            assert(atoms::atom_names()[2] == mime::TARGETS_ATOM@);
            assert(atoms::atom_names()[3] == mime::MULTIPLE_ATOM@);
        }
        let property = if event.property == ATOM_NONE {
            event.target
        } else {
            event.property
        };
        let content = self.held_content(event.selection);
        let mut commands: Vec<Command> = Vec::new();
        assert(protocol::commands_view(commands@) =~= Seq::<CommandView>::empty());
        if event.target == self.known_atom(mime::TARGETS_ATOM) {
            let targets = self.target_atoms_for_content(content.as_ref());
            let write = write_atoms(
                event.requestor,
                property,
                targets,
                "Failed to change property32",
            );
            commands.push(write);
            assert(protocol::commands_view(commands@) =~= seq![write@]);
            close(&mut commands, event, property);
            return AnswerOf::Commands(commands);
        }
        if event.target == self.known_atom(mime::MULTIPLE_ATOM) {
            let query = protocol::get_property(
                false,
                event.requestor,
                property,
                ATOM_ATOM,
                LIST_LENGTH,
                "Failed to get property",
            );
            return AnswerOf::List { query, content };
        }
        let written = match content.as_ref() {
            Some(content) => self.write_content_for_target(
                event.requestor,
                property,
                event.target,
                content,
            ),
            None => None,
        };
        match written {
            Some(command) => {
                commands.push(command);
                assert(protocol::commands_view(commands@) =~= seq![command@]);
                close(&mut commands, event, property);
            },
            None => {
                close(&mut commands, event, ATOM_NONE);
                assert(protocol::commands_view(commands@) =~= closing(event, ATOM_NONE));
            },
        }
        AnswerOf::Commands(commands)
    }
}

} // verus!
