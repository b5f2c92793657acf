//! Getting ready: making a window, learning the atoms, and asking to be told of new owners.

use crate::mime;
use crate::sync;
use crate::x11::atoms;
use crate::x11::atoms::{AtomTable, ATOM_NAMES};
use crate::x11::protocol;
use crate::x11::protocol::{
    AskOf, Command, CommandView, Query, QueryView, Reply, ReplyOf, ReplyView, RequestOf,
    WindowAttributes, ATOM_PRIMARY,
};
use crate::x11::state;
use crate::x11::state::X11State;
use vstd::prelude::*;

verus! {

/// Takes the window class from the parent.
pub const COPY_FROM_PARENT: u16 = 0;

/// Events when a property changes, and when the window itself does.
pub const WINDOW_EVENTS: u32 = 0x0042_0000;

/// Events when a selection is taken over, when its owner's window goes, and when its owner does.
pub const SELECTION_EVENTS: u32 = 7;

/// The version of the XFixes extension that we know.
pub const XFIXES_MAJOR: u32 = 5;

pub const XFIXES_MINOR: u32 = 0;

/// What is needed of a screen to make a window on it.
#[derive(Debug, Clone, Copy, PartialEq, Eq, Structural)]
pub struct Screen {
    pub root: u32,
    pub root_depth: u8,
    pub root_visual: u32,
}

/// How far the preparations are, over a kind of atom table.
#[derive(Debug)]
pub enum SetupStageOf<A> {
    /// A window has been asked for.
    Id,
    /// The window is being made.
    Window { window: u32 },
    /// The version of the XFixes extension has been asked for.
    Version { window: u32 },
    /// The atom of the name at `index` has been asked for; `atoms` are those before it.
    Intern { window: u32, atoms: A, index: usize },
    /// The server is being asked to tell of new owners.
    Select { window: u32, atoms: A },
}

/// How far the preparations are.
pub type SetupStage = SetupStageOf<AtomTable>;

/// How far the preparations are, as plain values.
pub type SetupStageView = SetupStageOf<Map<Seq<char>, u32>>;

impl View for SetupStageOf<AtomTable> {
    type V = SetupStageView;

    open spec fn view(&self) -> SetupStageView {
        match *self {
            SetupStageOf::Id => SetupStageOf::Id,
            SetupStageOf::Window { window } => SetupStageOf::Window { window },
            SetupStageOf::Version { window } => SetupStageOf::Version { window },
            SetupStageOf::Intern { window, atoms, index } => SetupStageOf::Intern {
                window,
                atoms: atoms@,
                index,
            },
            SetupStageOf::Select { window, atoms } => {
                SetupStageOf::Select { window, atoms: atoms@ }
            },
        }
    }
}

/// The preparations.
#[derive(Debug)]
pub struct X11Setup {
    pub screen: Screen,
    pub stage: SetupStage,
}

/// The preparations, as plain values.
pub struct X11SetupView {
    pub screen: Screen,
    pub stage: SetupStageView,
}

impl View for X11Setup {
    type V = X11SetupView;

    open spec fn view(&self) -> X11SetupView {
        X11SetupView { screen: self.screen, stage: self.stage@ }
    }
}

/// What comes next.
#[derive(Debug)]
pub enum SetupStep {
    /// Send the commands in order, up to the first that fails.
    Run { commands: Vec<Command>, setup: X11Setup },
    /// Ask for something.
    Ask { query: Query, setup: X11Setup },
    /// The preparations have ended.
    Done(Result<X11State, String>),
}

/// What comes next, as plain values.
pub enum SetupStepView {
    Run { commands: Seq<CommandView>, setup: X11SetupView },
    Ask { query: QueryView, setup: X11SetupView },
    Done(Result<state::X11View, Seq<char>>),
}

impl View for SetupStep {
    type V = SetupStepView;

    open spec fn view(&self) -> SetupStepView {
        match self {
            SetupStep::Run { commands, setup } => SetupStepView::Run {
                commands: protocol::commands_view(commands@),
                setup: setup@,
            },
            SetupStep::Ask { query, setup } => SetupStepView::Ask { query: query@, setup: setup@ },
            SetupStep::Done(Ok(state)) => SetupStepView::Done(Ok(state@)),
            SetupStep::Done(Err(error)) => SetupStepView::Done(Err(error@)),
        }
    }
}

impl X11SetupView {
    /// Whether the preparations can be taken up: the names before the one asked for have atoms.
    pub open spec fn wf(self) -> bool {
        match self.stage {
            SetupStageOf::Intern { atoms, index, .. } => index < atoms::atom_names().len()
                && atoms::interned_up_to(atoms, index as int),
            SetupStageOf::Select { atoms, .. } => atoms::all_interned(atoms),
            _ => true,
        }
    }

    /// Whether the preparations can be taken up with `reply`: it is what they wait for, or says
    /// that the exchange failed.
    pub open spec fn accepts<B, E>(self, reply: ReplyOf<B, E>) -> bool {
        reply is Failed || match self.stage {
            SetupStageOf::Id => reply is Id,
            SetupStageOf::Window { .. } => reply is Done,
            SetupStageOf::Version { .. } => reply is Version,
            SetupStageOf::Intern { .. } => reply is Atom,
            SetupStageOf::Select { .. } => reply is Done,
        }
    }

    /// The same at another stage.
    pub open spec fn at(self, stage: SetupStageView) -> X11SetupView {
        X11SetupView { stage, ..self }
    }
}

impl SetupStepView {
    /// Whether the preparations, if they go on, can be taken up, and the state, if they have ended
    /// well, knows all atoms.
    pub open spec fn wf(self) -> bool {
        match self {
            SetupStepView::Run { setup, .. } => setup.wf(),
            SetupStepView::Ask { setup, .. } => setup.wf(),
            SetupStepView::Done(Ok(state)) => state.wf(),
            SetupStepView::Done(Err(_)) => true,
        }
    }
}

/// The first step.
pub open spec fn started(screen: Screen) -> SetupStepView {
    SetupStepView::Ask {
        query: QueryView {
            ask: AskOf::GenerateId,
            send_failure: "Failed to generate window ID"@,
            reply_failure: "Failed to generate window ID"@,
        },
        setup: X11SetupView { screen, stage: SetupStageOf::Id },
    }
}

/// A window that is never shown: one pixel, without a border.
pub open spec fn hidden_window(screen: Screen, window: u32) -> WindowAttributes {
    WindowAttributes {
        depth: screen.root_depth,
        window,
        parent: screen.root,
        x: 0,
        y: 0,
        width: 1,
        height: 1,
        border_width: 0,
        class: COPY_FROM_PARENT,
        visual: screen.root_visual,
        event_mask: WINDOW_EVENTS,
    }
}

/// Asks for the atom of the name at `index`, or, once all are known, asks the server to tell of
/// new owners of the two selections.
pub open spec fn interned(
    setup: X11SetupView,
    window: u32,
    atoms: Map<Seq<char>, u32>,
    index: usize,
) -> SetupStepView {
    if index < atoms::atom_names().len() {
        SetupStepView::Ask {
            query: protocol::intern_view(atoms::atom_names()[index as int]),
            setup: setup.at(SetupStageOf::Intern { window, atoms, index }),
        }
    } else {
        SetupStepView::Run {
            commands: seq![
                CommandView {
                    request: RequestOf::SelectSelectionInput {
                        window,
                        selection: atoms[mime::CLIPBOARD_ATOM@],
                        event_mask: SELECTION_EVENTS,
                    },
                    failure: "Failed to select XFixes clipboard input"@,
                },
                CommandView {
                    request: RequestOf::SelectSelectionInput {
                        window,
                        selection: ATOM_PRIMARY,
                        event_mask: SELECTION_EVENTS,
                    },
                    failure: "Failed to select XFixes primary input"@,
                },
                protocol::flush_view(),
            ],
            setup: setup.at(SetupStageOf::Select { window, atoms }),
        }
    }
}

/// Takes the preparations up with what came of the last exchange.
pub open spec fn setup_resumed(setup: X11SetupView, reply: ReplyView) -> SetupStepView {
    match (setup.stage, reply) {
        (_, ReplyOf::Failed(error)) => SetupStepView::Done(Err(error)),
        (SetupStageOf::Id, ReplyOf::Id(window)) => SetupStepView::Run {
            commands: seq![
                CommandView {
                    request: RequestOf::CreateWindow(hidden_window(setup.screen, window)),
                    failure: "Failed to create window"@,
                },
                protocol::flush_view(),
            ],
            setup: setup.at(SetupStageOf::Window { window }),
        },
        (SetupStageOf::Window { window }, _) => SetupStepView::Ask {
            query: QueryView {
                ask: AskOf::XfixesVersion { major: XFIXES_MAJOR, minor: XFIXES_MINOR },
                send_failure: "Failed to query XFixes version"@,
                reply_failure: "Failed to get XFixes version reply"@,
            },
            setup: setup.at(SetupStageOf::Version { window }),
        },
        (SetupStageOf::Version { window }, _) => interned(setup, window, Map::empty(), 0),
        (SetupStageOf::Intern { window, atoms, index }, ReplyOf::Atom(atom)) => interned(
            setup,
            window,
            atoms.insert(atoms::atom_names()[index as int], atom),
            (index + 1) as usize,
        ),
        (SetupStageOf::Select { window, atoms }, _) => SetupStepView::Done(
            Ok(
                state::X11View {
                    atoms,
                    window,
                    contents: sync::Selections { clipboard: None, primary: None },
                },
            ),
        ),
        _ => SetupStepView::Done(Err(Seq::empty())),
    }
}

impl X11Setup {
    /// Begins.
    pub fn start(screen: Screen) -> (step: SetupStep)
        ensures
            step@ == started(screen),
            step@.wf(),
    {
        SetupStep::Ask {
            query: Query {
                ask: AskOf::GenerateId,
                send_failure: "Failed to generate window ID".to_string(),
                reply_failure: "Failed to generate window ID".to_string(),
            },
            setup: X11Setup { screen, stage: SetupStageOf::Id },
        }
    }

    /// Whether the preparations can be taken up with `reply`.
    pub fn accepts(&self, reply: &Reply) -> (accepted: bool)
        ensures
            accepted == (self@.wf() && self@.accepts(reply@)),
    {
        let ready = match &self.stage {
            SetupStageOf::Intern { atoms, index, .. } => *index < ATOM_NAMES.len()
                && atoms.knows_first(*index),
            SetupStageOf::Select { atoms, .. } => atoms.knows_first(ATOM_NAMES.len()),
            _ => true,
        };
        ready && match (&self.stage, reply) {
            (_, ReplyOf::Failed(_)) => true,
            (SetupStageOf::Id, ReplyOf::Id(_)) => true,
            (SetupStageOf::Window { .. }, ReplyOf::Done) => true,
            (SetupStageOf::Version { .. }, ReplyOf::Version) => true,
            (SetupStageOf::Intern { .. }, ReplyOf::Atom(_)) => true,
            (SetupStageOf::Select { .. }, ReplyOf::Done) => true,
            _ => false,
        }
    }

    fn intern_next(screen: Screen, window: u32, table: AtomTable, index: usize) -> (step: SetupStep)
        requires
            index <= atoms::atom_names().len(),
            atoms::interned_up_to(table@, index as int),
        ensures
            forall|stage: SetupStageView|
                step@ == #[trigger] interned(X11SetupView { screen, stage }, window, table@, index),
            step@.wf(),
    {
        if index < ATOM_NAMES.len() {
            return SetupStep::Ask {
                query: protocol::intern(ATOM_NAMES[index]),
                setup: X11Setup {
                    screen,
                    stage: SetupStageOf::Intern { window, atoms: table, index },
                },
            };
        }
        proof {
            assert(atoms::all_interned(table@));
            assert(table@.contains_key(atoms::atom_names()[0]));
        }
        let clipboard = match table.get(mime::CLIPBOARD_ATOM) {
            Some(atom) => atom,
            None => protocol::ATOM_NONE,
        };
        let mut commands: Vec<Command> = Vec::new();
        commands.push(
            Command {
                request: RequestOf::SelectSelectionInput {
                    window,
                    selection: clipboard,
                    event_mask: SELECTION_EVENTS,
                },
                failure: "Failed to select XFixes clipboard input",
            },
        );
        commands.push(
            Command {
                request: RequestOf::SelectSelectionInput {
                    window,
                    selection: ATOM_PRIMARY,
                    event_mask: SELECTION_EVENTS,
                },
                failure: "Failed to select XFixes primary input",
            },
        );
        commands.push(protocol::flush());
        proof {
            let setup = X11SetupView { screen, stage: SetupStageOf::Id };
            if let SetupStepView::Run { commands: expected, .. } = interned(
                setup,
                window,
                table@,
                index,
            ) {
                assert(protocol::commands_view(commands@) =~= expected);
            }
        }
        SetupStep::Run {
            commands,
            setup: X11Setup { screen, stage: SetupStageOf::Select { window, atoms: table } },
        }
    }

    /// Takes the preparations up with what came of the last exchange.
    pub fn resume(self, reply: Reply) -> (step: SetupStep)
        requires
            self@.wf(),
            self@.accepts(reply@),
        ensures
            step@ == setup_resumed(self@, reply@),
            step@.wf(),
    {
        let screen = self.screen;
        match (self.stage, reply) {
            (_, ReplyOf::Failed(error)) => SetupStep::Done(Err(error)),
            (SetupStageOf::Id, ReplyOf::Id(window)) => {
                let mut commands: Vec<Command> = Vec::new();
                commands.push(
                    Command {
                        request: RequestOf::CreateWindow(
                            WindowAttributes {
                                depth: screen.root_depth,
                                window,
                                parent: screen.root,
                                x: 0,
                                y: 0,
                                width: 1,
                                height: 1,
                                border_width: 0,
                                class: COPY_FROM_PARENT,
                                visual: screen.root_visual,
                                event_mask: WINDOW_EVENTS,
                            },
                        ),
                        failure: "Failed to create window",
                    },
                );
                commands.push(protocol::flush());
                proof {
                    if let SetupStepView::Run { commands: expected, .. } = setup_resumed(
                        self@,
                        ReplyOf::Id(window),
                    ) {
                        assert(protocol::commands_view(commands@) =~= expected);
                    }
                }
                SetupStep::Run {
                    commands,
                    setup: X11Setup { screen, stage: SetupStageOf::Window { window } },
                }
            },
            (SetupStageOf::Window { window }, _) => SetupStep::Ask {
                query: Query {
                    ask: AskOf::XfixesVersion { major: XFIXES_MAJOR, minor: XFIXES_MINOR },
                    send_failure: "Failed to query XFixes version".to_string(),
                    reply_failure: "Failed to get XFixes version reply".to_string(),
                },
                setup: X11Setup { screen, stage: SetupStageOf::Version { window } },
            },
            (SetupStageOf::Version { window }, _) => {
                let step = X11Setup::intern_next(screen, window, AtomTable::new(), 0);
                assert(step@ == interned(self@, window, Map::empty(), 0));
                step
            },
            (SetupStageOf::Intern { window, atoms, index }, ReplyOf::Atom(atom)) => {
                let mut table = atoms;
                table.insert(ATOM_NAMES[index], atom);
                let step = X11Setup::intern_next(screen, window, table, index + 1);
                assert(step@ == interned(self@, window, table@, (index + 1) as usize));
                step
            },
            (SetupStageOf::Select { window, atoms }, _) => SetupStep::Done(
                Ok(X11State::new(window, atoms)),
            ),
            _ => SetupStep::Done(Err(String::new())),
        }
    }
}

/// The step that comes after `step` when its exchange gives `reply`.
pub open spec fn setup_after(step: SetupStepView, reply: ReplyView) -> SetupStepView {
    match step {
        SetupStepView::Run { setup, .. } => setup_resumed(setup, reply),
        SetupStepView::Ask { setup, .. } => setup_resumed(setup, reply),
        SetupStepView::Done(_) => step,
    }
}

/// The step that comes after `step` when the atoms of the names are told one after the other.
pub open spec fn told(step: SetupStepView, answers: Seq<u32>) -> SetupStepView
    decreases answers.len(),
{
    if answers.len() == 0 {
        step
    } else {
        setup_after(told(step, answers.drop_last()), ReplyOf::Atom(answers.last()))
    }
}

/// The step that comes once the preparations, from their beginning, have been told that our window
/// is `window`, that it is made, which version there is, and the atoms of the names.
pub open spec fn all_told(screen: Screen, window: u32, answers: Seq<u32>) -> SetupStepView {
    let making = setup_after(started(screen), ReplyOf::Id(window));
    let made = setup_after(making, ReplyOf::Done);
    told(setup_after(made, ReplyOf::Version), answers)
}

/// The atoms once `answers` have been given to the first names.
pub open spec fn table_of(answers: Seq<u32>) -> Map<Seq<char>, u32>
    decreases answers.len(),
{
    if answers.len() == 0 {
        Map::empty()
    } else {
        table_of(answers.drop_last()).insert(
            atoms::atom_names()[answers.len() - 1],
            answers.last(),
        )
    }
}

proof fn lemma_names_differ()
    ensures
        atoms::atom_names().no_duplicates(),
{
    reveal_strlit("CLIPBOARD");
    reveal_strlit("PRIMARY");
    reveal_strlit("TARGETS");
    reveal_strlit("MULTIPLE");
    reveal_strlit("INCR");
    reveal_strlit("UTF8_STRING");
    reveal_strlit("text/plain;charset=utf-8");
    reveal_strlit("text/plain");
    reveal_strlit("image/png");
    reveal_strlit("image/jpeg");
    reveal_strlit("image/jpg");
    let names = atoms::atom_names();
    assert(names[0].len() == 9 && names[8].len() == 9 && names[10].len() == 9);
    assert(names[0][0] != names[8][0] && names[0][0] != names[10][0]);
    assert(names[8][6] != names[10][6]);
    assert(names[1].len() == 7 && names[2].len() == 7);
    assert(names[1][0] != names[2][0]);
    assert(names[7].len() == 10 && names[9].len() == 10);
    assert(names[7][0] != names[9][0]);
    assert(names[3].len() == 8 && names[4].len() == 4 && names[5].len() == 11 && names[6].len()
        == 24);
}

proof fn lemma_told(setup: X11SetupView, window: u32, answers: Seq<u32>)
    requires
        answers.len() <= atoms::atom_names().len(),
    ensures
        told(interned(setup, window, Map::empty(), 0), answers) == interned(
            setup,
            window,
            table_of(answers),
            answers.len() as usize,
        ),
    decreases answers.len(),
{
    if answers.len() > 0 {
        lemma_told(setup, window, answers.drop_last());
    }
}

proof fn lemma_table_of(answers: Seq<u32>, i: int)
    requires
        answers.len() <= atoms::atom_names().len(),
        0 <= i < answers.len(),
    ensures
        atoms::lookup(table_of(answers), atoms::atom_names()[i]) == Some(answers[i]),
    decreases answers.len(),
{
    lemma_names_differ();
    if i < answers.len() - 1 {
        lemma_table_of(answers.drop_last(), i);
    }
}

proof fn lemma_table_has_no_other_names(answers: Seq<u32>, name: Seq<char>)
    requires
        answers.len() <= atoms::atom_names().len(),
        table_of(answers).contains_key(name),
    ensures
        atoms::atom_names().contains(name),
    decreases answers.len(),
{
    if name != atoms::atom_names()[answers.len() - 1] {
        lemma_table_has_no_other_names(answers.drop_last(), name);
    }
}

/// When the server answers everything that it is asked from the beginning on, with an atom for each
/// name, the preparations end with a state that has the window it gave, in which every name has the
/// atom that was told for it, no other name has one, and nothing is held.
pub proof fn law_setup_learns_the_atoms(screen: Screen, window: u32, answers: Seq<u32>)
    requires
        answers.len() == atoms::atom_names().len(),
    ensures
        setup_after(all_told(screen, window, answers), ReplyOf::Done) matches SetupStepView::Done(
            Ok(state),
        ) && {
            &&& state.wf()
            &&& state.window == window
            &&& forall|i: int|
                0 <= i < answers.len() ==> atoms::lookup(
                    state.atoms,
                    #[trigger] atoms::atom_names()[i],
                ) == Some(answers[i])
            &&& forall|name: Seq<char>| #[trigger]
                state.atoms.contains_key(name) ==> atoms::atom_names().contains(name)
            &&& state.contents == (sync::Selections { clipboard: None, primary: None })
        },
{
    let setup = X11SetupView { screen, stage: SetupStageOf::Version { window } };
    lemma_told(setup, window, answers);
    assert forall|i: int| 0 <= i < answers.len() implies atoms::lookup(
        table_of(answers),
        #[trigger] atoms::atom_names()[i],
    ) == Some(answers[i]) by {
        lemma_table_of(answers, i);
    }
    assert forall|name: Seq<char>| #[trigger]
        table_of(answers).contains_key(name) implies atoms::atom_names().contains(name) by {
        lemma_table_has_no_other_names(answers, name);
    }
}

/// Before anything else the preparations make a window that is never shown, and at the end they ask
/// to be told of new owners of both selections: the clipboard, by the atom that was told for it,
/// and the primary one.
pub proof fn law_setup_watches_both_selections(screen: Screen, window: u32, answers: Seq<u32>)
    requires
        answers.len() == atoms::atom_names().len(),
    ensures
        setup_after(started(screen), ReplyOf::Id(window)) matches SetupStepView::Run {
            commands,
            ..
        } && commands.len() == 2 && commands[0].request == protocol::RequestView::CreateWindow(
            hidden_window(screen, window),
        ) && commands[1] == protocol::flush_view(),
        all_told(screen, window, answers) matches SetupStepView::Run { commands, .. } && {
            &&& commands.len() == 3
            &&& commands[0].request == (protocol::RequestView::SelectSelectionInput {
                window,
                selection: answers[0],
                event_mask: SELECTION_EVENTS,
            })
            &&& commands[1].request == (protocol::RequestView::SelectSelectionInput {
                window,
                selection: ATOM_PRIMARY,
                event_mask: SELECTION_EVENTS,
            })
            &&& commands[2] == protocol::flush_view()
        },
{
    let setup = X11SetupView { screen, stage: SetupStageOf::Version { window } };
    lemma_told(setup, window, answers);
    lemma_table_of(answers, 0);
    assert(atoms::atom_names()[0] == mime::CLIPBOARD_ATOM@);
}

/// An exchange that fails ends the preparations with its message, whichever it is.
pub proof fn law_failed_exchange_ends_the_setup(step: SetupStepView, error: Seq<char>)
    requires
        !(step is Done),
    ensures
        setup_after(step, ReplyOf::Failed(error)) == SetupStepView::Done(Err(error)),
{
}

/// The preparations begin with the question for a window.
pub proof fn law_setup_begins_with_a_window(screen: Screen)
    ensures
        started(screen) matches SetupStepView::Ask { query, setup } && query.ask
            == protocol::AskView::GenerateId && query.send_failure
            == "Failed to generate window ID"@ && query.reply_failure
            == "Failed to generate window ID"@ && setup == (X11SetupView {
            screen,
            stage: SetupStageOf::Id,
        }),
{
}

/// The window is one pixel of the screen's root, without a border and like it in depth and visual;
/// it is to hear when its properties change, and when it does itself.
pub proof fn law_window_that_is_made(screen: Screen, window: u32)
    ensures
        hidden_window(screen, window) == (WindowAttributes {
            depth: screen.root_depth,
            window,
            parent: screen.root,
            x: 0,
            y: 0,
            width: 1,
            height: 1,
            border_width: 0,
            class: 0,
            visual: screen.root_visual,
            event_mask: 0x0042_0000,
        }),
        setup_resumed(
            X11SetupView { screen, stage: SetupStageOf::Id },
            ReplyOf::Id(window),
        ) matches SetupStepView::Run { commands, setup } && {
            &&& commands.len() == 2
            &&& commands[0].request == protocol::RequestView::CreateWindow(
                hidden_window(screen, window),
            )
            &&& commands[0].failure == "Failed to create window"@
            &&& commands[1] == protocol::flush_view()
            &&& setup == (X11SetupView { screen, stage: SetupStageOf::Window { window } })
        },
{
}

/// Then the version of the extension is asked for, and then the atom of the first name, with none
/// known yet.
pub proof fn law_setup_asks_for_the_version(screen: Screen, window: u32)
    ensures
        setup_resumed(
            X11SetupView { screen, stage: SetupStageOf::Window { window } },
            ReplyOf::Done,
        ) matches SetupStepView::Ask { query, setup } && query.ask == (
        protocol::AskView::XfixesVersion { major: 5, minor: 0 }) && query.send_failure
            == "Failed to query XFixes version"@ && query.reply_failure
            == "Failed to get XFixes version reply"@ && setup == (X11SetupView {
            screen,
            stage: SetupStageOf::Version { window },
        }),
        setup_resumed(
            X11SetupView { screen, stage: SetupStageOf::Version { window } },
            ReplyOf::Version,
        ) matches SetupStepView::Ask { query, setup } && query == protocol::intern_view(
            "CLIPBOARD"@,
        ) && setup == (X11SetupView {
            screen,
            stage: SetupStageOf::Intern { window, atoms: Map::empty(), index: 0 },
        }),
{
}

/// Each atom that is told is given to the name that it was asked for, and the next name is asked
/// for; after the last one both selections are watched, and the state is made of what was learnt.
pub proof fn law_setup_learns_an_atom(
    screen: Screen,
    window: u32,
    known: Map<Seq<char>, u32>,
    index: usize,
    atom: u32,
)
    requires
        index < atoms::atom_names().len(),
    ensures
        ({
            let learnt = known.insert(atoms::atom_names()[index as int], atom);
            let step = setup_resumed(
                X11SetupView {
                    screen,
                    stage: SetupStageOf::Intern { window, atoms: known, index },
                },
                ReplyOf::Atom(atom),
            );
            &&& index + 1 < 11 ==> (step matches SetupStepView::Ask { query, setup } && query
                == protocol::intern_view(atoms::atom_names()[index + 1]) && setup == (X11SetupView {
                screen,
                stage: SetupStageOf::Intern {
                    window,
                    atoms: learnt,
                    index: (index + 1) as usize,
                },
            }))
            &&& index + 1 == 11 ==> (step matches SetupStepView::Run { commands, setup } && {
                &&& commands.len() == 3
                &&& commands[0].request == (protocol::RequestView::SelectSelectionInput {
                    window,
                    selection: learnt["CLIPBOARD"@],
                    event_mask: 7,
                })
                &&& commands[0].failure == "Failed to select XFixes clipboard input"@
                &&& commands[1].request == (protocol::RequestView::SelectSelectionInput {
                    window,
                    selection: 1,
                    event_mask: 7,
                })
                &&& commands[1].failure == "Failed to select XFixes primary input"@
                &&& commands[2] == protocol::flush_view()
                &&& setup == (X11SetupView {
                    screen,
                    stage: SetupStageOf::Select { window, atoms: learnt },
                })
            })
        }),
        setup_resumed(
            X11SetupView { screen, stage: SetupStageOf::Select { window, atoms: known } },
            ReplyOf::Done,
        ) == SetupStepView::Done(
            Ok(
                state::X11View {
                    atoms: known,
                    window,
                    contents: sync::Selections { clipboard: None, primary: None },
                },
            ),
        ),
{
}

/// What the preparations wait for, and so what they can be taken up with, and when they can be
/// taken up at all: the names before the one asked for have atoms, or all of them at the end.
pub proof fn law_what_the_setup_waits_for(setup: X11SetupView, reply: ReplyView)
    ensures
        setup.accepts(reply) <==> reply is Failed || match setup.stage {
            SetupStageOf::Id => reply is Id,
            SetupStageOf::Window { .. } => reply is Done,
            SetupStageOf::Version { .. } => reply is Version,
            SetupStageOf::Intern { .. } => reply is Atom,
            SetupStageOf::Select { .. } => reply is Done,
        },
        setup.wf() <==> match setup.stage {
            SetupStageOf::Intern { atoms, index, .. } => index < 11 && atoms::interned_up_to(
                atoms,
                index as int,
            ),
            SetupStageOf::Select { atoms, .. } => atoms::all_interned(atoms),
            _ => true,
        },
{
}

/// The plain values of the preparations leave nothing out.
pub proof fn law_view_of_the_setup(stage: SetupStage, setup: X11Setup, step: SetupStep)
    ensures
        match stage {
            SetupStageOf::Id => stage@ == SetupStageView::Id,
            SetupStageOf::Window { window } => stage@ == (SetupStageView::Window { window }),
            SetupStageOf::Version { window } => stage@ == (SetupStageView::Version { window }),
            SetupStageOf::Intern { window, atoms, index } => stage@ == (SetupStageView::Intern {
                window,
                atoms: atoms@,
                index,
            }),
            SetupStageOf::Select { window, atoms } => stage@ == (SetupStageView::Select {
                window,
                atoms: atoms@,
            }),
        },
        setup@.screen == setup.screen,
        setup@.stage == setup.stage@,
        match step {
            SetupStep::Run { commands, setup } => step@ == (SetupStepView::Run {
                commands: protocol::commands_view(commands@),
                setup: setup@,
            }),
            SetupStep::Ask { query, setup } => step@ == (SetupStepView::Ask {
                query: query@,
                setup: setup@,
            }),
            SetupStep::Done(Ok(state)) => step@ == SetupStepView::Done(Ok(state@)),
            SetupStep::Done(Err(error)) => step@ == SetupStepView::Done(Err(error@)),
        },
{
}

} // verus!
