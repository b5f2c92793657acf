//! What the X11 side knows.

use crate::content;
use crate::content::ClipboardContent;
use crate::mime;
use crate::sync;
use crate::sync::ClipboardType;
use crate::x11::atoms;
use crate::x11::atoms::AtomTable;
use crate::x11::protocol::{ATOM_NONE, ATOM_PRIMARY};
use vstd::prelude::*;

verus! {

/// The X11 side: the atoms, our window, and the contents it holds for the two selections.
#[derive(Debug)]
pub struct X11State {
    pub atoms: AtomTable,
    pub window: u32,
    pub clipboard_content: Option<ClipboardContent>,
    pub primary_content: Option<ClipboardContent>,
}

/// The X11 side as plain values.
pub struct X11View {
    pub atoms: Map<Seq<char>, u32>,
    pub window: u32,
    pub contents: sync::Selections,
}

impl View for X11State {
    type V = X11View;

    open spec fn view(&self) -> X11View {
        X11View {
            atoms: self.atoms@,
            window: self.window,
            contents: sync::Selections {
                clipboard: sync::optional_view(self.clipboard_content),
                primary: sync::optional_view(self.primary_content),
            },
        }
    }
}

/// The first of `names` whose atom is `atom`.
pub open spec fn first_name(
    atoms: Map<Seq<char>, u32>,
    names: Seq<Seq<char>>,
    atom: u32,
) -> Option<Seq<char>>
    decreases names.len(),
{
    if names.len() == 0 {
        None
    } else if atoms::lookup(atoms, names[0]) == Some(atom) {
        Some(names[0])
    } else {
        first_name(atoms, names.drop_first(), atom)
    }
}

/// The atoms of those of `names` that have one, in order.
pub open spec fn atoms_of(atoms: Map<Seq<char>, u32>, names: Seq<Seq<char>>) -> Seq<u32>
    decreases names.len(),
{
    if names.len() == 0 {
        Seq::empty()
    } else {
        let rest = atoms_of(atoms, names.drop_last());
        match atoms::lookup(atoms, names.last()) {
            Some(atom) => rest.push(atom),
            None => rest,
        }
    }
}

/// Those of `names` that have an atom that is in `offered`, in order and with the atom. All names
/// with an atom if nothing is offered.
pub open spec fn wanted_of(
    atoms: Map<Seq<char>, u32>,
    names: Seq<Seq<char>>,
    offered: Seq<u32>,
) -> Seq<(u32, Seq<char>)>
    decreases names.len(),
{
    if names.len() == 0 {
        Seq::empty()
    } else {
        let rest = wanted_of(atoms, names.drop_last(), offered);
        match atoms::lookup(atoms, names.last()) {
            Some(atom) => if offered.len() == 0 || offered.contains(atom) {
                rest.push((atom, names.last()))
            } else {
                rest
            },
            None => rest,
        }
    }
}

/// The plain values of a list of targets.
pub open spec fn targets_view(targets: Seq<(u32, &'static str)>) -> Seq<(u32, Seq<char>)> {
    Seq::new(targets.len(), |i: int| (targets[i].0, targets[i].1@))
}

/// The formats an optional content is offered in.
pub open spec fn offered_by(content: Option<content::ContentView>) -> Seq<Seq<char>> {
    match content {
        Some(content) => content.offered(),
        None => Seq::empty(),
    }
}

impl X11View {
    /// Whether the atoms of all names the bridge uses are known.
    pub open spec fn wf(self) -> bool {
        atoms::all_interned(self.atoms)
    }

    /// The format that an atom stands for, the most wanted one if there are several.
    pub open spec fn mime_for(self, atom: u32) -> Option<Seq<char>> {
        first_name(self.atoms, mime::preferred_mime_types(), atom)
    }

    /// The targets that are told to whoever asks which there are: the formats of the content, and
    /// the question itself.
    pub open spec fn targets_for(self, content: Option<content::ContentView>) -> Seq<u32> {
        atoms_of(self.atoms, offered_by(content).push(mime::TARGETS_ATOM@))
    }

    /// The targets to ask a selection's owner for, the most wanted one first.
    pub open spec fn wanted_targets(self, offered: Seq<u32>) -> Seq<(u32, Seq<char>)> {
        wanted_of(self.atoms, mime::preferred_mime_types(), offered)
    }

    /// The atom of a selection.
    pub open spec fn selection_atom(self, clipboard_type: ClipboardType) -> u32 {
        match clipboard_type {
            ClipboardType::Clipboard => self.atoms[mime::CLIPBOARD_ATOM@],
            ClipboardType::Primary => ATOM_PRIMARY,
        }
    }

    /// The selection of an atom: the clipboard's, or else the primary one.
    pub open spec fn selection_type(self, selection: u32) -> ClipboardType {
        if selection == self.atoms[mime::CLIPBOARD_ATOM@] {
            ClipboardType::Clipboard
        } else {
            ClipboardType::Primary
        }
    }

    /// The same, with another content or none for one selection.
    pub open spec fn holding(
        self,
        clipboard_type: ClipboardType,
        content: Option<content::ContentView>,
    ) -> X11View {
        X11View { contents: self.contents.with(clipboard_type, content), ..self }
    }

    /// The content held for the selection of an atom, if the atom is that of a selection.
    pub open spec fn held(self, selection: u32) -> Option<content::ContentView> {
        if selection == self.atoms[mime::CLIPBOARD_ATOM@] {
            self.contents.clipboard
        } else if selection == ATOM_PRIMARY {
            self.contents.primary
        } else {
            None
        }
    }
}

impl X11State {
    /// The X11 side at the start, with nothing in either selection.
    pub fn new(window: u32, atoms: AtomTable) -> (state: X11State)
        ensures
            state@ == (X11View {
                atoms: atoms@,
                window,
                contents: sync::Selections { clipboard: None, primary: None },
            }),
            state.window == window,
    {
        X11State { atoms, window, clipboard_content: None, primary_content: None }
    }

    /// Whether the atoms of all names the bridge uses are known, as they are once the preparations
    /// have ended.
    pub fn knows_all_atoms(&self) -> (known: bool)
        ensures
            known == self@.wf(),
    {
        self.atoms.knows_first(atoms::ATOM_NAMES.len())
    }

    /// The atom of `name`, if it is known.
    pub fn get_atom(&self, name: &str) -> (atom: Option<u32>)
        ensures
            atom == atoms::lookup(self@.atoms, name@),
    {
        self.atoms.get(name)
    }

    /// The atom of one of the names the bridge uses.
    pub(crate) fn known_atom(&self, name: &str) -> (atom: u32)
        requires
            self@.wf(),
            atoms::atom_names().contains(name@),
        ensures
            self@.atoms.contains_key(name@),
            atom == self@.atoms[name@],
    {
        proof {
            let i = choose|i: int|
                0 <= i < atoms::atom_names().len() && atoms::atom_names()[i] == name@;
            assert(self@.atoms.contains_key(atoms::atom_names()[i]));
        }
        match self.get_atom(name) {
            Some(atom) => atom,
            None => ATOM_NONE,
        }
    }

    /// The format that `atom` stands for.
    pub fn mime_type_for_atom(&self, atom: u32) -> (mime_type: Option<&'static str>)
        ensures
            match mime_type {
                Some(mime_type) => self@.mime_for(atom) == Some(mime_type@),
                None => self@.mime_for(atom) is None,
            },
    {
        let ghost names = mime::preferred_mime_types();
        let mut i: usize = 0;
        assert(names.skip(0) =~= names);
        while i < mime::PREFERRED_MIME_TYPES.len()
            invariant
                i <= 6,
                names == mime::preferred_mime_types(),
                self@.mime_for(atom) == first_name(self@.atoms, names.skip(i as int), atom),
            decreases 6 - i,
        {
            let mime_type = mime::PREFERRED_MIME_TYPES[i];
            assert(names.skip(i as int)[0] == mime_type@);
            assert(names.skip(i as int).drop_first() =~= names.skip(i + 1));
            if self.get_atom(mime_type) == Some(atom) {
                return Some(mime_type);
            }
            i += 1;
        }
        None
    }

    /// The targets to tell whoever asks which there are.
    pub fn target_atoms_for_content(&self, content: Option<&ClipboardContent>) -> (targets: Vec<
        u32,
    >)
        ensures
            targets@ == self@.targets_for(
                match content {
                    Some(content) => Some(content@),
                    None => None,
                },
            ),
    {
        let names: Vec<&str> = match content {
            Some(content) => content.offered_mime_types(),
            None => Vec::new(),
        };
        let ghost offered = offered_by(
            match content {
                Some(content) => Some(content@),
                None => None,
            },
        );
        let mut targets: Vec<u32> = Vec::new();
        let mut i: usize = 0;
        while i < names.len()
            invariant
                i <= names@.len(),
                names@.len() == offered.len(),
                forall|j: int| 0 <= j < names@.len() ==> #[trigger] names@[j]@ == offered[j],
                targets@ == atoms_of(self@.atoms, offered.take(i as int)),
            decreases names@.len() - i,
        {
            proof {
                assert(offered.take(i + 1).drop_last() =~= offered.take(i as int));
                assert(offered.take(i + 1).last() == names@[i as int]@);
            }
            if let Some(atom) = self.get_atom(names[i]) {
                targets.push(atom);
            }
            i += 1;
        }
        proof {
            assert(offered.take(i as int) =~= offered);
            assert(offered.push(mime::TARGETS_ATOM@).drop_last() =~= offered);
        }
        if let Some(atom) = self.get_atom(mime::TARGETS_ATOM) {
            targets.push(atom);
        }
        targets
    }

    /// The targets to ask a selection's owner for, given those it offers: the formats of the
    /// bridge among them, the most wanted one first. An owner that tells no targets is asked for
    /// every format.
    pub fn choose_supported_targets(&self, offered_targets: &[u32]) -> (targets: Vec<
        (u32, &'static str),
    >)
        ensures
            targets_view(targets@) == self@.wanted_targets(offered_targets@),
    {
        let ghost names = mime::preferred_mime_types();
        let mut targets: Vec<(u32, &'static str)> = Vec::new();
        let mut i: usize = 0;
        assert(targets_view(targets@) =~= wanted_of(
            self@.atoms,
            names.take(0),
            offered_targets@,
        ));
        while i < mime::PREFERRED_MIME_TYPES.len()
            invariant
                i <= 6,
                names == mime::preferred_mime_types(),
                targets_view(targets@) == wanted_of(
                    self@.atoms,
                    names.take(i as int),
                    offered_targets@,
                ),
            decreases 6 - i,
        {
            let mime_type = mime::PREFERRED_MIME_TYPES[i];
            proof {
                assert(names.take(i + 1).drop_last() =~= names.take(i as int));
                assert(names.take(i + 1).last() == mime_type@);
            }
            if let Some(atom) = self.get_atom(mime_type) {
                if offered_targets.is_empty() || contains_atom(offered_targets, atom) {
                    let ghost before = targets@;
                    targets.push((atom, mime_type));
                    assert(targets_view(targets@) =~= targets_view(before).push(
                        (atom, mime_type@),
                    ));
                }
            }
            i += 1;
        }
        assert(names.take(6) =~= names);
        targets
    }

    /// The atom of a selection.
    pub(crate) fn selection_atom(&self, clipboard_type: ClipboardType) -> (selection: u32)
        requires
            self@.wf(),
        ensures
            selection == self@.selection_atom(clipboard_type),
    {
        assert(atoms::atom_names()[0] == mime::CLIPBOARD_ATOM@);
        match clipboard_type {
            ClipboardType::Clipboard => self.known_atom(mime::CLIPBOARD_ATOM),
            ClipboardType::Primary => ATOM_PRIMARY,
        }
    }

    /// The selection that an atom stands for.
    pub(crate) fn selection_type(&self, selection: u32) -> (clipboard_type: ClipboardType)
        requires
            self@.wf(),
        ensures
            clipboard_type == self@.selection_type(selection),
    {
        assert(atoms::atom_names()[0] == mime::CLIPBOARD_ATOM@);
        if selection == self.known_atom(mime::CLIPBOARD_ATOM) {
            ClipboardType::Clipboard
        } else {
            ClipboardType::Primary
        }
    }

    /// A copy of the content held for the selection of an atom.
    pub(crate) fn held_content(&self, selection: u32) -> (content: Option<ClipboardContent>)
        requires
            self@.wf(),
        ensures
            sync::optional_view(content) == self@.held(selection),
    {
        assert(atoms::atom_names()[0] == mime::CLIPBOARD_ATOM@);
        if selection == self.known_atom(mime::CLIPBOARD_ATOM) {
            optional_clone(&self.clipboard_content)
        } else if selection == ATOM_PRIMARY {
            optional_clone(&self.primary_content)
        } else {
            None
        }
    }

    /// Gives a selection a content, or none.
    pub(crate) fn hold(&mut self, clipboard_type: ClipboardType, content: Option<ClipboardContent>)
        ensures
            final(self)@ == old(self)@.holding(clipboard_type, sync::optional_view(content)),
    {
        match clipboard_type {
            ClipboardType::Clipboard => {
                self.clipboard_content = content;
            },
            ClipboardType::Primary => {
                self.primary_content = content;
            },
        }
    }
}

fn optional_clone(content: &Option<ClipboardContent>) -> (copy: Option<ClipboardContent>)
    ensures
        sync::optional_view(copy) == sync::optional_view(*content),
{
    match content {
        Some(content) => Some(content.clone()),
        None => None,
    }
}

fn contains_atom(atoms: &[u32], atom: u32) -> (found: bool)
    ensures
        found == atoms@.contains(atom),
{
    let mut i: usize = 0;
    while i < atoms.len()
        invariant
            i <= atoms@.len(),
            forall|j: int| 0 <= j < i ==> atoms@[j] != atom,
        decreases atoms@.len() - i,
    {
        if atoms[i] == atom {
            return true;
        }
        i += 1;
    }
    false
}

/// The clipboard goes by the atom of its name, the primary selection by the predefined one. An atom
/// that is not the clipboard's counts as the primary selection's.
pub proof fn law_atoms_of_the_selections(state: X11View, selection: u32)
    ensures
        state.selection_atom(ClipboardType::Clipboard) == state.atoms["CLIPBOARD"@],
        state.selection_atom(ClipboardType::Primary) == 1,
        state.selection_type(selection) == ClipboardType::Clipboard <==> selection
            == state.atoms["CLIPBOARD"@],
        state.selection_type(selection) == ClipboardType::Primary <==> selection
            != state.atoms["CLIPBOARD"@],
{
}

/// What is held for an atom is what is held for the selection that goes by it, and nothing if none
/// does.
pub proof fn law_what_is_held(state: X11View, selection: u32)
    ensures
        state.held(state.atoms["CLIPBOARD"@]) == state.contents.clipboard,
        state.atoms["CLIPBOARD"@] != 1 ==> state.held(1) == state.contents.primary,
        selection != state.atoms["CLIPBOARD"@] && selection != 1 ==> state.held(selection) is None,
{
}

/// Giving a selection a content changes what that selection holds, and nothing else.
pub proof fn law_holding(state: X11View, content: Option<content::ContentView>)
    ensures
        ({
            let after = state.holding(ClipboardType::Clipboard, content);
            &&& after.atoms == state.atoms
            &&& after.window == state.window
            &&& after.contents.clipboard == content
            &&& after.contents.primary == state.contents.primary
        }),
        ({
            let after = state.holding(ClipboardType::Primary, content);
            &&& after.atoms == state.atoms
            &&& after.window == state.window
            &&& after.contents.primary == content
            &&& after.contents.clipboard == state.contents.clipboard
        }),
{
}

/// An atom stands for the first format, in the order of preference, that has it, and for none if
/// none has it.
pub proof fn law_format_of_an_atom(state: X11View, atom: u32)
    ensures
        match state.mime_for(atom) {
            Some(mime_type) => exists|k: int|
                0 <= k < 6 && #[trigger] mime::preferred_mime_types()[k] == mime_type
                    && atoms::lookup(state.atoms, mime_type) == Some(atom) && (forall|j: int|
                    0 <= j < k ==> atoms::lookup(
                        state.atoms,
                        #[trigger] mime::preferred_mime_types()[j],
                    ) != Some(atom)),
            None => forall|k: int|
                0 <= k < 6 ==> atoms::lookup(
                    state.atoms,
                    #[trigger] mime::preferred_mime_types()[k],
                ) != Some(atom),
        },
{
    lemma_first_name(state.atoms, mime::preferred_mime_types(), atom);
}

proof fn lemma_first_name(atoms: Map<Seq<char>, u32>, names: Seq<Seq<char>>, atom: u32)
    ensures
        match first_name(atoms, names, atom) {
            Some(name) => exists|k: int|
                0 <= k < names.len() && #[trigger] names[k] == name && atoms::lookup(atoms, name)
                    == Some(atom) && (forall|j: int|
                    0 <= j < k ==> atoms::lookup(atoms, #[trigger] names[j]) != Some(atom)),
            None => forall|k: int|
                0 <= k < names.len() ==> atoms::lookup(atoms, #[trigger] names[k]) != Some(atom),
        },
    decreases names.len(),
{
    if names.len() == 0 {
    } else if atoms::lookup(atoms, names[0]) == Some(atom) {
        assert(names[0] == names[0]);
    } else {
        let rest = names.drop_first();
        lemma_first_name(atoms, rest, atom);
        assert(forall|k: int| 0 <= k < rest.len() ==> rest[k] == names[k + 1]);
        match first_name(atoms, rest, atom) {
            Some(name) => {
                let k = choose|k: int|
                    0 <= k < rest.len() && #[trigger] rest[k] == name && atoms::lookup(atoms, name)
                        == Some(atom) && (forall|j: int|
                        0 <= j < k ==> atoms::lookup(atoms, #[trigger] rest[j]) != Some(atom));
                assert(names[k + 1] == name);
                assert forall|j: int| 0 <= j < k + 1 implies atoms::lookup(
                    atoms,
                    #[trigger] names[j],
                ) != Some(atom) by {
                    if j > 0 {
                        assert(rest[j - 1] == names[j]);
                    }
                }
            },
            None => {
                assert forall|k: int| 0 <= k < names.len() implies atoms::lookup(
                    atoms,
                    #[trigger] names[k],
                ) != Some(atom) by {
                    if k > 0 {
                        assert(rest[k - 1] == names[k]);
                    }
                }
            },
        }
    }
}

/// The targets that are told, in order, once all names have atoms: three for text, that of its
/// format for an image that has one, none for nothing, and in each case the question itself at the
/// end.
pub proof fn law_targets_in_order(state: X11View, content: content::ContentView)
    requires
        state.wf(),
    ensures
        state.targets_for(None) == seq![state.atoms["TARGETS"@]],
        match content {
            content::ContentView::Text(_) => state.targets_for(Some(content)) == seq![
                state.atoms["text/plain;charset=utf-8"@],
                state.atoms["text/plain"@],
                state.atoms["UTF8_STRING"@],
                state.atoms["TARGETS"@],
            ],
            content::ContentView::Data { mime_type, .. } => state.targets_for(Some(content))
                == if state.atoms.contains_key(mime_type) {
                seq![state.atoms[mime_type], state.atoms["TARGETS"@]]
            } else {
                seq![state.atoms["TARGETS"@]]
            },
            content::ContentView::Empty => state.targets_for(Some(content)) == seq![
                state.atoms["TARGETS"@],
            ],
        },
{
    atoms::law_needed_names(state.atoms);
    let offered = offered_by(Some(content));
    lemma_atoms_grow(state.atoms, Seq::empty(), "TARGETS"@);
    lemma_atoms_grow(state.atoms, offered, "TARGETS"@);
    assert(offered_by(None).push("TARGETS"@) =~= Seq::<Seq<char>>::empty().push("TARGETS"@));
    match content {
        content::ContentView::Text(_) => {
            let none = Seq::<Seq<char>>::empty();
            let one = none.push("text/plain;charset=utf-8"@);
            let two = one.push("text/plain"@);
            lemma_atoms_grow(state.atoms, none, "text/plain;charset=utf-8"@);
            lemma_atoms_grow(state.atoms, one, "text/plain"@);
            lemma_atoms_grow(state.atoms, two, "UTF8_STRING"@);
            assert(offered =~= two.push("UTF8_STRING"@));
        },
        content::ContentView::Data { mime_type, .. } => {
            lemma_atoms_grow(state.atoms, Seq::empty(), mime_type);
            assert(offered =~= Seq::<Seq<char>>::empty().push(mime_type));
        },
        content::ContentView::Empty => {
            assert(offered =~= Seq::<Seq<char>>::empty());
        },
    }
}

proof fn lemma_atoms_grow(atoms: Map<Seq<char>, u32>, names: Seq<Seq<char>>, name: Seq<char>)
    ensures
        atoms_of(atoms, Seq::empty()) == Seq::<u32>::empty(),
        atoms_of(atoms, names.push(name)) == if atoms.contains_key(name) {
            atoms_of(atoms, names).push(atoms[name])
        } else {
            atoms_of(atoms, names)
        },
{
    assert(names.push(name).drop_last() =~= names);
}

/// A name without an atom has no place among the targets that are told; every other one offered has
/// its own, in the order in which they are offered.
pub proof fn law_targets_follow_the_offer(
    atoms: Map<Seq<char>, u32>,
    names: Seq<Seq<char>>,
    name: Seq<char>,
)
    ensures
        atoms_of(atoms, Seq::empty()).len() == 0,
        atoms.contains_key(name) ==> atoms_of(atoms, names.push(name)) == atoms_of(
            atoms,
            names,
        ).push(atoms[name]),
        !atoms.contains_key(name) ==> atoms_of(atoms, names.push(name)) == atoms_of(atoms, names),
{
    lemma_atoms_grow(atoms, names, name);
}

/// What is told is what the content is offered in, and the question at the end.
pub proof fn law_targets_are_those_of_the_offer(
    state: X11View,
    content: Option<content::ContentView>,
)
    ensures
        state.targets_for(content) == atoms_of(
            state.atoms,
            (match content {
                Some(content) => content.offered(),
                None => Seq::empty(),
            }).push("TARGETS"@),
        ),
{
}

/// The state is fit for use exactly if all names have atoms.
pub proof fn law_when_a_state_is_fit(state: X11View)
    ensures
        state.wf() <==> atoms::all_interned(state.atoms),
{
}

/// The plain values of the X11 side, and of a list of targets, leave nothing out.
pub proof fn law_view_of_a_state(state: X11State, targets: Seq<(u32, &'static str)>)
    ensures
        state@.atoms == state.atoms@,
        state@.window == state.window,
        state@.contents.clipboard == sync::optional_view(state.clipboard_content),
        state@.contents.primary == sync::optional_view(state.primary_content),
        targets_view(targets).len() == targets.len(),
        forall|i: int|
            0 <= i < targets.len() ==> #[trigger] targets_view(targets)[i] == (
                targets[i].0,
                targets[i].1@,
            ),
{
}

} // verus!
