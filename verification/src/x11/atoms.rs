//! The atoms that the X server gave to the names the bridge uses.

use crate::mime;
use crate::text;
use vstd::prelude::*;

verus! {

/// The names whose atoms the bridge needs, in the order in which it asks for them.
pub const ATOM_NAMES: [&'static str; 11] = [
    mime::CLIPBOARD_ATOM,
    mime::PRIMARY_ATOM,
    mime::TARGETS_ATOM,
    mime::MULTIPLE_ATOM,
    mime::INCR_ATOM,
    mime::UTF8_STRING_ATOM,
    mime::TEXT_PLAIN_UTF8_ATOM,
    mime::TEXT_PLAIN_ATOM,
    mime::IMAGE_PNG_MIME,
    mime::IMAGE_JPEG_MIME,
    mime::IMAGE_JPG_MIME,
];

/// Those names as plain values.
pub open spec fn atom_names() -> Seq<Seq<char>> {
    seq![
        mime::CLIPBOARD_ATOM@,
        mime::PRIMARY_ATOM@,
        mime::TARGETS_ATOM@,
        mime::MULTIPLE_ATOM@,
        mime::INCR_ATOM@,
        mime::UTF8_STRING_ATOM@,
        mime::TEXT_PLAIN_UTF8_ATOM@,
        mime::TEXT_PLAIN_ATOM@,
        mime::IMAGE_PNG_MIME@,
        mime::IMAGE_JPEG_MIME@,
        mime::IMAGE_JPG_MIME@,
    ]
}

/// A table from names to atoms. A name that was given several atoms has the last one.
#[derive(Debug)]
pub struct AtomTable {
    entries: Vec<(String, u32)>,
}

/// The map that a list of entries makes: a later entry takes the place of an earlier one for the
/// same name.
spec fn entries_map(entries: Seq<(String, u32)>) -> Map<Seq<char>, u32>
    decreases entries.len(),
{
    if entries.len() == 0 {
        Map::empty()
    } else {
        entries_map(entries.drop_last()).insert(entries.last().0@, entries.last().1)
    }
}

impl View for AtomTable {
    type V = Map<Seq<char>, u32>;

    closed spec fn view(&self) -> Map<Seq<char>, u32> {
        entries_map(self.entries@)
    }
}

/// The atom of `name`, if there is one.
pub open spec fn lookup(atoms: Map<Seq<char>, u32>, name: Seq<char>) -> Option<u32> {
    if atoms.contains_key(name) {
        Some(atoms[name])
    } else {
        None
    }
}

/// Whether the atoms of all names the bridge uses are known.
pub open spec fn all_interned(atoms: Map<Seq<char>, u32>) -> bool {
    forall|i: int| 0 <= i < atom_names().len() ==> atoms.contains_key(#[trigger] atom_names()[i])
}

/// Whether the atoms of the first `count` of those names are known.
pub open spec fn interned_up_to(atoms: Map<Seq<char>, u32>, count: int) -> bool {
    forall|i: int|
        0 <= i < count && i < atom_names().len() ==> atoms.contains_key(
            #[trigger] atom_names()[i],
        )
}

impl AtomTable {
    /// A table without entries.
    pub fn new() -> (table: AtomTable)
        ensures
            table@ == Map::<Seq<char>, u32>::empty(),
    {
        AtomTable { entries: Vec::new() }
    }

    /// Gives `name` the atom `atom`.
    pub fn insert(&mut self, name: &str, atom: u32)
        ensures
            final(self)@ == old(self)@.insert(name@, atom),
    {
        let ghost before = self.entries@;
        self.entries.push((name.to_string(), atom));
        assert(self.entries@.drop_last() =~= before);
    }

    /// The atom of `name`, if it was given one.
    pub fn get(&self, name: &str) -> (atom: Option<u32>)
        ensures
            atom == lookup(self@, name@),
    {
        let mut i: usize = self.entries.len();
        assert(self.entries@.take(i as int) =~= self.entries@);
        while i > 0
            invariant
                i <= self.entries@.len(),
                lookup(self@, name@) == lookup(entries_map(self.entries@.take(i as int)), name@),
            decreases i,
        {
            let ghost prefix = self.entries@.take(i as int);
            i -= 1;
            assert(prefix.drop_last() =~= self.entries@.take(i as int));
            assert(prefix.last() == self.entries@[i as int]);
            if text::same_text(self.entries[i].0.as_str(), name) {
                return Some(self.entries[i].1);
            }
        }
        None
    }

    /// Whether the first `count` names the bridge uses have atoms.
    pub fn knows_first(&self, count: usize) -> (known: bool)
        ensures
            known == interned_up_to(self@, count as int),
    {
        let mut i: usize = 0;
        while i < count && i < ATOM_NAMES.len()
            invariant
                i <= count,
                i <= 11,
                interned_up_to(self@, i as int),
            decreases 11 - i,
        {
            assert(atom_names()[i as int] == ATOM_NAMES[i as int]@);
            if self.get(ATOM_NAMES[i]).is_none() {
                assert(!self@.contains_key(atom_names()[i as int]));
                return false;
            }
            i += 1;
        }
        true
    }
}

/// A name has an atom exactly if the table gives it one, and then that one.
pub proof fn law_lookup(atoms: Map<Seq<char>, u32>, name: Seq<char>, atom: u32)
    ensures
        lookup(atoms, name) == Some(atom) <==> atoms.contains_key(name) && atoms[name] == atom,
        lookup(atoms, name) is None <==> !atoms.contains_key(name),
        lookup(atoms.insert(name, atom), name) == Some(atom),
{
}

/// Eleven names have to be known, in this order: those of the two selections, of the three targets
/// with a meaning of their own, and of the formats.
pub proof fn law_needed_names(atoms: Map<Seq<char>, u32>)
    ensures
        atom_names() == seq![
            "CLIPBOARD"@,
            "PRIMARY"@,
            "TARGETS"@,
            "MULTIPLE"@,
            "INCR"@,
            "UTF8_STRING"@,
            "text/plain;charset=utf-8"@,
            "text/plain"@,
            "image/png"@,
            "image/jpeg"@,
            "image/jpg"@,
        ],
        all_interned(atoms) <==> interned_up_to(atoms, 11),
        all_interned(atoms) <==> {
            &&& atoms.contains_key("CLIPBOARD"@)
            &&& atoms.contains_key("PRIMARY"@)
            &&& atoms.contains_key("TARGETS"@)
            &&& atoms.contains_key("MULTIPLE"@)
            &&& atoms.contains_key("INCR"@)
            &&& atoms.contains_key("UTF8_STRING"@)
            &&& atoms.contains_key("text/plain;charset=utf-8"@)
            &&& atoms.contains_key("text/plain"@)
            &&& atoms.contains_key("image/png"@)
            &&& atoms.contains_key("image/jpeg"@)
            &&& atoms.contains_key("image/jpg"@)
        },
{
    let names = atom_names();
    assert(names[0] == "CLIPBOARD"@ && names[1] == "PRIMARY"@ && names[2] == "TARGETS"@);
    assert(names[3] == "MULTIPLE"@ && names[4] == "INCR"@ && names[5] == "UTF8_STRING"@);
    assert(names[6] == "text/plain;charset=utf-8"@ && names[7] == "text/plain"@);
    assert(names[8] == "image/png"@ && names[9] == "image/jpeg"@ && names[10] == "image/jpg"@);
}

/// Knowing the names up to one more is knowing those before and that one.
pub proof fn law_names_are_learnt_one_by_one(atoms: Map<Seq<char>, u32>, count: int)
    requires
        0 <= count < atom_names().len(),
    ensures
        interned_up_to(atoms, 0),
        interned_up_to(atoms, count + 1) <==> interned_up_to(atoms, count) && atoms.contains_key(
            atom_names()[count],
        ),
{
}

} // verus!
