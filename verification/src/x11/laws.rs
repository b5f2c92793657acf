//! What holds of the X11 side as a whole.

use crate::content;
use crate::foreign;
use crate::mime;
use crate::sync::{ClipboardType, Side};
use crate::x11::atoms;
use crate::x11::fetch;
use crate::x11::protocol;
use crate::x11::protocol::{
    CommandView, Event, ReplyOf, ReplyView, RequestOf, SelectionClearEvent, SelectionRequestEvent,
    XfixesSelectionNotifyEvent, ATOM_NONE, ATOM_PRIMARY,
};
use crate::x11::serve;
use crate::x11::serve::AnswerOf;
use crate::x11::state;
use crate::x11::state::X11View;
use crate::x11::task::{FetchView, PurposeOf, PurposeView, StageOf, StepView, TaskView};
use vstd::prelude::*;

verus! {

/// Whether the formats have different atoms, and the clipboard another one than the primary
/// selection, as the X server sees to.
pub open spec fn atoms_differ(state: X11View) -> bool {
    &&& forall|m: Seq<char>, n: Seq<char>|
        #![trigger atoms::lookup(state.atoms, m), atoms::lookup(state.atoms, n)]
        mime::preferred_mime_types().contains(m) && mime::preferred_mime_types().contains(n)
            && atoms::lookup(state.atoms, m) == atoms::lookup(state.atoms, n) ==> m == n
    &&& state.atoms[mime::CLIPBOARD_ATOM@] != ATOM_PRIMARY
}

/// Whether `target` is neither of the two questions about a selection.
pub open spec fn asks_for_data(state: X11View, target: u32) -> bool {
    target != state.atoms[mime::TARGETS_ATOM@] && target != state.atoms[mime::MULTIPLE_ATOM@]
}

/// Whether a command sends a notification.
pub open spec fn notifies(command: CommandView) -> bool {
    command.request is SendEvent
}

/// Whether `commands` tell the client that asked, once and at the end, that its request was
/// answered in `property`.
pub open spec fn notified_once(
    commands: Seq<CommandView>,
    event: SelectionRequestEvent,
    property: u32,
) -> bool {
    &&& commands.len() >= 2
    &&& commands[commands.len() - 2] == serve::notification(event, property)
    &&& commands[commands.len() - 1] == protocol::flush_view()
    &&& forall|i: int|
        0 <= i < commands.len() && i != commands.len() - 2 ==> !notifies(#[trigger] commands[i])
}

proof fn lemma_pairs_do_not_notify(
    state: X11View,
    requestor: u32,
    content: Option<content::ContentView>,
    words: Seq<u32>,
    count: nat,
)
    ensures
        forall|i: int|
            0 <= i < serve::pairs_written(state, requestor, content, words, count).len()
                ==> !notifies(
                #[trigger] serve::pairs_written(state, requestor, content, words, count)[i],
            ),
    decreases count,
{
    if count > 0 {
        lemma_pairs_do_not_notify(state, requestor, content, words, (count - 1) as nat);
        let all = serve::pairs_written(state, requestor, content, words, count);
        let rest = serve::pairs_written(state, requestor, content, words, (count - 1) as nat);
        assert forall|i: int| 0 <= i < all.len() implies !notifies(#[trigger] all[i]) by {
            if i < rest.len() {
                assert(all[i] == rest[i]);
            }
        }
    }
}

/// Every request is answered exactly once: the client that asked gets one notification, after
/// everything that was written for it, which names its selection and target. It names the
/// property that was written, or the null atom if the request is refused.
pub proof fn law_every_request_is_answered_once(
    state: X11View,
    event: SelectionRequestEvent,
    words: Seq<u32>,
)
    ensures
        match serve::answer(state, event) {
            AnswerOf::Commands(commands) => notified_once(
                commands,
                event,
                serve::answer_property(event),
            ) || commands == serve::closing(event, ATOM_NONE),
            AnswerOf::List { content, .. } => notified_once(
                serve::multiple_answer(state, event, content, words),
                event,
                serve::answer_property(event),
            ),
        },
        notified_once(serve::closing(event, ATOM_NONE), event, ATOM_NONE),
{
    if let AnswerOf::List { content, .. } = serve::answer(state, event) {
        lemma_pairs_do_not_notify(state, event.requestor, content, words, words.len() / 2);
    }
}

/// A request for data that is not held, or not in a format that the target stands for, is refused:
/// nothing is written, and the notification names no property.
pub proof fn law_refusal(state: X11View, event: SelectionRequestEvent)
    requires
        asks_for_data(state, event.target),
        match (state.held(event.selection), state.mime_for(event.target)) {
            (Some(content), Some(mime_type)) => !content.provides(mime_type),
            _ => true,
        },
    ensures
        serve::answer(state, event) == serve::AnswerView::Commands(
            serve::closing(event, ATOM_NONE),
        ),
{
}

/// A request for data in a format that the held content has is answered with the content's bytes,
/// typed as the target that was asked for.
pub proof fn law_held_content_is_given_out(
    state: X11View,
    event: SelectionRequestEvent,
    content: content::ContentView,
    mime_type: Seq<char>,
)
    requires
        asks_for_data(state, event.target),
        state.held(event.selection) == Some(content),
        state.mime_for(event.target) == Some(mime_type),
        content.provides(mime_type),
    ensures
        serve::answer(state, event) == serve::AnswerView::Commands(
            seq![
                CommandView {
                    request: RequestOf::ReplaceProperty8 {
                        window: event.requestor,
                        property: serve::answer_property(event),
                        type_: event.target,
                        data: content.bytes(),
                    },
                    failure: "Failed to change selection property"@,
                },
            ] + serve::closing(event, serve::answer_property(event)),
        ),
{
}

proof fn lemma_first_name_is_named(
    atoms: Map<Seq<char>, u32>,
    names: Seq<Seq<char>>,
    atom: u32,
)
    ensures
        match state::first_name(atoms, names, atom) {
            Some(name) => names.contains(name) && atoms::lookup(atoms, name) == Some(atom),
            None => forall|i: int|
                0 <= i < names.len() ==> atoms::lookup(atoms, #[trigger] names[i]) != Some(atom),
        },
    decreases names.len(),
{
    if names.len() > 0 && atoms::lookup(atoms, names[0]) != Some(atom) {
        let rest = names.drop_first();
        lemma_first_name_is_named(atoms, rest, atom);
        match state::first_name(atoms, rest, atom) {
            Some(name) => {
                let i = choose|i: int| 0 <= i < rest.len() && rest[i] == name;
                assert(names[i + 1] == name);
            },
            None => {
                assert forall|i: int| 0 <= i < names.len() implies atoms::lookup(
                    atoms,
                    #[trigger] names[i],
                ) != Some(atom) by {
                    if i > 0 {
                        assert(rest[i - 1] == names[i]);
                    }
                }
            },
        }
    }
}

/// The atom of a format stands for that format.
pub proof fn law_atoms_stand_for_their_formats(state: X11View, mime_type: Seq<char>, atom: u32)
    requires
        atoms_differ(state),
        mime::preferred_mime_types().contains(mime_type),
        atoms::lookup(state.atoms, mime_type) == Some(atom),
    ensures
        state.mime_for(atom) == Some(mime_type),
{
    let names = mime::preferred_mime_types();
    lemma_first_name_is_named(state.atoms, names, atom);
    let i = choose|i: int| 0 <= i < names.len() && names[i] == mime_type;
    assert(atoms::lookup(state.atoms, names[i]) == Some(atom));
}

proof fn lemma_atoms_of(atoms: Map<Seq<char>, u32>, names: Seq<Seq<char>>, atom: u32)
    ensures
        state::atoms_of(atoms, names).contains(atom) <==> exists|i: int|
            0 <= i < names.len() && atoms::lookup(atoms, #[trigger] names[i]) == Some(atom),
    decreases names.len(),
{
    let listed = state::atoms_of(atoms, names);
    if names.len() > 0 {
        let before = names.drop_last();
        let rest = state::atoms_of(atoms, before);
        lemma_atoms_of(atoms, before, atom);
        assert(forall|i: int| 0 <= i < before.len() ==> before[i] == names[i]);
        if listed.contains(atom) {
            let i = choose|i: int| 0 <= i < listed.len() && listed[i] == atom;
            if i < rest.len() {
                assert(rest[i] == atom);
                let j = choose|j: int|
                    0 <= j < before.len() && atoms::lookup(atoms, #[trigger] before[j]) == Some(
                        atom,
                    );
                assert(atoms::lookup(atoms, names[j]) == Some(atom));
            } else {
                assert(atoms::lookup(atoms, names[names.len() - 1]) == Some(atom));
            }
        }
        if exists|i: int|
            0 <= i < names.len() && atoms::lookup(atoms, #[trigger] names[i]) == Some(atom) {
            let i = choose|i: int|
                0 <= i < names.len() && atoms::lookup(atoms, #[trigger] names[i]) == Some(atom);
            if i < before.len() {
                assert(before[i] == names[i]);
                assert(rest.contains(atom));
                let j = choose|j: int| 0 <= j < rest.len() && rest[j] == atom;
                assert(listed[j] == atom);
            } else {
                assert(listed[listed.len() - 1] == atom);
            }
        }
    }
}

/// The targets that are told to whoever asks are those of the content's own formats, and the
/// question itself; no other one is ever told.
pub proof fn law_told_targets(
    state: X11View,
    content: Option<content::ContentView>,
    target: u32,
)
    requires
        state.wf(),
    ensures
        state.targets_for(content).contains(target) <==> target == state.atoms[mime::TARGETS_ATOM@]
            || exists|m: Seq<char>|
            #![trigger atoms::lookup(state.atoms, m)]
            content matches Some(content) && content.provides(m) && atoms::lookup(state.atoms, m)
                == Some(target),
{
    let offered = state::offered_by(content);
    let names = offered.push(mime::TARGETS_ATOM@);
    lemma_atoms_of(state.atoms, names, target);
    assert(atoms::atom_names()[2] == mime::TARGETS_ATOM@);
    assert(names[names.len() - 1] == mime::TARGETS_ATOM@);
    if state.targets_for(content).contains(target) {
        let i = choose|i: int|
            0 <= i < names.len() && atoms::lookup(state.atoms, #[trigger] names[i]) == Some(target);
        if i < offered.len() {
            let m = names[i];
            assert(offered[i] == m);
            content::law_offers(content.unwrap(), m);
            assert(atoms::lookup(state.atoms, m) == Some(target));
        }
    }
    if exists|m: Seq<char>|
        #![trigger atoms::lookup(state.atoms, m)]
        content matches Some(content) && content.provides(m) && atoms::lookup(state.atoms, m)
            == Some(target) {
        let m = choose|m: Seq<char>|
            #![trigger atoms::lookup(state.atoms, m)]
            content matches Some(content) && content.provides(m) && atoms::lookup(state.atoms, m)
                == Some(target);
        content::law_offers(content.unwrap(), m);
        let i = choose|i: int| 0 <= i < offered.len() && offered[i] == m;
        assert(names[i] == m);
    }
    assert(atoms::lookup(state.atoms, names[names.len() - 1]) == Some(
        state.atoms[mime::TARGETS_ATOM@],
    ));
}

/// Whether a content can be told apart by its format: a text, or an image in a format of the
/// bridge.
pub open spec fn in_known_format(content: content::ContentView) -> bool {
    content matches content::ContentView::Data { mime_type, .. } ==> mime::is_image(mime_type)
}

/// Every target that is told, but for the two questions, is served with the content's bytes.
pub proof fn law_told_targets_are_served(
    state: X11View,
    event: SelectionRequestEvent,
    content: content::ContentView,
)
    requires
        state.wf(),
        atoms_differ(state),
        in_known_format(content),
        state.held(event.selection) == Some(content),
        asks_for_data(state, event.target),
        state.targets_for(Some(content)).contains(event.target),
    ensures
        serve::answer(state, event) == serve::AnswerView::Commands(
            seq![
                CommandView {
                    request: RequestOf::ReplaceProperty8 {
                        window: event.requestor,
                        property: serve::answer_property(event),
                        type_: event.target,
                        data: content.bytes(),
                    },
                    failure: "Failed to change selection property"@,
                },
            ] + serve::closing(event, serve::answer_property(event)),
        ),
{
    law_told_targets(state, Some(content), event.target);
    let m = choose|m: Seq<char>|
        #![trigger atoms::lookup(state.atoms, m)]
        content.provides(m) && atoms::lookup(state.atoms, m) == Some(event.target);
    mime::law_formats(m);
    law_atoms_stand_for_their_formats(state, m, event.target);
    law_held_content_is_given_out(state, event, content, m);
}

/// Once a selection has been taken over, the content is held under the selection's atom, and the
/// other selection holds what it did.
pub proof fn law_claimed_content_is_held(
    state: X11View,
    content: content::ContentView,
    clipboard_type: ClipboardType,
    other: ClipboardType,
)
    requires
        atoms_differ(state),
    ensures
        fetch::claimed(state, content, clipboard_type) matches StepView::Run { task, .. } ==> {
            let after = fetch::resumed(state, task, ReplyOf::Done, Seq::empty()).0;
            &&& after.held(after.selection_atom(clipboard_type)) == Some(content)
            &&& other != clipboard_type ==> after.held(after.selection_atom(other))
                == state.held(state.selection_atom(other))
        },
{
}

/// Once a selection has been taken over, a request for it in any of the targets that are told is
/// answered with the content's bytes.
pub proof fn law_claimed_content_is_served(
    state: X11View,
    content: content::ContentView,
    clipboard_type: ClipboardType,
    event: SelectionRequestEvent,
)
    requires
        state.wf(),
        atoms_differ(state),
        in_known_format(content),
        event.selection == state.selection_atom(clipboard_type),
        asks_for_data(state, event.target),
        state.targets_for(Some(content)).contains(event.target),
    ensures
        fetch::claimed(state, content, clipboard_type) matches StepView::Run { task, .. } ==> {
            let after = fetch::resumed(state, task, ReplyOf::Done, Seq::empty()).0;
            serve::answer(after, event) == serve::AnswerView::Commands(
                seq![
                    CommandView {
                        request: RequestOf::ReplaceProperty8 {
                            window: event.requestor,
                            property: serve::answer_property(event),
                            type_: event.target,
                            data: content.bytes(),
                        },
                        failure: "Failed to change selection property"@,
                    },
                ] + serve::closing(event, serve::answer_property(event)),
            )
        },
{
    let after = state.holding(clipboard_type, Some(content));
    assert(after.targets_for(Some(content)) == state.targets_for(Some(content)));
    law_told_targets_are_served(after, event, content);
}

/// Once a selection is lost, nothing is held for it, and every request for its data is refused.
pub proof fn law_lost_selection_is_refused(
    state: X11View,
    clear: SelectionClearEvent,
    event: SelectionRequestEvent,
)
    requires
        clear.selection == state.atoms[mime::CLIPBOARD_ATOM@] || clear.selection == ATOM_PRIMARY,
        event.selection == clear.selection,
        asks_for_data(state, event.target),
    ensures
        ({
            let after = fetch::handled(state, Event::SelectionClear(clear)).0;
            &&& after.held(event.selection) is None
            &&& serve::answer(after, event) == serve::AnswerView::Commands(
                serve::closing(event, ATOM_NONE),
            )
        }),
{
}

/// A selection that is ours is not read back: neither the news that we own it nor a request for its
/// content leads to anything.
pub proof fn law_own_selection_is_not_fetched(
    state: X11View,
    selection: u32,
    clipboard_type: ClipboardType,
    quiet: bool,
)
    ensures
        fetch::handled(
            state,
            Event::XfixesSelectionNotify(
                XfixesSelectionNotifyEvent { owner: state.window, selection },
            ),
        ) == (state, fetch::finished()),
        fetch::requested(state, clipboard_type, quiet) matches StepView::Ask { task, .. }
            && fetch::resumed(state, task, ReplyOf::Owner(state.window), Seq::empty()) == (
            state,
            fetch::finished(),
        ),
{
}

/// What one bridge writes for a target, another one that knows the same atoms and asked for that
/// target reads back as the same content. The image must carry the hash of its bytes, as every
/// decoded one does, and be in a format of the bridge.
pub proof fn law_written_content_is_read_back(
    state: X11View,
    target: u32,
    content: content::ContentView,
    mime_type: Seq<char>,
)
    requires
        state.mime_for(target) == Some(mime_type),
        content.provides(mime_type),
        content matches content::ContentView::Data { mime_type, bytes, hash } ==> mime::is_image(
            mime_type,
        ) && hash == foreign::xxh3_hash(bytes),
    ensures
        fetch::selection_content(state, target, target, content.bytes()) == Ok::<
            Option<content::ContentView>,
            Seq<char>,
        >(Some(content)),
{
    content::law_sent_content_is_received(content, mime_type);
}

proof fn lemma_taken_in(
    state: X11View,
    purpose: PurposeView,
    data: Option<(u32, Seq<u8>)>,
)
    requires
        data matches Some((_, bytes)) ==> bytes.len() > 0,
    ensures
        ({
            let (after, step) = fetch::taken_in(state, purpose, data);
            &&& after.atoms == state.atoms
            &&& after.window == state.window
            &&& step matches StepView::Done(Ok(Some(event))) ==> {
                &&& after == state.holding(event.clipboard_type, Some(event.content))
                &&& event.from == Side::X11
                &&& event.content.bytes().len() > 0
            }
            &&& !(step matches StepView::Done(Ok(Some(_)))) ==> after == state
        }),
{
    if let Some((property_type, bytes)) = data {
        let mime_type = match state.mime_for(property_type) {
            Some(mime_type) => Some(mime_type),
            None => state.mime_for(purpose.target()),
        };
        if let Some(mime_type) = mime_type {
            content::law_decoding_keeps_the_bytes(mime_type, bytes);
        }
    }
}

/// Taking up a task changes neither the atoms nor our window. What it hands out to be forwarded is
/// not empty, comes from the X11 side and is what the selection now holds; the other selection is
/// left alone. A task that hands nothing out leaves both selections alone, unless it was to keep a
/// content of ours and that has worked.
pub proof fn law_what_a_task_changes(
    state: X11View,
    task: TaskView,
    reply: ReplyView,
    words: Seq<u32>,
)
    requires
        task.wf(),
        task.accepts(reply),
    ensures
        ({
            let (after, step) = fetch::resumed(state, task, reply, words);
            &&& after.atoms == state.atoms
            &&& after.window == state.window
            &&& match (task, step) {
                (_, StepView::Done(Ok(Some(event)))) => {
                    &&& after == state.holding(event.clipboard_type, Some(event.content))
                    &&& event.from == Side::X11
                    &&& event.content.bytes().len() > 0
                },
                (TaskView::Store { content, clipboard_type }, _) if reply is Done => after
                    == state.holding(clipboard_type, Some(content)),
                _ => after == state,
            }
        }),
{
    match task {
        TaskView::Fetch(fetch) | TaskView::Interrupted(fetch, _) => {
            let purpose = fetch.purpose;
            lemma_taken_in(state, purpose, None);
            if let StageOf::Received { data } = fetch.stage {
                lemma_taken_in(state, purpose, data);
            }
            if let StageOf::IncrPoll(transfer) = fetch.stage {
                lemma_taken_in(state, purpose, transfer.received());
            }
            if let StageOf::IncrPiece(transfer) = fetch.stage {
                lemma_taken_in(state, purpose, transfer.received());
                if let ReplyOf::Property { type_, value, .. } = reply {
                    lemma_taken_in(state, purpose, transfer.with_piece(type_, value).received());
                }
            }
        },
        _ => {},
    }
}

/// Why a task fetches a content, if it does.
pub open spec fn purpose_of(task: TaskView) -> Option<PurposeView> {
    match task {
        TaskView::Fetch(fetch) | TaskView::Interrupted(fetch, _) => Some(fetch.purpose),
        _ => None,
    }
}

/// Whether a failure of the fetch is passed over in silence.
pub open spec fn is_quiet(purpose: PurposeView) -> bool {
    purpose matches PurposeOf::Requested { quiet: true, .. }
}

/// A fetch goes on for the selection it was begun for, and stays quiet or not as it was begun. What
/// it hands out is for that selection, and one that is quiet does not end in failure.
pub proof fn law_fetch_keeps_its_purpose(
    state: X11View,
    task: TaskView,
    reply: ReplyView,
    words: Seq<u32>,
)
    requires
        purpose_of(task) is Some,
    ensures
        ({
            let purpose = purpose_of(task).unwrap();
            match fetch::resumed(state, task, reply, words).1 {
                StepView::Run { task: next, .. } | StepView::Ask { task: next, .. } => {
                    &&& purpose_of(next) is Some
                    &&& purpose_of(next).unwrap() is Requested == purpose is Requested
                    &&& purpose_of(next).unwrap().clipboard_type() == purpose.clipboard_type()
                    &&& is_quiet(purpose_of(next).unwrap()) == is_quiet(purpose)
                },
                StepView::Done(Ok(Some(event))) => event.clipboard_type == purpose.clipboard_type(),
                StepView::Done(Ok(None)) => true,
                StepView::Done(Err(_)) => !is_quiet(purpose),
            }
        }),
{
}

/// The list of a multiple request keeps its length and its targets; the property of a pair is
/// replaced by the null atom exactly if the pair was not written.
pub proof fn law_multiple_marks_what_failed(
    state: X11View,
    requestor: u32,
    content: Option<content::ContentView>,
    words: Seq<u32>,
    pair: int,
)
    requires
        0 <= pair,
        2 * pair + 1 < words.len(),
    ensures
        ({
            let marked = serve::pairs_marked(state, requestor, content, words);
            &&& marked.len() == words.len()
            &&& marked[2 * pair] == words[2 * pair]
            &&& match serve::pair_written(
                state,
                requestor,
                content,
                words[2 * pair],
                words[2 * pair + 1],
            ) {
                Some(command) => marked[2 * pair + 1] == words[2 * pair + 1]
                    && serve::pairs_written(
                    state,
                    requestor,
                    content,
                    words,
                    words.len() / 2,
                ).contains(command),
                None => marked[2 * pair + 1] == ATOM_NONE,
            }
        }),
{
    lemma_pair_is_written(state, requestor, content, words, words.len() / 2, pair);
}

proof fn lemma_pair_is_written(
    state: X11View,
    requestor: u32,
    content: Option<content::ContentView>,
    words: Seq<u32>,
    count: nat,
    pair: int,
)
    requires
        0 <= pair < count,
    ensures
        serve::pair_written(
            state,
            requestor,
            content,
            words[2 * pair],
            words[2 * pair + 1],
        ) matches Some(command) ==> serve::pairs_written(
            state,
            requestor,
            content,
            words,
            count,
        ).contains(command),
    decreases count,
{
    let all = serve::pairs_written(state, requestor, content, words, count);
    let rest = serve::pairs_written(state, requestor, content, words, (count - 1) as nat);
    if let Some(command) = serve::pair_written(
        state,
        requestor,
        content,
        words[2 * pair],
        words[2 * pair + 1],
    ) {
        if pair == count - 1 {
            assert(all[all.len() - 1] == command);
        } else {
            lemma_pair_is_written(state, requestor, content, words, (count - 1) as nat, pair);
            let i = choose|i: int| 0 <= i < rest.len() && rest[i] == command;
            assert(all[i] == command);
        }
    }
}

/// A multiple request gets for each pair what the same request would get by itself: a pair with a
/// property and a target that is neither question is written exactly as the single request for
/// it, and fails exactly if that is refused.
pub proof fn law_multiple_agrees_with_single_requests(
    state: X11View,
    event: SelectionRequestEvent,
)
    requires
        event.property != ATOM_NONE,
        asks_for_data(state, event.target),
    ensures
        match serve::pair_written(
            state,
            event.requestor,
            state.held(event.selection),
            event.target,
            event.property,
        ) {
            Some(command) => serve::answer(state, event) == serve::AnswerView::Commands(
                seq![command] + serve::closing(event, event.property),
            ),
            None => serve::answer(state, event) == serve::AnswerView::Commands(
                serve::closing(event, ATOM_NONE),
            ),
        },
{
}

proof fn lemma_wanted(
    atoms: Map<Seq<char>, u32>,
    names: Seq<Seq<char>>,
    offered: Seq<u32>,
)
    requires
        names.no_duplicates(),
    ensures
        ({
            let wanted = state::wanted_of(atoms, names, offered);
            &&& forall|i: int|
                0 <= i < wanted.len() ==> {
                    &&& names.contains((#[trigger] wanted[i]).1)
                    &&& atoms::lookup(atoms, wanted[i].1) == Some(wanted[i].0)
                    &&& offered.len() == 0 || offered.contains(wanted[i].0)
                }
            &&& forall|k: int, atom: u32|
                #![trigger wanted.contains((atom, names[k]))]
                0 <= k < names.len() && atoms::lookup(atoms, names[k]) == Some(atom) && (
                offered.len() == 0 || offered.contains(atom)) ==> wanted.contains((atom, names[k]))
            &&& forall|i: int, j: int, k: int, l: int|
                #![trigger wanted[i], wanted[j], names[k], names[l]]
                0 <= i < j < wanted.len() && 0 <= k < names.len() && 0 <= l < names.len()
                    && wanted[i].1 == names[k] && wanted[j].1 == names[l] ==> k < l
        }),
    decreases names.len(),
{
    if names.len() > 0 {
        let before = names.drop_last();
        let rest = state::wanted_of(atoms, before, offered);
        let wanted = state::wanted_of(atoms, names, offered);
        let last = names.len() - 1;
        assert(forall|k: int| 0 <= k < before.len() ==> before[k] == names[k]);
        lemma_wanted(atoms, before, offered);
        assert forall|i: int| 0 <= i < wanted.len() implies {
            &&& names.contains((#[trigger] wanted[i]).1)
            &&& atoms::lookup(atoms, wanted[i].1) == Some(wanted[i].0)
            &&& offered.len() == 0 || offered.contains(wanted[i].0)
        } by {
            if i < rest.len() {
                assert(wanted[i] == rest[i]);
                let k = choose|k: int| 0 <= k < before.len() && before[k] == rest[i].1;
                assert(names[k] == wanted[i].1);
            } else {
                assert(names[last] == wanted[i].1);
            }
        }
        assert forall|k: int, atom: u32|
            #![trigger wanted.contains((atom, names[k]))]
            0 <= k < names.len() && atoms::lookup(atoms, names[k]) == Some(atom) && (offered.len()
                == 0 || offered.contains(atom)) implies wanted.contains((atom, names[k])) by {
            if k < last {
                assert(before[k] == names[k]);
                assert(rest.contains((atom, before[k])));
                let i = choose|i: int| 0 <= i < rest.len() && rest[i] == (atom, before[k]);
                assert(wanted[i] == (atom, names[k]));
            } else {
                assert(wanted[wanted.len() - 1] == (atom, names[k]));
            }
        }
        assert forall|i: int, j: int, k: int, l: int|
            #![trigger wanted[i], wanted[j], names[k], names[l]]
            0 <= i < j < wanted.len() && 0 <= k < names.len() && 0 <= l < names.len()
                && wanted[i].1 == names[k] && wanted[j].1 == names[l] implies k < l by {
            assert(wanted[i] == rest[i]);
            let m = choose|m: int| 0 <= m < before.len() && before[m] == rest[i].1;
            assert(names[m] == names[k]);
            assert(m == k);
            if j < rest.len() {
                assert(wanted[j] == rest[j]);
                let n = choose|n: int| 0 <= n < before.len() && before[n] == rest[j].1;
                assert(names[n] == names[l]);
                assert(n == l);
                assert(before[m] == rest[i].1 && before[n] == rest[j].1);
            } else {
                assert(names[l] == names[last]);
                assert(l == last);
            }
        }
    }
}

/// A selection's owner is asked for formats of the bridge that it offers, under their atoms; for
/// every one of them, and in the order of preference. One that offers nothing is asked for every
/// format.
pub proof fn law_wanted_targets(state: X11View, offered: Seq<u32>)
    ensures
        ({
            let wanted = state.wanted_targets(offered);
            let formats = mime::preferred_mime_types();
            &&& forall|i: int|
                0 <= i < wanted.len() ==> {
                    &&& formats.contains((#[trigger] wanted[i]).1)
                    &&& atoms::lookup(state.atoms, wanted[i].1) == Some(wanted[i].0)
                    &&& offered.len() == 0 || offered.contains(wanted[i].0)
                }
            &&& forall|k: int, atom: u32|
                #![trigger wanted.contains((atom, formats[k]))]
                0 <= k < formats.len() && atoms::lookup(state.atoms, formats[k]) == Some(atom) && (
                offered.len() == 0 || offered.contains(atom)) ==> wanted.contains(
                    (atom, formats[k]),
                )
            &&& forall|i: int, j: int, k: int, l: int|
                #![trigger wanted[i], wanted[j], formats[k], formats[l]]
                0 <= i < j < wanted.len() && 0 <= k < formats.len() && 0 <= l < formats.len()
                    && wanted[i].1 == formats[k] && wanted[j].1 == formats[l] ==> k < l
        }),
{
    mime::law_formats(Seq::empty());
    lemma_wanted(state.atoms, mime::preferred_mime_types(), offered);
}

/// A request that comes in while a content is being fetched is answered just as at any other time,
/// and the fetch then goes on as if nothing had come. `list` is what the list of a multiple request
/// gives, and `words` are its words.
pub proof fn law_requests_are_answered_during_a_fetch(
    state: X11View,
    fetch: FetchView,
    event: SelectionRequestEvent,
    list: ReplyView,
    words: Seq<u32>,
)
    requires
        list is Property,
    ensures
        match (fetch::interrupted(state, fetch, event), fetch::served(state, event)) {
            (
                StepView::Run { commands, task },
                StepView::Run { commands: alone, .. },
            ) => commands == alone && fetch::resumed(state, task, ReplyOf::Done, Seq::empty())
                == fetch::polled_again(state, fetch),
            (
                StepView::Ask { query, task },
                StepView::Ask { query: alone, task: alone_task },
            ) => query == alone && match (
                fetch::resumed(state, task, list, words).1,
                fetch::resumed(state, alone_task, list, words).1,
            ) {
                (
                    StepView::Run { commands, task },
                    StepView::Run { commands: alone, .. },
                ) => commands == alone && fetch::resumed(state, task, ReplyOf::Done, Seq::empty())
                    == fetch::polled_again(state, fetch),
                _ => false,
            },
            _ => false,
        },
{
}

} // verus!
