//! What holds of tasks from beginning to end.

use crate::content;
use crate::mime;
use crate::sync;
use crate::sync::{ClipboardType, Side};
use crate::x11::fetch;
use crate::x11::incr;
use crate::x11::incr::{IncrReadOf, IncrReadView};
use crate::x11::laws;
use crate::x11::protocol;
use crate::x11::protocol::{
    Event, Polled, ReplyOf, ReplyView, SelectionNotifyEvent, XfixesSelectionNotifyEvent, ATOM_ATOM,
    ATOM_NONE, WINDOW_NONE,
};
use crate::x11::state;
use crate::x11::state::X11View;
use crate::x11::task::{
    FetchOf, FetchView, PurposeOf, PurposeView, ServeOf, StageOf, StageView, StepView, TaskView,
};
use crate::x11::wait::{NotifyWait, NOTIFY_POLLS};
use vstd::prelude::*;

verus! {

/// What comes after a step when its exchange gives `reply`, with `words` if that is a list.
pub open spec fn after(
    at: (X11View, StepView),
    reply: ReplyView,
    words: Seq<u32>,
) -> (X11View, StepView) {
    match at.1 {
        StepView::Run { task, .. } => fetch::resumed(at.0, task, reply, words),
        StepView::Ask { task, .. } => fetch::resumed(at.0, task, reply, words),
        StepView::Done(_) => at,
    }
}

/// The same for exchanges that give no list.
pub open spec fn continued(at: (X11View, StepView), reply: ReplyView) -> (X11View, StepView) {
    after(at, reply, Seq::empty())
}

/// A property value that has come.
pub open spec fn value_reply(type_: u32, format: u8, value: Seq<u8>) -> ReplyView {
    ReplyOf::Property { type_, format, value }
}

/// A notification that has come.
pub open spec fn notify_reply(notify: SelectionNotifyEvent) -> ReplyView {
    ReplyOf::Polled(Polled::Event(Event::SelectionNotify(notify)))
}

/// A fetch at its end: the content is held and handed out.
pub open spec fn fetched_content(
    state: X11View,
    clipboard_type: ClipboardType,
    content: content::ContentView,
) -> (X11View, StepView) {
    (
        state.holding(clipboard_type, Some(content)),
        StepView::Done(
            Ok(Some(sync::SyncEventView { from: Side::X11, content, clipboard_type })),
        ),
    )
}

/// A look for an event: what it gave, and, if a property has to be read on that account, what that
/// gives. Such a property is the list of a multiple request of another client, with its words, or
/// the next piece of a transfer.
pub struct Look {
    pub polled: Polled,
    pub value: ReplyView,
    pub words: Seq<u32>,
}

/// Deals with what a look gave before the next one: a request that came in is answered, and a piece
/// that came is read.
pub open spec fn settled(at: (X11View, StepView), look: Look) -> (X11View, StepView) {
    match at.1 {
        StepView::Run { task: TaskView::Interrupted(_, _), .. } => continued(at, ReplyOf::Done),
        StepView::Ask { task: TaskView::Interrupted(_, _), .. } => continued(
            after(at, look.value, look.words),
            ReplyOf::Done,
        ),
        StepView::Ask {
            task: TaskView::Fetch(FetchOf { stage: StageOf::IncrPiece(_), .. }),
            ..
        } => continued(at, look.value),
        _ => at,
    }
}

/// What comes after a step when looking for events gives `looks` one after the other.
pub open spec fn looked(at: (X11View, StepView), looks: Seq<Look>) -> (X11View, StepView)
    decreases looks.len(),
{
    if looks.len() == 0 {
        at
    } else {
        let before = looked(at, looks.drop_last());
        settled(continued(before, ReplyOf::Polled(looks.last().polled)), looks.last())
    }
}

/// Whether none of `looks` is the answer to a wait, and all properties that they call for are read.
pub open spec fn without_answer(wait: NotifyWait, looks: Seq<Look>) -> bool {
    forall|i: int|
        0 <= i < looks.len() ==> !(wait.sees((#[trigger] looks[i]).polled) is Found)
            && looks[i].value is Property
}

/// The wait for the answer to a request for `target` into `property`, before the first look.
pub open spec fn fresh_wait(target: u32, property: u32) -> NotifyWait {
    NotifyWait { target, property, polls_left: NOTIFY_POLLS }
}

/// The wait after `count` looks.
pub open spec fn shortened(wait: NotifyWait, count: nat) -> NotifyWait {
    NotifyWait { polls_left: (wait.polls_left - count) as u32, ..wait }
}

/// One look that a fetch takes no answer from: it goes on with one look less.
proof fn lemma_one_look(state: X11View, fetch: FetchView, next: FetchView, look: Look)
    requires
        look.value is Property,
        fetch.purpose == next.purpose,
        match (fetch.stage, next.stage) {
            (StageOf::TargetsWait(wait), StageOf::TargetsWait(shorter)) => wait.polls_left > 0
                && shorter == wait.polled() && !(wait.sees(look.polled) is Found),
            (StageOf::DataWait(wait), StageOf::DataWait(shorter)) => wait.polls_left > 0 && shorter
                == wait.polled() && !(wait.sees(look.polled) is Found),
            _ => false,
        },
    ensures
        settled(
            continued(fetch::polled_again(state, fetch), ReplyOf::Polled(look.polled)),
            look,
        ) == fetch::polled_again(state, next),
{
    let seen = continued(fetch::polled_again(state, fetch), ReplyOf::Polled(look.polled));
    if let Polled::Event(Event::SelectionRequest(event)) = look.polled {
        assert(seen == (state, fetch::interrupted(state, next, event)));
    } else {
        assert(seen == fetch::polled_again(state, next));
    }
}

proof fn lemma_looks_without_answer(
    state: X11View,
    purpose: PurposeView,
    wait: NotifyWait,
    looks: Seq<Look>,
)
    requires
        looks.len() <= wait.polls_left,
        without_answer(wait, looks),
    ensures
        looked(
            fetch::polled_again(state, FetchOf { purpose, stage: StageOf::TargetsWait(wait) }),
            looks,
        ) == fetch::polled_again(
            state,
            FetchOf { purpose, stage: StageOf::TargetsWait(shortened(wait, looks.len())) },
        ),
        looked(
            fetch::polled_again(state, FetchOf { purpose, stage: StageOf::DataWait(wait) }),
            looks,
        ) == fetch::polled_again(
            state,
            FetchOf { purpose, stage: StageOf::DataWait(shortened(wait, looks.len())) },
        ),
    decreases looks.len(),
{
    if looks.len() > 0 {
        let before = looks.drop_last();
        let last = looks.last();
        assert forall|i: int| 0 <= i < before.len() implies !(wait.sees(
            (#[trigger] before[i]).polled,
        ) is Found) && before[i].value is Property by {
            assert(before[i] == looks[i]);
        }
        lemma_looks_without_answer(state, purpose, wait, before);
        assert(looks[looks.len() - 1] == last);
        let reached = shortened(wait, before.len());
        let left = shortened(wait, looks.len());
        assert(reached.sees(last.polled) == wait.sees(last.polled));
        assert(reached.polled() == left);
        lemma_one_look(
            state,
            FetchOf { purpose, stage: StageOf::TargetsWait(reached) },
            FetchOf { purpose, stage: StageOf::TargetsWait(left) },
            last,
        );
        lemma_one_look(
            state,
            FetchOf { purpose, stage: StageOf::DataWait(reached) },
            FetchOf { purpose, stage: StageOf::DataWait(left) },
            last,
        );
    } else {
        assert(shortened(wait, 0) == wait);
    }
}

/// Reads the targets that an owner has put into a property. One that says that it has not is asked
/// for every format.
pub open spec fn targets_read(state: X11View, purpose: PurposeView, property: u32) -> StepView {
    if property == ATOM_NONE {
        fetch::targets_known(state, purpose, Seq::empty())
    } else {
        fetch::ask_to(
            purpose,
            protocol::property_view(
                false,
                state.window,
                property,
                ATOM_ATOM,
                fetch::TARGETS_LENGTH,
                "Failed to get TARGETS property"@,
            ),
            StageOf::TargetsRead { property },
        )
    }
}

/// Reads the content that an owner has put into a property. One that says that it has not makes the
/// target give way to the next.
pub open spec fn content_read(state: X11View, purpose: PurposeView, property: u32) -> StepView {
    if property == ATOM_NONE {
        fetch::given_up(purpose)
    } else {
        fetch::property_asked(state, purpose, property)
    }
}

/// A wait ends with the first notification that answers the request, whatever else comes before it
/// while the wait lasts: other events are dropped, and requests of other clients are answered.
pub proof fn law_first_answer_ends_a_wait(
    state: X11View,
    purpose: PurposeView,
    wait: NotifyWait,
    looks: Seq<Look>,
    notify: SelectionNotifyEvent,
)
    requires
        looks.len() < wait.polls_left,
        without_answer(wait, looks),
        wait.answered_by(notify),
    ensures
        continued(
            looked(
                fetch::polled_again(state, FetchOf { purpose, stage: StageOf::TargetsWait(wait) }),
                looks,
            ),
            notify_reply(notify),
        ) == (state, targets_read(state, purpose, notify.property)),
        continued(
            looked(
                fetch::polled_again(state, FetchOf { purpose, stage: StageOf::DataWait(wait) }),
                looks,
            ),
            notify_reply(notify),
        ) == (state, content_read(state, purpose, notify.property)),
{
    lemma_looks_without_answer(state, purpose, wait, looks);
    let reached = shortened(wait, looks.len());
    assert(reached.answered_by(notify));
}

/// An owner that does not answer is not waited for any longer than a wait lasts: one that does not
/// tell its targets is asked for every format, and a target that is not answered gives way to the
/// next one.
pub proof fn law_silent_owner_is_given_up(
    state: X11View,
    purpose: PurposeView,
    property: u32,
    looks: Seq<Look>,
)
    requires
        looks.len() == NOTIFY_POLLS,
    ensures
        without_answer(fresh_wait(state.atoms[mime::TARGETS_ATOM@], property), looks) ==> looked(
            fetch::resumed(
                state,
                TaskView::Fetch(FetchOf { purpose, stage: StageOf::TargetsConvert { property } }),
                ReplyOf::Done,
                Seq::empty(),
            ),
            looks,
        ) == (state, fetch::targets_known(state, purpose, Seq::empty())),
        without_answer(fresh_wait(purpose.target(), property), looks) ==> looked(
            fetch::resumed(
                state,
                TaskView::Fetch(FetchOf { purpose, stage: StageOf::DataConvert { property } }),
                ReplyOf::Done,
                Seq::empty(),
            ),
            looks,
        ) == (state, fetch::given_up(purpose)),
{
    let targets_wait = fresh_wait(state.atoms[mime::TARGETS_ATOM@], property);
    let data_wait = fresh_wait(purpose.target(), property);
    if without_answer(targets_wait, looks) {
        lemma_looks_without_answer(state, purpose, targets_wait, looks);
    }
    if without_answer(data_wait, looks) {
        lemma_looks_without_answer(state, purpose, data_wait, looks);
    }
}

/// Where the request for a content stands once an owner that tells its targets has told them, after
/// `looks` without an answer.
pub open spec fn targets_told(
    state: X11View,
    start: StepView,
    owner: u32,
    property: u32,
    looks: Seq<Look>,
    notify: SelectionNotifyEvent,
    value: ReplyView,
    offered: Seq<u32>,
) -> (X11View, StepView) {
    let asked = continued((state, start), ReplyOf::Owner(owner));
    let named = continued(asked, ReplyOf::Atom(property));
    let converted = continued(named, ReplyOf::Done);
    let told = continued(looked(converted, looks), notify_reply(notify));
    continued(after(told, value, offered), ReplyOf::Done)
}

/// Where a request for a target stands once the owner has answered it, after `looks` without an
/// answer.
pub open spec fn content_told(
    at: (X11View, StepView),
    property: u32,
    looks: Seq<Look>,
    notify: SelectionNotifyEvent,
) -> (X11View, StepView) {
    let named = continued(at, ReplyOf::Atom(property));
    let converted = continued(named, ReplyOf::Done);
    continued(looked(converted, looks), notify_reply(notify))
}

/// A target that the owner answers, at whichever look of the wait, has what the owner put into the
/// property read.
pub proof fn law_answer_is_read(
    state: X11View,
    purpose: PurposeView,
    property: u32,
    looks: Seq<Look>,
    notify: SelectionNotifyEvent,
)
    requires
        purpose matches PurposeOf::Requested { targets, index, .. } && index < targets.len(),
        looks.len() < NOTIFY_POLLS,
        without_answer(fresh_wait(purpose.target(), property), looks),
        fresh_wait(purpose.target(), property).answered_by(notify),
    ensures
        content_told((state, fetch::target_tried(purpose)), property, looks, notify) == (
            state,
            content_read(state, purpose, notify.property),
        ),
{
    law_first_answer_ends_a_wait(
        state,
        purpose,
        fresh_wait(purpose.target(), property),
        looks,
        notify,
    );
}

/// A target that the owner answers with a content, at whichever look of the wait, ends the request
/// with that content, whichever of the wanted targets it is.
pub proof fn law_answered_target_is_fetched(
    state: X11View,
    purpose: PurposeView,
    property: u32,
    looks: Seq<Look>,
    notify: SelectionNotifyEvent,
    type_: u32,
    format: u8,
    value: Seq<u8>,
    content: content::ContentView,
)
    requires
        purpose matches PurposeOf::Requested { targets, index, .. } && index < targets.len(),
        looks.len() < NOTIFY_POLLS,
        without_answer(fresh_wait(purpose.target(), property), looks),
        fresh_wait(purpose.target(), property).answered_by(notify),
        notify.property != ATOM_NONE,
        type_ != state.atoms[mime::INCR_ATOM@],
        type_ != ATOM_NONE,
        value.len() > 0,
        fetch::selection_content(state, purpose.target(), type_, value) == Ok::<
            Option<content::ContentView>,
            Seq<char>,
        >(Some(content)),
    ensures
        ({
            let answered = content_told(
                (state, fetch::target_tried(purpose)),
                property,
                looks,
                notify,
            );
            continued(continued(answered, value_reply(type_, format, value)), ReplyOf::Done)
                == fetched_content(state, purpose.clipboard_type(), content)
        }),
{
    law_answer_is_read(state, purpose, property, looks, notify);
    lemma_decoded_is_not_empty(state, purpose.target(), type_, value);
}

/// A target that the owner refuses, at whichever look of the wait, gives way to the next one, and
/// the request ends with nothing after the last.
pub proof fn law_refused_target_gives_way(
    state: X11View,
    clipboard_type: ClipboardType,
    quiet: bool,
    targets: Seq<(u32, Seq<char>)>,
    index: usize,
    property: u32,
    looks: Seq<Look>,
    notify: SelectionNotifyEvent,
)
    requires
        index < targets.len() <= usize::MAX,
        looks.len() < NOTIFY_POLLS,
        without_answer(fresh_wait(targets[index as int].0, property), looks),
        fresh_wait(targets[index as int].0, property).answered_by(notify),
        notify.property == ATOM_NONE,
    ensures
        ({
            let purpose = PurposeOf::Requested { clipboard_type, quiet, targets, index };
            let next = PurposeOf::Requested {
                clipboard_type,
                quiet,
                targets,
                index: (index + 1) as usize,
            };
            content_told((state, fetch::target_tried(purpose)), property, looks, notify) == (
                state,
                if index + 1 < targets.len() {
                    fetch::target_tried(next)
                } else {
                    fetch::finished()
                },
            )
        }),
{
    let purpose = PurposeOf::Requested { clipboard_type, quiet, targets, index };
    law_answer_is_read(state, purpose, property, looks, notify);
}

/// An owner that tells its targets, and answers the request for the most wanted one of them with a
/// content, each at whichever look of the wait for it, has that content fetched: it is held for the
/// selection and handed out to be forwarded.
pub proof fn law_answering_owner_is_fetched(
    state: X11View,
    clipboard_type: ClipboardType,
    quiet: bool,
    owner: u32,
    targets_property: u32,
    targets_looks: Seq<Look>,
    targets_notify: SelectionNotifyEvent,
    targets_type: u32,
    targets_format: u8,
    targets_value: Seq<u8>,
    offered: Seq<u32>,
    property: u32,
    looks: Seq<Look>,
    notify: SelectionNotifyEvent,
    type_: u32,
    format: u8,
    value: Seq<u8>,
    content: content::ContentView,
)
    requires
        owner != state.window,
        owner != WINDOW_NONE,
        targets_looks.len() < NOTIFY_POLLS,
        without_answer(
            fresh_wait(state.atoms[mime::TARGETS_ATOM@], targets_property),
            targets_looks,
        ),
        fresh_wait(state.atoms[mime::TARGETS_ATOM@], targets_property).answered_by(targets_notify),
        targets_notify.property != ATOM_NONE,
        state.wanted_targets(offered).len() > 0,
        looks.len() < NOTIFY_POLLS,
        without_answer(fresh_wait(state.wanted_targets(offered)[0].0, property), looks),
        fresh_wait(state.wanted_targets(offered)[0].0, property).answered_by(notify),
        notify.property != ATOM_NONE,
        type_ != state.atoms[mime::INCR_ATOM@],
        type_ != ATOM_NONE,
        value.len() > 0,
        fetch::selection_content(state, state.wanted_targets(offered)[0].0, type_, value) == Ok::<
            Option<content::ContentView>,
            Seq<char>,
        >(Some(content)),
    ensures
        ({
            let told = targets_told(
                state,
                fetch::requested(state, clipboard_type, quiet),
                owner,
                targets_property,
                targets_looks,
                targets_notify,
                value_reply(targets_type, targets_format, targets_value),
                offered,
            );
            let answered = content_told(told, property, looks, notify);
            continued(continued(answered, value_reply(type_, format, value)), ReplyOf::Done)
                == fetched_content(state, clipboard_type, content)
        }),
{
    let asking = PurposeOf::Requested { clipboard_type, quiet, targets: Seq::empty(), index: 0 };
    law_first_answer_ends_a_wait(
        state,
        asking,
        fresh_wait(state.atoms[mime::TARGETS_ATOM@], targets_property),
        targets_looks,
        targets_notify,
    );
    law_answered_target_is_fetched(
        state,
        asking.trying(state.wanted_targets(offered)),
        property,
        looks,
        notify,
        type_,
        format,
        value,
        content,
    );
}

proof fn lemma_decoded_is_not_empty(state: X11View, target: u32, type_: u32, value: Seq<u8>)
    requires
        value.len() > 0,
    ensures
        fetch::selection_content(state, target, type_, value) matches Ok(Some(content))
            ==> content.bytes() == value,
{
    let mime_type = match state.mime_for(type_) {
        Some(mime_type) => Some(mime_type),
        None => state.mime_for(target),
    };
    if let Some(mime_type) = mime_type {
        content::law_decoding_keeps_the_bytes(mime_type, value);
    }
}

/// Whether a look tells that `property` has the next piece of a transfer.
pub open spec fn announces(property: u32, look: Look) -> bool {
    IncrReadView::start(property).sees(look.polled) is Piece
}

/// The type and the bytes of the property that was read on account of a look.
pub open spec fn piece_of(look: Look) -> (u32, Seq<u8>) {
    match look.value {
        ReplyOf::Property { type_, value, .. } => (type_, value),
        _ => (ATOM_NONE, Seq::empty()),
    }
}

/// The pieces that came through `property` during `looks`.
pub open spec fn pieces_in(property: u32, looks: Seq<Look>) -> Seq<(u32, Seq<u8>)>
    decreases looks.len(),
{
    if looks.len() == 0 {
        Seq::empty()
    } else {
        let before = pieces_in(property, looks.drop_last());
        if announces(property, looks.last()) {
            before.push(piece_of(looks.last()))
        } else {
            before
        }
    }
}

/// Whether no piece that comes during `looks` is empty, which would be the end, and all properties
/// that they call for are read.
pub open spec fn without_end(property: u32, looks: Seq<Look>) -> bool {
    forall|i: int|
        0 <= i < looks.len() ==> (#[trigger] looks[i]).value is Property && (announces(
            property,
            looks[i],
        ) ==> piece_of(looks[i]).1.len() > 0)
}

/// What has been received when `pieces` have come: all of them joined, of the first type that one
/// of them told. Nothing if none has come.
pub open spec fn received_pieces(pieces: Seq<(u32, Seq<u8>)>) -> Option<(u32, Seq<u8>)> {
    if pieces.len() == 0 {
        None
    } else {
        Some((incr::first_type(pieces), incr::joined_pieces(pieces)))
    }
}

/// A transfer through `property` after `looks`.
pub open spec fn transfer_after(property: u32, looks: Seq<Look>) -> IncrReadView {
    IncrReadOf {
        polls_left: (incr::INCR_POLLS - looks.len()) as u32,
        ..incr::after_pieces(IncrReadView::start(property), pieces_in(property, looks))
    }
}

proof fn lemma_looks_without_end(
    state: X11View,
    purpose: PurposeView,
    property: u32,
    looks: Seq<Look>,
)
    requires
        looks.len() <= incr::INCR_POLLS,
        without_end(property, looks),
    ensures
        looked(
            fetch::polled_again(
                state,
                FetchOf { purpose, stage: StageOf::IncrPoll(IncrReadView::start(property)) },
            ),
            looks,
        ) == fetch::polled_again(
            state,
            FetchOf { purpose, stage: StageOf::IncrPoll(transfer_after(property, looks)) },
        ),
        transfer_after(property, looks).property == property,
        transfer_after(property, looks).received() == received_pieces(pieces_in(property, looks)),
    decreases looks.len(),
{
    let pieces = pieces_in(property, looks);
    incr::law_pieces_are_joined(property, pieces);
    if looks.len() > 0 {
        let before = looks.drop_last();
        let last = looks.last();
        assert forall|i: int| 0 <= i < before.len() implies (#[trigger] before[i]).value is Property
            && (announces(property, before[i]) ==> piece_of(before[i]).1.len() > 0) by {
            assert(before[i] == looks[i]);
        }
        lemma_looks_without_end(state, purpose, property, before);
        assert(looks[looks.len() - 1] == last);
        let reached = transfer_after(property, before);
        assert(reached.sees(last.polled) == IncrReadView::start(property).sees(last.polled));
        if announces(property, last) {
            assert(pieces.drop_last() =~= pieces_in(property, before));
            assert(pieces.last() == piece_of(last));
            assert(reached.polled().with_piece(piece_of(last).0, piece_of(last).1)
                == transfer_after(property, looks));
        } else {
            assert(reached.polled() == transfer_after(property, looks));
        }
    } else {
        assert(transfer_after(property, looks) == IncrReadView::start(property));
    }
}

/// A content that comes at once is taken in as it is, with the type of the property it came in.
/// Nothing is taken in of a property without a type or without a value.
pub proof fn law_value_makes_the_content(
    state: X11View,
    purpose: PurposeView,
    property: u32,
    type_: u32,
    format: u8,
    value: Seq<u8>,
)
    requires
        type_ != state.atoms[mime::INCR_ATOM@],
    ensures
        continued(
            continued(
                (state, fetch::property_asked(state, purpose, property)),
                value_reply(type_, format, value),
            ),
            ReplyOf::Done,
        ) == fetch::taken_in(
            state,
            purpose,
            if type_ == ATOM_NONE || value.len() == 0 {
                None
            } else {
                Some((type_, value))
            },
        ),
{
}

/// Where a fetch stands once the owner has announced that the content comes through `property` in
/// pieces, whatever it says of their size.
pub open spec fn transfer_begun(
    state: X11View,
    purpose: PurposeView,
    property: u32,
    format: u8,
    hint: Seq<u8>,
) -> (X11View, StepView) {
    let asked = (state, fetch::property_asked(state, purpose, property));
    let announced = continued(asked, value_reply(state.atoms[mime::INCR_ATOM@], format, hint));
    continued(announced, ReplyOf::Done)
}

/// A content that comes in pieces is the content that the joined pieces make, just as if they had
/// come at once, provided that the empty piece at the end comes while the transfer lasts. Anything
/// else that comes meanwhile uses up a look and makes no difference: other events are dropped, and
/// requests of other clients are answered.
pub proof fn law_pieces_make_the_content(
    state: X11View,
    purpose: PurposeView,
    property: u32,
    format: u8,
    hint: Seq<u8>,
    looks: Seq<Look>,
    end: Look,
)
    requires
        looks.len() < incr::INCR_POLLS,
        without_end(property, looks),
        announces(property, end),
        end.value is Property,
        piece_of(end).1.len() == 0,
    ensures
        looked(transfer_begun(state, purpose, property, format, hint), looks.push(end))
            == fetch::taken_in(state, purpose, received_pieces(pieces_in(property, looks))),
{
    lemma_looks_without_end(state, purpose, property, looks);
    assert(looks.push(end).drop_last() =~= looks);
    let reached = transfer_after(property, looks);
    assert(reached.sees(end.polled) == IncrReadView::start(property).sees(end.polled));
}

/// A transfer whose end does not come while it lasts counts for the pieces that have come by then.
pub proof fn law_endless_transfer_counts_for_what_has_come(
    state: X11View,
    purpose: PurposeView,
    property: u32,
    format: u8,
    hint: Seq<u8>,
    looks: Seq<Look>,
)
    requires
        looks.len() == incr::INCR_POLLS,
        without_end(property, looks),
    ensures
        looked(transfer_begun(state, purpose, property, format, hint), looks) == fetch::taken_in(
            state,
            purpose,
            received_pieces(pieces_in(property, looks)),
        ),
{
    lemma_looks_without_end(state, purpose, property, looks);
}

/// What comes after a step when its exchanges give `replies` one after the other, each with the
/// words of the list that it is, if it is one.
pub open spec fn carried_out(
    at: (X11View, StepView),
    replies: Seq<(ReplyView, Seq<u32>)>,
) -> (X11View, StepView)
    decreases replies.len(),
{
    if replies.len() == 0 {
        at
    } else {
        after(carried_out(at, replies.drop_last()), replies.last().0, replies.last().1)
    }
}

/// Whether a step belongs to a request for the content of one selection, as all steps of such a
/// request do: a content that is handed out is for that selection, and the request ends in failure
/// only if it is not a quiet one.
pub open spec fn is_of_request(step: StepView, clipboard_type: ClipboardType, quiet: bool) -> bool {
    match step {
        StepView::Run { task, .. } | StepView::Ask { task, .. } => {
            laws::purpose_of(task) matches Some(purpose) && purpose is Requested
                && purpose.clipboard_type() == clipboard_type && laws::is_quiet(purpose) == quiet
        },
        StepView::Done(Ok(Some(event))) => event.clipboard_type == clipboard_type,
        StepView::Done(Ok(None)) => true,
        StepView::Done(Err(_)) => !quiet,
    }
}

/// Whatever comes of its exchanges, a request for the content of a selection hands out nothing but
/// a content for that selection, and one that is quiet never ends in failure. One that follows the
/// news of another owner is quiet.
pub proof fn law_request_keeps_to_its_selection(
    state: X11View,
    clipboard_type: ClipboardType,
    quiet: bool,
    event: XfixesSelectionNotifyEvent,
    replies: Seq<(ReplyView, Seq<u32>)>,
)
    ensures
        is_of_request(
            carried_out((state, fetch::requested(state, clipboard_type, quiet)), replies).1,
            clipboard_type,
            quiet,
        ),
        is_of_request(
            carried_out(fetch::handled(state, Event::XfixesSelectionNotify(event)), replies).1,
            state.selection_type(event.selection),
            true,
        ),
    decreases replies.len(),
{
    if replies.len() > 0 {
        let before = replies.drop_last();
        law_request_keeps_to_its_selection(state, clipboard_type, quiet, event, before);
        let (reply, words) = replies.last();
        let at = carried_out((state, fetch::requested(state, clipboard_type, quiet)), before);
        if let StepView::Run { task, .. } = at.1 {
            laws::law_fetch_keeps_its_purpose(at.0, task, reply, words);
        }
        if let StepView::Ask { task, .. } = at.1 {
            laws::law_fetch_keeps_its_purpose(at.0, task, reply, words);
        }
        let at = carried_out(fetch::handled(state, Event::XfixesSelectionNotify(event)), before);
        if let StepView::Run { task, .. } = at.1 {
            laws::law_fetch_keeps_its_purpose(at.0, task, reply, words);
        }
        if let StepView::Ask { task, .. } = at.1 {
            laws::law_fetch_keeps_its_purpose(at.0, task, reply, words);
        }
    }
}

/// How many exchanges at most are left of a request for the targets.
pub open spec fn targets_exchanges_left(stage: StageView) -> int {
    match stage {
        StageOf::Owner => 106,
        StageOf::TargetsAtom => 105,
        StageOf::TargetsConvert { .. } => 104,
        StageOf::TargetsWait(wait) => 3 + 4 * wait.polls_left,
        StageOf::TargetsRead { .. } => 2,
        _ => 1,
    }
}

/// How many exchanges at most are left of a request for one target.
pub open spec fn data_exchanges_left(stage: StageView) -> int {
    match stage {
        StageOf::DataAtom => 2107,
        StageOf::DataConvert { .. } => 2106,
        StageOf::DataWait(wait) => 2005 + 4 * wait.polls_left,
        StageOf::Read { .. } => 2004,
        StageOf::IncrDelete { .. } => 2003,
        StageOf::IncrPoll(transfer) => 2 + 4 * transfer.polls_left,
        StageOf::IncrPiece(transfer) => 3 + 4 * transfer.polls_left,
        _ => 1,
    }
}

/// How many exchanges one target takes at most.
pub open spec fn exchanges_per_target() -> int {
    2108
}

/// How many exchanges at most are left of a fetch.
pub open spec fn fetch_exchanges_left(fetch: FetchView) -> int {
    match fetch.purpose {
        PurposeOf::Notified { .. } => data_exchanges_left(fetch.stage),
        PurposeOf::Requested { targets, index, .. } => if fetch.stage.before_targets() {
            6 * exchanges_per_target() + targets_exchanges_left(fetch.stage)
        } else {
            (targets.len() - index - 1) * exchanges_per_target() + data_exchanges_left(fetch.stage)
        },
    }
}

/// How many exchanges at most are left of a task.
pub open spec fn exchanges_left(task: TaskView) -> int {
    match task {
        TaskView::Store { .. } => 1,
        TaskView::Serve(ServeOf::List { .. }) => 2,
        TaskView::Serve(ServeOf::Answered) => 1,
        TaskView::Fetch(fetch) => fetch_exchanges_left(fetch),
        TaskView::Interrupted(fetch, ServeOf::List { .. }) => fetch_exchanges_left(fetch) + 2,
        TaskView::Interrupted(fetch, ServeOf::Answered) => fetch_exchanges_left(fetch) + 1,
    }
}

/// Whether a step has ended its work, or leaves a task with fewer than `bound` exchanges to go.
pub open spec fn shorter_than(step: StepView, bound: int) -> bool {
    match step {
        StepView::Run { task, .. } => 0 < exchanges_left(task) < bound,
        StepView::Ask { task, .. } => 0 < exchanges_left(task) < bound,
        StepView::Done(_) => true,
    }
}

proof fn lemma_wanted_is_short(
    atoms: Map<Seq<char>, u32>,
    names: Seq<Seq<char>>,
    offered: Seq<u32>,
)
    ensures
        state::wanted_of(atoms, names, offered).len() <= names.len(),
    decreases names.len(),
{
    if names.len() > 0 {
        lemma_wanted_is_short(atoms, names.drop_last(), offered);
    }
}

/// Every task ends: whatever comes of an exchange, fewer exchanges are left than before, so that
/// an owner or a client that does not answer, or answers badly, cannot hold the bridge up for
/// ever.
pub proof fn law_tasks_end(state: X11View, task: TaskView, reply: ReplyView, words: Seq<u32>)
    requires
        task.wf(),
        task.accepts(reply),
    ensures
        shorter_than(fetch::resumed(state, task, reply, words).1, exchanges_left(task)),
{
    let names = mime::preferred_mime_types();
    lemma_wanted_is_short(state.atoms, names, Seq::empty());
    lemma_wanted_is_short(state.atoms, names, words);
    if let TaskView::Fetch(FetchOf { stage: StageOf::TargetsDelete { offered }, .. }) = task {
        lemma_wanted_is_short(state.atoms, names, offered);
    }
}

} // verus!
