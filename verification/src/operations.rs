//! What the operations of the library give, as their callers see it: each law speaks of any call of
//! the operation it names, of what went in and of what came out.

use crate::content;
use crate::content::{
    decode_clipboard_content, image_content, text_content, ClipboardContent, ContentView,
};
use crate::event_loop;
use crate::event_loop::{
    is_ready, run_wayland_event_loop, PollEvents, WaylandOutcome, WaylandStage, X11Outcome,
    X11Stage,
};
use crate::foreign;
use crate::mime;
use crate::mime::{best_offered_mime_type, is_image_mime_type, is_text_mime_type};
use crate::sync;
use crate::sync::{ClipboardType, Forwarding, ForwardingView, Side, SyncCache, SyncEvent};
use crate::text::failure_message;
use crate::x11::atoms;
use crate::x11::atoms::AtomTable;
use crate::x11::fetch;
use crate::x11::incr;
use crate::x11::incr::{Arrived, IncrRead};
use crate::x11::protocol;
use crate::x11::protocol::{
    Command, Event, Polled, PropertyNotifyEvent, Query, Reply, RequestView, SelectionClearEvent,
    SelectionNotifyEvent, SelectionRequestEvent, XfixesSelectionNotifyEvent,
};
use crate::x11::serve;
use crate::x11::serve::Answer;
use crate::x11::setup;
use crate::x11::setup::{Screen, SetupStep, X11Setup};
use crate::x11::state;
use crate::x11::state::X11State;
use crate::x11::steps;
use crate::x11::task::{Step, StepView, Task, TaskView};
use crate::x11::wait::{NotifyWait, Waited};
use compact_str::CompactString;
use vstd::prelude::*;

verus! {

/// A failure message is made of what failed and why.
pub proof fn law_failure_messages(
    context: &str,
    error: &str,
    composed: String,
    command: &Command,
    of_command: String,
    query: &Query,
    of_sending: String,
    of_replying: String,
)
    requires
        call_ensures(failure_message, (context, error), composed),
        call_ensures(Command::failure_message, (command, error), of_command),
        call_ensures(Query::send_failure_message, (query, error), of_sending),
        call_ensures(Query::reply_failure_message, (query, error), of_replying),
    ensures
        composed@ == context@ + ": "@ + error@,
        of_command@ == command.failure@ + ": "@ + error@,
        of_sending@ == query.send_failure@ + ": "@ + error@,
        of_replying@ == query.reply_failure@ + ": "@ + error@,
{
}

/// Three names are recognised as those of text formats, and three as those of image formats.
pub proof fn law_recognised_formats(mime_type: &str, is_text: bool, is_image: bool)
    requires
        call_ensures(is_text_mime_type, (mime_type,), is_text),
        call_ensures(is_image_mime_type, (mime_type,), is_image),
    ensures
        is_text <==> mime_type@ == "text/plain;charset=utf-8"@ || mime_type@ == "text/plain"@
            || mime_type@ == "UTF8_STRING"@,
        is_image <==> mime_type@ == "image/png"@ || mime_type@ == "image/jpeg"@ || mime_type@
            == "image/jpg"@,
{
    mime::law_which_formats_there_are(mime_type@);
}

/// Of the formats offered the most wanted one is chosen: it is offered, and no other format that is
/// offered is wanted more. None is chosen only if none of the formats is offered.
pub proof fn law_best_offer(offered: &[String], best: Option<&'static str>, k: int)
    requires
        call_ensures(best_offered_mime_type, (offered,), best),
        0 <= k < 6,
        mime::is_offered(offered@, mime::preferred_mime_types()[k]),
    ensures
        best matches Some(chosen) && mime::is_offered(offered@, chosen@) && exists|i: int|
            0 <= i <= k && #[trigger] mime::preferred_mime_types()[i] == chosen@,
{
    let chosen = best.unwrap();
    let i = choose|i: int|
        0 <= i < mime::preferred_mime_types().len() && #[trigger] mime::preferred_mime_types()[i]
            == chosen@ && mime::is_offered(offered@, chosen@) && (forall|j: int|
            0 <= j < i ==> !mime::is_offered(
                offered@,
                #[trigger] mime::preferred_mime_types()[j],
            ));
    assert(mime::preferred_mime_types()[i] == chosen@);
    assert(i <= k);
}

/// A format is chosen only if it is offered.
pub proof fn law_only_offers_are_chosen(offered: &[String], best: Option<&'static str>)
    requires
        call_ensures(best_offered_mime_type, (offered,), best),
    ensures
        best matches Some(chosen) ==> mime::is_offered(offered@, chosen@)
            && mime::preferred_mime_types().contains(chosen@),
{
}

/// What a content tells of itself: the length of its bytes, whether it has any, and the format that
/// stands for it. A copy is the same content.
pub proof fn law_what_a_content_tells(
    content: &ClipboardContent,
    len: usize,
    empty: bool,
    primary: Option<&str>,
    copy: ClipboardContent,
)
    requires
        call_ensures(ClipboardContent::len, (content,), len),
        call_ensures(ClipboardContent::is_empty, (content,), empty),
        call_ensures(ClipboardContent::primary_mime_type, (content,), primary),
        call_ensures(ClipboardContent::clone, (content,), copy),
    ensures
        len == match *content {
            ClipboardContent::Text(text) => vstd::utf8::encode_utf8(
                foreign::compact_text(text),
            ).len(),
            ClipboardContent::Data { bytes, .. } => (*bytes)@.len(),
            ClipboardContent::Empty => 0,
        },
        empty <==> len == 0,
        match *content {
            ClipboardContent::Text(_) => primary matches Some(name) && name@
                == "text/plain;charset=utf-8"@,
            ClipboardContent::Data { mime_type, .. } => primary matches Some(name) && name@
                == foreign::compact_text(mime_type),
            ClipboardContent::Empty => primary is None,
        },
        copy@ == content@,
{
}

/// What a content gives out for a format, and the formats it is offered in.
pub proof fn law_what_a_content_gives(
    content: &ClipboardContent,
    mime_type: &str,
    bytes: Option<&[u8]>,
    offered: Vec<&str>,
)
    requires
        call_ensures(ClipboardContent::bytes_for_mime, (content, mime_type), bytes),
        call_ensures(ClipboardContent::offered_mime_types, (content,), offered),
    ensures
        match bytes {
            Some(bytes) => content@.bytes_for(mime_type@) == Some(bytes@),
            None => content@.bytes_for(mime_type@) is None,
        },
        offered@.len() == content@.offered().len(),
        forall|i: int| 0 <= i < offered@.len() ==> #[trigger] offered@[i]@ == content@.offered()[i],
{
}

/// What bytes in a format are decoded to, and what contents are made of the parts.
pub proof fn law_decoding(
    mime_type: &str,
    bytes: Vec<u8>,
    decoded: Result<ClipboardContent, String>,
    hash: u64,
    image: ClipboardContent,
    parsed: Result<CompactString, String>,
    text: Result<ClipboardContent, String>,
)
    requires
        call_ensures(decode_clipboard_content, (mime_type, bytes), decoded),
        call_ensures(image_content, (mime_type, bytes, hash), image),
        call_ensures(text_content, (mime_type, parsed), text),
    ensures
        content::decoded_view(decoded) == content::decode(mime_type@, bytes@),
        image@ == (ContentView::Data { mime_type: mime_type@, bytes: bytes@, hash }),
        match parsed {
            Ok(parsed) => text matches Ok(content) && content@ == ContentView::Text(
                foreign::compact_text(parsed),
            ),
            Err(error) => text matches Err(said) && said@ == content::undecodable(
                mime_type@,
                error@,
            ),
        },
{
}

/// A cache begins with nothing. What comes for a selection is decided on and remembered.
pub proof fn law_forwarding(
    fresh: SyncCache,
    cache: &mut SyncCache,
    content: ClipboardContent,
    clipboard_type: ClipboardType,
    forwarding: Forwarding,
)
    requires
        call_ensures(SyncCache::new, (), fresh),
        call_ensures(SyncCache::forward_content, (cache, content, clipboard_type), forwarding),
    ensures
        fresh@.clipboard is None && fresh@.primary is None,
        (final(cache)@, forwarding@) == sync::forward(old(cache)@, content@, clipboard_type),
{
}

/// A content for a selection is decided on only if it comes from the side that it was said to come
/// from; otherwise it is ignored, and the cache stays as it is.
pub proof fn law_sync_events(
    cache: &mut SyncCache,
    side: Side,
    event: SyncEvent,
    forwarding: Forwarding,
)
    requires
        call_ensures(SyncCache::handle_sync_event, (cache, side, event), forwarding),
    ensures
        match (side, event) {
            (Side::X11, SyncEvent::X11ToWayland { content, clipboard_type }) => (
                final(cache)@,
                forwarding@,
            ) == sync::forward(old(cache)@, content@, clipboard_type),
            (Side::Wayland, SyncEvent::WaylandToX11 { content, clipboard_type }) => (
                final(cache)@,
                forwarding@,
            ) == sync::forward(old(cache)@, content@, clipboard_type),
            _ => final(cache)@ == old(cache)@ && forwarding@ == ForwardingView::Ignored,
        },
{
}

/// The two loops begin with a round, and turn from stage to stage.
pub proof fn law_loops(
    events: Option<PollEvents>,
    needed: bool,
    x11_start: X11Stage,
    x11_stage: X11Stage,
    x11_outcome: X11Outcome,
    x11_accepted: bool,
    x11_next: Result<X11Stage, String>,
    wayland_start: WaylandStage,
    wayland_stage: WaylandStage,
    wayland_outcome: WaylandOutcome,
    wayland_accepted: bool,
    wayland_next: Result<WaylandStage, String>,
)
    requires
        call_ensures(is_ready, (events,), needed),
        call_ensures(X11Stage::start, (), x11_start),
        call_ensures(X11Stage::accepts, (&x11_stage, &x11_outcome), x11_accepted),
        call_ensures(X11State::run_event_loop, (x11_stage, x11_outcome), x11_next),
        call_ensures(WaylandStage::start, (), wayland_start),
        call_ensures(WaylandStage::accepts, (&wayland_stage, &wayland_outcome), wayland_accepted),
        call_ensures(run_wayland_event_loop, (wayland_stage, wayland_outcome), wayland_next),
    ensures
        needed <==> (events matches Some(events) && (events.readable || events.error
            || events.hangup)),
        x11_start == (X11Stage::TakeRequest { worked: false }),
        x11_accepted == x11_stage.fits(x11_outcome@),
        event_loop::result_view(x11_next) == x11_stage.next(x11_outcome@),
        wayland_start == (WaylandStage::TakeRequest { worked: false }),
        wayland_accepted == wayland_stage.fits(wayland_outcome@),
        event_loop::result_view(wayland_next) == wayland_stage.next(wayland_outcome@),
{
}

/// A table of atoms begins empty, and gives for a name the atom that was given to it last.
pub proof fn law_atom_tables(
    fresh: AtomTable,
    table: &mut AtomTable,
    name: &str,
    atom: u32,
    asked: &AtomTable,
    found: Option<u32>,
    count: usize,
    known: bool,
)
    requires
        call_ensures(AtomTable::new, (), fresh),
        call_ensures(AtomTable::insert, (table, name, atom), ()),
        call_ensures(AtomTable::get, (asked, name), found),
        call_ensures(AtomTable::knows_first, (asked, count), known),
    ensures
        fresh@ == Map::<Seq<char>, u32>::empty(),
        final(table)@ == old(table)@.insert(name@, atom),
        match found {
            Some(atom) => asked@.contains_key(name@) && asked@[name@] == atom,
            None => !asked@.contains_key(name@),
        },
        known == atoms::interned_up_to(asked@, count as int),
{
}

/// A wait begins with twenty-five looks, each of which is taken for what it is.
pub proof fn law_waits(
    target: u32,
    property: u32,
    fresh: NotifyWait,
    wait: &mut NotifyWait,
    polled: Polled,
    waited: Waited,
)
    requires
        old(wait).polls_left > 0,
        call_ensures(NotifyWait::new, (target, property), fresh),
        call_ensures(NotifyWait::wait_for_selection_notify, (wait, polled), waited),
    ensures
        fresh == (NotifyWait { target, property, polls_left: 25 }),
        final(wait).target == old(wait).target,
        final(wait).property == old(wait).property,
        final(wait).polls_left + 1 == old(wait).polls_left,
        waited == old(wait).sees(polled),
{
}

/// A transfer begins with nothing and five hundred looks, takes each for what it is, gathers the
/// pieces, and gives them in the end.
pub proof fn law_transfers(
    property: u32,
    fresh: IncrRead,
    looking: &mut IncrRead,
    polled: Polled,
    arrived: Arrived,
    adding: &mut IncrRead,
    type_: u32,
    value: Vec<u8>,
    ended: IncrRead,
    data: Option<(u32, Vec<u8>)>,
)
    requires
        old(looking)@.polls_left > 0,
        call_ensures(IncrRead::new, (property,), fresh),
        call_ensures(IncrRead::handle_poll, (looking, polled), arrived),
        call_ensures(IncrRead::add_piece, (adding, type_, value), ()),
        call_ensures(IncrRead::finish, (ended,), data),
    ensures
        fresh@ == incr::IncrReadView::start(property),
        final(looking)@ == old(looking)@.polled(),
        arrived == old(looking)@.sees(polled),
        final(adding)@ == old(adding)@.with_piece(type_, value@),
        incr::received_view(data) == ended@.received(),
{
}

/// What the X11 side knows when it is made, and what it tells of its atoms.
pub proof fn law_what_the_state_knows(
    window: u32,
    table: AtomTable,
    fresh: X11State,
    state: &X11State,
    name: &str,
    atom: Option<u32>,
    known: bool,
)
    requires
        call_ensures(X11State::new, (window, table), fresh),
        call_ensures(X11State::get_atom, (state, name), atom),
        call_ensures(X11State::knows_all_atoms, (state,), known),
    ensures
        fresh.window == window,
        fresh@.window == window,
        fresh@.atoms == table@,
        fresh@.contents == (sync::Selections { clipboard: None, primary: None }),
        match atom {
            Some(atom) => state@.atoms.contains_key(name@) && state@.atoms[name@] == atom,
            None => !state@.atoms.contains_key(name@),
        },
        known == state@.wf(),
{
}

/// What the X11 side makes of atoms, contents and offers.
pub proof fn law_what_atoms_are_for(
    state: &X11State,
    atom: u32,
    mime_type: Option<&'static str>,
    content: Option<&ClipboardContent>,
    told: Vec<u32>,
    offered: &[u32],
    wanted: Vec<(u32, &'static str)>,
)
    requires
        call_ensures(X11State::mime_type_for_atom, (state, atom), mime_type),
        call_ensures(X11State::target_atoms_for_content, (state, content), told),
        call_ensures(X11State::choose_supported_targets, (state, offered), wanted),
    ensures
        match mime_type {
            Some(mime_type) => state@.mime_for(atom) == Some(mime_type@),
            None => state@.mime_for(atom) is None,
        },
        told@ == state@.targets_for(
            match content {
                Some(content) => Some(content@),
                None => None,
            },
        ),
        state::targets_view(wanted@) == state@.wanted_targets(offered@),
{
}

/// What is written for another client, and how its requests are answered.
pub proof fn law_answering(
    state: &X11State,
    requestor: u32,
    property: u32,
    target: u32,
    content: &ClipboardContent,
    written: Option<Command>,
    event: SelectionRequestEvent,
    held: Option<&ClipboardContent>,
    words: Vec<u32>,
    commands: Vec<Command>,
    answer: Answer,
)
    requires
        state@.wf(),
        call_ensures(
            X11State::write_content_for_target,
            (state, requestor, property, target, content),
            written,
        ),
        call_ensures(X11State::answer_multiple, (state, event, held, words), commands),
        call_ensures(X11State::answer_request, (state, event), answer),
    ensures
        serve::optional_command_view(written) == serve::content_written(
            state@,
            requestor,
            property,
            target,
            content@,
        ),
        protocol::commands_view(commands@) == serve::multiple_answer(
            state@,
            event,
            serve::borrowed_view(held),
            words@,
        ),
        answer@ == serve::answer(state@, event),
{
}

/// What a property that came from an owner is decoded to.
pub proof fn law_decoding_a_selection(
    state: &X11State,
    target: u32,
    property_type: u32,
    bytes: Vec<u8>,
    decoded: Result<Option<ClipboardContent>, String>,
)
    requires
        call_ensures(
            X11State::decode_selection_content,
            (state, target, property_type, bytes),
            decoded,
        ),
    ensures
        fetch::selection_view(decoded) == fetch::selection_content(
            state@,
            target,
            property_type,
            bytes@,
        ),
{
}

/// Setting a selection claims just that selection for our window, with the content in a property of
/// it, and the content is kept for that selection once that has worked.
pub proof fn law_setting_a_selection(
    state: &X11State,
    content: ClipboardContent,
    clipboard_type: ClipboardType,
    mime_type: Seq<char>,
    step: Step,
)
    requires
        state@.wf(),
        content@.primary() == Some(mime_type),
        state@.atoms.contains_key(mime_type),
        call_ensures(X11State::set_clipboard_content, (state, content, clipboard_type), step),
    ensures
        step@ matches StepView::Run { commands, task } && {
            &&& commands.len() == 4
            &&& commands[0].request == (RequestView::ReplaceProperty8 {
                window: state@.window,
                property: state@.atoms[mime_type],
                type_: state@.atoms[mime_type],
                data: content@.bytes(),
            })
            &&& commands[1].request is Flush
            &&& commands[2].request == (RequestView::SetSelectionOwner {
                owner: state@.window,
                selection: match clipboard_type {
                    ClipboardType::Clipboard => state@.atoms["CLIPBOARD"@],
                    ClipboardType::Primary => 1,
                },
                time: 0,
            })
            &&& commands[3].request is Flush
            &&& task == (TaskView::Store { content: content@, clipboard_type })
        },
{
    steps::law_setting_claims_the_selection(state@, content@, clipboard_type, mime_type);
}

/// Setting a selection is refused only for nothing and for a content without an atom for its
/// format.
pub proof fn law_setting_is_refused(
    state: &X11State,
    content: ClipboardContent,
    clipboard_type: ClipboardType,
    step: Step,
)
    requires
        state@.wf(),
        call_ensures(X11State::set_clipboard_content, (state, content, clipboard_type), step),
    ensures
        content@ is Empty ==> step@ == StepView::Done(Err("Cannot set empty clipboard content"@)),
        content@ matches ContentView::Data { mime_type, .. } ==> (!state@.atoms.contains_key(
            mime_type,
        ) ==> step@ == StepView::Done(Err("MIME atom not interned: "@ + mime_type))),
        content@ is Text ==> step@ is Run,
{
    atoms::law_needed_names(state@.atoms);
}

/// A request for the content of a selection begins with the question who owns that selection, and
/// so does, quietly, what follows the news of another owner.
pub proof fn law_requesting(
    state: &X11State,
    clipboard_type: ClipboardType,
    step: Step,
    event: XfixesSelectionNotifyEvent,
    quietly: Step,
)
    requires
        state@.wf(),
        call_ensures(X11State::request_clipboard_content, (state, clipboard_type), step),
        call_ensures(X11State::handle_xfixes_selection_notify, (state, event), quietly),
    ensures
        step@ == fetch::requested(state@, clipboard_type, false),
        event.owner == state@.window || event.owner == 0 ==> quietly@ == StepView::Done(Ok(None)),
        event.owner != state@.window && event.owner != 0 ==> quietly@ == fetch::requested(
            state@,
            if event.selection == state@.atoms["CLIPBOARD"@] {
                ClipboardType::Clipboard
            } else {
                ClipboardType::Primary
            },
            true,
        ),
{
}

/// Requests of other clients are served, notified contents are read, lost selections forgotten, and
/// changes of properties passed over.
pub proof fn law_handling_one_by_one(
    state: &X11State,
    request: SelectionRequestEvent,
    served: Step,
    notify: SelectionNotifyEvent,
    read: Step,
    losing: &mut X11State,
    clear: SelectionClearEvent,
    lost: Result<(), String>,
    change: PropertyNotifyEvent,
    passed: Result<(), String>,
)
    requires
        state@.wf(),
        old(losing)@.wf(),
        call_ensures(X11State::handle_selection_request, (state, request), served),
        call_ensures(X11State::handle_selection_notify, (state, notify), read),
        call_ensures(X11State::handle_selection_clear, (losing, clear), lost),
        call_ensures(X11State::handle_property_notify, (state, change), passed),
    ensures
        served@ == fetch::served(state@, request),
        read@ == fetch::handled(state@, Event::SelectionNotify(notify)).1,
        lost is Ok,
        final(losing)@ == fetch::handled(old(losing)@, Event::SelectionClear(clear)).0,
        passed is Ok,
{
}

/// An event leads to what it calls for, and a task goes on with what came of its exchange.
pub proof fn law_handling_and_resuming(
    handling: &mut X11State,
    event: Event,
    begun: Step,
    resuming: &mut X11State,
    task: Task,
    reply: Reply,
    words: Vec<u32>,
    resumed: Step,
)
    requires
        old(handling)@.wf(),
        old(resuming)@.wf(),
        task@.wf(),
        task@.accepts(reply@),
        call_ensures(X11State::handle_event, (handling, event), begun),
        call_ensures(X11State::resume_with_words, (resuming, task, reply, words), resumed),
    ensures
        (final(handling)@, begun@) == fetch::handled(old(handling)@, event),
        final(handling)@.wf(),
        begun@.wf(),
        (final(resuming)@, resumed@) == fetch::resumed(old(resuming)@, task@, reply@, words@),
        final(resuming)@.wf(),
        resumed@.wf(),
{
}

/// A task goes on with the words of the list that came, if one came and it was one of words.
pub proof fn law_resuming_with_a_list(
    state: &mut X11State,
    task: Task,
    reply: Reply,
    step: Step,
    accepted: bool,
)
    requires
        old(state)@.wf(),
        task@.wf(),
        task@.accepts(reply@),
        call_ensures(X11State::resume, (state, task, reply), step),
        call_ensures(Task::accepts, (&task, &reply), accepted),
    ensures
        accepted,
        exists|words: Seq<u32>|
            #![trigger fetch::words_in(task@, reply@, words)]
            fetch::words_in(task@, reply@, words) && (final(state)@, step@) == fetch::resumed(
                old(state)@,
                task@,
                reply@,
                words,
            ),
{
}

/// A task is taken up only when it can be, and with what it waits for.
pub proof fn law_accepting(
    task: &Task,
    setup: &X11Setup,
    reply: &Reply,
    by_task: bool,
    by_setup: bool,
)
    requires
        call_ensures(Task::accepts, (task, reply), by_task),
        call_ensures(X11Setup::accepts, (setup, reply), by_setup),
    ensures
        by_task <==> task@.wf() && task@.accepts(reply@),
        by_setup <==> setup@.wf() && setup@.accepts(reply@),
{
}

/// The preparations begin with the question for a window, and go on with what came of the last
/// exchange.
pub proof fn law_preparing(
    screen: Screen,
    begun: SetupStep,
    preparing: X11Setup,
    reply: Reply,
    resumed: SetupStep,
)
    requires
        preparing@.wf(),
        preparing@.accepts(reply@),
        call_ensures(X11Setup::start, (screen,), begun),
        call_ensures(X11Setup::resume, (preparing, reply), resumed),
    ensures
        begun@ == setup::started(screen),
        begun@.wf(),
        resumed@ == setup::setup_resumed(preparing@, reply@),
        resumed@.wf(),
{
}

} // verus!
