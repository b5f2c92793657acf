//! Forwarding contents from one display server to the other.

use crate::content::ClipboardContent;
use crate::content;
use vstd::prelude::*;

verus! {

/// Which of a display server's two selections a content belongs to.
#[derive(Debug, Clone, Copy, PartialEq, Eq, Structural)]
pub enum ClipboardType {
    Clipboard,
    Primary,
}

/// A display server a content comes from.
#[derive(Debug, Clone, Copy, PartialEq, Eq, Structural)]
pub enum Side {
    X11,
    Wayland,
}

/// A content that appeared on one side and is meant for the other.
#[derive(Debug)]
pub enum SyncEvent {
    X11ToWayland { content: ClipboardContent, clipboard_type: ClipboardType },
    WaylandToX11 { content: ClipboardContent, clipboard_type: ClipboardType },
}

/// A sync event as plain values.
pub struct SyncEventView {
    /// The side the content appeared on.
    pub from: Side,
    pub content: content::ContentView,
    pub clipboard_type: ClipboardType,
}

impl View for SyncEvent {
    type V = SyncEventView;

    open spec fn view(&self) -> SyncEventView {
        match self {
            SyncEvent::X11ToWayland { content, clipboard_type } => SyncEventView {
                from: Side::X11,
                content: content@,
                clipboard_type: *clipboard_type,
            },
            SyncEvent::WaylandToX11 { content, clipboard_type } => SyncEventView {
                from: Side::Wayland,
                content: content@,
                clipboard_type: *clipboard_type,
            },
        }
    }
}

/// The content forwarded last for each selection, whichever side it came from.
#[derive(Debug)]
pub struct SyncCache {
    clipboard: Option<ClipboardContent>,
    primary: Option<ClipboardContent>,
}

/// The plain values of an optional content.
pub open spec fn optional_view(content: Option<ClipboardContent>) -> Option<content::ContentView> {
    match content {
        Some(content) => Some(content@),
        None => None,
    }
}

/// One optional content for each selection.
#[verifier::ext_equal]
pub struct Selections {
    pub clipboard: Option<content::ContentView>,
    pub primary: Option<content::ContentView>,
}

impl Selections {
    /// The content of one selection.
    pub open spec fn of(self, clipboard_type: ClipboardType) -> Option<content::ContentView> {
        match clipboard_type {
            ClipboardType::Clipboard => self.clipboard,
            ClipboardType::Primary => self.primary,
        }
    }

    /// The same contents but for one selection.
    pub open spec fn with(
        self,
        clipboard_type: ClipboardType,
        content: Option<content::ContentView>,
    ) -> Selections {
        match clipboard_type {
            ClipboardType::Clipboard => Selections { clipboard: content, ..self },
            ClipboardType::Primary => Selections { primary: content, ..self },
        }
    }
}

impl View for SyncCache {
    type V = Selections;

    closed spec fn view(&self) -> Selections {
        Selections {
            clipboard: optional_view(self.clipboard),
            primary: optional_view(self.primary),
        }
    }
}

/// What becomes of a content.
#[derive(Debug)]
pub enum Forwarding {
    /// It goes to the other side.
    Send { content: ClipboardContent, clipboard_type: ClipboardType },
    /// It is what was forwarded last: it stays where it is.
    Unchanged,
    /// There is nothing to send, and what was forwarded last is forgotten.
    Cleared,
    /// The event does not belong to the side it came from.
    Ignored,
}

/// What becomes of a content, as plain values.
pub enum ForwardingView {
    Send { content: content::ContentView, clipboard_type: ClipboardType },
    Unchanged,
    Cleared,
    Ignored,
}

impl View for Forwarding {
    type V = ForwardingView;

    open spec fn view(&self) -> ForwardingView {
        match self {
            Forwarding::Send { content, clipboard_type } => ForwardingView::Send {
                content: content@,
                clipboard_type: *clipboard_type,
            },
            Forwarding::Unchanged => ForwardingView::Unchanged,
            Forwarding::Cleared => ForwardingView::Cleared,
            Forwarding::Ignored => ForwardingView::Ignored,
        }
    }
}

/// Whether `cached` is there and counts as equal to `content`.
pub open spec fn is_cached(
    cached: Option<content::ContentView>,
    content: content::ContentView,
) -> bool {
    cached matches Some(cached) && cached.same_as(content)
}

/// What becomes of a content when `cache` was forwarded last, and what the cache holds afterwards.
pub open spec fn forward(
    cache: Selections,
    content: content::ContentView,
    clipboard_type: ClipboardType,
) -> (Selections, ForwardingView) {
    if content is Empty {
        (cache.with(clipboard_type, None), ForwardingView::Cleared)
    } else if is_cached(cache.of(clipboard_type), content) {
        (cache, ForwardingView::Unchanged)
    } else {
        (
            cache.with(clipboard_type, Some(content)),
            ForwardingView::Send { content, clipboard_type },
        )
    }
}

fn holds(cached: &Option<ClipboardContent>, content: &ClipboardContent) -> (same: bool)
    ensures
        same == is_cached(optional_view(*cached), content@),
{
    match cached {
        Some(cached) => *cached == *content,
        None => false,
    }
}

impl SyncCache {
    /// A cache that remembers nothing.
    pub fn new() -> (cache: SyncCache)
        ensures
            cache@ == (Selections { clipboard: None, primary: None }),
    {
        SyncCache { clipboard: None, primary: None }
    }

    fn remember(&mut self, clipboard_type: ClipboardType, content: Option<ClipboardContent>)
        ensures
            final(self)@ == old(self)@.with(clipboard_type, optional_view(content)),
    {
        match clipboard_type {
            ClipboardType::Clipboard => {
                self.clipboard = content;
            },
            ClipboardType::Primary => {
                self.primary = content;
            },
        }
    }

    /// Decides what becomes of a content that appeared in a selection of either side: it is sent
    /// on unless it equals what was sent last for that selection.
    pub fn forward_content(
        &mut self,
        content: ClipboardContent,
        clipboard_type: ClipboardType,
    ) -> (forwarding: Forwarding)
        ensures
            (final(self)@, forwarding@) == forward(old(self)@, content@, clipboard_type),
    {
        let unchanged = match clipboard_type {
            ClipboardType::Clipboard => holds(&self.clipboard, &content),
            ClipboardType::Primary => holds(&self.primary, &content),
        };
        match content {
            ClipboardContent::Empty => {
                self.remember(clipboard_type, None);
                Forwarding::Cleared
            },
            content => {
                if unchanged {
                    Forwarding::Unchanged
                } else {
                    self.remember(clipboard_type, Some(content.clone()));
                    Forwarding::Send { content, clipboard_type }
                }
            },
        }
    }

    /// Decides what becomes of an event that came from `side`. What is sent goes to the other
    /// side.
    pub fn handle_sync_event(&mut self, side: Side, event: SyncEvent) -> (forwarding: Forwarding)
        ensures
            (final(self)@, forwarding@) == (if event@.from == side {
                forward(old(self)@, event@.content, event@.clipboard_type)
            } else {
                (old(self)@, ForwardingView::Ignored)
            }),
    {
        match (side, event) {
            (Side::X11, SyncEvent::X11ToWayland { content, clipboard_type }) => {
                self.forward_content(content, clipboard_type)
            },
            (Side::Wayland, SyncEvent::WaylandToX11 { content, clipboard_type }) => {
                self.forward_content(content, clipboard_type)
            },
            _ => Forwarding::Ignored,
        }
    }
}

/// A content that has been forwarded, or found to be forwarded already, is not forwarded again
/// when an equal one comes for the same selection, from whichever side, and the cache stays as it
/// is: an echo from the other side ends here.
pub proof fn law_no_echo(
    cache: Selections,
    content: content::ContentView,
    echo: content::ContentView,
    clipboard_type: ClipboardType,
)
    requires
        content !is Empty,
        content.same_as(echo),
    ensures
        ({
            let after = forward(cache, content, clipboard_type).0;
            forward(after, echo, clipboard_type) == (after, ForwardingView::Unchanged)
        }),
{
    if is_cached(cache.of(clipboard_type), content) {
        content::law_equality_is_an_equivalence(cache.of(clipboard_type).unwrap(), content, echo);
    }
}

/// A content that differs from what was forwarded last for its selection is forwarded as it is,
/// and so is any content once the selection has been cleared.
pub proof fn law_news_is_forwarded(
    cache: Selections,
    content: content::ContentView,
    clipboard_type: ClipboardType,
)
    requires
        content !is Empty,
    ensures
        !is_cached(cache.of(clipboard_type), content) ==> forward(cache, content, clipboard_type).1
            == (ForwardingView::Send { content, clipboard_type }),
        forward(
            forward(cache, content::ContentView::Empty, clipboard_type).0,
            content,
            clipboard_type,
        ).1 == (ForwardingView::Send { content, clipboard_type }),
{
}

/// Forwarding for one selection leaves what is remembered for the other alone.
pub proof fn law_selections_are_independent(
    cache: Selections,
    content: content::ContentView,
    clipboard_type: ClipboardType,
    other: ClipboardType,
)
    requires
        clipboard_type != other,
    ensures
        forward(cache, content, clipboard_type).0.of(other) == cache.of(other),
{
}

/// Whether a content is sent depends on the content and on what was sent last for its selection,
/// and on nothing else. A text is sent exactly if it differs in any character from the text sent
/// last, an image exactly if its hash differs from that of the image sent last, and either if
/// something of the other sort, or nothing, was sent last. What is sent is remembered; nothing is
/// not sent, and has what was sent last forgotten.
pub proof fn law_what_is_forwarded(cache: Selections, content: content::ContentView)
    ensures
        ({
            let (after, forwarding) = forward(cache, content, ClipboardType::Clipboard);
            &&& after.primary == cache.primary
            &&& match (content, cache.clipboard) {
                (content::ContentView::Empty, _) => after.clipboard is None && forwarding
                    == ForwardingView::Cleared,
                (
                    content::ContentView::Text(text),
                    Some(content::ContentView::Text(last)),
                ) if text == last => after.clipboard == cache.clipboard && forwarding
                    == ForwardingView::Unchanged,
                (
                    content::ContentView::Data { hash, .. },
                    Some(content::ContentView::Data { hash: last, .. }),
                ) if hash == last => after.clipboard == cache.clipboard && forwarding
                    == ForwardingView::Unchanged,
                _ => after.clipboard == Some(content) && forwarding == (ForwardingView::Send {
                    content,
                    clipboard_type: ClipboardType::Clipboard,
                }),
            }
        }),
        ({
            let (after, forwarding) = forward(cache, content, ClipboardType::Primary);
            &&& after.clipboard == cache.clipboard
            &&& match (content, cache.primary) {
                (content::ContentView::Empty, _) => after.primary is None && forwarding
                    == ForwardingView::Cleared,
                (
                    content::ContentView::Text(text),
                    Some(content::ContentView::Text(last)),
                ) if text == last => after.primary == cache.primary && forwarding
                    == ForwardingView::Unchanged,
                (
                    content::ContentView::Data { hash, .. },
                    Some(content::ContentView::Data { hash: last, .. }),
                ) if hash == last => after.primary == cache.primary && forwarding
                    == ForwardingView::Unchanged,
                _ => after.primary == Some(content) && forwarding == (ForwardingView::Send {
                    content,
                    clipboard_type: ClipboardType::Primary,
                }),
            }
        }),
{
}

/// Of two texts that come one after the other for a selection, the second is forwarded exactly if
/// it has other characters than the first.
pub proof fn law_changed_text_is_forwarded(
    cache: Selections,
    clipboard_type: ClipboardType,
    first: Seq<char>,
    second: Seq<char>,
)
    ensures
        ({
            let after = forward(cache, content::ContentView::Text(first), clipboard_type).0;
            forward(after, content::ContentView::Text(second), clipboard_type).1 == if first
                == second {
                ForwardingView::Unchanged
            } else {
                ForwardingView::Send {
                    content: content::ContentView::Text(second),
                    clipboard_type,
                }
            }
        }),
{
}

/// Each of the two selections has its own place, and changing one leaves the other alone.
pub proof fn law_places_of_the_selections(
    selections: Selections,
    content: Option<content::ContentView>,
)
    ensures
        selections.of(ClipboardType::Clipboard) == selections.clipboard,
        selections.of(ClipboardType::Primary) == selections.primary,
        selections.with(ClipboardType::Clipboard, content).clipboard == content,
        selections.with(ClipboardType::Clipboard, content).primary == selections.primary,
        selections.with(ClipboardType::Primary, content).primary == content,
        selections.with(ClipboardType::Primary, content).clipboard == selections.clipboard,
{
}

/// The plain values of events, of decisions and of optional contents leave nothing out: an event
/// comes from the side that its name begins with.
pub proof fn law_view_of_an_event(
    event: SyncEvent,
    forwarding: Forwarding,
    optional: Option<ClipboardContent>,
)
    ensures
        match event {
            SyncEvent::X11ToWayland { content, clipboard_type } => event@ == (SyncEventView {
                from: Side::X11,
                content: content@,
                clipboard_type,
            }),
            SyncEvent::WaylandToX11 { content, clipboard_type } => event@ == (SyncEventView {
                from: Side::Wayland,
                content: content@,
                clipboard_type,
            }),
        },
        match forwarding {
            Forwarding::Send { content, clipboard_type } => forwarding@ == (ForwardingView::Send {
                content: content@,
                clipboard_type,
            }),
            Forwarding::Unchanged => forwarding@ == ForwardingView::Unchanged,
            Forwarding::Cleared => forwarding@ == ForwardingView::Cleared,
            Forwarding::Ignored => forwarding@ == ForwardingView::Ignored,
        },
        match optional {
            Some(content) => optional_view(optional) == Some(content@),
            None => optional_view(optional) is None,
        },
{
}

} // verus!
