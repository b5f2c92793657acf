use clip_bridge::sync::{Forwarding, Side, SyncCache};
use clip_bridge::{decode_clipboard_content, ClipboardContent, ClipboardType, SyncEvent};
use compact_str::ToCompactString;

fn text(content: &str) -> ClipboardContent {
    ClipboardContent::Text(content.to_compact_string())
}

fn is_sent(forwarding: Forwarding, content: &ClipboardContent, selection: ClipboardType) -> bool {
    match forwarding {
        Forwarding::Send { content: sent, clipboard_type } => {
            sent == *content && clipboard_type == selection
        }
        _ => false,
    }
}

#[test]
fn new_content_is_forwarded_once() {
    let mut cache = SyncCache::new();
    let forwarding = cache.forward_content(text("a"), ClipboardType::Clipboard);
    assert!(is_sent(forwarding, &text("a"), ClipboardType::Clipboard));
    let forwarding = cache.forward_content(text("a"), ClipboardType::Clipboard);
    assert!(matches!(forwarding, Forwarding::Unchanged));
    let forwarding = cache.forward_content(text("b"), ClipboardType::Clipboard);
    assert!(is_sent(forwarding, &text("b"), ClipboardType::Clipboard));
}

#[test]
fn equal_images_are_not_forwarded_again() {
    let mut cache = SyncCache::new();
    let image = decode_clipboard_content("image/png", vec![1, 2, 3]).unwrap();
    let forwarding = cache.forward_content(image.clone(), ClipboardType::Primary);
    assert!(is_sent(forwarding, &image, ClipboardType::Primary));
    let again = decode_clipboard_content("image/png", vec![1, 2, 3]).unwrap();
    let forwarding = cache.forward_content(again, ClipboardType::Primary);
    assert!(matches!(forwarding, Forwarding::Unchanged));
}

#[test]
fn the_selections_are_independent() {
    let mut cache = SyncCache::new();
    cache.forward_content(text("a"), ClipboardType::Clipboard);
    let forwarding = cache.forward_content(text("a"), ClipboardType::Primary);
    assert!(is_sent(forwarding, &text("a"), ClipboardType::Primary));
    let forwarding = cache.forward_content(text("a"), ClipboardType::Clipboard);
    assert!(matches!(forwarding, Forwarding::Unchanged));
}

#[test]
fn nothing_clears_the_cache() {
    let mut cache = SyncCache::new();
    cache.forward_content(text("a"), ClipboardType::Clipboard);
    let forwarding = cache.forward_content(ClipboardContent::Empty, ClipboardType::Clipboard);
    assert!(matches!(forwarding, Forwarding::Cleared));
    let forwarding = cache.forward_content(text("a"), ClipboardType::Clipboard);
    assert!(is_sent(forwarding, &text("a"), ClipboardType::Clipboard));
}

#[test]
fn an_echo_is_not_forwarded() {
    let mut cache = SyncCache::new();
    let event = SyncEvent::X11ToWayland {
        content: text("a"),
        clipboard_type: ClipboardType::Clipboard,
    };
    let forwarding = cache.handle_sync_event(Side::X11, event);
    assert!(is_sent(forwarding, &text("a"), ClipboardType::Clipboard));
    let echo = SyncEvent::WaylandToX11 {
        content: text("a"),
        clipboard_type: ClipboardType::Clipboard,
    };
    let forwarding = cache.handle_sync_event(Side::Wayland, echo);
    assert!(matches!(forwarding, Forwarding::Unchanged));
}

#[test]
fn events_from_the_wrong_side_are_ignored() {
    let mut cache = SyncCache::new();
    let event = SyncEvent::WaylandToX11 {
        content: text("a"),
        clipboard_type: ClipboardType::Clipboard,
    };
    assert!(matches!(cache.handle_sync_event(Side::X11, event), Forwarding::Ignored));
    let event = SyncEvent::WaylandToX11 {
        content: text("a"),
        clipboard_type: ClipboardType::Clipboard,
    };
    let forwarding = cache.handle_sync_event(Side::Wayland, event);
    assert!(is_sent(forwarding, &text("a"), ClipboardType::Clipboard));
}
