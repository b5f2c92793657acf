//! Clipboard synchronisation between X11 and Wayland.
//!
//! The crate holds every decision of the bridge: which formats are carried, what a clipboard
//! content is, when it is forwarded, how the X11 side answers and makes selection requests, and
//! how the two event loops turn. Talking to the display servers is left to the program around it,
//! which performs the commands and queries that the functions here hand out and feeds the replies
//! back.

pub mod content;
pub mod event_loop;
pub mod foreign;
pub mod mime;
pub mod operations;
pub mod sync;
pub mod text;
pub mod x11;

pub use content::{decode_clipboard_content, ClipboardContent};
pub use mime::{
    is_image_mime_type, is_text_mime_type, CLIPBOARD_ATOM, IMAGE_JPEG_MIME, IMAGE_JPG_MIME,
    IMAGE_MIME_TYPES, IMAGE_PNG_MIME, INCR_ATOM, MULTIPLE_ATOM, PREFERRED_MIME_TYPES,
    PRIMARY_ATOM, TARGETS_ATOM, TEXT_MIME_TYPES, TEXT_PLAIN_ATOM, TEXT_PLAIN_UTF8_ATOM,
    UTF8_STRING_ATOM,
};
pub use sync::{ClipboardType, SyncEvent};
