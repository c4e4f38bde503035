//! A safety layer over a minimal subset of the X11 windowing protocol:
//! display connections, window lifecycle, graphics contexts, shared-memory
//! image blitting, and non-blocking event polling.
//!
//! Every native side effect is represented as a [`Request`] value that the
//! surrounding process issues against the real server; every decision the
//! layer makes (sentinel decoding, event classification, teardown ordering,
//! pixel packing) is verified here.

mod display;
mod errors;
mod gc;
mod request;
mod shm;
mod window;

pub use crate::display::Display;
pub use crate::errors::X11Error;
pub use crate::errors::failed_with;
pub use crate::request::Request;
pub use crate::gc::GC;
pub use crate::shm::{
    BYTES_PER_PIXEL, IMAGE_DEPTH, IPC_CREAT, IPC_PRIVATE_KEY, MAP_FAILED_ADDRESS, PendingImage,
    PendingSegment, SEGMENT_FLAGS, SEGMENT_PERMS, SegmentInfo, SharedMemory, ShmImage, ZPIXMAP,
    descriptor_size_matches, image_byte_size, lemma_write_pixel_readback, pixel_byte,
    pixel_offset, size_fits, write_pixel, zero_buffer,
};
pub use crate::window::{
    BUTTON_PRESS_MASK, CLIENT_MESSAGE, CW_BACK_PIXEL, CW_BORDER_PIXEL, CW_OVERRIDE_REDIRECT,
    ClientMessage, CreationPlan, EXPOSE, EXPOSURE_MASK, Event, INPUT_OUTPUT, KEY_PRESS,
    KEY_PRESS_MASK, POLL_EVENT_MASK, STRUCTURE_NOTIFY_MASK, WINDOW_ATTRIBUTE_MASK,
    WINDOW_DEPTH, WINDOW_EVENT_MASK, Window, WindowEvent, check_event_result,
    classify_client_message, classify_window_event, lemma_close_request_is_delete,
    lemma_no_pending_event_is_none,
};
