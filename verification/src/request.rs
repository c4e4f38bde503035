use vstd::prelude::*;

verus! {

/// A native call whose status the layer discards.
///
/// Operations of this layer never touch the display server themselves: each
/// one returns the exact `Request` values to issue, in order. The
/// surrounding process performs them against the real server and ignores
/// their status codes, matching the native convention for fire-and-forget
/// calls. Calls whose results the layer does depend on (opening the
/// display, creating a window, mapping a segment) are instead fed back into
/// the layer as plain values.
#[derive(Debug, Clone, Copy, PartialEq, Eq, Structural)]
pub enum Request {
    /// Register the delete-window atom as a supported close protocol, so
    /// the window manager asks instead of force-killing the window.
    SetWmProtocols { window: u64, delete_window: u64 },
    /// Select the classes of events the window reports.
    SelectInput { window: u64, event_mask: i64 },
    /// Set the window's display name; the validated text travels beside
    /// the request.
    StoreName { window: u64 },
    /// Map the window, making it visible.
    MapWindow { window: u64 },
    /// Block until the server has processed every request issued so far.
    Sync,
    /// Bind the native image descriptor's data pointer to the mapped
    /// segment address.
    BindImageData { image: u64, address: u64 },
    /// Blit the full image rectangle to a window at the given offset.
    PutImage { window: u64, gc: u64, image: u64, dst_x: i32, dst_y: i32, width: u32, height: u32 },
    /// Detach the shared segment from the display server.
    ShmDetach { segment: i32 },
    /// Destroy the native image descriptor.
    DestroyImage { image: u64 },
    /// Unmap the shared segment from this process's address space.
    SegmentDetach { address: u64 },
    /// Mark the shared-memory identifier for removal.
    SegmentRemove { segment: i32 },
    /// Destroy the native window.
    DestroyWindow { window: u64 },
    /// Free the native graphics context.
    FreeGc { gc: u64 },
    /// Close the connection to the display server.
    CloseDisplay,
}

} // verus!
