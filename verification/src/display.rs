use vstd::prelude::*;

use crate::errors::X11Error;
use crate::errors::failed_with;
use crate::request::Request;

verus! {

/// A connection to the display server, wrapping one opaque native handle.
///
/// The handle stays non-null for the object's lifetime, and the connection
/// is closed exactly once, by [`Display::close`], after every dependent
/// window, graphics context and image borrowed from it is gone — the
/// borrow checker enforces that order.
#[derive(Debug)]
pub struct Display {
    handle: u64,
}

impl Display {
    /// The native connection handle.
    pub closed spec fn handle(&self) -> u64 {
        self.handle
    }

    /// Well-formed: the native handle is non-null.
    pub open spec fn wf(&self) -> bool {
        self.handle() != 0
    }

    /// Interprets the outcome of the native open call: `handle` is the
    /// value the call returned, zero standing for the null sentinel.
    pub fn open(handle: u64) -> (r: Result<Display, X11Error>)
        ensures
            handle == 0 ==> failed_with(r, "open display"@),
            handle != 0 ==> (r matches Ok(d) && d.handle() == handle),
    {
        if handle == 0 {
            Err(X11Error::from("open display"))
        } else {
            Ok(Display { handle })
        }
    }

    /// The synchronize request: the server must process every request
    /// issued so far before the caller goes on.
    pub fn sync(&self) -> (r: Request)
        ensures
            r == Request::Sync,
    {
        Request::Sync
    }

    /// Teardown: close the native connection. Consuming `self` makes the
    /// close happen exactly once, and only once nothing borrows the
    /// connection any more.
    pub fn close(self) -> (r: Request)
        ensures
            r == Request::CloseDisplay,
    {
        Request::CloseDisplay
    }
}

} // verus!
