use vstd::prelude::*;

use crate::errors::X11Error;
use crate::errors::failed_with;
use crate::request::Request;
use crate::window::Window;

verus! {

/// A graphics context scoped to one window.
///
/// It holds the native context handle; the borrow of the window keeps the
/// context from outliving the surface it draws into.
#[derive(Debug)]
pub struct GC<'a> {
    window: &'a Window<'a>,
    gc: u64,
}

impl<'a> GC<'a> {
    /// The native graphics-context handle.
    pub closed spec fn spec_handle(&self) -> u64 {
        self.gc
    }

    /// The native graphics-context handle.
    #[verifier::when_used_as_spec(spec_handle)]
    pub fn handle(&self) -> (r: u64)
        ensures
            r == self.spec_handle(),
    {
        self.gc
    }

    /// The identifier of the window the context draws into.
    pub closed spec fn window_id(&self) -> u64 {
        self.window.window_id()
    }

    /// Well-formed: the native handle is non-null and the window is sound.
    pub open spec fn wf(&self) -> bool {
        self.handle() != 0 && self.window_id() != 0
    }

    /// Interprets the outcome of the native context-create call:
    /// `gc_handle` is the value the call returned, zero standing for the
    /// null sentinel.
    pub fn create(window: &'a Window<'a>, gc_handle: u64) -> (r: Result<GC<'a>, X11Error>)
        requires
            window.wf(),
        ensures
            gc_handle == 0 ==> failed_with(r, "create gc"@),
            gc_handle != 0 ==> (r matches Ok(g) && g.handle() == gc_handle && g.window_id()
                == window.window_id() && g.wf()),
    {
        if gc_handle == 0 {
            Err(X11Error::from("create gc"))
        } else {
            Ok(GC { window, gc: gc_handle })
        }
    }

    /// Teardown: free the native graphics context. Consuming `self` makes
    /// the free happen exactly once.
    pub fn free(self) -> (r: Request)
        ensures
            r == (Request::FreeGc { gc: self.handle() }),
    {
        Request::FreeGc { gc: self.gc }
    }
}

} // verus!
