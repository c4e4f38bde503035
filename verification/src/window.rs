use vstd::prelude::*;
use vstd::string::StrSliceExecFns;

use crate::display::Display;
use crate::errors::X11Error;
use crate::errors::failed_with;
use crate::request::Request;

verus! {

/// Protocol code of a key-press event.
pub const KEY_PRESS: u32 = 2;
/// Protocol code of an expose (region needs redraw) event.
pub const EXPOSE: u32 = 12;
/// Protocol code of a client-message event.
pub const CLIENT_MESSAGE: u32 = 33;

/// Event mask bit: report key presses.
pub const KEY_PRESS_MASK: i64 = 1;
/// Event mask bit: report button presses.
pub const BUTTON_PRESS_MASK: i64 = 4;
/// Event mask bit: report exposures.
pub const EXPOSURE_MASK: i64 = 32768;
/// Event mask bit: report structure changes.
pub const STRUCTURE_NOTIFY_MASK: i64 = 131072;

/// The classes of events a freshly created window reports.
pub const WINDOW_EVENT_MASK: i64 = KEY_PRESS_MASK | BUTTON_PRESS_MASK | EXPOSURE_MASK
    | STRUCTURE_NOTIFY_MASK;
/// The classes the second polling step asks for.
pub const POLL_EVENT_MASK: i64 = KEY_PRESS_MASK | EXPOSURE_MASK;

/// Window attribute mask bit: the background pixel is set.
pub const CW_BACK_PIXEL: u64 = 2;
/// Window attribute mask bit: the border pixel is set.
pub const CW_BORDER_PIXEL: u64 = 8;
/// Window attribute mask bit: override-redirect is set.
pub const CW_OVERRIDE_REDIRECT: u64 = 512;
/// The fixed attribute mask every window of this layer is created with.
pub const WINDOW_ATTRIBUTE_MASK: u64 = CW_OVERRIDE_REDIRECT | CW_BACK_PIXEL | CW_BORDER_PIXEL;

/// Window class: the window both receives input and is drawable.
pub const INPUT_OUTPUT: u32 = 1;
/// The fixed color depth every window of this layer is created with.
pub const WINDOW_DEPTH: i32 = 24;

/// An event this layer reports to its caller.
#[derive(Debug, Clone, Copy, PartialEq, Eq, Structural)]
pub enum Event {
    /// A key was pressed; the payload is the native key code.
    Key(u32),
    /// The window manager asked the window to close.
    Delete,
    /// A region of the window needs redrawing.
    Expose,
}

/// A queued client-message event, reduced to the two fields this layer
/// reads: the message's type atom and its first data word, reinterpreted
/// as an atom.
#[derive(Debug, Clone, Copy, PartialEq, Eq, Structural)]
pub struct ClientMessage {
    pub message_type: u64,
    pub data0: u64,
}

/// A queued window event, reduced to the two fields this layer reads:
/// its protocol type code and its key code (meaningful for key presses).
#[derive(Debug, Clone, Copy, PartialEq, Eq, Structural)]
pub struct WindowEvent {
    pub event_type: u32,
    pub keycode: u32,
}

/// The native window-create call this layer asks for: everything but the
/// dimensions is fixed, and the two protocol-atom names to intern come
/// along with it.
pub struct CreationPlan {
    pub x: i32,
    pub y: i32,
    pub width: u32,
    pub height: u32,
    pub border_width: u32,
    pub depth: i32,
    pub class: u32,
    pub attribute_mask: u64,
    pub protocols_atom_name: &'static str,
    pub delete_atom_name: &'static str,
}

/// How a client message is classified against the window's two cached
/// protocol atoms: a close request exactly when the message's type is the
/// protocols atom and its first word is the delete-window atom.
pub open spec fn classify_client_message(
    wm_protocols: u64,
    wm_delete_window: u64,
    m: ClientMessage,
) -> Option<Event> {
    if m.message_type == wm_protocols && m.data0 == wm_delete_window {
        Some(Event::Delete)
    } else {
        None
    }
}

/// How a polled window event is classified: key presses and exposures are
/// reported, anything else is dropped per native semantics.
pub open spec fn classify_window_event(e: WindowEvent) -> Option<Event> {
    if e.event_type == KEY_PRESS {
        Some(Event::Key(e.keycode))
    } else if e.event_type == EXPOSE {
        Some(Event::Expose)
    } else {
        None
    }
}

/// The whole non-blocking poll: the client-message check runs first and
/// wins when it matches the registered close protocol; otherwise whatever
/// the second check returned is classified. The second poll is made only
/// when the first step yields nothing.
pub open spec fn check_event_result(
    wm_protocols: u64,
    wm_delete_window: u64,
    first: Option<ClientMessage>,
    second: Option<WindowEvent>,
) -> Option<Event> {
    if first matches Some(m) && classify_client_message(wm_protocols, wm_delete_window, m)
        is Some {
        Some(Event::Delete)
    } else {
        match second {
            Some(e) => classify_window_event(e),
            None => None,
        }
    }
}

/// A top-level window on a display connection.
///
/// It holds the native window identifier (non-zero once construction
/// succeeds) and the two cached protocol atoms used to recognize close
/// requests. The borrow of the display keeps the window from outliving
/// its connection.
#[derive(Debug)]
pub struct Window<'a> {
    display: &'a Display,
    window_id: u64,
    wm_protocols: u64,
    wm_delete_window: u64,
}

impl<'a> Window<'a> {
    /// The native window identifier.
    pub closed spec fn spec_window_id(&self) -> u64 {
        self.window_id
    }

    /// The native window identifier.
    #[verifier::when_used_as_spec(spec_window_id)]
    pub fn window_id(&self) -> (r: u64)
        ensures
            r == self.spec_window_id(),
    {
        self.window_id
    }

    /// The cached "window manager protocols" atom.
    pub closed spec fn wm_protocols(&self) -> u64 {
        self.wm_protocols
    }

    /// The cached "delete window" atom.
    pub closed spec fn wm_delete_window(&self) -> u64 {
        self.wm_delete_window
    }

    /// The handle of the display the window lives on.
    pub closed spec fn display_handle(&self) -> u64 {
        self.display.handle()
    }

    /// Well-formed: the identifier is non-zero and the connection is open.
    pub open spec fn wf(&self) -> bool {
        self.window_id() != 0 && self.display_handle() != 0
    }

    /// The fixed native create call for a `width` by `height` window: at
    /// the root's origin, borderless, depth 24, input-output class, with
    /// override-redirect, back pixel and border pixel set.
    pub fn creation_plan(width: u32, height: u32) -> (p: CreationPlan)
        ensures
            p.x == 0 && p.y == 0,
            p.width == width && p.height == height,
            p.border_width == 0,
            p.depth == WINDOW_DEPTH,
            p.class == INPUT_OUTPUT,
            p.attribute_mask == WINDOW_ATTRIBUTE_MASK,
            p.protocols_atom_name@ == "WM_PROTOCOLS"@,
            p.delete_atom_name@ == "WM_DELETE_WINDOW"@,
    {
        CreationPlan {
            x: 0,
            y: 0,
            width,
            height,
            border_width: 0,
            depth: WINDOW_DEPTH,
            class: INPUT_OUTPUT,
            attribute_mask: WINDOW_ATTRIBUTE_MASK,
            protocols_atom_name: "WM_PROTOCOLS",
            delete_atom_name: "WM_DELETE_WINDOW",
        }
    }

    /// Interprets the outcome of the native create call (`window_id` zero
    /// standing for failure) together with the two interned atoms. On
    /// success the window manager is asked to send close requests instead
    /// of force-killing the window, and the event classes of
    /// [`WINDOW_EVENT_MASK`] are selected — exactly the two returned
    /// requests, in that order.
    pub fn create(
        display: &'a Display,
        window_id: u64,
        wm_protocols: u64,
        wm_delete_window: u64,
    ) -> (r: Result<(Window<'a>, Vec<Request>), X11Error>)
        requires
            display.wf(),
        ensures
            window_id == 0 ==> failed_with(r, "create window"@),
            window_id != 0 ==> (r matches Ok((w, reqs)) && {
                &&& w.window_id() == window_id
                &&& w.wm_protocols() == wm_protocols
                &&& w.wm_delete_window() == wm_delete_window
                &&& w.display_handle() == display.handle()
                &&& w.wf()
                &&& reqs@ == seq![
                    Request::SetWmProtocols { window: window_id, delete_window: wm_delete_window },
                    Request::SelectInput { window: window_id, event_mask: WINDOW_EVENT_MASK },
                ]
            }),
    {
        if window_id == 0 {
            return Err(X11Error::from("create window"));
        }
        let mut reqs: Vec<Request> = Vec::new();
        reqs.push(Request::SetWmProtocols { window: window_id, delete_window: wm_delete_window });
        reqs.push(Request::SelectInput { window: window_id, event_mask: WINDOW_EVENT_MASK });
        proof {
            assert(reqs@ =~= seq![
                Request::SetWmProtocols { window: window_id, delete_window: wm_delete_window },
                Request::SelectInput { window: window_id, event_mask: WINDOW_EVENT_MASK },
            ]);
        }
        Ok((Window { display, window_id, wm_protocols, wm_delete_window }, reqs))
    }

    /// Whether a title can travel as a native string: it must hold no NUL
    /// character. A rejected title is a caller defect, as under
    /// [`Window::set_title`]'s contract.
    pub fn title_accepted(title: &str) -> (b: bool)
        ensures
            b == (forall|i: int| 0 <= i < title@.len() ==> title@[i] != '\0'),
    {
        let n: usize = title.unicode_len();
        let mut i: usize = 0;
        while i < n
            invariant
                0 <= i <= n,
                n == title@.len(),
                forall|j: int| 0 <= j < i ==> title@[j] != '\0',
            decreases n - i,
        {
            if title.get_char(i) == '\0' {
                assert(title@[i as int] == '\0');
                return false;
            }
            i += 1;
        }
        true
    }

    /// The request that renames the window. The title is caller-controlled,
    /// so a title the native string representation cannot carry (one with
    /// an interior NUL) is a defect and is excluded here rather than
    /// silently dropped.
    pub fn set_title(&self, title: &str) -> (r: Request)
        requires
            forall|i: int| 0 <= i < title@.len() ==> title@[i] != '\0',
        ensures
            r == (Request::StoreName { window: self.window_id() }),
    {
        Request::StoreName { window: self.window_id }
    }

    /// The requests that make the window visible: map it, then synchronize,
    /// so the caller can rely on the window being visible on return.
    pub fn show(&self) -> (r: Vec<Request>)
        ensures
            r@ == seq![Request::MapWindow { window: self.window_id() }, Request::Sync],
    {
        let mut reqs: Vec<Request> = Vec::new();
        reqs.push(Request::MapWindow { window: self.window_id });
        reqs.push(Request::Sync);
        proof {
            assert(reqs@ =~= seq![Request::MapWindow { window: self.window_id() }, Request::Sync]);
        }
        reqs
    }

    /// First polling step: classify a queued client message, if one was
    /// pending, against the two cached protocol atoms.
    pub fn check_client_message(&self, polled: Option<ClientMessage>) -> (r: Option<Event>)
        ensures
            r == (match polled {
                Some(m) => classify_client_message(self.wm_protocols(), self.wm_delete_window(), m),
                None => None::<Event>,
            }),
    {
        match polled {
            Some(m) => {
                if m.message_type == self.wm_protocols && m.data0 == self.wm_delete_window {
                    Some(Event::Delete)
                } else {
                    None
                }
            },
            None => None,
        }
    }

    /// Second polling step: classify a queued key-press or expose event,
    /// if one was pending under [`POLL_EVENT_MASK`]. An event of any other
    /// type was consumed by the poll and is dropped.
    pub fn check_window_event(&self, polled: Option<WindowEvent>) -> (r: Option<Event>)
        ensures
            r == (match polled {
                Some(e) => classify_window_event(e),
                None => None::<Event>,
            }),
    {
        match polled {
            Some(e) => {
                if e.event_type == KEY_PRESS {
                    Some(Event::Key(e.keycode))
                } else if e.event_type == EXPOSE {
                    Some(Event::Expose)
                } else {
                    None
                }
            },
            None => None,
        }
    }

    /// The whole non-blocking poll, over the outcomes of the two native
    /// checks: a pending client message matching the registered close
    /// protocol wins; otherwise a pending key press or exposure is
    /// reported; otherwise nothing. The driving loop makes the second
    /// native poll only when the first step yields nothing.
    pub fn check_event(
        &self,
        first: Option<ClientMessage>,
        second: Option<WindowEvent>,
    ) -> (r: Option<Event>)
        ensures
            r == check_event_result(self.wm_protocols(), self.wm_delete_window(), first, second),
    {
        match self.check_client_message(first) {
            Some(ev) => Some(ev),
            None => self.check_window_event(second),
        }
    }

    /// Teardown: destroy the native window. Consuming `self` makes the
    /// destroy happen exactly once.
    pub fn destroy(self) -> (r: Request)
        ensures
            r == (Request::DestroyWindow { window: self.window_id() }),
    {
        Request::DestroyWindow { window: self.window_id }
    }
}

/// Law: on a freshly created window, a poll made before any event was
/// queued reports nothing.
pub proof fn lemma_no_pending_event_is_none(wm_protocols: u64, wm_delete_window: u64)
    ensures
        check_event_result(wm_protocols, wm_delete_window, None, None) is None,
{
}

/// Law: a client message carrying the registered close protocol — its type
/// is the protocols atom and its first word the delete-window atom — is
/// reported as `Event::Delete`, whatever the second poll holds.
pub proof fn lemma_close_request_is_delete(
    wm_protocols: u64,
    wm_delete_window: u64,
    m: ClientMessage,
    second: Option<WindowEvent>,
)
    requires
        m.message_type == wm_protocols,
        m.data0 == wm_delete_window,
    ensures
        check_event_result(wm_protocols, wm_delete_window, Some(m), second) == Some(Event::Delete),
{
}

} // verus!
