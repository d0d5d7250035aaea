//! The pointer capture controller: the lock and the relative-motion channel
//! are acquired together on pointer enter and released together.
use vstd::prelude::*;

verus! {

/// Whether the pointer is captured. `Locked` means that both the pointer
/// lock and the relative-motion channel are held; `Free` that neither is.
#[derive(Clone, Copy, Debug, PartialEq, Eq, Structural)]
pub enum CaptureState {
    Free,
    Locked,
}

/// A request to the compositor.
#[derive(Clone, Copy, Debug, PartialEq, Eq, Structural)]
pub enum Request {
    /// Bind global `name` as capability `kind`.
    Bind { kind: crate::capability::CapabilityKind, name: u32 },
    /// Ask the seat for its pointer device.
    GetPointer,
    /// Ask the seat for its keyboard device.
    GetKeyboard,
    /// Acknowledge a window configure.
    AckConfigure { serial: u32 },
    /// Attach the pixel buffer to the surface and commit it.
    AttachBuffer,
    /// Answer a keep-alive ping.
    Pong { serial: u32 },
    /// Lock the pointer to the surface, persistently and with no region.
    LockPointer,
    /// Open a relative-motion channel on the same pointer.
    OpenRelativeChannel,
    /// Destroy the pointer lock.
    DestroyLock,
    /// Destroy the relative-motion channel.
    DestroyRelativeChannel,
}

/// The requests that acquire a capture.
pub open spec fn acquire_requests() -> Seq<Request> {
    seq![Request::LockPointer, Request::OpenRelativeChannel]
}

/// The requests that release a capture.
pub open spec fn release_requests() -> Seq<Request> {
    seq![Request::DestroyLock, Request::DestroyRelativeChannel]
}

/// Whether a pointer enter acquires a capture from state `s`: only while
/// free, on the managed surface, with both capture globals bound.
pub open spec fn enter_acquires(s: CaptureState, on_surface: bool, available: bool) -> bool {
    s == CaptureState::Free && on_surface && available
}

impl CaptureState {
    /// The state a new session starts in.
    pub fn new() -> (r: CaptureState)
        ensures
            r == CaptureState::Free,
    {
        CaptureState::Free
    }

    /// Whether the pointer is captured.
    pub fn is_locked(&self) -> (r: bool)
        ensures
            r == (*self == CaptureState::Locked),
    {
        match self {
            CaptureState::Locked => true,
            CaptureState::Free => false,
        }
    }

    /// Handles a pointer entering a surface. `on_surface` says whether it is
    /// the managed surface, `available` whether both capture globals are
    /// bound. Returns the requests to send: the lock and the channel, or
    /// nothing where the capture is held already or cannot be had.
    pub fn enter(&mut self, on_surface: bool, available: bool) -> (r: Vec<Request>)
        ensures
            enter_acquires(*old(self), on_surface, available) ==> *final(self)
                == CaptureState::Locked && r@ == acquire_requests(),
            !enter_acquires(*old(self), on_surface, available) ==> *final(self) == *old(self)
                && r@ == Seq::<Request>::empty(),
    {
        let mut r: Vec<Request> = Vec::new();
        if !self.is_locked() && on_surface && available {
            r.push(Request::LockPointer);
            r.push(Request::OpenRelativeChannel);
            *self = CaptureState::Locked;
            assert(r@ =~= acquire_requests());
        }
        assert(r@.len() == 0 ==> r@ =~= Seq::<Request>::empty());
        r
    }

    /// Releases the capture: destroys the lock and the channel and returns
    /// to `Free`. Already free, it changes nothing and destroys nothing.
    pub fn release(&mut self) -> (r: Vec<Request>)
        ensures
            *final(self) == CaptureState::Free,
            *old(self) == CaptureState::Locked ==> r@ == release_requests(),
            *old(self) == CaptureState::Free ==> r@ == Seq::<Request>::empty(),
    {
        let mut r: Vec<Request> = Vec::new();
        if self.is_locked() {
            r.push(Request::DestroyLock);
            r.push(Request::DestroyRelativeChannel);
            *self = CaptureState::Free;
            assert(r@ =~= release_requests());
        }
        assert(r@.len() == 0 ==> r@ =~= Seq::<Request>::empty());
        r
    }
}

} // verus!
