//! The session core: every compositor event goes through `Session::handle`,
//! which updates the state and says what to send to the compositor and to
//! the peer.
use vstd::prelude::*;
use crate::capability::{Capabilities, CapabilityKind};
use crate::capture::{CaptureState, Request, enter_acquires, acquire_requests, release_requests};
use crate::frame::{frame_bytes, micros_of, motion_frame, wire_time};

verus! {

/// Evdev code of the key that releases the capture (Escape).
pub const RELEASE_KEY: u32 = 1;

/// One compositor event, tagged by the object it came from.
#[derive(Clone, Copy, Debug, PartialEq, Eq, Structural)]
pub enum Event {
    /// Registry: global `name` was announced; `kind` is its recognised
    /// capability, if any.
    Global { name: u32, kind: Option<CapabilityKind> },
    /// Window shell surface: configure.
    Configure { serial: u32 },
    /// Window shell: keep-alive ping.
    Ping { serial: u32 },
    /// Toplevel window: the user asked to close it.
    Close,
    /// Seat: the devices it offers.
    SeatCapabilities { pointer: bool, keyboard: bool },
    /// Pointer: it entered a surface; `on_surface` says whether the managed one.
    PointerEnter { on_surface: bool },
    /// Pointer: it left the surface.
    PointerLeave,
    /// Keyboard: key `key` went down (`pressed`) or up.
    Key { key: u32, pressed: bool },
    /// Relative-motion channel: one sample, with the microsecond timestamp
    /// in two halves and the IEEE-754 bit patterns of the unaccelerated
    /// displacement.
    RelativeMotion { utime_hi: u32, utime_lo: u32, dx_bits: u64, dy_bits: u64 },
}

/// The state of one compositor session.
#[derive(Clone, Copy, Debug, PartialEq, Eq, Structural)]
pub struct Session {
    /// Which globals are bound.
    pub caps: Capabilities,
    /// The pointer capture.
    pub capture: CaptureState,
    /// Whether the seat's pointer was requested.
    pub has_pointer: bool,
    /// Whether the seat's keyboard was requested.
    pub has_keyboard: bool,
    /// Whether the pixel buffer was attached to the surface.
    pub buffer_attached: bool,
    /// Whether the event loop should go on.
    pub running: bool,
}

/// What one event asks for: requests to the compositor, in order, and at
/// most one datagram for the peer.
pub struct Reaction {
    pub requests: Vec<Request>,
    pub datagram: Option<Vec<u8>>,
}

/// Whether event `e` releases the capture.
pub open spec fn is_release_key(e: Event) -> bool {
    match e {
        Event::Key { key, pressed } => key == RELEASE_KEY && pressed,
        _ => false,
    }
}

/// The state after `s` handles `e`.
pub open spec fn next_state(s: Session, e: Event) -> Session {
    match e {
        Event::Global { name, kind } => match kind {
            Some(k) => Session { caps: s.caps.with(k), ..s },
            None => s,
        },
        Event::Configure { serial } => Session {
            buffer_attached: s.buffer_attached || s.caps.shared_memory,
            ..s
        },
        Event::Close => Session { running: false, ..s },
        Event::SeatCapabilities { pointer, keyboard } => Session {
            has_pointer: s.has_pointer || pointer,
            has_keyboard: s.has_keyboard || keyboard,
            ..s
        },
        Event::PointerEnter { on_surface } => if enter_acquires(
            s.capture,
            on_surface,
            s.caps.can_capture(),
        ) {
            Session { capture: CaptureState::Locked, ..s }
        } else {
            s
        },
        Event::Key { key, pressed } => if is_release_key(e) {
            Session { capture: CaptureState::Free, ..s }
        } else {
            s
        },
        _ => s,
    }
}

/// The requests that `s` sends to the compositor on `e`, in order.
pub open spec fn requests_for(s: Session, e: Event) -> Seq<Request> {
    match e {
        Event::Global { name, kind } => match kind {
            Some(k) => if s.caps.has(k) {
                Seq::empty()
            } else {
                seq![Request::Bind { kind: k, name }]
            },
            None => Seq::empty(),
        },
        Event::Configure { serial } => if s.caps.shared_memory && !s.buffer_attached {
            seq![Request::AckConfigure { serial }, Request::AttachBuffer]
        } else {
            seq![Request::AckConfigure { serial }]
        },
        Event::Ping { serial } => seq![Request::Pong { serial }],
        Event::SeatCapabilities { pointer, keyboard } => (if pointer && !s.has_pointer {
            seq![Request::GetPointer]
        } else {
            Seq::empty()
        }) + (if keyboard && !s.has_keyboard {
            seq![Request::GetKeyboard]
        } else {
            Seq::empty()
        }),
        Event::PointerEnter { on_surface } => if enter_acquires(
            s.capture,
            on_surface,
            s.caps.can_capture(),
        ) {
            acquire_requests()
        } else {
            Seq::empty()
        },
        Event::Key { key, pressed } => if is_release_key(e) && s.capture == CaptureState::Locked {
            release_requests()
        } else {
            Seq::empty()
        },
        _ => Seq::empty(),
    }
}

/// The datagram that `s` sends to the peer on `e`: the sample's frame, for
/// a relative-motion sample while captured.
pub open spec fn datagram_for(s: Session, e: Event) -> Option<Seq<u8>> {
    match e {
        Event::RelativeMotion { utime_hi, utime_lo, dx_bits, dy_bits } => if s.capture
            == CaptureState::Locked {
            Some(frame_bytes(wire_time(micros_of(utime_hi, utime_lo)), dx_bits, dy_bits))
        } else {
            None
        },
        _ => None,
    }
}

/// The state after `s` handles the events `evs` in order.
pub open spec fn run(s: Session, evs: Seq<Event>) -> Session
    decreases evs.len(),
{
    if evs.len() == 0 {
        s
    } else {
        run(next_state(s, evs[0]), evs.drop_first())
    }
}

/// The requests that `s` sends while it handles the events `evs` in order.
pub open spec fn run_requests(s: Session, evs: Seq<Event>) -> Seq<Request>
    decreases evs.len(),
{
    if evs.len() == 0 {
        Seq::empty()
    } else {
        requests_for(s, evs[0]) + run_requests(next_state(s, evs[0]), evs.drop_first())
    }
}

/// How many times `r` occurs in `rs`.
pub open spec fn count_of(rs: Seq<Request>, r: Request) -> nat
    decreases rs.len(),
{
    if rs.len() == 0 {
        0
    } else {
        (if rs[0] == r {
            1nat
        } else {
            0nat
        }) + count_of(rs.drop_first(), r)
    }
}

/// How many pointer locks (and relative-motion channels) `s` holds.
pub open spec fn held(s: Session) -> nat {
    if s.capture == CaptureState::Locked {
        1
    } else {
        0
    }
}

/// Whether every event of `evs` is a pointer enter.
pub open spec fn only_enters(evs: Seq<Event>) -> bool {
    forall|i: int| 0 <= i < evs.len() ==> evs[i] is PointerEnter
}

proof fn lemma_count_concat(a: Seq<Request>, b: Seq<Request>, r: Request)
    ensures
        count_of(a + b, r) == count_of(a, r) + count_of(b, r),
    decreases a.len(),
{
    if a.len() > 0 {
        assert((a + b).drop_first() =~= a.drop_first() + b);
        lemma_count_concat(a.drop_first(), b, r);
    } else {
        assert(a + b =~= b);
    }
}

/// However many pointer-enter events arrive with no release between them,
/// at most one lock and one relative-motion channel are held afterwards:
/// a lock is requested only from `Free`, always together with a channel,
/// and at most once.
pub proof fn lemma_single_capture(s: Session, evs: Seq<Event>)
    requires
        only_enters(evs),
    ensures
        held(s) + count_of(run_requests(s, evs), Request::LockPointer) <= 1,
        count_of(run_requests(s, evs), Request::LockPointer) == count_of(
            run_requests(s, evs),
            Request::OpenRelativeChannel,
        ),
        held(run(s, evs)) == held(s) + count_of(run_requests(s, evs), Request::LockPointer),
    decreases evs.len(),
{
    if evs.len() > 0 {
        let e = evs[0];
        let t = next_state(s, e);
        let rest = evs.drop_first();
        assert(only_enters(rest));
        lemma_single_capture(t, rest);
        let first = requests_for(s, e);
        lemma_count_concat(first, run_requests(t, rest), Request::LockPointer);
        lemma_count_concat(first, run_requests(t, rest), Request::OpenRelativeChannel);
        reveal_with_fuel(count_of, 3);
        assert(acquire_requests().drop_first().drop_first() =~= Seq::<Request>::empty());
        assert(acquire_requests().drop_first()[0] == Request::OpenRelativeChannel);
    }
}

/// Releasing a capture that is not held changes nothing and destroys
/// nothing.
pub proof fn lemma_release_when_free(s: Session, e: Event)
    requires
        s.capture == CaptureState::Free,
        is_release_key(e),
    ensures
        next_state(s, e) == s,
        requests_for(s, e) == Seq::<Request>::empty(),
{
}

/// No datagram is ever sent while the capture is free.
pub proof fn lemma_no_datagram_while_free(s: Session, e: Event)
    requires
        s.capture == CaptureState::Free,
    ensures
        datagram_for(s, e) is None,
{
}

/// Every datagram the session sends is exactly one frame long.
pub proof fn lemma_datagram_size(s: Session, e: Event)
    ensures
        datagram_for(s, e) matches Some(d) ==> d.len() == crate::frame::FRAME_LEN,
{
}

impl Session {
    /// A fresh session: nothing bound, nothing captured, running.
    pub fn new() -> (r: Session)
        ensures
            forall|k: CapabilityKind| !r.caps.has(k),
            r.capture == CaptureState::Free,
            !r.has_pointer,
            !r.has_keyboard,
            !r.buffer_attached,
            r.running,
    {
        Session {
            caps: Capabilities::new(),
            capture: CaptureState::new(),
            has_pointer: false,
            has_keyboard: false,
            buffer_attached: false,
            running: true,
        }
    }

    /// Handles one compositor event.
    pub fn handle(&mut self, e: Event) -> (r: Reaction)
        ensures
            *final(self) == next_state(*old(self), e),
            r.requests@ == requests_for(*old(self), e),
            r.datagram matches Some(d) ==> datagram_for(*old(self), e) == Some(d@),
            r.datagram is None ==> datagram_for(*old(self), e) is None,
    {
        let mut requests: Vec<Request> = Vec::new();
        let mut datagram: Option<Vec<u8>> = None;
        match e {
            Event::Global { name, kind } => {
                if let Some(k) = kind {
                    if !self.caps.is_bound(k) {
                        requests.push(Request::Bind { kind: k, name });
                        self.caps.mark_bound(k);
                    }
                }
            },
            Event::Configure { serial } => {
                requests.push(Request::AckConfigure { serial });
                if self.caps.shared_memory && !self.buffer_attached {
                    requests.push(Request::AttachBuffer);
                    self.buffer_attached = true;
                }
            },
            Event::Ping { serial } => {
                requests.push(Request::Pong { serial });
            },
            Event::Close => {
                self.running = false;
            },
            Event::SeatCapabilities { pointer, keyboard } => {
                if pointer && !self.has_pointer {
                    requests.push(Request::GetPointer);
                    self.has_pointer = true;
                }
                if keyboard && !self.has_keyboard {
                    requests.push(Request::GetKeyboard);
                    self.has_keyboard = true;
                }
            },
            Event::PointerEnter { on_surface } => {
                let available = self.caps.capture_available();
                requests = self.capture.enter(on_surface, available);
            },
            Event::PointerLeave => {},
            Event::Key { key, pressed } => {
                if key == RELEASE_KEY && pressed {
                    requests = self.capture.release();
                }
            },
            Event::RelativeMotion { utime_hi, utime_lo, dx_bits, dy_bits } => {
                if self.capture.is_locked() {
                    datagram = Some(motion_frame(utime_hi, utime_lo, dx_bits, dy_bits));
                }
            },
        }
        assert(requests@ =~= requests_for(*old(self), e));
        Reaction { requests, datagram }
    }

    /// Releases the capture, as the release key does: destroys the lock and
    /// the channel where they are held, and nothing otherwise.
    pub fn release(&mut self) -> (r: Vec<Request>)
        ensures
            *final(self) == (Session { capture: CaptureState::Free, ..*old(self) }),
            old(self).capture == CaptureState::Locked ==> r@ == release_requests(),
            old(self).capture == CaptureState::Free ==> *final(self) == *old(self) && r@
                == Seq::<Request>::empty(),
    {
        self.capture.release()
    }

    /// Whether the event loop should go on.
    pub fn is_running(&self) -> (r: bool)
        ensures
            r == self.running,
    {
        self.running
    }

    /// Whether the pointer is captured.
    pub fn is_locked(&self) -> (r: bool)
        ensures
            r == (self.capture == CaptureState::Locked),
    {
        self.capture.is_locked()
    }
}

} // verus!
