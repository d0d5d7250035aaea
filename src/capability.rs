//! The capability table: which compositor globals have been bound.
use vstd::prelude::*;
use vstd::string::StringSliceAdditionalSpecFns;

verus! {

/// The compositor globals this client recognises.
#[derive(Clone, Copy, Debug, PartialEq, Eq, Structural)]
pub enum CapabilityKind {
    /// `wl_compositor`: creates surfaces.
    SurfaceFactory,
    /// `wl_shm`: allocates the shared-memory pixel buffer.
    SharedMemory,
    /// `xdg_wm_base`: turns a surface into a window.
    WindowShell,
    /// `wl_seat`: hands out pointer and keyboard devices.
    InputSeat,
    /// `zwp_pointer_constraints_v1`: locks the pointer to a surface.
    PointerConstraints,
    /// `zwp_relative_pointer_manager_v1`: opens relative-motion channels.
    RelativePointerManager,
}

/// The interface name under which the compositor announces `k`.
pub open spec fn interface_name(k: CapabilityKind) -> &'static str {
    match k {
        CapabilityKind::SurfaceFactory => "wl_compositor",
        CapabilityKind::SharedMemory => "wl_shm",
        CapabilityKind::WindowShell => "xdg_wm_base",
        CapabilityKind::InputSeat => "wl_seat",
        CapabilityKind::PointerConstraints => "zwp_pointer_constraints_v1",
        CapabilityKind::RelativePointerManager => "zwp_relative_pointer_manager_v1",
    }
}

/// The kind whose interface name is encoded by `b`, if any.
pub open spec fn kind_of_interface(b: Seq<u8>) -> Option<CapabilityKind> {
    if b == interface_name(CapabilityKind::SurfaceFactory).spec_bytes() {
        Some(CapabilityKind::SurfaceFactory)
    } else if b == interface_name(CapabilityKind::SharedMemory).spec_bytes() {
        Some(CapabilityKind::SharedMemory)
    } else if b == interface_name(CapabilityKind::WindowShell).spec_bytes() {
        Some(CapabilityKind::WindowShell)
    } else if b == interface_name(CapabilityKind::InputSeat).spec_bytes() {
        Some(CapabilityKind::InputSeat)
    } else if b == interface_name(CapabilityKind::PointerConstraints).spec_bytes() {
        Some(CapabilityKind::PointerConstraints)
    } else if b == interface_name(CapabilityKind::RelativePointerManager).spec_bytes() {
        Some(CapabilityKind::RelativePointerManager)
    } else {
        None
    }
}

fn bytes_equal(a: &[u8], b: &[u8]) -> (r: bool)
    ensures
        r == (a@ == b@),
{
    if a.len() != b.len() {
        return false;
    }
    let mut i: usize = 0;
    while i < a.len()
        invariant
            a@.len() == b@.len(),
            i <= a@.len(),
            forall|j: int| 0 <= j < i ==> a@[j] == b@[j],
        decreases a@.len() - i,
    {
        if a[i] != b[i] {
            return false;
        }
        i = i + 1;
    }
    assert(a@ =~= b@);
    true
}

/// Classifies a global's interface name; unknown interfaces give `None`.
pub fn capability_kind(interface: &str) -> (r: Option<CapabilityKind>)
    ensures
        r == kind_of_interface(interface.spec_bytes()),
{
    let b = interface.as_bytes();
    if bytes_equal(b, "wl_compositor".as_bytes()) {
        Some(CapabilityKind::SurfaceFactory)
    } else if bytes_equal(b, "wl_shm".as_bytes()) {
        Some(CapabilityKind::SharedMemory)
    } else if bytes_equal(b, "xdg_wm_base".as_bytes()) {
        Some(CapabilityKind::WindowShell)
    } else if bytes_equal(b, "wl_seat".as_bytes()) {
        Some(CapabilityKind::InputSeat)
    } else if bytes_equal(b, "zwp_pointer_constraints_v1".as_bytes()) {
        Some(CapabilityKind::PointerConstraints)
    } else if bytes_equal(b, "zwp_relative_pointer_manager_v1".as_bytes()) {
        Some(CapabilityKind::RelativePointerManager)
    } else {
        None
    }
}

/// Why the window cannot be set up.
#[derive(Clone, Copy, Debug, PartialEq, Eq, Structural)]
pub enum SetupError {
    /// The compositor never announced `wl_compositor`.
    MissingSurfaceFactory,
    /// The compositor never announced `xdg_wm_base`.
    MissingWindowShell,
}

/// One flag per recognised kind: has it been bound yet?
#[derive(Clone, Copy, Debug, PartialEq, Eq, Structural)]
pub struct Capabilities {
    pub surface_factory: bool,
    pub shared_memory: bool,
    pub window_shell: bool,
    pub input_seat: bool,
    pub pointer_constraints: bool,
    pub relative_pointer_manager: bool,
}

impl Capabilities {
    /// Whether `k` is bound.
    pub open spec fn has(self, k: CapabilityKind) -> bool {
        match k {
            CapabilityKind::SurfaceFactory => self.surface_factory,
            CapabilityKind::SharedMemory => self.shared_memory,
            CapabilityKind::WindowShell => self.window_shell,
            CapabilityKind::InputSeat => self.input_seat,
            CapabilityKind::PointerConstraints => self.pointer_constraints,
            CapabilityKind::RelativePointerManager => self.relative_pointer_manager,
        }
    }

    /// The table with `k` marked bound and every other entry as it was.
    pub open spec fn with(self, k: CapabilityKind) -> Capabilities {
        Capabilities {
            surface_factory: self.surface_factory || k == CapabilityKind::SurfaceFactory,
            shared_memory: self.shared_memory || k == CapabilityKind::SharedMemory,
            window_shell: self.window_shell || k == CapabilityKind::WindowShell,
            input_seat: self.input_seat || k == CapabilityKind::InputSeat,
            pointer_constraints: self.pointer_constraints || k == CapabilityKind::PointerConstraints,
            relative_pointer_manager: self.relative_pointer_manager || k
                == CapabilityKind::RelativePointerManager,
        }
    }

    /// Both globals that pointer capture needs are bound.
    pub open spec fn can_capture(self) -> bool {
        self.pointer_constraints && self.relative_pointer_manager
    }

    /// What `require_window` returns.
    pub open spec fn window_check(self) -> Result<(), SetupError> {
        if !self.surface_factory {
            Err(SetupError::MissingSurfaceFactory)
        } else if !self.window_shell {
            Err(SetupError::MissingWindowShell)
        } else {
            Ok(())
        }
    }

    /// The empty table: nothing bound.
    pub fn new() -> (r: Capabilities)
        ensures
            forall|k: CapabilityKind| !r.has(k),
    {
        Capabilities {
            surface_factory: false,
            shared_memory: false,
            window_shell: false,
            input_seat: false,
            pointer_constraints: false,
            relative_pointer_manager: false,
        }
    }

    /// Whether `k` is bound.
    pub fn is_bound(&self, k: CapabilityKind) -> (r: bool)
        ensures
            r == self.has(k),
    {
        match k {
            CapabilityKind::SurfaceFactory => self.surface_factory,
            CapabilityKind::SharedMemory => self.shared_memory,
            CapabilityKind::WindowShell => self.window_shell,
            CapabilityKind::InputSeat => self.input_seat,
            CapabilityKind::PointerConstraints => self.pointer_constraints,
            CapabilityKind::RelativePointerManager => self.relative_pointer_manager,
        }
    }

    /// Marks `k` bound.
    pub fn mark_bound(&mut self, k: CapabilityKind)
        ensures
            *final(self) == old(self).with(k),
    {
        match k {
            CapabilityKind::SurfaceFactory => self.surface_factory = true,
            CapabilityKind::SharedMemory => self.shared_memory = true,
            CapabilityKind::WindowShell => self.window_shell = true,
            CapabilityKind::InputSeat => self.input_seat = true,
            CapabilityKind::PointerConstraints => self.pointer_constraints = true,
            CapabilityKind::RelativePointerManager => self.relative_pointer_manager = true,
        }
    }

    /// Whether both globals that pointer capture needs are bound.
    pub fn capture_available(&self) -> (r: bool)
        ensures
            r == self.can_capture(),
    {
        self.pointer_constraints && self.relative_pointer_manager
    }

    /// Checks, once the initial globals are in, that a window can be made:
    /// the surface factory and the window shell must both be bound.
    pub fn require_window(&self) -> (r: Result<(), SetupError>)
        ensures
            r == self.window_check(),
    {
        if !self.surface_factory {
            Err(SetupError::MissingSurfaceFactory)
        } else if !self.window_shell {
            Err(SetupError::MissingWindowShell)
        } else {
            Ok(())
        }
    }
}

} // verus!
