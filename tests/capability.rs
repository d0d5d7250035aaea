use lan_mouse::capability::{capability_kind, Capabilities, CapabilityKind, SetupError};

#[test]
fn recognised_interfaces() {
    assert_eq!(capability_kind("wl_compositor"), Some(CapabilityKind::SurfaceFactory));
    assert_eq!(capability_kind("wl_shm"), Some(CapabilityKind::SharedMemory));
    assert_eq!(capability_kind("xdg_wm_base"), Some(CapabilityKind::WindowShell));
    assert_eq!(capability_kind("wl_seat"), Some(CapabilityKind::InputSeat));
    assert_eq!(
        capability_kind("zwp_pointer_constraints_v1"),
        Some(CapabilityKind::PointerConstraints)
    );
    assert_eq!(
        capability_kind("zwp_relative_pointer_manager_v1"),
        Some(CapabilityKind::RelativePointerManager)
    );
}

#[test]
fn unknown_interfaces_are_ignored() {
    assert_eq!(capability_kind("wl_output"), None);
    assert_eq!(capability_kind(""), None);
    assert_eq!(capability_kind("wl_shm_pool"), None);
    assert_eq!(capability_kind("wl_sha"), None);
}

#[test]
fn window_check_names_the_missing_global() {
    let mut caps = Capabilities::new();
    assert_eq!(caps.require_window(), Err(SetupError::MissingSurfaceFactory));
    caps.mark_bound(CapabilityKind::WindowShell);
    assert_eq!(caps.require_window(), Err(SetupError::MissingSurfaceFactory));
    let mut caps2 = Capabilities::new();
    caps2.mark_bound(CapabilityKind::SurfaceFactory);
    assert_eq!(caps2.require_window(), Err(SetupError::MissingWindowShell));
    caps2.mark_bound(CapabilityKind::WindowShell);
    assert_eq!(caps2.require_window(), Ok(()));
}

#[test]
fn capture_needs_both_globals() {
    let mut caps = Capabilities::new();
    assert!(!caps.capture_available());
    caps.mark_bound(CapabilityKind::PointerConstraints);
    assert!(!caps.capture_available());
    assert!(caps.is_bound(CapabilityKind::PointerConstraints));
    assert!(!caps.is_bound(CapabilityKind::RelativePointerManager));
    caps.mark_bound(CapabilityKind::RelativePointerManager);
    assert!(caps.capture_available());
}
