use processforlinux::session::{
    detect_session_type, is_kde_session, select_backend, Backend, SessionEnv, SessionType,
};

fn env() -> SessionEnv {
    SessionEnv {
        session_type: None,
        wayland_display: None,
        display: None,
        desktop_session: None,
        current_desktop: None,
        kde_session_version: None,
    }
}

#[test]
fn session_variable_alone_gives_wayland() {
    let mut e = env();
    e.session_type = Some("wayland".to_string());
    assert_eq!(detect_session_type(&e), SessionType::Wayland);
}

#[test]
fn no_signal_gives_unknown() {
    assert_eq!(detect_session_type(&env()), SessionType::Unknown);
    assert_eq!(select_backend(&env()), Backend::X11);
}

#[test]
fn session_variable_wins_over_displays() {
    let mut e = env();
    e.session_type = Some("x11".to_string());
    e.wayland_display = Some("wayland-0".to_string());
    assert_eq!(detect_session_type(&e), SessionType::X11);
    e.session_type = Some("tty".to_string());
    assert_eq!(detect_session_type(&e), SessionType::Unknown);
}

#[test]
fn display_variables_in_order() {
    let mut e = env();
    e.display = Some(":0".to_string());
    assert_eq!(detect_session_type(&e), SessionType::X11);
    e.wayland_display = Some("wayland-0".to_string());
    assert_eq!(detect_session_type(&e), SessionType::Wayland);
}

#[test]
fn kde_wayland_uses_compositor_script() {
    let mut e = env();
    e.session_type = Some("wayland".to_string());
    assert!(!is_kde_session(&e));
    assert_eq!(select_backend(&e), Backend::Unsupported);
    e.current_desktop = Some("KDE".to_string());
    assert!(is_kde_session(&e));
    assert_eq!(select_backend(&e), Backend::KdeWayland);
    let mut e2 = env();
    e2.wayland_display = Some("wayland-0".to_string());
    e2.desktop_session = Some("/usr/share/wayland-sessions/plasmawayland".to_string());
    assert_eq!(select_backend(&e2), Backend::KdeWayland);
    let mut e3 = env();
    e3.session_type = Some("wayland".to_string());
    e3.kde_session_version = Some("6".to_string());
    assert_eq!(select_backend(&e3), Backend::KdeWayland);
}

#[test]
fn x11_and_unknown_sessions_use_x11() {
    let mut e = env();
    e.session_type = Some("x11".to_string());
    e.current_desktop = Some("KDE".to_string());
    assert_eq!(select_backend(&e), Backend::X11);
    assert_eq!(SessionType::Wayland.name(), "wayland");
    assert_eq!(SessionType::Unknown.name(), "unknown");
}
