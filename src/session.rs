//! Which display server the session runs on, and which probe can find the
//! active window there.

use vstd::prelude::*;

use crate::text::{contains, str_contains, str_eq};

verus! {

/// The display protocol of the desktop session.
#[derive(PartialEq, Eq, Structural, Clone, Copy, Debug)]
pub enum SessionType {
    X11,
    Wayland,
    Unknown,
}

/// The environment variables that decide the session type and the desktop, each
/// `None` where it is not set.
#[derive(Clone, Debug)]
pub struct SessionEnv {
    /// `XDG_SESSION_TYPE`
    pub session_type: Option<String>,
    /// `WAYLAND_DISPLAY`
    pub wayland_display: Option<String>,
    /// `DISPLAY`
    pub display: Option<String>,
    /// `DESKTOP_SESSION`
    pub desktop_session: Option<String>,
    /// `XDG_CURRENT_DESKTOP`
    pub current_desktop: Option<String>,
    /// `KDE_SESSION_VERSION`
    pub kde_session_version: Option<String>,
}

/// The way the active window is found.
#[derive(PartialEq, Eq, Structural, Clone, Copy, Debug)]
pub enum Backend {
    /// Query the X server's root window.
    X11,
    /// Run a script inside the KDE Plasma compositor and read its output from the log.
    KdeWayland,
    /// A Wayland session of another desktop: no window is reported.
    Unsupported,
}

/// The session type that the environment signals: the session-type variable
/// first, then the Wayland display, then the X display.
pub open spec fn session_of(env: SessionEnv) -> SessionType {
    match env.session_type {
        Some(v) => if v@ == "wayland"@ {
            SessionType::Wayland
        } else if v@ == "x11"@ {
            SessionType::X11
        } else {
            SessionType::Unknown
        },
        None => if env.wayland_display is Some {
            SessionType::Wayland
        } else if env.display is Some {
            SessionType::X11
        } else {
            SessionType::Unknown
        },
    }
}

/// A variable that is set and holds `needle`.
pub open spec fn var_contains(v: Option<String>, needle: Seq<char>) -> bool {
    match v {
        Some(s) => contains(s@, needle),
        None => false,
    }
}

/// The environment signals a KDE Plasma desktop.
pub open spec fn is_kde(env: SessionEnv) -> bool {
    env.kde_session_version is Some || var_contains(env.desktop_session, "plasma"@)
        || var_contains(env.current_desktop, "KDE"@)
}

/// The probe for a session: the compositor script on KDE Plasma under Wayland,
/// none on other Wayland desktops, and the X server otherwise.
pub open spec fn backend_of(env: SessionEnv) -> Backend {
    match session_of(env) {
        SessionType::Wayland => if is_kde(env) {
            Backend::KdeWayland
        } else {
            Backend::Unsupported
        },
        _ => Backend::X11,
    }
}

impl SessionType {
    pub open spec fn spec_name(self) -> Seq<char> {
        match self {
            SessionType::X11 => "x11"@,
            SessionType::Wayland => "wayland"@,
            SessionType::Unknown => "unknown"@,
        }
    }

    /// The lower-case name of the session type.
    pub fn name(&self) -> (r: &'static str)
        ensures
            r@ == self.spec_name(),
    {
        match self {
            SessionType::X11 => "x11",
            SessionType::Wayland => "wayland",
            SessionType::Unknown => "unknown",
        }
    }
}

/// The session type that the environment signals.
pub fn detect_session_type(env: &SessionEnv) -> (r: SessionType)
    ensures
        r == session_of(*env),
{
    match &env.session_type {
        Some(v) => {
            if str_eq(v.as_str(), "wayland") {
                SessionType::Wayland
            } else if str_eq(v.as_str(), "x11") {
                SessionType::X11
            } else {
                SessionType::Unknown
            }
        },
        None => {
            if env.wayland_display.is_some() {
                SessionType::Wayland
            } else if env.display.is_some() {
                SessionType::X11
            } else {
                SessionType::Unknown
            }
        },
    }
}

fn var_has(v: &Option<String>, needle: &str) -> (r: bool)
    ensures
        r == var_contains(*v, needle@),
{
    match v {
        Some(s) => str_contains(s.as_str(), needle),
        None => false,
    }
}

/// Whether the environment signals a KDE Plasma desktop.
pub fn is_kde_session(env: &SessionEnv) -> (r: bool)
    ensures
        r == is_kde(*env),
{
    env.kde_session_version.is_some() || var_has(&env.desktop_session, "plasma") || var_has(
        &env.current_desktop,
        "KDE",
    )
}

/// The probe to use in the session that the environment describes.
pub fn select_backend(env: &SessionEnv) -> (r: Backend)
    ensures
        r == backend_of(*env),
{
    match detect_session_type(env) {
        SessionType::Wayland => if is_kde_session(env) {
            Backend::KdeWayland
        } else {
            Backend::Unsupported
        },
        _ => Backend::X11,
    }
}

} // verus!
