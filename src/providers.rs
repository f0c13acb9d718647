//! The window providers and the choice among them.
use vstd::prelude::*;
use crate::text::text_eq;

verus! {

#[derive(Clone, Copy, Debug, PartialEq, Eq, Structural)]
pub enum WindowProvider {
    X11,
    KWin,
    GNOME,
}

pub open spec fn provider_name(p: WindowProvider) -> Seq<char> {
    match p {
        WindowProvider::X11 => "X11"@,
        WindowProvider::KWin => "KWin"@,
        WindowProvider::GNOME => "GNOME"@,
    }
}

impl WindowProvider {
    pub fn name(&self) -> (r: &'static str)
        ensures
            r@ == provider_name(*self),
    {
        match self {
            WindowProvider::X11 => "X11",
            WindowProvider::KWin => "KWin",
            WindowProvider::GNOME => "GNOME",
        }
    }
}

/// The provider the session calls for: X11 for an `x11` session type, else
/// KWin when a KDE session version is set, else GNOME for a `gnome`
/// desktop.
pub open spec fn detected(session_type: Seq<char>, kde_version: Seq<char>, desktop: Seq<char>) -> Option<
    WindowProvider,
> {
    if session_type == "x11"@ {
        Some(WindowProvider::X11)
    } else if kde_version.len() != 0 {
        Some(WindowProvider::KWin)
    } else if desktop == "gnome"@ {
        Some(WindowProvider::GNOME)
    } else {
        None
    }
}

/// Picks the provider: the one asked for, else the one the session's
/// `XDG_SESSION_TYPE`, `KDE_SESSION_VERSION` and `XDG_SESSION_DESKTOP`
/// values call for (an unset variable reads as empty).
pub fn detect(
    explicit: Option<WindowProvider>,
    session_type: &str,
    kde_version: &str,
    desktop: &str,
) -> (r: Option<WindowProvider>)
    ensures
        explicit is Some ==> r == explicit,
        explicit is None ==> r == detected(session_type@, kde_version@, desktop@),
{
    if explicit.is_some() {
        explicit
    } else if text_eq(session_type, "x11") {
        Some(WindowProvider::X11)
    } else if !kde_version.is_empty() {
        Some(WindowProvider::KWin)
    } else if text_eq(desktop, "gnome") {
        Some(WindowProvider::GNOME)
    } else {
        None
    }
}

} // verus!
