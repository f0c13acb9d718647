//! The decisions of the KWin and GNOME adapters: the caller makes each
//! D-Bus or file call and reports its reply; these say what to do next.
use vstd::prelude::*;
use crate::text::{decimal, decimal_text, owned, text_eq};

verus! {

/// A reply the GNOME adapter receives while it sets up its extension.
#[derive(Clone, Debug)]
pub enum GnomeReply {
    /// `EnableExtension` answered, before any install.
    Enabled(bool),
    /// Whether the extension's directory already exists.
    DirectoryExists(bool),
    /// `InstallRemoteExtension` answered with this text, or failed.
    RemoteInstall(Option<String>),
    /// `EnableExtension` answered after a remote install.
    EnabledAfterInstall(bool),
}

/// What the GNOME adapter does next.
#[derive(Clone, Copy, Debug, PartialEq, Eq, Structural)]
pub enum GnomeAction {
    /// The extension runs: wait for a signal to exit, then disable it.
    RunUntilExit,
    /// Look for the extension's directory.
    CheckDirectory,
    /// Ask the shell to install the extension.
    InstallRemote,
    /// Copy the extension's files and ask the user to log in again.
    InstallFiles,
    /// Enable the freshly installed extension.
    EnableAgain,
    /// The user cancelled the install: stop without error.
    Stop,
    /// The extension cannot be enabled.
    Fail,
}

pub open spec fn gnome_next(reply: GnomeReply) -> GnomeAction {
    match reply {
        GnomeReply::Enabled(true) => GnomeAction::RunUntilExit,
        GnomeReply::Enabled(false) => GnomeAction::CheckDirectory,
        GnomeReply::DirectoryExists(true) => GnomeAction::Fail,
        GnomeReply::DirectoryExists(false) => GnomeAction::InstallRemote,
        GnomeReply::RemoteInstall(None) => GnomeAction::InstallFiles,
        GnomeReply::RemoteInstall(Some(s)) => if s@ == "successful"@ {
            GnomeAction::EnableAgain
        } else if s@ == "cancelled"@ {
            GnomeAction::Stop
        } else {
            GnomeAction::Fail
        },
        GnomeReply::EnabledAfterInstall(true) => GnomeAction::RunUntilExit,
        GnomeReply::EnabledAfterInstall(false) => GnomeAction::Fail,
    }
}

/// The GNOME adapter's next step: an extension that enables runs; one that
/// does not is installed unless its directory is already there; a failed
/// remote install falls back to copying the files.
pub fn gnome_step(reply: &GnomeReply) -> (r: GnomeAction)
    ensures
        r == gnome_next(*reply),
{
    match reply {
        GnomeReply::Enabled(enabled) => if *enabled {
            GnomeAction::RunUntilExit
        } else {
            GnomeAction::CheckDirectory
        },
        GnomeReply::DirectoryExists(exists) => if *exists {
            GnomeAction::Fail
        } else {
            GnomeAction::InstallRemote
        },
        GnomeReply::RemoteInstall(None) => GnomeAction::InstallFiles,
        GnomeReply::RemoteInstall(Some(s)) => if text_eq(s.as_str(), "successful") {
            GnomeAction::EnableAgain
        } else if text_eq(s.as_str(), "cancelled") {
            GnomeAction::Stop
        } else {
            GnomeAction::Fail
        },
        GnomeReply::EnabledAfterInstall(enabled) => if *enabled {
            GnomeAction::RunUntilExit
        } else {
            GnomeAction::Fail
        },
    }
}

/// The object path of the script that KWin loaded as number `n`.
pub open spec fn script_path_text(n: i32) -> Seq<char> {
    if n < 0 {
        "/Scripting/Script"@ + seq!['-'] + decimal_text((-(n as int)) as nat)
    } else {
        "/Scripting/Script"@ + decimal_text(n as nat)
    }
}

pub fn script_object_path(n: i32) -> (r: String)
    ensures
        r@ == script_path_text(n),
{
    let mut path = owned("/Scripting/Script");
    if n < 0 {
        path.append("-");
        let magnitude: u32 = if n == i32::MIN {
            2147483648
        } else {
            (-n) as u32
        };
        path.append(decimal(magnitude).as_str());
        proof {
            reveal_strlit("-");
            assert("-"@ =~= seq!['-']);
        }
    } else {
        path.append(decimal(n as u32).as_str());
    }
    path
}

/// Where KWin's helper script is written: the runtime directory when one is
/// set, else the temporary directory.
pub fn uses_runtime_dir(runtime_dir: &str) -> (r: bool)
    ensures
        r == (runtime_dir@.len() != 0),
{
    !runtime_dir.is_empty()
}

} // verus!
