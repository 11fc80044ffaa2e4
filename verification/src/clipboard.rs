//! Clipboard provider selection. The probing and the process spawning are
//! platform work outside this library; what is decided here is which provider
//! a set of probe results selects, in which order they are tried, and the
//! exact command lines of the subprocess-backed providers.

use vstd::prelude::*;
use vstd::string::StringExecFns;

use crate::extract::seq_views;

verus! {

/// What the platform probes reported: which OS this is, and which clipboard
/// programs or sessions are available.
#[derive(PartialEq, Eq, Structural, Clone, Copy, Debug)]
pub struct ClipboardProbes {
    pub os_windows: bool,
    pub os_macos: bool,
    pub wsl: bool,
    pub wayland_display: bool,
    pub has_xsel: bool,
    pub has_xclip: bool,
    pub has_klipper: bool,
    pub has_qdbus: bool,
}

/// The clipboard provider a probe outcome selects.
#[derive(PartialEq, Eq, Structural, Clone, Copy, Debug)]
pub enum ClipboardSelection {
    Windows,
    PbCopy,
    Wsl,
    Wayland,
    XSel,
    XClip,
    Klipper,
}

/// Which provider the probes select: the native one on Windows and macOS;
/// elsewhere WSL first, then a Wayland session, then `xsel`, then `xclip`,
/// then klipper (which also needs `qdbus`); none when nothing is available.
pub open spec fn selection_spec(p: ClipboardProbes) -> Option<ClipboardSelection> {
    if p.os_windows {
        Some(ClipboardSelection::Windows)
    } else if p.os_macos {
        Some(ClipboardSelection::PbCopy)
    } else if p.wsl {
        Some(ClipboardSelection::Wsl)
    } else if p.wayland_display {
        Some(ClipboardSelection::Wayland)
    } else if p.has_xsel {
        Some(ClipboardSelection::XSel)
    } else if p.has_xclip {
        Some(ClipboardSelection::XClip)
    } else if p.has_klipper && p.has_qdbus {
        Some(ClipboardSelection::Klipper)
    } else {
        None
    }
}

/// Selects the clipboard provider for the probed platform, or nothing when
/// no provider is available.
pub fn provide(p: &ClipboardProbes) -> (r: Option<ClipboardSelection>)
    ensures
        r == selection_spec(*p),
{
    if p.os_windows {
        Some(ClipboardSelection::Windows)
    } else if p.os_macos {
        Some(ClipboardSelection::PbCopy)
    } else if p.wsl {
        Some(ClipboardSelection::Wsl)
    } else if p.wayland_display {
        Some(ClipboardSelection::Wayland)
    } else if p.has_xsel {
        Some(ClipboardSelection::XSel)
    } else if p.has_xclip {
        Some(ClipboardSelection::XClip)
    } else if p.has_klipper && p.has_qdbus {
        Some(ClipboardSelection::Klipper)
    } else {
        None
    }
}

/// The provider for the probed platform, as `provide` selects it.
pub fn provider(p: &ClipboardProbes) -> (r: Option<ClipboardSelection>)
    ensures
        r == selection_spec(*p),
{
    provide(p)
}

/// The macOS clipboard, through `pbcopy` and `pbpaste`.
pub struct PbCopy {}

/// The X11 clipboard, through `xclip`.
pub struct XClip {}

/// The X11 clipboard, through `xsel`.
pub struct XSel {}

impl PbCopy {
    /// The command line that writes the clipboard from standard input.
    pub fn copy_command(&self) -> (r: Vec<String>)
        ensures
            seq_views(r@) == seq!["pbcopy"@],
    {
        let mut v: Vec<String> = Vec::new();
        v.push(String::from_str("pbcopy"));
        proof {
            assert(seq_views(v@) =~= seq!["pbcopy"@]);
        }
        v
    }

    /// The command line that reads the clipboard to standard output.
    pub fn paste_command(&self) -> (r: Vec<String>)
        ensures
            seq_views(r@) == seq!["pbpaste"@, "-Prefer"@, "txt"@],
    {
        let mut v: Vec<String> = Vec::new();
        v.push(String::from_str("pbpaste"));
        v.push(String::from_str("-Prefer"));
        v.push(String::from_str("txt"));
        proof {
            assert(seq_views(v@) =~= seq!["pbpaste"@, "-Prefer"@, "txt"@]);
        }
        v
    }
}

impl XClip {
    /// The command line that writes the clipboard from standard input.
    pub fn copy_command(&self) -> (r: Vec<String>)
        ensures
            seq_views(r@) == seq!["xclip"@, "-selection"@, "c"@],
    {
        let mut v: Vec<String> = Vec::new();
        v.push(String::from_str("xclip"));
        v.push(String::from_str("-selection"));
        v.push(String::from_str("c"));
        proof {
            assert(seq_views(v@) =~= seq!["xclip"@, "-selection"@, "c"@]);
        }
        v
    }

    /// The command line that reads the clipboard to standard output.
    pub fn paste_command(&self) -> (r: Vec<String>)
        ensures
            seq_views(r@) == seq!["xclip"@, "-selection"@, "c"@, "-o"@],
    {
        let mut v: Vec<String> = Vec::new();
        v.push(String::from_str("xclip"));
        v.push(String::from_str("-selection"));
        v.push(String::from_str("c"));
        v.push(String::from_str("-o"));
        proof {
            assert(seq_views(v@) =~= seq!["xclip"@, "-selection"@, "c"@, "-o"@]);
        }
        v
    }
}

impl XSel {
    /// The command line that writes the clipboard from standard input.
    pub fn copy_command(&self) -> (r: Vec<String>)
        ensures
            seq_views(r@) == seq!["xsel"@, "-b"@, "-i"@],
    {
        let mut v: Vec<String> = Vec::new();
        v.push(String::from_str("xsel"));
        v.push(String::from_str("-b"));
        v.push(String::from_str("-i"));
        proof {
            assert(seq_views(v@) =~= seq!["xsel"@, "-b"@, "-i"@]);
        }
        v
    }

    /// The command line that reads the clipboard to standard output.
    pub fn paste_command(&self) -> (r: Vec<String>)
        ensures
            seq_views(r@) == seq!["xsel"@, "-b"@, "-o"@],
    {
        let mut v: Vec<String> = Vec::new();
        v.push(String::from_str("xsel"));
        v.push(String::from_str("-b"));
        v.push(String::from_str("-o"));
        proof {
            assert(seq_views(v@) =~= seq!["xsel"@, "-b"@, "-o"@]);
        }
        v
    }
}

} // verus!
