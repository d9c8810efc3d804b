//! The menu event dispatch table.
//!
//! Each fired menu item carries a stable identity string. The dispatcher
//! resolves that identity to one of a closed set of actions, reads or
//! mutates the zoom level as the action asks, and hands the host a single
//! window command to perform. An unrecognized identity is a no-op: it
//! changes nothing and commands nothing.

use vstd::prelude::*;
use vstd::string::StrSliceExecFns;
use crate::zoom::{ZoomLevel, spec_zoom_in, spec_zoom_out, ZOOM_DEFAULT_TENTHS};

verus! {

/// The closed set of custom menu actions. Built-in menu commands (quit,
/// undo, copy, ...) are delegated to the host and never reach the
/// dispatcher.
#[derive(Clone, Copy, PartialEq, Eq, Structural, Debug)]
pub enum MenuAction {
    Reload,
    ToggleDevtools,
    ZoomIn,
    ZoomOut,
    ZoomReset,
    ToggleFullscreen,
    CheckUpdates,
}

/// The identity string assigned to an action's menu item.
pub open spec fn spec_identity_of(a: MenuAction) -> Seq<char> {
    match a {
        MenuAction::Reload => "reload"@,
        MenuAction::ToggleDevtools => "toggle_devtools"@,
        MenuAction::ZoomIn => "zoom_in"@,
        MenuAction::ZoomOut => "zoom_out"@,
        MenuAction::ZoomReset => "zoom_reset"@,
        MenuAction::ToggleFullscreen => "toggle_fullscreen"@,
        MenuAction::CheckUpdates => "check_updates"@,
    }
}

/// The action a fired identity resolves to, or none for an identity outside
/// the dispatch table.
pub open spec fn spec_action_of(id: Seq<char>) -> Option<MenuAction> {
    if id == "reload"@ {
        Some(MenuAction::Reload)
    } else if id == "toggle_devtools"@ {
        Some(MenuAction::ToggleDevtools)
    } else if id == "zoom_in"@ {
        Some(MenuAction::ZoomIn)
    } else if id == "zoom_out"@ {
        Some(MenuAction::ZoomOut)
    } else if id == "zoom_reset"@ {
        Some(MenuAction::ZoomReset)
    } else if id == "toggle_fullscreen"@ {
        Some(MenuAction::ToggleFullscreen)
    } else if id == "check_updates"@ {
        Some(MenuAction::CheckUpdates)
    } else {
        None
    }
}

/// Compare two strings by their characters.
fn str_eq(a: &str, b: &str) -> (r: bool)
    ensures
        r <==> a@ == b@,
{
    let alen = a.unicode_len();
    let blen = b.unicode_len();
    if alen != blen {
        return false;
    }
    let mut i: usize = 0;
    while i < alen
        invariant
            alen == a@.len(),
            alen == b@.len(),
            i <= alen,
            forall|j: int| 0 <= j < i ==> a@[j] == b@[j],
        decreases alen - i,
    {
        if a.get_char(i) != b.get_char(i) {
            return false;
        }
        i = i + 1;
    }
    proof {
        assert(a@ =~= b@);
    }
    true
}

/// The identity string assigned to an action's menu item.
pub fn identity_of_action(a: MenuAction) -> (s: &'static str)
    ensures
        s@ == spec_identity_of(a),
{
    match a {
        MenuAction::Reload => "reload",
        MenuAction::ToggleDevtools => "toggle_devtools",
        MenuAction::ZoomIn => "zoom_in",
        MenuAction::ZoomOut => "zoom_out",
        MenuAction::ZoomReset => "zoom_reset",
        MenuAction::ToggleFullscreen => "toggle_fullscreen",
        MenuAction::CheckUpdates => "check_updates",
    }
}

/// Resolve a fired identity to its action, once, at the edge; everything
/// after this point works on the closed enumeration.
pub fn action_of_identity(id: &str) -> (r: Option<MenuAction>)
    ensures
        r == spec_action_of(id@),
{
    if str_eq(id, "reload") {
        Some(MenuAction::Reload)
    } else if str_eq(id, "toggle_devtools") {
        Some(MenuAction::ToggleDevtools)
    } else if str_eq(id, "zoom_in") {
        Some(MenuAction::ZoomIn)
    } else if str_eq(id, "zoom_out") {
        Some(MenuAction::ZoomOut)
    } else if str_eq(id, "zoom_reset") {
        Some(MenuAction::ZoomReset)
    } else if str_eq(id, "toggle_fullscreen") {
        Some(MenuAction::ToggleFullscreen)
    } else if str_eq(id, "check_updates") {
        Some(MenuAction::CheckUpdates)
    } else {
        None
    }
}

/// Law: the identity assigned to an action resolves back to exactly that
/// action. Each custom identity therefore maps to exactly one action, and
/// distinct actions carry distinct identities.
pub proof fn lemma_identity_round_trip(a: MenuAction)
    ensures
        spec_action_of(spec_identity_of(a)) == Some(a),
{
    reveal_strlit("reload");
    reveal_strlit("toggle_devtools");
    reveal_strlit("zoom_in");
    reveal_strlit("zoom_out");
    reveal_strlit("zoom_reset");
    reveal_strlit("toggle_fullscreen");
    reveal_strlit("check_updates");
    lemma_identities_have_distinct_lengths();
    match a {
        MenuAction::Reload => {
            assert(spec_action_of("reload"@) == Some(MenuAction::Reload));
        },
        MenuAction::ToggleDevtools => {
            assert(spec_action_of("toggle_devtools"@) == Some(MenuAction::ToggleDevtools));
        },
        MenuAction::ZoomIn => {
            assert(spec_action_of("zoom_in"@) == Some(MenuAction::ZoomIn));
        },
        MenuAction::ZoomOut => {
            assert(spec_action_of("zoom_out"@) == Some(MenuAction::ZoomOut));
        },
        MenuAction::ZoomReset => {
            assert(spec_action_of("zoom_reset"@) == Some(MenuAction::ZoomReset));
        },
        MenuAction::ToggleFullscreen => {
            assert(spec_action_of("toggle_fullscreen"@) == Some(MenuAction::ToggleFullscreen));
        },
        MenuAction::CheckUpdates => {
            assert(spec_action_of("check_updates"@) == Some(MenuAction::CheckUpdates));
        },
    }
}

/// What the dispatcher reads of the window before it acts: whether the
/// developer tools panel is open, and whether the window is fullscreen —
/// the latter `None` where the host could not read the flag.
#[derive(Clone, Copy, PartialEq, Eq, Debug)]
pub struct WindowFlags {
    pub devtools_open: bool,
    pub fullscreen: Option<bool>,
}

/// A fullscreen flag the host could not read counts as not fullscreen.
pub open spec fn spec_fullscreen_or_default(f: Option<bool>) -> bool {
    match f {
        Some(b) => b,
        None => false,
    }
}

/// The one window command a dispatched menu event asks the host to perform.
/// Every command is best-effort: the host discards its failure.
#[derive(Clone, Copy, PartialEq, Eq, Structural, Debug)]
pub enum WindowCommand {
    /// Ask the embedded content to reload itself.
    EvalReload,
    /// Open the developer tools panel.
    OpenDevtools,
    /// Close the developer tools panel.
    CloseDevtools,
    /// Apply this zoom level, in tenths of the scale factor.
    SetZoom(u8),
    /// Set the fullscreen flag to this value.
    SetFullscreen(bool),
    /// Ask the embedded content to run its update check, if it has one.
    EvalCheckUpdates,
    /// Do nothing.
    NoOp,
}

/// The dispatch table: the command a resolved action produces and the zoom
/// level it leaves behind, given the window flags and the current level.
pub open spec fn spec_dispatch(a: Option<MenuAction>, w: WindowFlags, z: int) -> (WindowCommand, int) {
    match a {
        None => (WindowCommand::NoOp, z),
        Some(MenuAction::Reload) => (WindowCommand::EvalReload, z),
        Some(MenuAction::ToggleDevtools) => (
            if w.devtools_open {
                WindowCommand::CloseDevtools
            } else {
                WindowCommand::OpenDevtools
            },
            z,
        ),
        Some(MenuAction::ZoomIn) => (WindowCommand::SetZoom(spec_zoom_in(z) as u8), spec_zoom_in(z)),
        Some(MenuAction::ZoomOut) => (WindowCommand::SetZoom(spec_zoom_out(z) as u8), spec_zoom_out(z)),
        Some(MenuAction::ZoomReset) => (
            WindowCommand::SetZoom(ZOOM_DEFAULT_TENTHS),
            ZOOM_DEFAULT_TENTHS as int,
        ),
        Some(MenuAction::ToggleFullscreen) => (
            WindowCommand::SetFullscreen(!spec_fullscreen_or_default(w.fullscreen)),
            z,
        ),
        Some(MenuAction::CheckUpdates) => (WindowCommand::EvalCheckUpdates, z),
    }
}

/// Dispatch one fired menu event: resolve the identity, mutate the zoom
/// level where the action asks, and return the command for the host to
/// perform against the window. An identity outside the table changes
/// nothing and commands nothing.
pub fn dispatch(identity: &str, window: WindowFlags, zoom: &mut ZoomLevel) -> (cmd: WindowCommand)
    requires
        old(zoom).wf(),
    ensures
        final(zoom).wf(),
        cmd == spec_dispatch(spec_action_of(identity@), window, old(zoom).spec_tenths() as int).0,
        final(zoom).spec_tenths() as int == spec_dispatch(
            spec_action_of(identity@),
            window,
            old(zoom).spec_tenths() as int,
        ).1,
        spec_action_of(identity@) is None ==> cmd == WindowCommand::NoOp && *final(zoom) == *old(
            zoom,
        ),
{
    match action_of_identity(identity) {
        None => WindowCommand::NoOp,
        Some(MenuAction::Reload) => WindowCommand::EvalReload,
        Some(MenuAction::ToggleDevtools) => {
            if window.devtools_open {
                WindowCommand::CloseDevtools
            } else {
                WindowCommand::OpenDevtools
            }
        },
        Some(MenuAction::ZoomIn) => {
            zoom.zoom_in();
            WindowCommand::SetZoom(zoom.tenths())
        },
        Some(MenuAction::ZoomOut) => {
            zoom.zoom_out();
            WindowCommand::SetZoom(zoom.tenths())
        },
        Some(MenuAction::ZoomReset) => {
            zoom.zoom_reset();
            WindowCommand::SetZoom(zoom.tenths())
        },
        Some(MenuAction::ToggleFullscreen) => {
            let is_fs = match window.fullscreen {
                Some(b) => b,
                None => false,
            };
            WindowCommand::SetFullscreen(!is_fs)
        },
        Some(MenuAction::CheckUpdates) => WindowCommand::EvalCheckUpdates,
    }
}

/// How a performed command moves the window flags: opening or closing the
/// developer tools sets the flag, setting fullscreen makes the flag
/// readable with the set value, and every other command leaves the flags
/// alone.
pub open spec fn spec_apply_command(cmd: WindowCommand, w: WindowFlags) -> WindowFlags {
    match cmd {
        WindowCommand::OpenDevtools => WindowFlags { devtools_open: true, fullscreen: w.fullscreen },
        WindowCommand::CloseDevtools => WindowFlags { devtools_open: false, fullscreen: w.fullscreen },
        WindowCommand::SetFullscreen(b) => WindowFlags {
            devtools_open: w.devtools_open,
            fullscreen: Some(b),
        },
        _ => w,
    }
}

/// How a performed command moves the window flags, as an executable
/// function, so a host or a harness can track the flags a command leaves
/// behind.
pub fn apply_command(cmd: WindowCommand, w: WindowFlags) -> (r: WindowFlags)
    ensures
        r == spec_apply_command(cmd, w),
{
    match cmd {
        WindowCommand::OpenDevtools => WindowFlags { devtools_open: true, fullscreen: w.fullscreen },
        WindowCommand::CloseDevtools => WindowFlags {
            devtools_open: false,
            fullscreen: w.fullscreen,
        },
        WindowCommand::SetFullscreen(b) => WindowFlags {
            devtools_open: w.devtools_open,
            fullscreen: Some(b),
        },
        _ => w,
    }
}

/// Law: an identity outside the dispatch table is a no-op — it commands
/// nothing, and leaves the zoom level and the window flags exactly as they
/// were.
pub proof fn lemma_unknown_identity_is_noop(id: Seq<char>, w: WindowFlags, z: int)
    requires
        spec_action_of(id) is None,
    ensures
        spec_dispatch(spec_action_of(id), w, z).0 == WindowCommand::NoOp,
        spec_dispatch(spec_action_of(id), w, z).1 == z,
        spec_apply_command(spec_dispatch(spec_action_of(id), w, z).0, w) == w,
{
}

/// Law: toggling the developer tools is self-inverse from the closed state.
/// The first fire opens the panel; fired again on the flags the first left
/// behind, it closes the panel, back where it began.
pub proof fn lemma_toggle_devtools_self_inverse(w: WindowFlags, z: int)
    requires
        !w.devtools_open,
    ensures
        ({
            let w1 = spec_apply_command(
                spec_dispatch(Some(MenuAction::ToggleDevtools), w, z).0,
                w,
            );
            let w2 = spec_apply_command(
                spec_dispatch(Some(MenuAction::ToggleDevtools), w1, z).0,
                w1,
            );
            w1.devtools_open && w2.devtools_open == w.devtools_open
        }),
{
}

/// Law: toggling fullscreen is self-inverse from the non-fullscreen state.
/// The first fire turns fullscreen on; fired again on the flags the first
/// left behind, it turns fullscreen off, back where it began.
pub proof fn lemma_toggle_fullscreen_self_inverse(w: WindowFlags, z: int)
    requires
        !spec_fullscreen_or_default(w.fullscreen),
    ensures
        ({
            let w1 = spec_apply_command(
                spec_dispatch(Some(MenuAction::ToggleFullscreen), w, z).0,
                w,
            );
            let w2 = spec_apply_command(
                spec_dispatch(Some(MenuAction::ToggleFullscreen), w1, z).0,
                w1,
            );
            spec_fullscreen_or_default(w1.fullscreen)
                && spec_fullscreen_or_default(w2.fullscreen) == spec_fullscreen_or_default(
                w.fullscreen,
            )
        }),
{
}

/// The script handed to the embedded content for the reload action.
pub fn reload_script() -> (s: &'static str)
    ensures
        s@ == "window.location.reload()"@,
{
    "window.location.reload()"
}

/// The script handed to the embedded content for the update-check action.
/// It calls the content layer's update-check entry point only where the
/// content layer has defined it, and does nothing otherwise.
pub fn check_updates_script() -> (s: &'static str)
    ensures
        s@ == "window.__NEXUS_CHECK_UPDATES && window.__NEXUS_CHECK_UPDATES()"@,
{
    "window.__NEXUS_CHECK_UPDATES && window.__NEXUS_CHECK_UPDATES()"
}

/// The seven identity strings have seven distinct lengths, so no two of
/// them are equal.
pub proof fn lemma_identities_have_distinct_lengths()
    ensures
        "reload"@.len() == 6,
        "toggle_devtools"@.len() == 15,
        "zoom_in"@.len() == 7,
        "zoom_out"@.len() == 8,
        "zoom_reset"@.len() == 10,
        "toggle_fullscreen"@.len() == 17,
        "check_updates"@.len() == 13,
{
    reveal_strlit("reload");
    reveal_strlit("toggle_devtools");
    reveal_strlit("zoom_in");
    reveal_strlit("zoom_out");
    reveal_strlit("zoom_reset");
    reveal_strlit("toggle_fullscreen");
    reveal_strlit("check_updates");
}

} // verus!
