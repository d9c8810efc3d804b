use nexus_shell::dispatch::{
    action_of_identity, apply_command, check_updates_script, dispatch, identity_of_action,
    reload_script, MenuAction, WindowCommand, WindowFlags,
};
use nexus_shell::zoom::ZoomLevel;

const ALL_ACTIONS: [MenuAction; 7] = [
    MenuAction::Reload,
    MenuAction::ToggleDevtools,
    MenuAction::ZoomIn,
    MenuAction::ZoomOut,
    MenuAction::ZoomReset,
    MenuAction::ToggleFullscreen,
    MenuAction::CheckUpdates,
];

fn flags(devtools_open: bool, fullscreen: Option<bool>) -> WindowFlags {
    WindowFlags { devtools_open, fullscreen }
}

#[test]
fn each_identity_resolves_to_its_action() {
    assert_eq!(action_of_identity("reload"), Some(MenuAction::Reload));
    assert_eq!(action_of_identity("toggle_devtools"), Some(MenuAction::ToggleDevtools));
    assert_eq!(action_of_identity("zoom_in"), Some(MenuAction::ZoomIn));
    assert_eq!(action_of_identity("zoom_out"), Some(MenuAction::ZoomOut));
    assert_eq!(action_of_identity("zoom_reset"), Some(MenuAction::ZoomReset));
    assert_eq!(action_of_identity("toggle_fullscreen"), Some(MenuAction::ToggleFullscreen));
    assert_eq!(action_of_identity("check_updates"), Some(MenuAction::CheckUpdates));
}

#[test]
fn identity_round_trips_for_every_action() {
    for a in ALL_ACTIONS {
        assert_eq!(action_of_identity(identity_of_action(a)), Some(a));
    }
}

#[test]
fn unknown_identities_resolve_to_none() {
    assert_eq!(action_of_identity(""), None);
    assert_eq!(action_of_identity("quit"), None);
    assert_eq!(action_of_identity("Reload"), None);
    assert_eq!(action_of_identity("zoom"), None);
    assert_eq!(action_of_identity("zoom_in "), None);
    assert_eq!(action_of_identity("toggle_devtool"), None);
}

#[test]
fn unknown_identity_is_a_noop() {
    let mut z = ZoomLevel::new();
    z.zoom_in();
    let before = z.tenths();
    let cmd = dispatch("not_a_menu_item", flags(true, Some(true)), &mut z);
    assert_eq!(cmd, WindowCommand::NoOp);
    assert_eq!(z.tenths(), before);
}

#[test]
fn reload_commands_an_eval_and_leaves_zoom_alone() {
    let mut z = ZoomLevel::new();
    let cmd = dispatch("reload", flags(false, None), &mut z);
    assert_eq!(cmd, WindowCommand::EvalReload);
    assert_eq!(z.tenths(), 10);
}

#[test]
fn toggle_devtools_opens_when_closed_and_closes_when_open() {
    let mut z = ZoomLevel::new();
    let cmd = dispatch("toggle_devtools", flags(false, None), &mut z);
    assert_eq!(cmd, WindowCommand::OpenDevtools);
    let cmd = dispatch("toggle_devtools", flags(true, None), &mut z);
    assert_eq!(cmd, WindowCommand::CloseDevtools);
    assert_eq!(z.tenths(), 10);
}

#[test]
fn toggle_devtools_twice_from_closed_returns_to_closed() {
    let mut z = ZoomLevel::new();
    let w0 = flags(false, None);
    let w1 = apply_command(dispatch("toggle_devtools", w0, &mut z), w0);
    assert!(w1.devtools_open);
    let w2 = apply_command(dispatch("toggle_devtools", w1, &mut z), w1);
    assert_eq!(w2.devtools_open, w0.devtools_open);
}

#[test]
fn zoom_actions_mutate_the_level_and_command_it() {
    let mut z = ZoomLevel::new();
    let w = flags(false, None);
    assert_eq!(dispatch("zoom_in", w, &mut z), WindowCommand::SetZoom(11));
    assert_eq!(z.tenths(), 11);
    assert_eq!(dispatch("zoom_out", w, &mut z), WindowCommand::SetZoom(10));
    assert_eq!(z.tenths(), 10);
    assert_eq!(dispatch("zoom_in", w, &mut z), WindowCommand::SetZoom(11));
    assert_eq!(dispatch("zoom_reset", w, &mut z), WindowCommand::SetZoom(10));
    assert_eq!(z.tenths(), 10);
}

#[test]
fn zoom_out_five_times_clamps_then_reset_restores() {
    let mut z = ZoomLevel::new();
    let w = flags(false, None);
    for _ in 0..5 {
        dispatch("zoom_out", w, &mut z);
    }
    assert_eq!(z.tenths(), 5);
    let cmd = dispatch("zoom_out", w, &mut z);
    assert_eq!(cmd, WindowCommand::SetZoom(5));
    assert_eq!(z.tenths(), 5);
    let cmd = dispatch("zoom_reset", w, &mut z);
    assert_eq!(cmd, WindowCommand::SetZoom(10));
    assert_eq!(z.tenths(), 10);
}

#[test]
fn toggle_fullscreen_negates_the_read_flag() {
    let mut z = ZoomLevel::new();
    let cmd = dispatch("toggle_fullscreen", flags(false, Some(false)), &mut z);
    assert_eq!(cmd, WindowCommand::SetFullscreen(true));
    let cmd = dispatch("toggle_fullscreen", flags(false, Some(true)), &mut z);
    assert_eq!(cmd, WindowCommand::SetFullscreen(false));
}

#[test]
fn unreadable_fullscreen_flag_counts_as_not_fullscreen() {
    let mut z = ZoomLevel::new();
    let cmd = dispatch("toggle_fullscreen", flags(false, None), &mut z);
    assert_eq!(cmd, WindowCommand::SetFullscreen(true));
}

#[test]
fn toggle_fullscreen_twice_from_windowed_returns_to_windowed() {
    let mut z = ZoomLevel::new();
    let w0 = flags(false, None);
    let w1 = apply_command(dispatch("toggle_fullscreen", w0, &mut z), w0);
    assert_eq!(w1.fullscreen, Some(true));
    let w2 = apply_command(dispatch("toggle_fullscreen", w1, &mut z), w1);
    assert_eq!(w2.fullscreen, Some(false));
}

#[test]
fn check_updates_commands_the_guarded_eval_and_changes_nothing() {
    // The update-check script guards on the content layer's hook: where the
    // hook is undefined the script does nothing, so the dispatcher returns
    // normally with no state change either way.
    let mut z = ZoomLevel::new();
    z.zoom_in();
    let w0 = flags(false, Some(false));
    let cmd = dispatch("check_updates", w0, &mut z);
    assert_eq!(cmd, WindowCommand::EvalCheckUpdates);
    assert_eq!(z.tenths(), 11);
    assert_eq!(apply_command(cmd, w0), w0);
}

#[test]
fn scripts_are_the_fixed_hooks() {
    assert_eq!(reload_script(), "window.location.reload()");
    assert_eq!(
        check_updates_script(),
        "window.__NEXUS_CHECK_UPDATES && window.__NEXUS_CHECK_UPDATES()"
    );
    // The update hook is invoked only behind a definedness guard.
    let script = check_updates_script();
    let guard = script.split("&&").next().unwrap().trim();
    assert_eq!(guard, "window.__NEXUS_CHECK_UPDATES");
}
