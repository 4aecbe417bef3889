use vstd::prelude::*;

verus! {

/// The view settings that keyboard shortcuts switch. The three camera
/// modes (follow a boid, follow a predator, pull back to the centre) are
/// meant to exclude one another: see `camera_modes_exclusive`.
#[derive(Clone, Copy, Debug, PartialEq, Eq, Hash, Structural)]
pub struct Settings {
    pub camera_follow_boid: bool,
    pub camera_follow_predator: bool,
    pub camera_clamp_center: bool,
    pub enable_gizmos: bool,
    pub show_plots: bool,
    pub show_plot_settings: bool,
}

/// Which shortcut keys were just pressed in one frame.
#[derive(Clone, Copy, Debug, PartialEq, Eq, Hash, Structural)]
pub struct KeyPresses {
    /// `1`: follow a boid.
    pub key1: bool,
    /// `2`: follow a predator.
    pub key2: bool,
    /// `3`: pull the camera back to the centre.
    pub key3: bool,
    /// Tab: gizmos.
    pub tab: bool,
    /// Backspace: plots.
    pub back: bool,
    /// Backtick: plot settings.
    pub grave: bool,
}

/// One of the three camera modes.
pub enum CameraMode {
    FollowBoid,
    FollowPredator,
    ClampCenter,
}

/// Whether camera mode `m` is on in `s`.
pub open spec fn camera_mode_on(s: Settings, m: CameraMode) -> bool {
    match m {
        CameraMode::FollowBoid => s.camera_follow_boid,
        CameraMode::FollowPredator => s.camera_follow_predator,
        CameraMode::ClampCenter => s.camera_clamp_center,
    }
}

/// At most one camera mode is on.
pub open spec fn camera_modes_exclusive(s: Settings) -> bool {
    &&& !(s.camera_follow_boid && s.camera_follow_predator)
    &&& !(s.camera_follow_boid && s.camera_clamp_center)
    &&& !(s.camera_follow_predator && s.camera_clamp_center)
}

/// The key of mode `m` pressed: `m` flips, the other two modes go off, and
/// the display toggles stay.
pub open spec fn toggle_camera_mode(s: Settings, m: CameraMode) -> Settings {
    let on = !camera_mode_on(s, m);
    Settings {
        camera_follow_boid: on && m is FollowBoid,
        camera_follow_predator: on && m is FollowPredator,
        camera_clamp_center: on && m is ClampCenter,
        ..s
    }
}

/// `toggle_camera_mode` when `pressed`, else `s` itself.
pub open spec fn toggle_camera_mode_if(pressed: bool, s: Settings, m: CameraMode) -> Settings {
    if pressed {
        toggle_camera_mode(s, m)
    } else {
        s
    }
}

/// The settings after one frame's key presses: keys `1`, `2`, `3` act in
/// that order on the camera modes, and Tab, Backspace and Backtick each
/// flip their own display toggle.
pub open spec fn settings_after_keys(s: Settings, k: KeyPresses) -> Settings {
    let c = toggle_camera_mode_if(
        k.key3,
        toggle_camera_mode_if(k.key2, toggle_camera_mode_if(k.key1, s, CameraMode::FollowBoid), CameraMode::FollowPredator),
        CameraMode::ClampCenter,
    );
    Settings {
        enable_gizmos: s.enable_gizmos != k.tab,
        show_plots: s.show_plots != k.back,
        show_plot_settings: s.show_plot_settings != k.grave,
        ..c
    }
}

/// Applies one frame's shortcut key presses to the view settings.
pub fn handle_keyboard_input(keys: &KeyPresses, settings: &mut Settings)
    ensures
        *final(settings) == settings_after_keys(*old(settings), *keys),
{
    if keys.key1 {
        settings.camera_follow_boid = !settings.camera_follow_boid;
        settings.camera_follow_predator = false;
        settings.camera_clamp_center = false;
    }
    if keys.key2 {
        settings.camera_follow_predator = !settings.camera_follow_predator;
        settings.camera_follow_boid = false;
        settings.camera_clamp_center = false;
    }
    if keys.key3 {
        settings.camera_clamp_center = !settings.camera_clamp_center;
        settings.camera_follow_boid = false;
        settings.camera_follow_predator = false;
    }
    if keys.tab {
        settings.enable_gizmos = !settings.enable_gizmos;
    }
    if keys.back {
        settings.show_plots = !settings.show_plots;
    }
    if keys.grave {
        settings.show_plot_settings = !settings.show_plot_settings;
    }
}

/// Whether the camera is pulled towards the centre this frame: only when a
/// camera exists and the centre mode is on.
pub fn camera_clamp_active(camera_present: bool, settings: &Settings) -> (r: bool)
    ensures
        r == (camera_present && settings.camera_clamp_center),
{
    camera_present && settings.camera_clamp_center
}

/// Whatever the keys, settings whose camera modes exclude one another keep
/// that property; and once any camera key is pressed they exclude one
/// another afterwards, whatever they were before.
pub proof fn lemma_camera_modes_stay_exclusive(s: Settings, k: KeyPresses)
    requires
        camera_modes_exclusive(s) || k.key1 || k.key2 || k.key3,
    ensures
        camera_modes_exclusive(settings_after_keys(s, k)),
{
}

/// The display toggles flip exactly for the keys pressed, and the same
/// keys pressed in the next frame flip them back.
pub proof fn lemma_display_toggles_flip_back(s: Settings, k: KeyPresses)
    ensures
        settings_after_keys(settings_after_keys(s, k), k).enable_gizmos == s.enable_gizmos,
        settings_after_keys(settings_after_keys(s, k), k).show_plots == s.show_plots,
        settings_after_keys(settings_after_keys(s, k), k).show_plot_settings == s.show_plot_settings,
{
}

/// With no key pressed the settings stay as they are.
pub proof fn lemma_no_keys_no_change(s: Settings)
    ensures
        settings_after_keys(
            s,
            KeyPresses { key1: false, key2: false, key3: false, tab: false, back: false, grave: false },
        ) == s,
{
}

} // verus!
