//! The view controller: how the application reacts to keys, mouse buttons,
//! cursor moves, wheel turns, window resizes and finished animations.
//!
//! The controller holds every discrete piece of the interface state (which
//! screen is shown, 2D profile or 3D trace, the steps of the transition to
//! and from the country map, the settings switches, the slope selection) and
//! answers each event with its next state and the list of effects that the
//! application then performs (animations, buffer rebuilds, saving settings).
//! Everything continuous (mouse coordinates, animation timing, camera and
//! zoom values) stays with the application, which reports it to the
//! controller as plain facts: which settings control or menu card lies under
//! the cursor, which sidebar row, which stage trace of the country map,
//! whether an animation has reached its end.
use vstd::prelude::*;

verus! {

/// The two screens of the application.
#[derive(Clone, Copy, PartialEq, Eq, Structural, Debug)]
pub enum AppPhase {
    Menu,
    Racing,
}

/// The steps of the transition between a stage and the country map.
#[derive(Clone, Copy, PartialEq, Eq, Structural, Debug)]
pub enum GlobalViewState {
    Inactive,
    MorphingToTopDown,
    Swapped,
    ZoomingOut,
    FullyGlobal,
    ZoomingIn,
    MorphingTo2D,
}

/// The slider of the settings panel that follows the cursor, if any.
#[derive(Clone, Copy, PartialEq, Eq, Structural, Debug)]
pub enum DraggingSlider {
    Idle,
    Lissage,
    Exaggeration2d,
    Exaggeration3d,
}

/// The animated switches of the settings panel.
#[derive(Clone, Copy, PartialEq, Eq, Structural, Debug)]
pub enum Switch {
    Metallic,
    NeonGreen,
    Brushed,
    WhiteSky,
}

/// The control of the settings panel under the cursor: its bands from top to
/// bottom, or a point outside the panel.
#[derive(Clone, Copy, PartialEq, Eq, Structural, Debug)]
pub enum SettingsControl {
    MetallicSwitch,
    BrushedSwitch,
    WhiteSkySwitch,
    SmoothingSlider,
    NeonGreenSwitch,
    Exaggeration2dSlider,
    Exaggeration3dSlider,
    Outside,
}

/// A pressed key.
#[derive(Clone, Copy, PartialEq, Eq, Structural, Debug)]
pub enum KeyInput {
    Escape,
    F11,
    Enter,
    Space,
    /// A key that produces exactly one character.
    Char(char),
    Other,
}

/// Where the cursor stands, as the application measures it.
#[derive(Clone, Copy, PartialEq, Eq, Debug)]
pub struct Pointer {
    /// The settings control under the cursor.
    pub settings_control: SettingsControl,
    /// The race card of the menu under the cursor.
    pub menu_card: Option<usize>,
    /// Whether the cursor is over the stage sidebar.
    pub in_sidebar: bool,
    /// Whether the cursor is over the profile graph.
    pub in_graph: bool,
    /// The sidebar row under the cursor, counted from the top (may be out of range).
    pub sidebar_row: i64,
    /// The number of stages of the current race.
    pub stage_count: usize,
    /// The stage whose red trace on the country map lies under the cursor,
    /// where the map is drawn and the cursor is not over the sidebar.
    pub map_stage: Option<usize>,
    /// The profile point under the cursor, as bit patterns of its distance and elevation.
    pub profile_point: (u32, u32),
    /// Where a slope start is set: the slope from it to `profile_point`
    /// (percentage, horizontal and vertical difference, as bit patterns), or
    /// `None` when the two points are too close to measure.
    pub measured: Option<(u32, u32, u32)>,
}

/// An input event.
#[derive(Clone, Copy, PartialEq, Eq, Debug)]
pub enum Event {
    Key(KeyInput),
    LeftPress(Pointer),
    LeftRelease,
    RightPress,
    RightRelease,
    CursorMoved(Pointer),
    Wheel { in_sidebar: bool },
    Resized { nonzero: bool, stage_count: usize },
    Modifiers { ctrl: bool },
    /// A new frame: whether the running morph and the running country-map
    /// zoom have reached their end.
    Frame { morph_finished: bool, zoom_finished: bool },
}

/// What the application does in answer to an event.
#[derive(Clone, Copy, PartialEq, Eq, Structural, Debug)]
pub enum Effect {
    Exit,
    ToggleFullscreen,
    RequestRedraw,
    SaveSettings,
    RebuildUi,
    RebuildPolyBuffers,
    /// Animate a settings switch towards the given position.
    StartSwitch(Switch, bool),
    /// Draw in neon green or in the race colour, as the neon setting says.
    ApplyRaceColor,
    /// Morph towards the 3D trace (1) or the 2D profile (0).
    StartMorph(u32),
    /// Turn the camera to look straight down on the trace.
    StartCameraTopDown,
    CancelCamera,
    /// Put the 3D camera back to its neutral top-down position.
    ResetCamera3d,
    /// Put the 2D profile back to its initial placement.
    ResetProfileView,
    /// Zoom out from the stage to the whole country.
    StartZoomOut,
    /// Zoom back in from the country to the stage.
    StartZoomIn,
    /// Load the given race and drop every running animation.
    LoadRace(usize),
    /// Show the given stage.
    SelectStage(usize),
    /// Set the value of the given slider from the cursor.
    ApplySlider(DraggingSlider),
    Rotate3d,
    Pan3d,
    Pan2d,
    ScrollSidebar,
    /// Zoom with the wheel; `global_floor` allows zooming out to the whole
    /// country, `around_camera` zooms the 3D camera rather than the 2D profile.
    Zoom { global_floor: bool, around_camera: bool },
    Resize,
}

/// The discrete state of the interface.
#[derive(Clone, Copy, PartialEq, Eq, Debug)]
pub struct ViewState {
    pub app_phase: AppPhase,
    pub global_view_state: GlobalViewState,
    /// 0: 2D profile, 1: 3D trace.
    pub view_mode: u32,
    pub show_settings: bool,
    pub use_metallic: bool,
    pub use_neon_green: bool,
    pub use_brushed: bool,
    pub use_white_sky: bool,
    pub show_shadows: bool,
    pub dragging_slider: DraggingSlider,
    pub morph_running: bool,
    pub zoom_running: bool,
    pub mouse_pressed: bool,
    pub right_mouse_pressed: bool,
    pub ctrl_pressed: bool,
    pub race_count: usize,
    pub current_race: usize,
    pub selected_stage: usize,
    pub hovered_menu: Option<usize>,
    pub hover_stage: Option<usize>,
    pub slope_start: Option<(u32, u32)>,
    pub slope_end: Option<(u32, u32)>,
    pub slope_result: Option<(u32, u32, u32)>,
}

/// Whether `c` is the letter `lower` in either case.
pub open spec fn is_letter(c: char, lower: char) -> bool {
    c == lower || c as int == lower as int - 32
}

fn letter(c: char, lower: char) -> (b: bool)
    requires
        'a' <= lower <= 'z',
    ensures
        b == is_letter(c, lower),
{
    c == lower || (c as u32) + 32 == (lower as u32)
}

impl ViewState {
    /// The internal consistency of the interface state.
    pub open spec fn wf(self) -> bool {
        &&& self.view_mode <= 1
        &&& (self.slope_end is Some <==> self.slope_result is Some)
        &&& (self.slope_end is Some ==> self.slope_start is Some)
        &&& (self.zoom_running <==> (self.global_view_state == GlobalViewState::ZoomingOut
            || self.global_view_state == GlobalViewState::ZoomingIn))
        &&& (self.global_view_state == GlobalViewState::MorphingTo2D ==> self.view_mode == 0
            && self.morph_running)
        &&& (self.global_view_state != GlobalViewState::Inactive && self.global_view_state
            != GlobalViewState::MorphingTo2D ==> self.view_mode == 1)
        &&& self.current_race < self.race_count
    }

    /// The state at start-up: the given race, its first stage, the 2D profile,
    /// the settings as stored.
    pub open spec fn initial(
        race_count: usize,
        race: usize,
        in_menu: bool,
        use_metallic: bool,
        use_neon_green: bool,
        use_brushed: bool,
        use_white_sky: bool,
        show_shadows: bool,
    ) -> ViewState {
        ViewState {
            app_phase: if in_menu { AppPhase::Menu } else { AppPhase::Racing },
            global_view_state: GlobalViewState::Inactive,
            view_mode: 0,
            show_settings: false,
            use_metallic,
            use_neon_green,
            use_brushed,
            use_white_sky,
            show_shadows,
            dragging_slider: DraggingSlider::Idle,
            morph_running: false,
            zoom_running: false,
            mouse_pressed: false,
            right_mouse_pressed: false,
            ctrl_pressed: false,
            race_count,
            current_race: race,
            selected_stage: 0,
            hovered_menu: None,
            hover_stage: None,
            slope_start: None,
            slope_end: None,
            slope_result: None,
        }
    }

    /// Creates the state at start-up.
    pub fn new(
        race_count: usize,
        race: usize,
        in_menu: bool,
        use_metallic: bool,
        use_neon_green: bool,
        use_brushed: bool,
        use_white_sky: bool,
        show_shadows: bool,
    ) -> (s: ViewState)
        requires
            race < race_count,
        ensures
            s == ViewState::initial(
                race_count,
                race,
                in_menu,
                use_metallic,
                use_neon_green,
                use_brushed,
                use_white_sky,
                show_shadows,
            ),
            s.wf(),
    {
        ViewState {
            app_phase: if in_menu { AppPhase::Menu } else { AppPhase::Racing },
            global_view_state: GlobalViewState::Inactive,
            view_mode: 0,
            show_settings: false,
            use_metallic,
            use_neon_green,
            use_brushed,
            use_white_sky,
            show_shadows,
            dragging_slider: DraggingSlider::Idle,
            morph_running: false,
            zoom_running: false,
            mouse_pressed: false,
            right_mouse_pressed: false,
            ctrl_pressed: false,
            race_count,
            current_race: race,
            selected_stage: 0,
            hovered_menu: None,
            hover_stage: None,
            slope_start: None,
            slope_end: None,
            slope_result: None,
        }
    }
}

// ---------------------------------------------------------------------------
// The transitions, stated as functions of the state and the event.
// ---------------------------------------------------------------------------

/// Flipping the metallic rendering.
pub open spec fn toggle_metallic(s: ViewState) -> (ViewState, Seq<Effect>) {
    (
        ViewState { use_metallic: !s.use_metallic, ..s },
        seq![
            Effect::SaveSettings,
            Effect::RebuildPolyBuffers,
            Effect::StartSwitch(Switch::Metallic, !s.use_metallic),
        ],
    )
}

/// Flipping the neon green colour.
pub open spec fn toggle_neon(s: ViewState) -> (ViewState, Seq<Effect>) {
    (
        ViewState { use_neon_green: !s.use_neon_green, ..s },
        seq![
            Effect::SaveSettings,
            Effect::ApplyRaceColor,
            Effect::RebuildUi,
            Effect::StartSwitch(Switch::NeonGreen, !s.use_neon_green),
        ],
    )
}

/// Flipping the brushed effect, which only exists in metallic rendering.
pub open spec fn toggle_brushed(s: ViewState) -> (ViewState, Seq<Effect>) {
    if s.use_metallic {
        (
            ViewState { use_brushed: !s.use_brushed, ..s },
            seq![Effect::SaveSettings, Effect::StartSwitch(Switch::Brushed, !s.use_brushed)],
        )
    } else {
        (s, seq![])
    }
}

/// Flipping the white sky, which only exists in metallic rendering.
pub open spec fn toggle_white_sky(s: ViewState) -> (ViewState, Seq<Effect>) {
    if s.use_metallic {
        (
            ViewState { use_white_sky: !s.use_white_sky, ..s },
            seq![Effect::SaveSettings, Effect::StartSwitch(Switch::WhiteSky, !s.use_white_sky)],
        )
    } else {
        (s, seq![])
    }
}

/// `r` followed by a redraw request when it had any effect.
pub open spec fn with_redraw(r: (ViewState, Seq<Effect>)) -> (ViewState, Seq<Effect>) {
    if r.1.len() == 0 {
        r
    } else {
        (r.0, r.1.push(Effect::RequestRedraw))
    }
}

/// A key pressed while the settings panel is open.
pub open spec fn settings_key(s: ViewState, k: KeyInput) -> (ViewState, Seq<Effect>) {
    match k {
        KeyInput::Escape => (ViewState { show_settings: false, ..s }, seq![Effect::RequestRedraw]),
        KeyInput::Char(c) => if is_letter(c, 'p') {
            (ViewState { show_settings: false, ..s }, seq![Effect::RequestRedraw])
        } else if is_letter(c, 't') {
            with_redraw(toggle_metallic(s))
        } else if is_letter(c, 'c') {
            with_redraw(toggle_neon(s))
        } else if is_letter(c, 'b') {
            with_redraw(toggle_brushed(s))
        } else if is_letter(c, 'w') {
            with_redraw(toggle_white_sky(s))
        } else {
            (s, seq![])
        },
        _ => (s, seq![]),
    }
}

/// Enter while racing: start the transition to the country map.
pub open spec fn enter_global(s: ViewState) -> (ViewState, Seq<Effect>) {
    if s.global_view_state == GlobalViewState::Inactive {
        let morph: Seq<Effect> = if s.view_mode == 0 {
            seq![Effect::StartMorph(1)]
        } else {
            seq![]
        };
        (
            ViewState {
                view_mode: 1,
                morph_running: s.morph_running || s.view_mode == 0,
                global_view_state: GlobalViewState::MorphingToTopDown,
                ..s
            },
            morph + seq![Effect::StartCameraTopDown, Effect::RebuildUi],
        )
    } else {
        (s, seq![])
    }
}

/// Space while racing: leave the country map, or switch between the 2D
/// profile and the 3D trace.
pub open spec fn space(s: ViewState) -> (ViewState, Seq<Effect>) {
    let g = s.global_view_state;
    if g != GlobalViewState::Inactive {
        if g == GlobalViewState::ZoomingIn || g == GlobalViewState::MorphingTo2D {
            (s, seq![])
        } else if g == GlobalViewState::MorphingToTopDown {
            (
                ViewState {
                    global_view_state: GlobalViewState::Inactive,
                    view_mode: 0,
                    morph_running: true,
                    ..s
                },
                seq![
                    Effect::CancelCamera,
                    Effect::ResetProfileView,
                    Effect::StartMorph(0),
                    Effect::RebuildUi,
                ],
            )
        } else {
            (
                ViewState {
                    global_view_state: GlobalViewState::ZoomingIn,
                    zoom_running: true,
                    ..s
                },
                seq![Effect::StartZoomIn, Effect::RebuildUi],
            )
        }
    } else if s.view_mode == 0 {
        (
            ViewState { view_mode: 1, morph_running: true, ..s },
            seq![Effect::StartMorph(1), Effect::ResetCamera3d, Effect::RebuildUi],
        )
    } else {
        (
            ViewState { view_mode: 0, morph_running: true, ..s },
            seq![Effect::StartMorph(0), Effect::RebuildUi],
        )
    }
}

/// A key pressed while the settings panel is closed.
pub open spec fn main_key(s: ViewState, k: KeyInput) -> (ViewState, Seq<Effect>) {
    match k {
        KeyInput::Escape => (s, seq![Effect::Exit]),
        KeyInput::F11 => (s, seq![Effect::ToggleFullscreen]),
        KeyInput::Char(c) => if is_letter(c, 'p') {
            (ViewState { show_settings: true, ..s }, seq![Effect::RequestRedraw])
        } else if is_letter(c, 'm') {
            (
                ViewState {
                    app_phase: if s.app_phase == AppPhase::Menu {
                        AppPhase::Racing
                    } else {
                        AppPhase::Menu
                    },
                    ..s
                },
                seq![Effect::RebuildUi],
            )
        } else if is_letter(c, 'c') {
            with_redraw(toggle_neon(s))
        } else if is_letter(c, 't') {
            with_redraw(toggle_metallic(s))
        } else if is_letter(c, 'o') {
            (
                ViewState { show_shadows: !s.show_shadows, ..s },
                seq![Effect::SaveSettings, Effect::RequestRedraw],
            )
        } else if is_letter(c, 'b') {
            with_redraw(toggle_brushed(s))
        } else if is_letter(c, 'w') {
            with_redraw(toggle_white_sky(s))
        } else {
            (s, seq![])
        },
        KeyInput::Enter => if s.app_phase == AppPhase::Racing {
            enter_global(s)
        } else {
            (s, seq![])
        },
        KeyInput::Space => if s.app_phase == AppPhase::Racing {
            space(s)
        } else {
            (s, seq![])
        },
        KeyInput::Other => (s, seq![]),
    }
}

/// The slope selection after a measuring click on profile point `p`.
pub open spec fn slope_click(s: ViewState, p: (u32, u32), measured: Option<(u32, u32, u32)>) -> ViewState {
    if s.slope_result is Some {
        ViewState { slope_start: Some(p), slope_end: None, slope_result: None, ..s }
    } else if s.slope_start is Some {
        match measured {
            Some(r) => ViewState { slope_end: Some(p), slope_result: Some(r), ..s },
            None => ViewState { slope_start: None, slope_end: None, slope_result: None, ..s },
        }
    } else {
        ViewState { slope_start: Some(p), slope_end: None, slope_result: None, ..s }
    }
}

/// `s` with no slope selection.
pub open spec fn clear_slope(s: ViewState) -> ViewState {
    ViewState { slope_start: None, slope_end: None, slope_result: None, ..s }
}

/// Showing stage `idx`, where it exists.
pub open spec fn select_stage(s: ViewState, idx: usize, stage_count: usize) -> (ViewState, Seq<Effect>) {
    if idx < stage_count {
        (clear_slope(ViewState { selected_stage: idx, ..s }), seq![Effect::SelectStage(idx)])
    } else {
        (s, seq![])
    }
}

/// A click on a control of the settings panel.
pub open spec fn settings_click(s: ViewState, c: SettingsControl) -> (ViewState, Seq<Effect>) {
    match c {
        SettingsControl::Outside => (ViewState { show_settings: false, ..s }, seq![Effect::RequestRedraw]),
        SettingsControl::MetallicSwitch => {
            let r = toggle_metallic(s);
            (r.0, r.1.push(Effect::RequestRedraw))
        },
        SettingsControl::BrushedSwitch => {
            let r = toggle_brushed(s);
            (r.0, r.1.push(Effect::RequestRedraw))
        },
        SettingsControl::WhiteSkySwitch => {
            let r = toggle_white_sky(s);
            (r.0, r.1.push(Effect::RequestRedraw))
        },
        SettingsControl::SmoothingSlider => if s.use_metallic {
            (
                ViewState { dragging_slider: DraggingSlider::Lissage, ..s },
                seq![Effect::ApplySlider(DraggingSlider::Lissage), Effect::RequestRedraw],
            )
        } else {
            (s, seq![Effect::RequestRedraw])
        },
        SettingsControl::NeonGreenSwitch => {
            let r = toggle_neon(s);
            (r.0, r.1.push(Effect::RequestRedraw))
        },
        SettingsControl::Exaggeration2dSlider => (
            ViewState { dragging_slider: DraggingSlider::Exaggeration2d, ..s },
            seq![Effect::ApplySlider(DraggingSlider::Exaggeration2d), Effect::RequestRedraw],
        ),
        SettingsControl::Exaggeration3dSlider => (
            ViewState { dragging_slider: DraggingSlider::Exaggeration3d, ..s },
            seq![Effect::ApplySlider(DraggingSlider::Exaggeration3d), Effect::RequestRedraw],
        ),
    }
}

/// Loading race `idx`, where it exists: back to its first stage and to the
/// plain 2D or 3D view, with no animation running.
pub open spec fn load_race(s: ViewState, idx: usize) -> (ViewState, Seq<Effect>) {
    if idx < s.race_count {
        (
            ViewState {
                current_race: idx,
                selected_stage: 0,
                slope_start: None,
                slope_end: None,
                slope_result: None,
                hover_stage: None,
                global_view_state: GlobalViewState::Inactive,
                morph_running: false,
                zoom_running: false,
                ..s
            },
            seq![Effect::LoadRace(idx)],
        )
    } else {
        (s, seq![])
    }
}

/// The left button pressed.
pub open spec fn left_press(s: ViewState, p: Pointer) -> (ViewState, Seq<Effect>) {
    if s.show_settings {
        settings_click(s, p.settings_control)
    } else {
        let s1 = ViewState { mouse_pressed: true, ..s };
        if s1.app_phase == AppPhase::Menu {
            match s1.hovered_menu {
                Some(idx) => {
                    let r = load_race(s1, idx);
                    (ViewState { app_phase: AppPhase::Racing, mouse_pressed: false, ..r.0 }, r.1)
                },
                None => (s1, seq![]),
            }
        } else if s1.view_mode == 0 && s1.global_view_state == GlobalViewState::Inactive
            && s1.ctrl_pressed && p.in_graph {
            (slope_click(s1, p.profile_point, p.measured), seq![Effect::RebuildUi])
        } else if p.in_sidebar && 0 <= p.sidebar_row && p.sidebar_row < p.stage_count {
            select_stage(s1, p.sidebar_row as usize, p.stage_count)
        } else if !p.in_sidebar && s1.global_view_state == GlobalViewState::FullyGlobal {
            match p.map_stage {
                Some(idx) => select_stage(s1, idx, p.stage_count),
                None => (s1, seq![]),
            }
        } else {
            (s1, seq![])
        }
    }
}

/// The right button pressed: outside the settings panel, in the plain 2D
/// profile, it cancels the slope selection.
pub open spec fn right_press(s: ViewState) -> (ViewState, Seq<Effect>) {
    if s.show_settings {
        (s, seq![])
    } else {
        let s1 = ViewState { right_mouse_pressed: true, ..s };
        if s1.view_mode == 0 && s1.global_view_state == GlobalViewState::Inactive {
            (clear_slope(s1), seq![Effect::RebuildUi])
        } else {
            (s1, seq![])
        }
    }
}

/// The cursor moved.
pub open spec fn cursor_moved(s: ViewState, p: Pointer) -> (ViewState, Seq<Effect>) {
    if s.show_settings {
        if s.dragging_slider != DraggingSlider::Idle {
            (s, seq![Effect::ApplySlider(s.dragging_slider), Effect::RequestRedraw])
        } else {
            (s, seq![])
        }
    } else if s.app_phase == AppPhase::Menu {
        (ViewState { hovered_menu: p.menu_card, hover_stage: None, ..s }, seq![])
    } else {
        let hover = if p.in_sidebar && 0 <= p.sidebar_row && p.sidebar_row < p.stage_count {
            Some(p.sidebar_row as usize)
        } else {
            None
        };
        let s1 = ViewState { hover_stage: hover, ..s };
        let drag: Seq<Effect> = if s.mouse_pressed || s.right_mouse_pressed {
            if s.view_mode == 1 || s.global_view_state == GlobalViewState::FullyGlobal {
                if s.right_mouse_pressed {
                    seq![Effect::Rotate3d]
                } else {
                    seq![Effect::Pan3d]
                }
            } else if s.mouse_pressed {
                seq![Effect::Pan2d]
            } else {
                seq![]
            }
        } else {
            seq![]
        };
        (s1, drag)
    }
}

/// The wheel turned.
pub open spec fn wheel(s: ViewState, in_sidebar: bool) -> (ViewState, Seq<Effect>) {
    if s.show_settings || s.app_phase == AppPhase::Menu {
        (s, seq![])
    } else if in_sidebar {
        (s, seq![Effect::ScrollSidebar])
    } else {
        (
            s,
            seq![
                Effect::Zoom {
                    global_floor: s.global_view_state != GlobalViewState::Inactive,
                    around_camera: s.view_mode == 1 || s.global_view_state
                        == GlobalViewState::FullyGlobal,
                },
            ],
        )
    }
}

/// The morph back to the 2D profile has ended: the transition is over.
pub open spec fn end_morph_back(s: ViewState) -> (ViewState, Seq<Effect>) {
    if s.global_view_state == GlobalViewState::MorphingTo2D && !s.morph_running {
        (ViewState { global_view_state: GlobalViewState::Inactive, ..s }, seq![Effect::RebuildUi])
    } else {
        (s, seq![])
    }
}

/// The morph to the top-down trace has ended: zoom out to the country.
pub open spec fn begin_zoom_out(r: (ViewState, Seq<Effect>)) -> (ViewState, Seq<Effect>) {
    if r.0.global_view_state == GlobalViewState::MorphingToTopDown && !r.0.morph_running {
        (
            ViewState { global_view_state: GlobalViewState::ZoomingOut, zoom_running: true, ..r.0 },
            r.1.push(Effect::StartZoomOut),
        )
    } else {
        r
    }
}

/// The country-map zoom that was running has ended (`ended`): after zooming
/// out the map is shown, after zooming in the view morphs back to the 2D profile.
pub open spec fn end_zoom(r: (ViewState, Seq<Effect>), ended: bool) -> (ViewState, Seq<Effect>) {
    if ended {
        let s4 = ViewState { zoom_running: false, ..r.0 };
        if s4.global_view_state == GlobalViewState::ZoomingOut {
            (ViewState { global_view_state: GlobalViewState::FullyGlobal, ..s4 }, r.1)
        } else if s4.global_view_state == GlobalViewState::ZoomingIn {
            (
                ViewState {
                    global_view_state: GlobalViewState::MorphingTo2D,
                    view_mode: 0,
                    morph_running: true,
                    ..s4
                },
                r.1 + seq![Effect::StartMorph(0), Effect::ResetProfileView],
            )
        } else {
            (s4, r.1)
        }
    } else {
        r
    }
}

/// A new frame, once the animations have advanced.
pub open spec fn frame(s: ViewState, morph_finished: bool, zoom_finished: bool) -> (ViewState, Seq<Effect>) {
    let s1 = ViewState { morph_running: s.morph_running && !morph_finished, ..s };
    end_zoom(begin_zoom_out(end_morph_back(s1)), s.zoom_running && zoom_finished)
}

/// The next state and the effects of event `e` in state `s`.
pub open spec fn step(s: ViewState, e: Event) -> (ViewState, Seq<Effect>) {
    match e {
        Event::Key(k) => if s.show_settings {
            settings_key(s, k)
        } else {
            main_key(s, k)
        },
        Event::LeftPress(p) => left_press(s, p),
        Event::LeftRelease => (
            ViewState {
                dragging_slider: DraggingSlider::Idle,
                mouse_pressed: if s.show_settings { s.mouse_pressed } else { false },
                ..s
            },
            seq![],
        ),
        Event::RightPress => right_press(s),
        Event::RightRelease => if s.show_settings {
            (s, seq![])
        } else {
            (ViewState { right_mouse_pressed: false, ..s }, seq![])
        },
        Event::CursorMoved(p) => cursor_moved(s, p),
        Event::Wheel { in_sidebar } => wheel(s, in_sidebar),
        Event::Resized { nonzero, stage_count } => if nonzero {
            let r = select_stage(s, s.selected_stage, stage_count);
            (r.0, seq![Effect::Resize, Effect::RebuildUi] + r.1)
        } else {
            (s, seq![])
        },
        Event::Modifiers { ctrl } => (ViewState { ctrl_pressed: ctrl, ..s }, seq![]),
        Event::Frame { morph_finished, zoom_finished } => frame(s, morph_finished, zoom_finished),
    }
}

// ---------------------------------------------------------------------------
// The transitions, computed.
// ---------------------------------------------------------------------------

fn exec_toggle_metallic(s: ViewState) -> (r: (ViewState, Vec<Effect>))
    ensures
        (r.0, r.1@) == toggle_metallic(s),
{
    let effects = vec![
        Effect::SaveSettings,
        Effect::RebuildPolyBuffers,
        Effect::StartSwitch(Switch::Metallic, !s.use_metallic),
    ];
    (ViewState { use_metallic: !s.use_metallic, ..s }, effects)
}

fn exec_toggle_neon(s: ViewState) -> (r: (ViewState, Vec<Effect>))
    ensures
        (r.0, r.1@) == toggle_neon(s),
{
    let effects = vec![
        Effect::SaveSettings,
        Effect::ApplyRaceColor,
        Effect::RebuildUi,
        Effect::StartSwitch(Switch::NeonGreen, !s.use_neon_green),
    ];
    (ViewState { use_neon_green: !s.use_neon_green, ..s }, effects)
}

fn exec_toggle_brushed(s: ViewState) -> (r: (ViewState, Vec<Effect>))
    ensures
        (r.0, r.1@) == toggle_brushed(s),
{
    if s.use_metallic {
        let effects = vec![Effect::SaveSettings, Effect::StartSwitch(Switch::Brushed, !s.use_brushed)];
        (ViewState { use_brushed: !s.use_brushed, ..s }, effects)
    } else {
        (s, Vec::new())
    }
}

fn exec_toggle_white_sky(s: ViewState) -> (r: (ViewState, Vec<Effect>))
    ensures
        (r.0, r.1@) == toggle_white_sky(s),
{
    if s.use_metallic {
        let effects = vec![
            Effect::SaveSettings,
            Effect::StartSwitch(Switch::WhiteSky, !s.use_white_sky),
        ];
        (ViewState { use_white_sky: !s.use_white_sky, ..s }, effects)
    } else {
        (s, Vec::new())
    }
}

fn exec_with_redraw(r: (ViewState, Vec<Effect>)) -> (out: (ViewState, Vec<Effect>))
    ensures
        (out.0, out.1@) == with_redraw((r.0, r.1@)),
{
    let (st, mut effects) = r;
    if effects.len() != 0 {
        effects.push(Effect::RequestRedraw);
    }
    (st, effects)
}

fn exec_then_redraw(r: (ViewState, Vec<Effect>)) -> (out: (ViewState, Vec<Effect>))
    ensures
        (out.0, out.1@) == (r.0, r.1@.push(Effect::RequestRedraw)),
{
    let (st, mut effects) = r;
    effects.push(Effect::RequestRedraw);
    (st, effects)
}

fn exec_settings_key(s: ViewState, k: KeyInput) -> (r: (ViewState, Vec<Effect>))
    ensures
        (r.0, r.1@) == settings_key(s, k),
{
    match k {
        KeyInput::Escape => (ViewState { show_settings: false, ..s }, vec![Effect::RequestRedraw]),
        KeyInput::Char(c) => if letter(c, 'p') {
            (ViewState { show_settings: false, ..s }, vec![Effect::RequestRedraw])
        } else if letter(c, 't') {
            exec_with_redraw(exec_toggle_metallic(s))
        } else if letter(c, 'c') {
            exec_with_redraw(exec_toggle_neon(s))
        } else if letter(c, 'b') {
            exec_with_redraw(exec_toggle_brushed(s))
        } else if letter(c, 'w') {
            exec_with_redraw(exec_toggle_white_sky(s))
        } else {
            (s, Vec::new())
        },
        _ => (s, Vec::new()),
    }
}

fn exec_enter_global(s: ViewState) -> (r: (ViewState, Vec<Effect>))
    ensures
        (r.0, r.1@) == enter_global(s),
{
    if s.global_view_state == GlobalViewState::Inactive {
        let mut effects: Vec<Effect> = Vec::new();
        if s.view_mode == 0 {
            effects.push(Effect::StartMorph(1));
        }
        effects.push(Effect::StartCameraTopDown);
        effects.push(Effect::RebuildUi);
        let st = ViewState {
            view_mode: 1,
            morph_running: s.morph_running || s.view_mode == 0,
            global_view_state: GlobalViewState::MorphingToTopDown,
            ..s
        };
        proof {
            let morph: Seq<Effect> = if s.view_mode == 0 {
                seq![Effect::StartMorph(1)]
            } else {
                seq![]
            };
            assert(effects@ =~= morph + seq![Effect::StartCameraTopDown, Effect::RebuildUi]);
        }
        (st, effects)
    } else {
        (s, Vec::new())
    }
}

fn exec_space(s: ViewState) -> (r: (ViewState, Vec<Effect>))
    ensures
        (r.0, r.1@) == space(s),
{
    let g = s.global_view_state;
    if g != GlobalViewState::Inactive {
        if g == GlobalViewState::ZoomingIn || g == GlobalViewState::MorphingTo2D {
            (s, Vec::new())
        } else if g == GlobalViewState::MorphingToTopDown {
            (
                ViewState {
                    global_view_state: GlobalViewState::Inactive,
                    view_mode: 0,
                    morph_running: true,
                    ..s
                },
                vec![
                    Effect::CancelCamera,
                    Effect::ResetProfileView,
                    Effect::StartMorph(0),
                    Effect::RebuildUi,
                ],
            )
        } else {
            (
                ViewState {
                    global_view_state: GlobalViewState::ZoomingIn,
                    zoom_running: true,
                    ..s
                },
                vec![Effect::StartZoomIn, Effect::RebuildUi],
            )
        }
    } else if s.view_mode == 0 {
        (
            ViewState { view_mode: 1, morph_running: true, ..s },
            vec![Effect::StartMorph(1), Effect::ResetCamera3d, Effect::RebuildUi],
        )
    } else {
        (
            ViewState { view_mode: 0, morph_running: true, ..s },
            vec![Effect::StartMorph(0), Effect::RebuildUi],
        )
    }
}

fn exec_main_key(s: ViewState, k: KeyInput) -> (r: (ViewState, Vec<Effect>))
    ensures
        (r.0, r.1@) == main_key(s, k),
{
    match k {
        KeyInput::Escape => (s, vec![Effect::Exit]),
        KeyInput::F11 => (s, vec![Effect::ToggleFullscreen]),
        KeyInput::Char(c) => if letter(c, 'p') {
            (ViewState { show_settings: true, ..s }, vec![Effect::RequestRedraw])
        } else if letter(c, 'm') {
            let phase = if s.app_phase == AppPhase::Menu {
                AppPhase::Racing
            } else {
                AppPhase::Menu
            };
            (ViewState { app_phase: phase, ..s }, vec![Effect::RebuildUi])
        } else if letter(c, 'c') {
            exec_with_redraw(exec_toggle_neon(s))
        } else if letter(c, 't') {
            exec_with_redraw(exec_toggle_metallic(s))
        } else if letter(c, 'o') {
            (
                ViewState { show_shadows: !s.show_shadows, ..s },
                vec![Effect::SaveSettings, Effect::RequestRedraw],
            )
        } else if letter(c, 'b') {
            exec_with_redraw(exec_toggle_brushed(s))
        } else if letter(c, 'w') {
            exec_with_redraw(exec_toggle_white_sky(s))
        } else {
            (s, Vec::new())
        },
        KeyInput::Enter => if s.app_phase == AppPhase::Racing {
            exec_enter_global(s)
        } else {
            (s, Vec::new())
        },
        KeyInput::Space => if s.app_phase == AppPhase::Racing {
            exec_space(s)
        } else {
            (s, Vec::new())
        },
        KeyInput::Other => (s, Vec::new()),
    }
}

fn exec_slope_click(s: ViewState, p: (u32, u32), measured: Option<(u32, u32, u32)>) -> (r: ViewState)
    ensures
        r == slope_click(s, p, measured),
{
    if s.slope_result.is_some() {
        ViewState { slope_start: Some(p), slope_end: None, slope_result: None, ..s }
    } else if s.slope_start.is_some() {
        match measured {
            Some(m) => ViewState { slope_end: Some(p), slope_result: Some(m), ..s },
            None => ViewState { slope_start: None, slope_end: None, slope_result: None, ..s },
        }
    } else {
        ViewState { slope_start: Some(p), slope_end: None, slope_result: None, ..s }
    }
}

fn exec_select_stage(s: ViewState, idx: usize, stage_count: usize) -> (r: (ViewState, Vec<Effect>))
    ensures
        (r.0, r.1@) == select_stage(s, idx, stage_count),
{
    if idx < stage_count {
        (
            ViewState {
                selected_stage: idx,
                slope_start: None,
                slope_end: None,
                slope_result: None,
                ..s
            },
            vec![Effect::SelectStage(idx)],
        )
    } else {
        (s, Vec::new())
    }
}

fn exec_settings_click(s: ViewState, c: SettingsControl) -> (r: (ViewState, Vec<Effect>))
    ensures
        (r.0, r.1@) == settings_click(s, c),
{
    match c {
        SettingsControl::Outside => (ViewState { show_settings: false, ..s }, vec![Effect::RequestRedraw]),
        SettingsControl::MetallicSwitch => exec_then_redraw(exec_toggle_metallic(s)),
        SettingsControl::BrushedSwitch => exec_then_redraw(exec_toggle_brushed(s)),
        SettingsControl::WhiteSkySwitch => exec_then_redraw(exec_toggle_white_sky(s)),
        SettingsControl::SmoothingSlider => if s.use_metallic {
            (
                ViewState { dragging_slider: DraggingSlider::Lissage, ..s },
                vec![Effect::ApplySlider(DraggingSlider::Lissage), Effect::RequestRedraw],
            )
        } else {
            (s, vec![Effect::RequestRedraw])
        },
        SettingsControl::NeonGreenSwitch => exec_then_redraw(exec_toggle_neon(s)),
        SettingsControl::Exaggeration2dSlider => (
            ViewState { dragging_slider: DraggingSlider::Exaggeration2d, ..s },
            vec![Effect::ApplySlider(DraggingSlider::Exaggeration2d), Effect::RequestRedraw],
        ),
        SettingsControl::Exaggeration3dSlider => (
            ViewState { dragging_slider: DraggingSlider::Exaggeration3d, ..s },
            vec![Effect::ApplySlider(DraggingSlider::Exaggeration3d), Effect::RequestRedraw],
        ),
    }
}

fn exec_load_race(s: ViewState, idx: usize) -> (r: (ViewState, Vec<Effect>))
    ensures
        (r.0, r.1@) == load_race(s, idx),
{
    if idx < s.race_count {
        (
            ViewState {
                current_race: idx,
                selected_stage: 0,
                slope_start: None,
                slope_end: None,
                slope_result: None,
                hover_stage: None,
                global_view_state: GlobalViewState::Inactive,
                morph_running: false,
                zoom_running: false,
                ..s
            },
            vec![Effect::LoadRace(idx)],
        )
    } else {
        (s, Vec::new())
    }
}

fn in_row_range(row: i64, count: usize) -> (b: bool)
    ensures
        b == (0 <= row && row < count),
{
    row >= 0 && (row as u64) < (count as u64)
}

fn exec_left_press(s: ViewState, p: Pointer) -> (r: (ViewState, Vec<Effect>))
    ensures
        (r.0, r.1@) == left_press(s, p),
{
    if s.show_settings {
        exec_settings_click(s, p.settings_control)
    } else {
        let s1 = ViewState { mouse_pressed: true, ..s };
        if s1.app_phase == AppPhase::Menu {
            match s1.hovered_menu {
                Some(idx) => {
                    let (st, effects) = exec_load_race(s1, idx);
                    (ViewState { app_phase: AppPhase::Racing, mouse_pressed: false, ..st }, effects)
                },
                None => (s1, Vec::new()),
            }
        } else if s1.view_mode == 0 && s1.global_view_state == GlobalViewState::Inactive
            && s1.ctrl_pressed && p.in_graph {
            (exec_slope_click(s1, p.profile_point, p.measured), vec![Effect::RebuildUi])
        } else if p.in_sidebar && in_row_range(p.sidebar_row, p.stage_count) {
            exec_select_stage(s1, p.sidebar_row as usize, p.stage_count)
        } else if !p.in_sidebar && s1.global_view_state == GlobalViewState::FullyGlobal {
            match p.map_stage {
                Some(idx) => exec_select_stage(s1, idx, p.stage_count),
                None => (s1, Vec::new()),
            }
        } else {
            (s1, Vec::new())
        }
    }
}

fn exec_right_press(s: ViewState) -> (r: (ViewState, Vec<Effect>))
    ensures
        (r.0, r.1@) == right_press(s),
{
    if s.show_settings {
        (s, Vec::new())
    } else {
        let s1 = ViewState { right_mouse_pressed: true, ..s };
        if s1.view_mode == 0 && s1.global_view_state == GlobalViewState::Inactive {
            (
                ViewState { slope_start: None, slope_end: None, slope_result: None, ..s1 },
                vec![Effect::RebuildUi],
            )
        } else {
            (s1, Vec::new())
        }
    }
}

fn exec_cursor_moved(s: ViewState, p: Pointer) -> (r: (ViewState, Vec<Effect>))
    ensures
        (r.0, r.1@) == cursor_moved(s, p),
{
    if s.show_settings {
        if s.dragging_slider != DraggingSlider::Idle {
            (s, vec![Effect::ApplySlider(s.dragging_slider), Effect::RequestRedraw])
        } else {
            (s, Vec::new())
        }
    } else if s.app_phase == AppPhase::Menu {
        (ViewState { hovered_menu: p.menu_card, hover_stage: None, ..s }, Vec::new())
    } else {
        let hover = if p.in_sidebar && in_row_range(p.sidebar_row, p.stage_count) {
            Some(p.sidebar_row as usize)
        } else {
            None
        };
        let s1 = ViewState { hover_stage: hover, ..s };
        let mut drag: Vec<Effect> = Vec::new();
        if s.mouse_pressed || s.right_mouse_pressed {
            if s.view_mode == 1 || s.global_view_state == GlobalViewState::FullyGlobal {
                if s.right_mouse_pressed {
                    drag.push(Effect::Rotate3d);
                } else {
                    drag.push(Effect::Pan3d);
                }
            } else if s.mouse_pressed {
                drag.push(Effect::Pan2d);
            }
        }
        proof {
            let expected: Seq<Effect> = if s.mouse_pressed || s.right_mouse_pressed {
                if s.view_mode == 1 || s.global_view_state == GlobalViewState::FullyGlobal {
                    if s.right_mouse_pressed {
                        seq![Effect::Rotate3d]
                    } else {
                        seq![Effect::Pan3d]
                    }
                } else if s.mouse_pressed {
                    seq![Effect::Pan2d]
                } else {
                    seq![]
                }
            } else {
                seq![]
            };
            assert(drag@ =~= expected);
        }
        (s1, drag)
    }
}

fn exec_wheel(s: ViewState, in_sidebar: bool) -> (r: (ViewState, Vec<Effect>))
    ensures
        (r.0, r.1@) == wheel(s, in_sidebar),
{
    if s.show_settings || s.app_phase == AppPhase::Menu {
        (s, Vec::new())
    } else if in_sidebar {
        (s, vec![Effect::ScrollSidebar])
    } else {
        (
            s,
            vec![
                Effect::Zoom {
                    global_floor: s.global_view_state != GlobalViewState::Inactive,
                    around_camera: s.view_mode == 1 || s.global_view_state
                        == GlobalViewState::FullyGlobal,
                },
            ],
        )
    }
}

fn exec_end_morph_back(s: ViewState) -> (r: (ViewState, Vec<Effect>))
    ensures
        (r.0, r.1@) == end_morph_back(s),
{
    if s.global_view_state == GlobalViewState::MorphingTo2D && !s.morph_running {
        (ViewState { global_view_state: GlobalViewState::Inactive, ..s }, vec![Effect::RebuildUi])
    } else {
        (s, Vec::new())
    }
}

fn exec_begin_zoom_out(r: (ViewState, Vec<Effect>)) -> (out: (ViewState, Vec<Effect>))
    ensures
        (out.0, out.1@) == begin_zoom_out((r.0, r.1@)),
{
    let (st, mut effects) = r;
    if st.global_view_state == GlobalViewState::MorphingToTopDown && !st.morph_running {
        effects.push(Effect::StartZoomOut);
        (ViewState { global_view_state: GlobalViewState::ZoomingOut, zoom_running: true, ..st }, effects)
    } else {
        (st, effects)
    }
}

fn exec_end_zoom(r: (ViewState, Vec<Effect>), ended: bool) -> (out: (ViewState, Vec<Effect>))
    ensures
        (out.0, out.1@) == end_zoom((r.0, r.1@), ended),
{
    let (st, mut effects) = r;
    if ended {
        let s4 = ViewState { zoom_running: false, ..st };
        if s4.global_view_state == GlobalViewState::ZoomingOut {
            (ViewState { global_view_state: GlobalViewState::FullyGlobal, ..s4 }, effects)
        } else if s4.global_view_state == GlobalViewState::ZoomingIn {
            let ghost before = effects@;
            effects.push(Effect::StartMorph(0));
            effects.push(Effect::ResetProfileView);
            assert(effects@ =~= before + seq![Effect::StartMorph(0), Effect::ResetProfileView]);
            (
                ViewState {
                    global_view_state: GlobalViewState::MorphingTo2D,
                    view_mode: 0,
                    morph_running: true,
                    ..s4
                },
                effects,
            )
        } else {
            (s4, effects)
        }
    } else {
        (st, effects)
    }
}

fn exec_frame(s: ViewState, morph_finished: bool, zoom_finished: bool) -> (r: (ViewState, Vec<Effect>))
    ensures
        (r.0, r.1@) == frame(s, morph_finished, zoom_finished),
{
    let s1 = ViewState { morph_running: s.morph_running && !morph_finished, ..s };
    exec_end_zoom(exec_begin_zoom_out(exec_end_morph_back(s1)), s.zoom_running && zoom_finished)
}

impl ViewState {
    /// Answers event `e`: moves to the next state and returns the effects
    /// that the application performs, in order.
    pub fn handle(&mut self, e: Event) -> (effects: Vec<Effect>)
        ensures
            (*final(self), effects@) == step(*old(self), e),
    {
        let s = *self;
        let (next, effects) = match e {
            Event::Key(k) => if s.show_settings {
                exec_settings_key(s, k)
            } else {
                exec_main_key(s, k)
            },
            Event::LeftPress(p) => exec_left_press(s, p),
            Event::LeftRelease => (
                ViewState {
                    dragging_slider: DraggingSlider::Idle,
                    mouse_pressed: if s.show_settings { s.mouse_pressed } else { false },
                    ..s
                },
                Vec::new(),
            ),
            Event::RightPress => exec_right_press(s),
            Event::RightRelease => if s.show_settings {
                (s, Vec::new())
            } else {
                (ViewState { right_mouse_pressed: false, ..s }, Vec::new())
            },
            Event::CursorMoved(p) => exec_cursor_moved(s, p),
            Event::Wheel { in_sidebar } => exec_wheel(s, in_sidebar),
            Event::Resized { nonzero, stage_count } => if nonzero {
                let (st, sel) = exec_select_stage(s, s.selected_stage, stage_count);
                let mut effects = vec![Effect::Resize, Effect::RebuildUi];
                let mut sel = sel;
                effects.append(&mut sel);
                (st, effects)
            } else {
                (s, Vec::new())
            },
            Event::Modifiers { ctrl } => (ViewState { ctrl_pressed: ctrl, ..s }, Vec::new()),
            Event::Frame { morph_finished, zoom_finished } => exec_frame(s, morph_finished, zoom_finished),
        };
        *self = next;
        effects
    }
}

/// The help line about the slope measure shown on the 2D profile.
#[derive(Clone, Copy, PartialEq, Eq, Structural, Debug)]
pub enum SlopeHelp {
    Hidden,
    /// How to start a measure.
    Start,
    /// How to leave the measure.
    Cancel,
}

/// The help lines shown at the top right of a race.
#[derive(Clone, Copy, PartialEq, Eq, Debug)]
pub struct HeaderHelp {
    /// Space leads to the 3D trace (else back to the 2D profile).
    pub space_to_trace: bool,
    /// Enter leads to the country map.
    pub show_enter: bool,
    pub slope: SlopeHelp,
}

/// Whether the country map is being entered or shown: the Enter help is hidden then.
pub open spec fn entering_or_on_map(g: GlobalViewState) -> bool {
    g == GlobalViewState::MorphingToTopDown || g == GlobalViewState::Swapped || g
        == GlobalViewState::ZoomingOut || g == GlobalViewState::FullyGlobal
}

impl ViewState {
    /// Whether the country map is drawn: from the moment it replaces the
    /// stage until the zoom back towards the stage ends.
    pub fn shows_country_map(&self) -> (b: bool)
        ensures
            b == (self.global_view_state == GlobalViewState::Swapped || self.global_view_state
                == GlobalViewState::ZoomingOut || self.global_view_state == GlobalViewState::FullyGlobal
                || self.global_view_state == GlobalViewState::ZoomingIn),
    {
        match self.global_view_state {
            GlobalViewState::Swapped | GlobalViewState::ZoomingOut | GlobalViewState::FullyGlobal
            | GlobalViewState::ZoomingIn => true,
            _ => false,
        }
    }

    /// The help lines of the race header.
    pub fn header_help(&self) -> (h: HeaderHelp)
        ensures
            h.space_to_trace == (self.view_mode == 0),
            h.show_enter == !entering_or_on_map(self.global_view_state),
            h.slope == if self.view_mode == 0 && !entering_or_on_map(self.global_view_state) {
                if self.slope_start is None {
                    SlopeHelp::Start
                } else {
                    SlopeHelp::Cancel
                }
            } else {
                SlopeHelp::Hidden
            },
    {
        let show_enter = match self.global_view_state {
            GlobalViewState::MorphingToTopDown | GlobalViewState::Swapped | GlobalViewState::ZoomingOut
            | GlobalViewState::FullyGlobal => false,
            _ => true,
        };
        let slope = if self.view_mode == 0 && show_enter {
            if self.slope_start.is_none() {
                SlopeHelp::Start
            } else {
                SlopeHelp::Cancel
            }
        } else {
            SlopeHelp::Hidden
        };
        HeaderHelp { space_to_trace: self.view_mode == 0, show_enter, slope }
    }
}

// ---------------------------------------------------------------------------
// Laws of the controller.
// ---------------------------------------------------------------------------

proof fn lemma_settings_key_wf(s: ViewState, k: KeyInput)
    requires
        s.wf(),
    ensures
        settings_key(s, k).0.wf(),
{
}

proof fn lemma_main_key_wf(s: ViewState, k: KeyInput)
    requires
        s.wf(),
    ensures
        main_key(s, k).0.wf(),
{
    match k {
        KeyInput::Enter => {
            assert(enter_global(s).0.wf());
        },
        KeyInput::Space => {
            assert(space(s).0.wf());
        },
        _ => {},
    }
}

proof fn lemma_left_press_wf(s: ViewState, p: Pointer)
    requires
        s.wf(),
    ensures
        left_press(s, p).0.wf(),
{
    if s.show_settings {
        assert(settings_click(s, p.settings_control).0.wf());
    } else {
        let s1 = ViewState { mouse_pressed: true, ..s };
        if s1.app_phase == AppPhase::Menu {
        } else if s1.view_mode == 0 && s1.global_view_state == GlobalViewState::Inactive
            && s1.ctrl_pressed && p.in_graph {
            assert(slope_click(s1, p.profile_point, p.measured).wf());
        }
    }
}

proof fn lemma_frame_wf(s: ViewState, morph_finished: bool, zoom_finished: bool)
    requires
        s.wf(),
    ensures
        frame(s, morph_finished, zoom_finished).0.wf(),
{
    let s1 = ViewState { morph_running: s.morph_running && !morph_finished, ..s };
    let r2 = end_morph_back(s1);
    let r3 = begin_zoom_out(r2);
    assert(r3.0.zoom_running ==> s.zoom_running || r3.0.global_view_state
        == GlobalViewState::ZoomingOut);
}

/// Every event keeps the interface state consistent.
pub proof fn step_preserves_wf(s: ViewState, e: Event)
    requires
        s.wf(),
    ensures
        step(s, e).0.wf(),
{
    match e {
        Event::Key(k) => {
            if s.show_settings {
                lemma_settings_key_wf(s, k);
            } else {
                lemma_main_key_wf(s, k);
            }
        },
        Event::LeftPress(p) => {
            lemma_left_press_wf(s, p);
        },
        Event::Frame { morph_finished, zoom_finished } => {
            lemma_frame_wf(s, morph_finished, zoom_finished);
        },
        Event::CursorMoved(p) => {
            assert(cursor_moved(s, p).0.wf());
        },
        Event::RightPress => {
            assert(right_press(s).0.wf());
        },
        Event::Wheel { in_sidebar } => {
            assert(wheel(s, in_sidebar).0.wf());
        },
        Event::Resized { nonzero, stage_count } => {
            assert(select_stage(s, s.selected_stage, stage_count).0.wf());
        },
        _ => {},
    }
}

/// Space, pressed twice on a stage outside the country map with the settings
/// closed, switches from the 2D profile to the 3D trace and back, or back and
/// forth: the view ends where it started.
pub proof fn space_twice_restores_view(s: ViewState)
    requires
        s.wf(),
        s.app_phase == AppPhase::Racing,
        !s.show_settings,
        s.global_view_state == GlobalViewState::Inactive,
    ensures
        step(s, Event::Key(KeyInput::Space)).0.view_mode != s.view_mode,
        step(step(s, Event::Key(KeyInput::Space)).0, Event::Key(KeyInput::Space)).0.view_mode
            == s.view_mode,
        step(step(s, Event::Key(KeyInput::Space)).0, Event::Key(KeyInput::Space)).0.global_view_state
            == GlobalViewState::Inactive,
{
}

/// M switches between the menu and the race, and pressing it twice changes nothing.
pub proof fn menu_key_twice_is_identity(s: ViewState, c: char)
    requires
        !s.show_settings,
        is_letter(c, 'm'),
    ensures
        step(s, Event::Key(KeyInput::Char(c))).0.app_phase != s.app_phase,
        step(step(s, Event::Key(KeyInput::Char(c))).0, Event::Key(KeyInput::Char(c))).0 == s,
{
}

/// C switches between the race colour and neon green, in the settings panel
/// or outside it, and pressing it twice leaves the state as it was.
pub proof fn colour_key_twice_is_identity(s: ViewState, c: char)
    requires
        is_letter(c, 'c'),
    ensures
        step(s, Event::Key(KeyInput::Char(c))).0.use_neon_green != s.use_neon_green,
        step(step(s, Event::Key(KeyInput::Char(c))).0, Event::Key(KeyInput::Char(c))).0 == s,
{
    assert(!is_letter(c, 'p') && !is_letter(c, 'm') && !is_letter(c, 't'));
    let t = step(s, Event::Key(KeyInput::Char(c))).0;
    assert(t == ViewState { use_neon_green: !s.use_neon_green, ..s });
}

/// T switches the metallic rendering, and pressing it twice leaves the state as it was.
pub proof fn metallic_key_twice_is_identity(s: ViewState, c: char)
    requires
        is_letter(c, 't'),
    ensures
        step(s, Event::Key(KeyInput::Char(c))).0.use_metallic != s.use_metallic,
        step(step(s, Event::Key(KeyInput::Char(c))).0, Event::Key(KeyInput::Char(c))).0 == s,
{
    assert(!is_letter(c, 'p') && !is_letter(c, 'm') && !is_letter(c, 'c'));
    let t = step(s, Event::Key(KeyInput::Char(c))).0;
    assert(t == ViewState { use_metallic: !s.use_metallic, ..s });
}

/// The brushed effect and the white sky only change in metallic rendering.
pub proof fn brushed_and_sky_need_metallic(s: ViewState, c: char)
    requires
        !s.use_metallic,
        is_letter(c, 'b') || is_letter(c, 'w'),
    ensures
        step(s, Event::Key(KeyInput::Char(c))).0 == s,
        step(s, Event::Key(KeyInput::Char(c))).1.len() == 0,
{
}

/// While the settings panel is open the keyboard only reaches the panel: the
/// screen, the view, the country-map transition and the slope selection stay.
pub proof fn settings_panel_captures_keys(s: ViewState, k: KeyInput)
    requires
        s.show_settings,
    ensures
        ({
            let t = step(s, Event::Key(k)).0;
            &&& t.app_phase == s.app_phase
            &&& t.global_view_state == s.global_view_state
            &&& t.view_mode == s.view_mode
            &&& t.slope_start == s.slope_start
            &&& t.slope_end == s.slope_end
            &&& t.slope_result == s.slope_result
            &&& t.selected_stage == s.selected_stage
        }),
{
}

/// A right click on the 2D profile, outside the country map and the settings
/// panel, cancels the slope selection.
pub proof fn right_click_cancels_slope(s: ViewState)
    requires
        !s.show_settings,
        s.view_mode == 0,
        s.global_view_state == GlobalViewState::Inactive,
    ensures
        step(s, Event::RightPress).0.slope_start is None,
        step(s, Event::RightPress).0.slope_end is None,
        step(s, Event::RightPress).0.slope_result is None,
{
}

/// Two measuring clicks far enough apart give a slope between them; a third
/// click starts a new measure from its own point.
pub proof fn two_clicks_measure_a_slope(s: ViewState, p: Pointer, q: Pointer, r: Pointer, m: (u32, u32, u32))
    requires
        s.wf(),
        !s.show_settings,
        s.app_phase == AppPhase::Racing,
        s.view_mode == 0,
        s.global_view_state == GlobalViewState::Inactive,
        s.ctrl_pressed,
        s.slope_start is None,
        p.in_graph,
        q.in_graph,
        q.measured == Some(m),
        r.in_graph,
    ensures
        ({
            let s1 = step(s, Event::LeftPress(p)).0;
            let s2 = step(s1, Event::LeftPress(q)).0;
            let s3 = step(s2, Event::LeftPress(r)).0;
            &&& s1.slope_start == Some(p.profile_point)
            &&& s2.slope_start == Some(p.profile_point)
            &&& s2.slope_end == Some(q.profile_point)
            &&& s2.slope_result == Some(m)
            &&& s3.slope_start == Some(r.profile_point)
            &&& s3.slope_end is None
            &&& s3.slope_result is None
        }),
{
}

/// Enter on a stage shown as a 2D profile leads, once the morph and the zoom
/// have run, to the country map; Space then leads, once the zoom and the
/// morph back have run, to the plain 2D profile again.
pub proof fn country_map_round_trip(s: ViewState)
    requires
        s.wf(),
        !s.show_settings,
        s.app_phase == AppPhase::Racing,
        s.global_view_state == GlobalViewState::Inactive,
        s.view_mode == 0,
    ensures
        ({
            let a = step(s, Event::Key(KeyInput::Enter)).0;
            let b = step(a, Event::Frame { morph_finished: true, zoom_finished: false }).0;
            let c = step(b, Event::Frame { morph_finished: false, zoom_finished: true }).0;
            let d = step(c, Event::Key(KeyInput::Space)).0;
            let f = step(d, Event::Frame { morph_finished: false, zoom_finished: true }).0;
            let g = step(f, Event::Frame { morph_finished: true, zoom_finished: false }).0;
            &&& a.global_view_state == GlobalViewState::MorphingToTopDown
            &&& b.global_view_state == GlobalViewState::ZoomingOut
            &&& c.global_view_state == GlobalViewState::FullyGlobal
            &&& d.global_view_state == GlobalViewState::ZoomingIn
            &&& f.global_view_state == GlobalViewState::MorphingTo2D
            &&& g.global_view_state == GlobalViewState::Inactive
            &&& g.view_mode == 0
        }),
{
}

/// Choosing a race in the menu shows that race from its first stage, outside
/// the country map.
pub proof fn menu_choice_opens_race(s: ViewState, p: Pointer, idx: usize)
    requires
        s.wf(),
        !s.show_settings,
        s.app_phase == AppPhase::Menu,
        s.hovered_menu == Some(idx),
        idx < s.race_count,
    ensures
        ({
            let (t, effects) = step(s, Event::LeftPress(p));
            &&& t.app_phase == AppPhase::Racing
            &&& t.current_race == idx
            &&& t.selected_stage == 0
            &&& t.global_view_state == GlobalViewState::Inactive
            &&& effects == seq![Effect::LoadRace(idx)]
        }),
{
}

/// A left click on a row of the stage sidebar, when it does not measure a
/// slope, shows the stage of that row.
pub proof fn sidebar_click_selects_stage(s: ViewState, p: Pointer)
    requires
        !s.show_settings,
        s.app_phase == AppPhase::Racing,
        !(s.view_mode == 0 && s.global_view_state == GlobalViewState::Inactive && s.ctrl_pressed
            && p.in_graph),
        p.in_sidebar,
        0 <= p.sidebar_row < p.stage_count,
    ensures
        step(s, Event::LeftPress(p)).0.selected_stage == p.sidebar_row,
        step(s, Event::LeftPress(p)).1 == seq![Effect::SelectStage(p.sidebar_row as usize)],
{
}

/// On the country map, fully zoomed out, a left click on the red trace of a
/// stage shows that stage; a click beside every trace changes nothing but the
/// pressed button.
pub proof fn map_click_selects_stage(s: ViewState, p: Pointer)
    requires
        s.wf(),
        !s.show_settings,
        s.app_phase == AppPhase::Racing,
        s.global_view_state == GlobalViewState::FullyGlobal,
        !p.in_sidebar,
    ensures
        p.map_stage is Some && p.map_stage.unwrap() < p.stage_count ==> {
            &&& step(s, Event::LeftPress(p)).0.selected_stage == p.map_stage.unwrap()
            &&& step(s, Event::LeftPress(p)).0.slope_start is None
            &&& step(s, Event::LeftPress(p)).1 == seq![Effect::SelectStage(p.map_stage.unwrap())]
        },
        p.map_stage is Some && p.map_stage.unwrap() >= p.stage_count ==> step(s, Event::LeftPress(p))
            == (ViewState { mouse_pressed: true, ..s }, Seq::<Effect>::empty()),
        p.map_stage is None ==> step(s, Event::LeftPress(p)) == (
            ViewState { mouse_pressed: true, ..s },
            Seq::<Effect>::empty(),
        ),
{
}

/// On a race, the wheel scrolls the stage sidebar when the cursor is over it
/// and zooms the view elsewhere; in the menu and in the settings panel it does nothing.
pub proof fn wheel_scrolls_sidebar_or_zooms(s: ViewState, in_sidebar: bool)
    ensures
        (s.show_settings || s.app_phase == AppPhase::Menu) ==> step(s, Event::Wheel { in_sidebar }).1.len() == 0,
        (!s.show_settings && s.app_phase == AppPhase::Racing && in_sidebar) ==> step(s, Event::Wheel { in_sidebar }).1
            == seq![Effect::ScrollSidebar],
        (!s.show_settings && s.app_phase == AppPhase::Racing && !in_sidebar) ==> step(s, Event::Wheel { in_sidebar }).1
            == seq![
            Effect::Zoom {
                global_floor: s.global_view_state != GlobalViewState::Inactive,
                around_camera: s.view_mode == 1 || s.global_view_state == GlobalViewState::FullyGlobal,
            },
        ],
        step(s, Event::Wheel { in_sidebar }).0 == s,
{
}


/// A left press on a race, outside the settings panel and away from the
/// sidebar, never changes the shown stage unless the whole country map is on
/// screen; without a Ctrl measuring click on the graph it only marks the
/// button as pressed (the start of a pan).
pub proof fn click_off_sidebar_keeps_stage(s: ViewState, p: Pointer)
    requires
        !s.show_settings,
        s.app_phase == AppPhase::Racing,
        !p.in_sidebar,
        s.global_view_state != GlobalViewState::FullyGlobal,
    ensures
        step(s, Event::LeftPress(p)).0.selected_stage == s.selected_stage,
        forall|k: int|
            0 <= k < step(s, Event::LeftPress(p)).1.len() ==> !(#[trigger] step(s, Event::LeftPress(p)).1[k] is SelectStage),
        !(s.ctrl_pressed && p.in_graph) ==> step(s, Event::LeftPress(p)) == (
            ViewState { mouse_pressed: true, ..s },
            Seq::<Effect>::empty(),
        ),
        (s.ctrl_pressed && p.in_graph && s.view_mode == 0 && s.global_view_state
            == GlobalViewState::Inactive) ==> step(s, Event::LeftPress(p)).1 == seq![Effect::RebuildUi],
{
}

/// A left press on the sidebar below or above the listed stages changes
/// nothing but the pressed button.
pub proof fn click_past_the_stage_list_does_nothing(s: ViewState, p: Pointer)
    requires
        !s.show_settings,
        s.app_phase == AppPhase::Racing,
        p.in_sidebar,
        !(0 <= p.sidebar_row < p.stage_count),
        !(s.ctrl_pressed && p.in_graph),
    ensures
        step(s, Event::LeftPress(p)) == (ViewState { mouse_pressed: true, ..s }, Seq::<Effect>::empty()),
{
}

/// A left press with the settings panel open acts on the control under the
/// cursor: outside the panel it closes it, a switch flips its own setting
/// (brushed and white sky only in metallic rendering) and a slider starts
/// following the cursor and takes its value from it (smoothing only in
/// metallic rendering); nothing else of the state changes.
pub proof fn settings_click_acts_on_control_under_cursor(s: ViewState, p: Pointer)
    requires
        s.show_settings,
    ensures
        ({
            let r = step(s, Event::LeftPress(p));
            match p.settings_control {
                SettingsControl::Outside => r == (
                    ViewState { show_settings: false, ..s },
                    seq![Effect::RequestRedraw],
                ),
                SettingsControl::MetallicSwitch => r == (
                    ViewState { use_metallic: !s.use_metallic, ..s },
                    seq![
                        Effect::SaveSettings,
                        Effect::RebuildPolyBuffers,
                        Effect::StartSwitch(Switch::Metallic, !s.use_metallic),
                        Effect::RequestRedraw,
                    ],
                ),
                SettingsControl::NeonGreenSwitch => r == (
                    ViewState { use_neon_green: !s.use_neon_green, ..s },
                    seq![
                        Effect::SaveSettings,
                        Effect::ApplyRaceColor,
                        Effect::RebuildUi,
                        Effect::StartSwitch(Switch::NeonGreen, !s.use_neon_green),
                        Effect::RequestRedraw,
                    ],
                ),
                SettingsControl::BrushedSwitch => r == if s.use_metallic {
                    (
                        ViewState { use_brushed: !s.use_brushed, ..s },
                        seq![
                            Effect::SaveSettings,
                            Effect::StartSwitch(Switch::Brushed, !s.use_brushed),
                            Effect::RequestRedraw,
                        ],
                    )
                } else {
                    (s, seq![Effect::RequestRedraw])
                },
                SettingsControl::WhiteSkySwitch => r == if s.use_metallic {
                    (
                        ViewState { use_white_sky: !s.use_white_sky, ..s },
                        seq![
                            Effect::SaveSettings,
                            Effect::StartSwitch(Switch::WhiteSky, !s.use_white_sky),
                            Effect::RequestRedraw,
                        ],
                    )
                } else {
                    (s, seq![Effect::RequestRedraw])
                },
                SettingsControl::SmoothingSlider => r == if s.use_metallic {
                    (
                        ViewState { dragging_slider: DraggingSlider::Lissage, ..s },
                        seq![Effect::ApplySlider(DraggingSlider::Lissage), Effect::RequestRedraw],
                    )
                } else {
                    (s, seq![Effect::RequestRedraw])
                },
                SettingsControl::Exaggeration2dSlider => r == (
                    ViewState { dragging_slider: DraggingSlider::Exaggeration2d, ..s },
                    seq![Effect::ApplySlider(DraggingSlider::Exaggeration2d), Effect::RequestRedraw],
                ),
                SettingsControl::Exaggeration3dSlider => r == (
                    ViewState { dragging_slider: DraggingSlider::Exaggeration3d, ..s },
                    seq![Effect::ApplySlider(DraggingSlider::Exaggeration3d), Effect::RequestRedraw],
                ),
            }
        }),
{
}

/// While a slider follows the cursor in the settings panel, every cursor move
/// sets that same slider; releasing the button stops it.
pub proof fn dragged_slider_follows_cursor(s: ViewState, p: Pointer)
    requires
        s.show_settings,
        s.dragging_slider != DraggingSlider::Idle,
    ensures
        step(s, Event::CursorMoved(p)) == (
            s,
            seq![Effect::ApplySlider(s.dragging_slider), Effect::RequestRedraw],
        ),
        step(s, Event::LeftRelease).0 == (ViewState { dragging_slider: DraggingSlider::Idle, ..s }),
        step(s, Event::LeftRelease).1.len() == 0,
{
}

proof fn lemma_key_t(s: ViewState, c: char)
    requires
        is_letter(c, 't'),
    ensures
        step(s, Event::Key(KeyInput::Char(c))) == (
            ViewState { use_metallic: !s.use_metallic, ..s },
            seq![
                Effect::SaveSettings,
                Effect::RebuildPolyBuffers,
                Effect::StartSwitch(Switch::Metallic, !s.use_metallic),
                Effect::RequestRedraw,
            ],
        ),
{
    assert(!is_letter(c, 'p') && !is_letter(c, 'm') && !is_letter(c, 'c'));
    if s.show_settings {
        assert(step(s, Event::Key(KeyInput::Char(c))) == settings_key(s, KeyInput::Char(c)));
    } else {
        assert(step(s, Event::Key(KeyInput::Char(c))) == main_key(s, KeyInput::Char(c)));
    }
}

proof fn lemma_key_c(s: ViewState, c: char)
    requires
        is_letter(c, 'c'),
    ensures
        step(s, Event::Key(KeyInput::Char(c))) == (
            ViewState { use_neon_green: !s.use_neon_green, ..s },
            seq![
                Effect::SaveSettings,
                Effect::ApplyRaceColor,
                Effect::RebuildUi,
                Effect::StartSwitch(Switch::NeonGreen, !s.use_neon_green),
                Effect::RequestRedraw,
            ],
        ),
{
    assert(!is_letter(c, 'p') && !is_letter(c, 'm') && !is_letter(c, 't'));
    if s.show_settings {
        assert(step(s, Event::Key(KeyInput::Char(c))) == settings_key(s, KeyInput::Char(c)));
    } else {
        assert(step(s, Event::Key(KeyInput::Char(c))) == main_key(s, KeyInput::Char(c)));
    }
}

proof fn lemma_key_b(s: ViewState, c: char)
    requires
        is_letter(c, 'b'),
        s.use_metallic,
    ensures
        step(s, Event::Key(KeyInput::Char(c))) == (
            ViewState { use_brushed: !s.use_brushed, ..s },
            seq![
                Effect::SaveSettings,
                Effect::StartSwitch(Switch::Brushed, !s.use_brushed),
                Effect::RequestRedraw,
            ],
        ),
{
    assert(!is_letter(c, 'p') && !is_letter(c, 'm') && !is_letter(c, 't') && !is_letter(c, 'c') && !is_letter(c, 'o'));
    if s.show_settings {
        assert(step(s, Event::Key(KeyInput::Char(c))) == settings_key(s, KeyInput::Char(c)));
    } else {
        assert(step(s, Event::Key(KeyInput::Char(c))) == main_key(s, KeyInput::Char(c)));
    }
}

proof fn lemma_key_w(s: ViewState, c: char)
    requires
        is_letter(c, 'w'),
        s.use_metallic,
    ensures
        step(s, Event::Key(KeyInput::Char(c))) == (
            ViewState { use_white_sky: !s.use_white_sky, ..s },
            seq![
                Effect::SaveSettings,
                Effect::StartSwitch(Switch::WhiteSky, !s.use_white_sky),
                Effect::RequestRedraw,
            ],
        ),
{
    assert(!is_letter(c, 'p') && !is_letter(c, 'm') && !is_letter(c, 't') && !is_letter(c, 'c') && !is_letter(c, 'o') && !is_letter(c, 'b'));
    if s.show_settings {
        assert(step(s, Event::Key(KeyInput::Char(c))) == settings_key(s, KeyInput::Char(c)));
    } else {
        assert(step(s, Event::Key(KeyInput::Char(c))) == main_key(s, KeyInput::Char(c)));
    }
}

proof fn lemma_key_p(s: ViewState, c: char)
    requires
        is_letter(c, 'p'),
    ensures
        step(s, Event::Key(KeyInput::Char(c))) == (
            ViewState { show_settings: !s.show_settings, ..s },
            seq![Effect::RequestRedraw],
        ),
{
    if s.show_settings {
        assert(step(s, Event::Key(KeyInput::Char(c))) == settings_key(s, KeyInput::Char(c)));
    } else {
        assert(step(s, Event::Key(KeyInput::Char(c))) == main_key(s, KeyInput::Char(c)));
    }
}

/// The setting keys T (metallic), C (neon green), B (brushed) and W (white
/// sky), in either case, work the same in the settings panel and outside it:
/// each flips its own setting and nothing else, saves the settings, animates
/// its switch and redraws; B and W do so only in metallic rendering.
pub proof fn setting_keys_flip_their_setting(s: ViewState, c: char)
    ensures
        is_letter(c, 't') ==> step(s, Event::Key(KeyInput::Char(c))) == (
            ViewState { use_metallic: !s.use_metallic, ..s },
            seq![
                Effect::SaveSettings,
                Effect::RebuildPolyBuffers,
                Effect::StartSwitch(Switch::Metallic, !s.use_metallic),
                Effect::RequestRedraw,
            ],
        ),
        is_letter(c, 'c') ==> step(s, Event::Key(KeyInput::Char(c))) == (
            ViewState { use_neon_green: !s.use_neon_green, ..s },
            seq![
                Effect::SaveSettings,
                Effect::ApplyRaceColor,
                Effect::RebuildUi,
                Effect::StartSwitch(Switch::NeonGreen, !s.use_neon_green),
                Effect::RequestRedraw,
            ],
        ),
        is_letter(c, 'b') && s.use_metallic ==> step(s, Event::Key(KeyInput::Char(c))) == (
            ViewState { use_brushed: !s.use_brushed, ..s },
            seq![
                Effect::SaveSettings,
                Effect::StartSwitch(Switch::Brushed, !s.use_brushed),
                Effect::RequestRedraw,
            ],
        ),
        is_letter(c, 'w') && s.use_metallic ==> step(s, Event::Key(KeyInput::Char(c))) == (
            ViewState { use_white_sky: !s.use_white_sky, ..s },
            seq![
                Effect::SaveSettings,
                Effect::StartSwitch(Switch::WhiteSky, !s.use_white_sky),
                Effect::RequestRedraw,
            ],
        ),
        is_letter(c, 'p') ==> step(s, Event::Key(KeyInput::Char(c))) == (
            ViewState { show_settings: !s.show_settings, ..s },
            seq![Effect::RequestRedraw],
        ),
{
    if is_letter(c, 't') {
        lemma_key_t(s, c);
    }
    if is_letter(c, 'c') {
        lemma_key_c(s, c);
    }
    if is_letter(c, 'b') && s.use_metallic {
        lemma_key_b(s, c);
    }
    if is_letter(c, 'w') && s.use_metallic {
        lemma_key_w(s, c);
    }
    if is_letter(c, 'p') {
        lemma_key_p(s, c);
    }
}

/// Outside the settings panel, Escape quits, F11 switches full screen and O
/// flips the shadows (saved); inside it, Escape closes the panel and F11, O
/// and M do nothing.
pub proof fn panel_and_window_keys(s: ViewState, c: char)
    ensures
        !s.show_settings ==> step(s, Event::Key(KeyInput::Escape)) == (s, seq![Effect::Exit]),
        !s.show_settings ==> step(s, Event::Key(KeyInput::F11)) == (s, seq![Effect::ToggleFullscreen]),
        !s.show_settings && is_letter(c, 'o') ==> step(s, Event::Key(KeyInput::Char(c))) == (
            ViewState { show_shadows: !s.show_shadows, ..s },
            seq![Effect::SaveSettings, Effect::RequestRedraw],
        ),
        s.show_settings ==> step(s, Event::Key(KeyInput::Escape)) == (
            ViewState { show_settings: false, ..s },
            seq![Effect::RequestRedraw],
        ),
        s.show_settings ==> step(s, Event::Key(KeyInput::F11)) == (s, Seq::<Effect>::empty()),
        s.show_settings && (is_letter(c, 'o') || is_letter(c, 'm')) ==> step(
            s,
            Event::Key(KeyInput::Char(c)),
        ) == (s, Seq::<Effect>::empty()),
{
    if is_letter(c, 'o') {
        assert(!is_letter(c, 'p') && !is_letter(c, 'm') && !is_letter(c, 't') && !is_letter(c, 'c')
            && !is_letter(c, 'b') && !is_letter(c, 'w'));
    } else if is_letter(c, 'm') {
        assert(!is_letter(c, 'p') && !is_letter(c, 't') && !is_letter(c, 'c') && !is_letter(c, 'b')
            && !is_letter(c, 'w'));
    }
}

/// Space on a race, settings closed: on a stage it switches between the 2D
/// profile and the 3D trace; while the view turns towards the map it goes
/// straight back to the 2D profile; once the map has replaced the stage
/// (swapped, zooming out or fully shown) it zooms back in to the stage; while
/// already heading back it is ignored. In the menu it does nothing.
pub proof fn space_on_a_race(s: ViewState)
    requires
        s.wf(),
        !s.show_settings,
    ensures
        ({
            let (t, e) = step(s, Event::Key(KeyInput::Space));
            let g = s.global_view_state;
            &&& s.app_phase == AppPhase::Menu ==> t == s && e.len() == 0
            &&& s.app_phase == AppPhase::Racing && (g == GlobalViewState::Swapped || g
                == GlobalViewState::ZoomingOut || g == GlobalViewState::FullyGlobal) ==> {
                &&& t == ViewState {
                    global_view_state: GlobalViewState::ZoomingIn,
                    zoom_running: true,
                    ..s
                }
                &&& e == seq![Effect::StartZoomIn, Effect::RebuildUi]
            }
            &&& s.app_phase == AppPhase::Racing && g == GlobalViewState::MorphingToTopDown ==> {
                &&& t == ViewState {
                    global_view_state: GlobalViewState::Inactive,
                    view_mode: 0,
                    morph_running: true,
                    ..s
                }
                &&& e == seq![
                    Effect::CancelCamera,
                    Effect::ResetProfileView,
                    Effect::StartMorph(0),
                    Effect::RebuildUi,
                ]
            }
            &&& s.app_phase == AppPhase::Racing && (g == GlobalViewState::ZoomingIn || g
                == GlobalViewState::MorphingTo2D) ==> t == s && e.len() == 0
            &&& s.app_phase == AppPhase::Racing && g == GlobalViewState::Inactive && s.view_mode
                == 0 ==> {
                &&& t == ViewState { view_mode: 1, morph_running: true, ..s }
                &&& e == seq![Effect::StartMorph(1), Effect::ResetCamera3d, Effect::RebuildUi]
            }
            &&& s.app_phase == AppPhase::Racing && g == GlobalViewState::Inactive && s.view_mode
                == 1 ==> {
                &&& t == ViewState { view_mode: 0, morph_running: true, ..s }
                &&& e == seq![Effect::StartMorph(0), Effect::RebuildUi]
            }
        }),
{
}

/// Enter on a race, settings closed and outside the country map, starts the
/// transition to the map: the trace is shown in 3D (morphing there from the
/// 2D profile) and the camera turns to look straight down. Anywhere else,
/// Enter does nothing.
pub proof fn enter_starts_the_country_map(s: ViewState)
    requires
        !s.show_settings,
    ensures
        ({
            let (t, e) = step(s, Event::Key(KeyInput::Enter));
            &&& (s.app_phase == AppPhase::Racing && s.global_view_state == GlobalViewState::Inactive) ==> {
                &&& t == ViewState {
                    view_mode: 1,
                    morph_running: s.morph_running || s.view_mode == 0,
                    global_view_state: GlobalViewState::MorphingToTopDown,
                    ..s
                }
                &&& e == if s.view_mode == 0 {
                    seq![Effect::StartMorph(1), Effect::StartCameraTopDown, Effect::RebuildUi]
                } else {
                    seq![Effect::StartCameraTopDown, Effect::RebuildUi]
                }
            }
            &&& !(s.app_phase == AppPhase::Racing && s.global_view_state == GlobalViewState::Inactive)
                ==> t == s && e.len() == 0
        }),
{
    let m: Seq<Effect> = seq![Effect::StartMorph(1)];
    assert(m + seq![Effect::StartCameraTopDown, Effect::RebuildUi] =~= seq![
        Effect::StartMorph(1),
        Effect::StartCameraTopDown,
        Effect::RebuildUi,
    ]);
    assert(Seq::<Effect>::empty() + seq![Effect::StartCameraTopDown, Effect::RebuildUi] =~= seq![
        Effect::StartCameraTopDown,
        Effect::RebuildUi,
    ]);
}

} // verus!
