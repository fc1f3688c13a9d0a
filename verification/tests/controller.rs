use cycling_visualizer::view::{
    AppPhase, DraggingSlider, Effect, Event, GlobalViewState, KeyInput, Pointer, SettingsControl,
    SlopeHelp, Switch, ViewState,
};

fn racing() -> ViewState {
    ViewState::new(3, 1, false, false, true, true, false, true)
}

fn pointer() -> Pointer {
    Pointer {
        settings_control: SettingsControl::Outside,
        menu_card: None,
        in_sidebar: false,
        in_graph: true,
        sidebar_row: -1,
        stage_count: 21,
        map_stage: None,
        profile_point: (1, 2),
        measured: None,
    }
}

fn key(s: &mut ViewState, k: KeyInput) -> Vec<Effect> {
    s.handle(Event::Key(k))
}

#[test]
fn starts_as_configured() {
    let s = ViewState::new(3, 2, true, true, false, true, true, false);
    assert_eq!(s.app_phase, AppPhase::Menu);
    assert_eq!(s.global_view_state, GlobalViewState::Inactive);
    assert_eq!(s.view_mode, 0);
    assert_eq!(s.current_race, 2);
    assert!(s.use_metallic && !s.use_neon_green && s.use_brushed && s.use_white_sky && !s.show_shadows);
    assert_eq!(racing().app_phase, AppPhase::Racing);
}

#[test]
fn escape_exits_and_f11_toggles_fullscreen() {
    let mut s = racing();
    assert_eq!(key(&mut s, KeyInput::Escape), vec![Effect::Exit]);
    assert_eq!(key(&mut s, KeyInput::F11), vec![Effect::ToggleFullscreen]);
    assert_eq!(s, racing());
}

#[test]
fn space_switches_between_profile_and_trace() {
    let mut s = racing();
    let e = key(&mut s, KeyInput::Space);
    assert_eq!(e, vec![Effect::StartMorph(1), Effect::ResetCamera3d, Effect::RebuildUi]);
    assert_eq!(s.view_mode, 1);
    let e = key(&mut s, KeyInput::Space);
    assert_eq!(e, vec![Effect::StartMorph(0), Effect::RebuildUi]);
    assert_eq!(s.view_mode, 0);
}

#[test]
fn menu_key_switches_screens() {
    let mut s = racing();
    assert_eq!(key(&mut s, KeyInput::Char('M')), vec![Effect::RebuildUi]);
    assert_eq!(s.app_phase, AppPhase::Menu);
    key(&mut s, KeyInput::Char('m'));
    assert_eq!(s, racing());
    let before = s;
    key(&mut s, KeyInput::Space);
    key(&mut s, KeyInput::Enter);
    let mut menu = before;
    menu.app_phase = AppPhase::Menu;
    let mut m = menu;
    assert!(key(&mut m, KeyInput::Space).is_empty());
    assert!(key(&mut m, KeyInput::Enter).is_empty());
    assert_eq!(m, menu);
}

#[test]
fn colour_key_toggles_neon_green() {
    let mut s = racing();
    let e = key(&mut s, KeyInput::Char('c'));
    assert_eq!(
        e,
        vec![
            Effect::SaveSettings,
            Effect::ApplyRaceColor,
            Effect::RebuildUi,
            Effect::StartSwitch(Switch::NeonGreen, false),
            Effect::RequestRedraw
        ]
    );
    assert!(!s.use_neon_green);
    key(&mut s, KeyInput::Char('C'));
    assert_eq!(s, racing());
}

#[test]
fn metallic_brushed_and_sky_switches() {
    let mut s = racing();
    assert!(key(&mut s, KeyInput::Char('b')).is_empty());
    assert!(key(&mut s, KeyInput::Char('w')).is_empty());
    assert_eq!(s, racing());
    let e = key(&mut s, KeyInput::Char('t'));
    assert_eq!(
        e,
        vec![
            Effect::SaveSettings,
            Effect::RebuildPolyBuffers,
            Effect::StartSwitch(Switch::Metallic, true),
            Effect::RequestRedraw
        ]
    );
    let e = key(&mut s, KeyInput::Char('b'));
    assert_eq!(e, vec![Effect::SaveSettings, Effect::StartSwitch(Switch::Brushed, false), Effect::RequestRedraw]);
    let e = key(&mut s, KeyInput::Char('w'));
    assert_eq!(e, vec![Effect::SaveSettings, Effect::StartSwitch(Switch::WhiteSky, true), Effect::RequestRedraw]);
    assert!(s.use_metallic && !s.use_brushed && s.use_white_sky);
    let e = key(&mut s, KeyInput::Char('o'));
    assert_eq!(e, vec![Effect::SaveSettings, Effect::RequestRedraw]);
    assert!(!s.show_shadows);
}

#[test]
fn settings_panel_opens_and_captures_keys() {
    let mut s = racing();
    assert_eq!(key(&mut s, KeyInput::Char('p')), vec![Effect::RequestRedraw]);
    assert!(s.show_settings);
    assert!(key(&mut s, KeyInput::Space).is_empty());
    assert!(key(&mut s, KeyInput::Char('m')).is_empty());
    assert!(key(&mut s, KeyInput::Char('o')).is_empty());
    assert_eq!(s.view_mode, 0);
    assert_eq!(s.app_phase, AppPhase::Racing);
    assert_eq!(key(&mut s, KeyInput::Escape), vec![Effect::RequestRedraw]);
    assert!(!s.show_settings);
    key(&mut s, KeyInput::Char('P'));
    key(&mut s, KeyInput::Char('P'));
    assert!(!s.show_settings);
}

#[test]
fn settings_panel_clicks() {
    let mut s = racing();
    key(&mut s, KeyInput::Char('p'));
    let mut p = pointer();
    p.settings_control = SettingsControl::SmoothingSlider;
    assert_eq!(s.handle(Event::LeftPress(p)), vec![Effect::RequestRedraw]);
    assert_eq!(s.dragging_slider, DraggingSlider::Idle);
    p.settings_control = SettingsControl::MetallicSwitch;
    s.handle(Event::LeftPress(p));
    assert!(s.use_metallic);
    p.settings_control = SettingsControl::SmoothingSlider;
    assert_eq!(
        s.handle(Event::LeftPress(p)),
        vec![Effect::ApplySlider(DraggingSlider::Lissage), Effect::RequestRedraw]
    );
    assert_eq!(s.dragging_slider, DraggingSlider::Lissage);
    assert_eq!(
        s.handle(Event::CursorMoved(p)),
        vec![Effect::ApplySlider(DraggingSlider::Lissage), Effect::RequestRedraw]
    );
    assert!(s.handle(Event::LeftRelease).is_empty());
    assert_eq!(s.dragging_slider, DraggingSlider::Idle);
    assert!(s.handle(Event::CursorMoved(p)).is_empty());
    p.settings_control = SettingsControl::Exaggeration3dSlider;
    s.handle(Event::LeftPress(p));
    assert_eq!(s.dragging_slider, DraggingSlider::Exaggeration3d);
    p.settings_control = SettingsControl::Outside;
    assert_eq!(s.handle(Event::LeftPress(p)), vec![Effect::RequestRedraw]);
    assert!(!s.show_settings);
}

#[test]
fn country_map_round_trip_scenario() {
    let mut s = racing();
    let e = key(&mut s, KeyInput::Enter);
    assert_eq!(e, vec![Effect::StartMorph(1), Effect::StartCameraTopDown, Effect::RebuildUi]);
    assert_eq!(s.global_view_state, GlobalViewState::MorphingToTopDown);
    let e = s.handle(Event::Frame { morph_finished: false, zoom_finished: true });
    assert!(e.is_empty());
    let e = s.handle(Event::Frame { morph_finished: true, zoom_finished: false });
    assert_eq!(e, vec![Effect::StartZoomOut]);
    assert_eq!(s.global_view_state, GlobalViewState::ZoomingOut);
    s.handle(Event::Frame { morph_finished: false, zoom_finished: true });
    assert_eq!(s.global_view_state, GlobalViewState::FullyGlobal);
    assert!(key(&mut s, KeyInput::Enter).is_empty());
    assert_eq!(key(&mut s, KeyInput::Space), vec![Effect::StartZoomIn, Effect::RebuildUi]);
    assert_eq!(s.global_view_state, GlobalViewState::ZoomingIn);
    assert!(key(&mut s, KeyInput::Space).is_empty());
    let e = s.handle(Event::Frame { morph_finished: false, zoom_finished: true });
    assert_eq!(e, vec![Effect::StartMorph(0), Effect::ResetProfileView]);
    assert_eq!(s.global_view_state, GlobalViewState::MorphingTo2D);
    assert_eq!(s.view_mode, 0);
    let e = s.handle(Event::Frame { morph_finished: true, zoom_finished: false });
    assert_eq!(e, vec![Effect::RebuildUi]);
    assert_eq!(s.global_view_state, GlobalViewState::Inactive);
}

#[test]
fn space_during_top_down_morph_goes_back() {
    let mut s = racing();
    key(&mut s, KeyInput::Enter);
    let e = key(&mut s, KeyInput::Space);
    assert_eq!(
        e,
        vec![Effect::CancelCamera, Effect::ResetProfileView, Effect::StartMorph(0), Effect::RebuildUi]
    );
    assert_eq!(s.global_view_state, GlobalViewState::Inactive);
    assert_eq!(s.view_mode, 0);
}

#[test]
fn enter_from_trace_zooms_out_at_once() {
    let mut s = racing();
    key(&mut s, KeyInput::Space);
    s.handle(Event::Frame { morph_finished: true, zoom_finished: false });
    let e = key(&mut s, KeyInput::Enter);
    assert_eq!(e, vec![Effect::StartCameraTopDown, Effect::RebuildUi]);
    let e = s.handle(Event::Frame { morph_finished: false, zoom_finished: false });
    assert_eq!(e, vec![Effect::StartZoomOut]);
    assert!(s.zoom_running);
}

#[test]
fn slope_measure_with_ctrl_clicks() {
    let mut s = racing();
    let mut p = pointer();
    assert!(s.handle(Event::LeftPress(p)).is_empty());
    assert!(s.slope_start.is_none());
    s.handle(Event::LeftRelease);
    s.handle(Event::Modifiers { ctrl: true });
    assert_eq!(s.handle(Event::LeftPress(p)), vec![Effect::RebuildUi]);
    assert_eq!(s.slope_start, Some((1, 2)));
    p.profile_point = (5, 6);
    p.measured = Some((7, 8, 9));
    s.handle(Event::LeftPress(p));
    assert_eq!(s.slope_end, Some((5, 6)));
    assert_eq!(s.slope_result, Some((7, 8, 9)));
    p.profile_point = (10, 11);
    s.handle(Event::LeftPress(p));
    assert_eq!(s.slope_start, Some((10, 11)));
    assert!(s.slope_end.is_none() && s.slope_result.is_none());
    p.measured = None;
    s.handle(Event::LeftPress(p));
    assert!(s.slope_start.is_none() && s.slope_end.is_none() && s.slope_result.is_none());
    s.handle(Event::LeftPress(p));
    assert_eq!(s.handle(Event::RightPress), vec![Effect::RebuildUi]);
    assert!(s.slope_start.is_none());
}

#[test]
fn sidebar_selection_and_hover() {
    let mut s = racing();
    let mut p = pointer();
    p.in_graph = false;
    p.in_sidebar = true;
    p.sidebar_row = 4;
    assert_eq!(s.handle(Event::LeftPress(p)), vec![Effect::SelectStage(4)]);
    assert_eq!(s.selected_stage, 4);
    p.sidebar_row = 21;
    assert!(s.handle(Event::LeftPress(p)).is_empty());
    assert_eq!(s.selected_stage, 4);
    s.handle(Event::CursorMoved(p));
    assert_eq!(s.hover_stage, None);
    p.sidebar_row = 20;
    s.handle(Event::CursorMoved(p));
    assert_eq!(s.hover_stage, Some(20));
    assert_eq!(
        s.handle(Event::Resized { nonzero: true, stage_count: 21 }),
        vec![Effect::Resize, Effect::RebuildUi, Effect::SelectStage(4)]
    );
    assert!(s.handle(Event::Resized { nonzero: false, stage_count: 21 }).is_empty());
}

#[test]
fn dragging_pans_or_rotates() {
    let mut s = racing();
    let mut p = pointer();
    p.in_graph = false;
    s.handle(Event::LeftPress(p));
    assert_eq!(s.handle(Event::CursorMoved(p)), vec![Effect::Pan2d]);
    s.handle(Event::LeftRelease);
    key(&mut s, KeyInput::Space);
    s.handle(Event::RightPress);
    assert_eq!(s.handle(Event::CursorMoved(p)), vec![Effect::Rotate3d]);
    s.handle(Event::RightRelease);
    s.handle(Event::LeftPress(p));
    assert_eq!(s.handle(Event::CursorMoved(p)), vec![Effect::Pan3d]);
}

#[test]
fn wheel_scrolls_or_zooms() {
    let mut s = racing();
    assert_eq!(s.handle(Event::Wheel { in_sidebar: true }), vec![Effect::ScrollSidebar]);
    assert_eq!(
        s.handle(Event::Wheel { in_sidebar: false }),
        vec![Effect::Zoom { global_floor: false, around_camera: false }]
    );
    key(&mut s, KeyInput::Enter);
    assert_eq!(
        s.handle(Event::Wheel { in_sidebar: false }),
        vec![Effect::Zoom { global_floor: true, around_camera: true }]
    );
    key(&mut s, KeyInput::Char('m'));
    assert!(s.handle(Event::Wheel { in_sidebar: false }).is_empty());
}

#[test]
fn menu_click_loads_the_hovered_race() {
    let mut s = ViewState::new(3, 0, true, false, true, true, false, true);
    let mut p = pointer();
    assert!(s.handle(Event::LeftPress(p)).is_empty());
    s.handle(Event::LeftRelease);
    p.menu_card = Some(2);
    s.handle(Event::CursorMoved(p));
    assert_eq!(s.hovered_menu, Some(2));
    assert_eq!(s.handle(Event::LeftPress(p)), vec![Effect::LoadRace(2)]);
    assert_eq!(s.app_phase, AppPhase::Racing);
    assert_eq!(s.current_race, 2);
    assert_eq!(s.selected_stage, 0);
    assert!(!s.mouse_pressed);
}

#[test]
fn header_help_lines() {
    let mut s = racing();
    let h = s.header_help();
    assert!(h.space_to_trace && h.show_enter);
    assert_eq!(h.slope, SlopeHelp::Start);
    assert!(!s.shows_country_map());
    s.handle(Event::Modifiers { ctrl: true });
    s.handle(Event::LeftPress(pointer()));
    assert_eq!(s.header_help().slope, SlopeHelp::Cancel);
    key(&mut s, KeyInput::Enter);
    let h = s.header_help();
    assert!(!h.space_to_trace && !h.show_enter);
    assert_eq!(h.slope, SlopeHelp::Hidden);
    assert!(!s.shows_country_map());
    s.handle(Event::Frame { morph_finished: true, zoom_finished: false });
    assert!(s.shows_country_map());
}

fn on_country_map() -> ViewState {
    let mut s = racing();
    key(&mut s, KeyInput::Enter);
    s.handle(Event::Frame { morph_finished: true, zoom_finished: false });
    s.handle(Event::Frame { morph_finished: false, zoom_finished: true });
    assert_eq!(s.global_view_state, GlobalViewState::FullyGlobal);
    s
}

#[test]
fn map_click_on_a_trace_selects_its_stage() {
    let mut s = on_country_map();
    s.handle(Event::Modifiers { ctrl: false });
    let p = Pointer { map_stage: Some(7), in_graph: true, ..pointer() };
    assert_eq!(s.handle(Event::LeftPress(p)), vec![Effect::SelectStage(7)]);
    assert_eq!(s.selected_stage, 7);
    assert!(s.mouse_pressed);
    assert_eq!(s.global_view_state, GlobalViewState::FullyGlobal);
}

#[test]
fn map_click_beside_the_traces_does_nothing() {
    let mut s = on_country_map();
    let before = s;
    assert!(s.handle(Event::LeftPress(pointer())).is_empty());
    assert_eq!(s.selected_stage, before.selected_stage);
    let p = Pointer { map_stage: Some(30), ..pointer() };
    assert!(s.handle(Event::LeftPress(p)).is_empty());
    assert_eq!(s.selected_stage, before.selected_stage);
}

#[test]
fn map_stage_is_ignored_off_the_map() {
    let mut s = racing();
    let p = Pointer { map_stage: Some(3), ..pointer() };
    assert!(s.handle(Event::LeftPress(p)).is_empty());
    assert_eq!(s.selected_stage, 0);
}
