use womp::view::{
    set_widgets, Lifecycle, View, ViewState, WidgetInput, WindowEvent, WINDOW_HEIGHT,
    WINDOW_WIDTH,
};
use womp::model::Model;

fn quiet() -> WidgetInput {
    WidgetInput { about_clicked: false, cutoff_dip: None, wonk: None, lfo: None }
}

#[test]
fn view_state_starts_without_the_about_panel() {
    assert!(!ViewState::new().about);
}

#[test]
fn window_is_the_fixed_size() {
    assert_eq!((WINDOW_WIDTH, WINDOW_HEIGHT), (440, 260));
}

#[test]
fn new_editor_is_hidden_and_holds_the_model() {
    let mut model = Model::default();
    model.lfo_depth = 1.0f32.to_bits();
    let view = View::new(model);
    assert_eq!(view.lifecycle(), Lifecycle::Hidden);
    assert!(!view.is_open());
    assert!(!view.about());
    assert_eq!(view.model(), model);
}

#[test]
fn size_and_position_are_fixed() {
    let view = View::new(Model::default());
    assert_eq!(view.size(), (200, 100));
    assert_eq!(view.position(), (0, 0));
}

#[test]
fn open_close_and_reopen() {
    let mut view = View::new(Model::default());
    view.open();
    assert_eq!(view.lifecycle(), Lifecycle::Visible);
    assert!(view.is_open());
    view.close();
    assert_eq!(view.lifecycle(), Lifecycle::Closed);
    assert!(!view.is_open());
    assert_eq!(view.model(), Model::default());
    view.open();
    assert_eq!(view.lifecycle(), Lifecycle::Visible);
    assert!(view.is_open());
}

#[test]
fn idle_without_input_changes_nothing() {
    let mut view = View::new(Model::default());
    view.open();
    assert!(!view.idle(&[], &quiet()));
    assert!(!view.idle(&[WindowEvent::Other, WindowEvent::Other], &quiet()));
    assert!(view.is_open());
    assert_eq!(view.model(), Model::default());
}

#[test]
fn idle_takes_control_values_into_the_model() {
    let mut view = View::new(Model::default());
    let input = WidgetInput {
        about_clicked: false,
        cutoff_dip: Some(500.0f32.to_bits()),
        wonk: Some((0.5f32.to_bits(), (-0.25f32).to_bits())),
        lfo: Some((10.0f32.to_bits(), 75.0f32.to_bits())),
    };
    assert!(view.idle(&[], &input));
    assert_eq!(
        view.model(),
        Model {
            cutoff_dip: 500.0f32.to_bits(),
            wonk: (0.5f32.to_bits(), (-0.25f32).to_bits()),
            lfo_depth: 10.0f32.to_bits(),
            filter_lfo_depth: 75.0f32.to_bits(),
        }
    );
    assert!(!view.idle(&[], &input));
}

#[test]
fn idle_clamps_control_values() {
    let mut view = View::new(Model::default());
    let input = WidgetInput {
        about_clicked: false,
        cutoff_dip: Some(0.0f32.to_bits()),
        wonk: Some((3.0f32.to_bits(), (-3.0f32).to_bits())),
        lfo: Some(((-1.0f32).to_bits(), 1000.0f32.to_bits())),
    };
    view.idle(&[], &input);
    assert_eq!(
        view.model(),
        Model {
            cutoff_dip: 25.0f32.to_bits(),
            wonk: (1.0f32.to_bits(), (-1.0f32).to_bits()),
            lfo_depth: 0.0f32.to_bits(),
            filter_lfo_depth: 100.0f32.to_bits(),
        }
    );
}

#[test]
fn idle_leaves_untouched_controls_alone() {
    let mut view = View::new(Model::default());
    let mut input = quiet();
    input.wonk = Some((0.5f32.to_bits(), 0.5f32.to_bits()));
    view.idle(&[], &input);
    let model = view.model();
    assert_eq!(model.cutoff_dip, 100.0f32.to_bits());
    assert_eq!(model.lfo_depth, 5.0f32.to_bits());
    assert_eq!(model.filter_lfo_depth, 50.0f32.to_bits());
    assert_eq!(model.wonk, (0.5f32.to_bits(), 0.5f32.to_bits()));
}

#[test]
fn close_request_closes_the_window() {
    let mut view = View::new(Model::default());
    view.open();
    let events = [WindowEvent::Other, WindowEvent::CloseRequested, WindowEvent::Other];
    assert!(view.idle(&events, &quiet()));
    assert_eq!(view.lifecycle(), Lifecycle::Closed);
    assert!(!view.is_open());
    assert!(!view.idle(&events, &quiet()));
    assert_eq!(view.lifecycle(), Lifecycle::Closed);
}

#[test]
fn close_request_keeps_the_model_and_still_takes_input() {
    let mut view = View::new(Model::default());
    view.open();
    let mut input = quiet();
    input.cutoff_dip = Some(30.0f32.to_bits());
    view.idle(&[WindowEvent::CloseRequested], &input);
    assert!(!view.is_open());
    assert_eq!(view.model().cutoff_dip, 30.0f32.to_bits());
}

#[test]
fn about_button_flips_the_panel() {
    let mut view = View::new(Model::default());
    let mut input = quiet();
    input.about_clicked = true;
    assert!(view.idle(&[], &input));
    assert!(view.about());
    assert!(view.idle(&[], &input));
    assert!(!view.about());
}

#[test]
fn set_widgets_applies_input() {
    let mut ctx = ViewState::new();
    let mut model = Model::default();
    let input = WidgetInput {
        about_clicked: true,
        cutoff_dip: Some(26.0f32.to_bits()),
        wonk: None,
        lfo: Some((21.0f32.to_bits(), 1.0f32.to_bits())),
    };
    set_widgets(&mut ctx, &mut model, &input);
    assert!(ctx.about);
    assert_eq!(model.cutoff_dip, 26.0f32.to_bits());
    assert_eq!(model.lfo_depth, 20.0f32.to_bits());
    assert_eq!(model.filter_lfo_depth, 1.0f32.to_bits());
    assert_eq!(model.wonk, (0, 0));
    set_widgets(&mut ctx, &mut model, &input);
    assert!(!ctx.about);
}

#[test]
fn host_automation_is_clamped_into_the_model() {
    let mut view = View::new(Model::default());
    view.set_parameter(0, 1.0f32.to_bits());
    assert_eq!(view.model().get_parameter(0), 25.0f32.to_bits());
    view.set_parameter(4, 0.5f32.to_bits());
    assert_eq!(view.model().get_parameter(4), 0.5f32.to_bits());
    view.set_parameter(9, 0.5f32.to_bits());
    assert_eq!(view.model().get_parameter(9), 0);
    assert!(!view.is_open());
}

#[test]
fn close_request_closes_a_hidden_window_too() {
    let mut view = View::new(Model::default());
    assert!(view.idle(&[WindowEvent::CloseRequested], &quiet()));
    assert_eq!(view.lifecycle(), Lifecycle::Closed);
}

#[test]
fn events_without_a_close_request_keep_the_window_as_it_is() {
    let mut view = View::new(Model::default());
    assert!(!view.idle(&[WindowEvent::Other], &quiet()));
    assert_eq!(view.lifecycle(), Lifecycle::Hidden);
}
