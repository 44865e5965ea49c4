use triangles::input::{Actions, Flow};
use triangles::view::{Triangles, ViewState};

fn nothing() -> Actions {
    Actions {
        pan_left: false,
        pan_right: false,
        pan_up: false,
        pan_down: false,
        zoom_in: false,
        zoom_out: false,
        quit: false,
    }
}

#[test]
fn no_action_asks_for_a_redraw_and_keeps_the_view() {
    let mut view = Triangles::new();
    assert_eq!(view.apply(&nothing()), Flow::Redraw);
    assert_eq!(view.state(), ViewState { x: 0, y: 0, zoom: 1 });
}

#[test]
fn pan_left_once_at_zoom_one() {
    let mut view = Triangles::new();
    let flow = view.apply(&Actions { pan_left: true, ..nothing() });
    assert_eq!(flow, Flow::Redraw);
    assert_eq!(view.state(), ViewState { x: 4_294_967_040, y: 0, zoom: 1 });
}

#[test]
fn pan_left_once_from_300() {
    let mut view = Triangles::new();
    view.pan(300, 0);
    view.apply(&Actions { pan_left: true, ..nothing() });
    assert_eq!(view.state().x, 44);
}

#[test]
fn each_direction_moves_by_the_pan_speed() {
    let mut view = Triangles::new();
    view.pan(1000, 1000);
    view.apply(&Actions { pan_right: true, ..nothing() });
    assert_eq!(view.state(), ViewState { x: 1256, y: 1000, zoom: 1 });
    view.apply(&Actions { pan_down: true, ..nothing() });
    assert_eq!(view.state(), ViewState { x: 1256, y: 1256, zoom: 1 });
    view.apply(&Actions { pan_left: true, ..nothing() });
    assert_eq!(view.state(), ViewState { x: 1000, y: 1256, zoom: 1 });
    view.apply(&Actions { pan_up: true, ..nothing() });
    assert_eq!(view.state(), ViewState { x: 1000, y: 1000, zoom: 1 });
}

#[test]
fn opposite_pans_cancel() {
    let mut view = Triangles::new();
    view.apply(&Actions { pan_left: true, pan_right: true, pan_up: true, pan_down: true, ..nothing() });
    assert_eq!(view.state(), ViewState { x: 0, y: 0, zoom: 1 });
}

#[test]
fn pan_up_of_zero_wraps_by_the_pan_speed() {
    let mut view = Triangles::new();
    view.apply(&Actions { pan_up: true, ..nothing() });
    assert_eq!(view.state(), ViewState { x: 0, y: 4_294_967_040, zoom: 1 });
}

#[test]
fn zoom_actions_step_the_zoom() {
    let mut view = Triangles::new();
    view.apply(&Actions { zoom_in: true, ..nothing() });
    assert_eq!(view.state().zoom, 2);
    view.apply(&Actions { zoom_in: true, ..nothing() });
    assert_eq!(view.state().zoom, 3);
    view.apply(&Actions { zoom_out: true, ..nothing() });
    assert_eq!(view.state().zoom, 2);
    view.apply(&Actions { zoom_out: true, ..nothing() });
    assert_eq!(view.state().zoom, 1);
    view.apply(&Actions { zoom_out: true, ..nothing() });
    assert_eq!(view.state().zoom, 1);
}

#[test]
fn zoom_in_and_out_together_leave_the_zoom() {
    let mut view = Triangles::new();
    view.apply(&Actions { zoom_in: true, zoom_out: true, ..nothing() });
    assert_eq!(view.state().zoom, 1);
    view.zoom_in();
    view.zoom_in();
    view.apply(&Actions { zoom_in: true, zoom_out: true, ..nothing() });
    assert_eq!(view.state().zoom, 3);
}

#[test]
fn pans_use_the_speed_the_update_began_with() {
    let mut view = Triangles::new();
    view.apply(&Actions { pan_right: true, pan_down: true, zoom_in: true, ..nothing() });
    assert_eq!(view.state(), ViewState { x: 256, y: 256, zoom: 2 });
    view.apply(&Actions { pan_right: true, zoom_in: true, ..nothing() });
    assert_eq!(view.state(), ViewState { x: 384, y: 256, zoom: 3 });
    view.apply(&Actions { pan_left: true, zoom_out: true, ..nothing() });
    assert_eq!(view.state(), ViewState { x: 299, y: 256, zoom: 2 });
}

#[test]
fn quit_exits_and_keeps_the_view() {
    let mut view = Triangles::new();
    view.pan(5, 6);
    view.zoom_in();
    let all = Actions {
        pan_left: true,
        pan_right: false,
        pan_up: true,
        pan_down: false,
        zoom_in: true,
        zoom_out: false,
        quit: true,
    };
    assert_eq!(view.apply(&all), Flow::Exit);
    assert_eq!(view.state(), ViewState { x: 5, y: 6, zoom: 2 });
    assert_eq!(view.apply(&Actions { quit: true, ..nothing() }), Flow::Exit);
    assert_eq!(view.state(), ViewState { x: 5, y: 6, zoom: 2 });
}
