use raytracer::camera::{Control, Orientation};

#[test]
fn starts_level() {
    let o = Orientation::new();
    assert_eq!(o, Orientation { yaw: 0, pitch: 0 });
}

#[test]
fn look_keys_turn_and_tilt() {
    let mut o = Orientation::new();
    o.apply(Control::LookLeft);
    assert_eq!(o.yaw, 5);
    o.apply(Control::LookUp);
    assert_eq!(o.pitch, 3);
    o.apply(Control::LookDown);
    o.apply(Control::LookDown);
    assert_eq!(o.pitch, -3);
}

#[test]
fn yaw_is_cumulative() {
    let mut o = Orientation::new();
    o.apply(Control::LookRight);
    assert_eq!(o.yaw, -5);
    o.apply(Control::LookLeft);
    assert_eq!(o.yaw, 0);
    for _ in 0..72 {
        o.apply(Control::LookLeft);
    }
    assert_eq!(o.yaw, 360);
    let mut p = Orientation { yaw: 355, pitch: 0 };
    p.apply(Control::LookLeft);
    assert_eq!(p.yaw, 360);
}

#[test]
fn pitch_is_clamped() {
    let mut o = Orientation::new();
    for _ in 0..40 {
        o.apply(Control::LookUp);
    }
    assert_eq!(o.pitch, 89);
    for _ in 0..60 {
        o.apply(Control::LookDown);
    }
    assert_eq!(o.pitch, -35);
}

#[test]
fn movement_keys_keep_heading() {
    let mut o = Orientation { yaw: 40, pitch: 6 };
    o.apply_all(&vec![Control::Forward, Control::StrafeLeft, Control::Backward, Control::StrafeRight]);
    assert_eq!(o, Orientation { yaw: 40, pitch: 6 });
}

#[test]
fn apply_all_in_order() {
    let mut o = Orientation { yaw: 0, pitch: 87 };
    o.apply_all(&vec![Control::LookUp, Control::LookDown, Control::LookRight]);
    assert_eq!(o, Orientation { yaw: -5, pitch: 86 });
}

#[test]
fn move_axes() {
    assert_eq!(Control::StrafeLeft.move_axis(), Some((-1, 0, 0)));
    assert_eq!(Control::StrafeRight.move_axis(), Some((1, 0, 0)));
    assert_eq!(Control::Forward.move_axis(), Some((0, 0, -1)));
    assert_eq!(Control::Backward.move_axis(), Some((0, 0, 1)));
    assert_eq!(Control::LookUp.move_axis(), None);
}
