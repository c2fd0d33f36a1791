use craft_control::controls::Controls;
use craft_control::controls::THRUST_SCALE;

fn held(rotate_left: bool, rotate_right: bool, thrust_forward: bool, thrust_reverse: bool) -> Controls {
    Controls { rotate_left, rotate_right, thrust_forward, thrust_reverse, fire: false }
}

#[test]
fn released_controls_give_no_factors() {
    let c = held(false, false, false, false);
    assert_eq!(c.rotation_factor(), 0);
    assert_eq!(c.thrust_quarters(), 0);
}

#[test]
fn rotation_factor_of_each_combination() {
    assert_eq!(held(false, false, false, false).rotation_factor(), 0);
    assert_eq!(held(true, false, false, false).rotation_factor(), 1);
    assert_eq!(held(false, true, false, false).rotation_factor(), -1);
    assert_eq!(held(true, true, false, false).rotation_factor(), 0);
}

#[test]
fn thrust_quarters_of_each_combination() {
    assert_eq!(held(false, false, false, false).thrust_quarters(), 0);
    assert_eq!(held(false, false, true, false).thrust_quarters(), 4);
    assert_eq!(held(false, false, false, true).thrust_quarters(), -1);
    assert_eq!(held(false, false, true, true).thrust_quarters(), 3);
}

#[test]
fn thrust_scale_is_four_quarters() {
    assert_eq!(THRUST_SCALE, 4);
    assert_eq!(held(false, false, true, false).thrust_quarters(), THRUST_SCALE);
}

#[test]
fn thrust_quarters_give_the_exact_movement_factors() {
    let factor = |c: Controls| f32::from(c.thrust_quarters()) / f32::from(THRUST_SCALE);
    assert_eq!(factor(held(false, false, true, false)), 1.0);
    assert_eq!(factor(held(false, false, false, true)), -0.25);
    assert_eq!(factor(held(false, false, true, true)), 0.75);
    assert_eq!(factor(held(false, false, false, false)), 0.0);
}

#[test]
fn rotation_and_thrust_do_not_depend_on_each_other() {
    for left in [false, true] {
        for right in [false, true] {
            assert_eq!(held(left, right, true, false).thrust_quarters(), 4);
            assert_eq!(held(left, right, false, true).thrust_quarters(), -1);
        }
    }
    for forward in [false, true] {
        for reverse in [false, true] {
            assert_eq!(held(true, false, forward, reverse).rotation_factor(), 1);
            assert_eq!(held(false, true, forward, reverse).rotation_factor(), -1);
        }
    }
}

#[test]
fn fire_does_not_steer() {
    let c = Controls { rotate_left: false, rotate_right: false, thrust_forward: false, thrust_reverse: false, fire: true };
    assert_eq!(c.rotation_factor(), 0);
    assert_eq!(c.thrust_quarters(), 0);
}
