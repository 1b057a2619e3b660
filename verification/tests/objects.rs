use invaders_core::ball::{Ball, KB_X_BOOST, KB_Y_BOOST};
use invaders_core::color::{hex_to_color, Color};
use invaders_core::game_object::{
    evaluate_object, CollisionShape, GameObject, Key, KeyStates, ObjectInfo,
};
use invaders_core::units::{reflect_velocity, XYPair};

fn test_info() -> ObjectInfo {
    ObjectInfo { window_size: XYPair { x: 12800, y: 7200 } }
}

#[test]
fn hex_color_parses_exact_channels() {
    assert_eq!(hex_to_color("#ff8001"), Some(Color { r: 255, g: 128, b: 1 }));
    assert_eq!(hex_to_color("#000000"), Some(Color { r: 0, g: 0, b: 0 }));
    assert_eq!(hex_to_color("#AbCdEf"), Some(Color { r: 0xab, g: 0xcd, b: 0xef }));
}

#[test]
fn malformed_hex_colors_are_rejected() {
    assert_eq!(hex_to_color("ff8001"), None);
    assert_eq!(hex_to_color("#ff801"), None);
    assert_eq!(hex_to_color("#ff80011"), None);
    assert_eq!(hex_to_color("#gg0000"), None);
    assert_eq!(hex_to_color(""), None);
}

#[test]
fn new_ball_is_at_rest_and_interested_in_its_keys() {
    let ball = Ball::new(XYPair { x: 4000, y: 6800 }, 200, "#ff0000");
    assert_eq!(ball.radius, 200);
    assert_eq!(ball.diameter, 400);
    assert_eq!(ball.color, Color { r: 255, g: 0, b: 0 });
    assert_eq!(ball.common.coords, XYPair { x: 4000, y: 6800 });
    assert_eq!(ball.common.velocities, XYPair { x: 0, y: 0 });
    assert_eq!(ball.common.interested_keys, vec![Key::A, Key::D, Key::W]);
    assert!(ball.common.object_info.is_none());
}

#[test]
fn ball_capabilities() {
    let ball = Ball::new(XYPair { x: 0, y: 0 }, 200, "#00ff00");
    assert_eq!(ball.weight_factor(), 8);
    assert_eq!(ball.bounciness(), 6);
    assert!(matches!(ball.collision_shape(), CollisionShape::Circle(200)));
    assert_eq!(ball.canvas_size(), XYPair { x: 400, y: 400 });
}

#[test]
fn grounded_falling_ball_jumps_on_the_up_key() {
    // A ball of diameter 40 pixels whose lower edge touches the floor of
    // a 720-pixel-high window, already moving up: the up key adds the
    // full impulse, -1.0 becoming -17.0.
    let mut ball = Ball::new(XYPair { x: 4000, y: 6800 }, 200, "#ff0000");
    ball.common.velocities.y = -10;
    let keys = KeyStates { a_down: false, d_down: false, w_down: true };
    evaluate_object(&mut ball, test_info(), &keys);
    assert_eq!(ball.common.velocities.y, -10 - KB_Y_BOOST);
    assert_eq!(ball.common.velocities.y, -170);
}

#[test]
fn up_key_has_no_effect_with_non_negative_vertical_velocity() {
    let mut ball = Ball::new(XYPair { x: 4000, y: 6800 }, 200, "#ff0000");
    ball.common.velocities.y = 10;
    let keys = KeyStates { a_down: false, d_down: false, w_down: true };
    evaluate_object(&mut ball, test_info(), &keys);
    assert_eq!(ball.common.velocities.y, 10);

    ball.common.velocities.y = 0;
    evaluate_object(&mut ball, test_info(), &keys);
    assert_eq!(ball.common.velocities.y, 0);
}

#[test]
fn up_key_has_no_effect_off_the_floor() {
    let mut ball = Ball::new(XYPair { x: 4000, y: 6000 }, 200, "#ff0000");
    ball.common.velocities.y = -10;
    let keys = KeyStates { a_down: false, d_down: false, w_down: true };
    evaluate_object(&mut ball, test_info(), &keys);
    assert_eq!(ball.common.velocities.y, -10);
}

#[test]
fn ten_frames_of_left_accumulate_without_clamp() {
    let mut ball = Ball::new(XYPair { x: 4000, y: 6800 }, 200, "#ff0000");
    let keys = KeyStates { a_down: true, d_down: false, w_down: false };
    for _ in 0..10 {
        ball.handle_input(&keys);
    }
    assert_eq!(ball.common.velocities.x, -10 * KB_X_BOOST);
    assert_eq!(ball.common.velocities.x, -20);
}

#[test]
fn opposing_steering_keys_cancel() {
    let mut ball = Ball::new(XYPair { x: 4000, y: 6800 }, 200, "#ff0000");
    let keys = KeyStates { a_down: true, d_down: true, w_down: false };
    ball.handle_input(&keys);
    assert_eq!(ball.common.velocities.x, 0);
}

#[test]
fn key_state_lookup_matches_fields() {
    let keys = KeyStates { a_down: true, d_down: false, w_down: true };
    assert!(keys.is_down(Key::A));
    assert!(!keys.is_down(Key::D));
    assert!(keys.is_down(Key::W));
    let none = KeyStates::none_down();
    assert!(!none.is_down(Key::A) && !none.is_down(Key::D) && !none.is_down(Key::W));
}

#[test]
fn damping_scales_and_reflects_velocity() {
    // Perfectly elastic.
    assert_eq!(reflect_velocity(100, 10), -100);
    // Fully absorbed.
    assert_eq!(reflect_velocity(100, 0), 0);
    // 0.6 damping, both directions.
    assert_eq!(reflect_velocity(50, 6), -30);
    assert_eq!(reflect_velocity(-50, 6), 30);
    // The scaled magnitude rounds down.
    assert_eq!(reflect_velocity(5, 6), -3);
    assert_eq!(reflect_velocity(0, 6), 0);
}

#[test]
fn rectangle_extents_round_down() {
    let shape = CollisionShape::Rectangle(401, 300);
    assert_eq!(shape.half_extent_x(), 200);
    assert_eq!(shape.half_extent_y(), 150);
    let circle = CollisionShape::Circle(250);
    assert_eq!(circle.half_extent_x(), 250);
    assert_eq!(circle.half_extent_y(), 250);
}
