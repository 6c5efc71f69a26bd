use actor_scene::asteroid::ASTEROID_RADIUS_BITS;
use actor_scene::asteroid::SPAWN_MAX_X_BITS;
use actor_scene::asteroid::SPAWN_MAX_Y_BITS;
use actor_scene::asteroid::SPAWN_MIN_X_BITS;
use actor_scene::asteroid::SPAWN_MIN_Y_BITS;
use actor_scene::math::clamp;
use actor_scene::math::max;
use actor_scene::math::min;
use actor_scene::math::near_zero;
use actor_scene::math::Arithmetic;
use actor_scene::math::Scalar;
use actor_scene::math::NEG_ONE_BITS;
use actor_scene::math::ONE_BITS;
use actor_scene::math::ZERO_BITS;
use actor_scene::matrix::Matrix4;
use actor_scene::move_component::PlayField;
use actor_scene::move_component::EPSILON_BITS;
use actor_scene::move_component::SCREEN_HEIGHT_BITS;
use actor_scene::move_component::SCREEN_WIDTH_BITS;
use actor_scene::move_component::SCREEN_WRAP_OFFSET_BITS;
use actor_scene::vector::Vector2;
use actor_scene::vector::Vector3;

struct FloatMath;

fn s(v: f32) -> Scalar {
    Scalar::from_bits(v.to_bits())
}

fn f(v: Scalar) -> f32 {
    f32::from_bits(v.to_bits())
}

impl Arithmetic for FloatMath {
    fn sum(&self, a: Scalar, b: Scalar) -> Scalar {
        s(f(a) + f(b))
    }

    fn difference(&self, a: Scalar, b: Scalar) -> Scalar {
        s(f(a) - f(b))
    }

    fn product(&self, a: Scalar, b: Scalar) -> Scalar {
        s(f(a) * f(b))
    }

    fn quotient(&self, a: Scalar, b: Scalar) -> Scalar {
        s(f(a) / f(b))
    }

    fn remainder(&self, a: Scalar, b: Scalar) -> Scalar {
        s(f(a) % f(b))
    }

    fn negation(&self, a: Scalar) -> Scalar {
        s(-f(a))
    }

    fn magnitude(&self, a: Scalar) -> Scalar {
        s(f(a).abs())
    }

    fn square_root(&self, a: Scalar) -> Scalar {
        s(f(a).sqrt())
    }

    fn cosine(&self, angle: Scalar) -> Scalar {
        s(f(angle).cos())
    }

    fn sine(&self, angle: Scalar) -> Scalar {
        s(f(angle).sin())
    }

    fn tangent(&self, angle: Scalar) -> Scalar {
        s(f(angle).tan())
    }

    fn arc_cosine(&self, a: Scalar) -> Scalar {
        s(f(a).acos())
    }

    fn arc_tangent(&self, y: Scalar, x: Scalar) -> Scalar {
        s(f(y).atan2(f(x)))
    }

    fn less(&self, a: Scalar, b: Scalar) -> bool {
        f(a) < f(b)
    }

    fn at_most(&self, a: Scalar, b: Scalar) -> bool {
        f(a) <= f(b)
    }
}

fn floats(m: &Matrix4) -> [[f32; 4]; 4] {
    let mut out = [[0.0f32; 4]; 4];
    for row in 0..4 {
        for col in 0..4 {
            out[row][col] = f(m.get(row, col));
        }
    }
    out
}

#[test]
fn max_picks_the_greater() {
    assert_eq!(max(3, 5), 5);
    assert_eq!(max(5, 3), 5);
    assert_eq!(max(-3, -5), -3);
    assert_eq!(max(7u8, 7u8), 7);
    assert_eq!(max(1.5f32, 2.5f32), 2.5);
}

#[test]
fn min_picks_the_lesser() {
    assert_eq!(min(3, 5), 3);
    assert_eq!(min(5, 3), 3);
    assert_eq!(min(-3, -5), -5);
    assert_eq!(min(2.5f64, 1.5f64), 1.5);
}

#[test]
fn max_and_min_keep_their_side_on_ties() {
    // Pairs compare by the first field only, so that ties can be told apart.
    #[derive(Debug, Clone, Copy)]
    struct Keyed(i32, char);
    impl PartialEq for Keyed {
        fn eq(&self, other: &Keyed) -> bool {
            self.0 == other.0
        }
    }
    impl PartialOrd for Keyed {
        fn partial_cmp(&self, other: &Keyed) -> Option<std::cmp::Ordering> {
            self.0.partial_cmp(&other.0)
        }
    }
    assert_eq!(max(Keyed(1, 'a'), Keyed(1, 'b')).1, 'a');
    assert_eq!(min(Keyed(1, 'a'), Keyed(1, 'b')).1, 'b');
}

#[test]
fn clamp_holds_a_value_between_its_bounds() {
    assert_eq!(clamp(5, 0, 10), 5);
    assert_eq!(clamp(-5, 0, 10), 0);
    assert_eq!(clamp(15, 0, 10), 10);
    assert_eq!(clamp(0, 0, 10), 0);
    assert_eq!(clamp(10, 0, 10), 10);
    assert_eq!(clamp(0.25f32, 0.0, 1.0), 0.25);
    assert_eq!(clamp(7.5f32, 0.0, 1.0), 1.0);
}

#[test]
fn clamp_with_crossed_bounds_answers_the_upper_bound() {
    // min(upper, max(lower, value)) with lower 10 and upper 0.
    assert_eq!(clamp(5, 10, 0), 0);
    assert_eq!(clamp(20, 10, 0), 0);
}

#[test]
fn bit_patterns_are_those_of_the_numbers_they_stand_for() {
    assert_eq!(ZERO_BITS, 0.0f32.to_bits());
    assert_eq!(ONE_BITS, 1.0f32.to_bits());
    assert_eq!(NEG_ONE_BITS, (-1.0f32).to_bits());
    assert_eq!(EPSILON_BITS, 0.001f32.to_bits());
    assert_eq!(SCREEN_WIDTH_BITS, 1024.0f32.to_bits());
    assert_eq!(SCREEN_HEIGHT_BITS, 768.0f32.to_bits());
    assert_eq!(SCREEN_WRAP_OFFSET_BITS, 2.0f32.to_bits());
    assert_eq!(SPAWN_MIN_X_BITS, (-512.0f32).to_bits());
    assert_eq!(SPAWN_MIN_Y_BITS, (-384.0f32).to_bits());
    assert_eq!(SPAWN_MAX_X_BITS, 512.0f32.to_bits());
    assert_eq!(SPAWN_MAX_Y_BITS, 384.0f32.to_bits());
    assert_eq!(ASTEROID_RADIUS_BITS, 40.0f32.to_bits());
}

#[test]
fn scalar_keeps_its_bits() {
    assert_eq!(Scalar::from_bits(0x1234_5678).to_bits(), 0x1234_5678);
    assert_eq!(f(Scalar::zero()), 0.0);
    assert_eq!(f(Scalar::one()), 1.0);
    assert_eq!(Scalar::zero().to_bits(), 0);
    // Equality is that of the bits: the two zeros differ.
    assert_ne!(s(0.0), s(-0.0));
    assert_eq!(s(2.5), s(2.5));
}

#[test]
fn near_zero_is_exact_at_the_threshold() {
    let eps = Scalar::from_bits(EPSILON_BITS);
    assert!(near_zero(s(0.0), eps, &FloatMath));
    assert!(near_zero(s(0.001), eps, &FloatMath));
    assert!(near_zero(s(-0.001), eps, &FloatMath));
    assert!(near_zero(s(0.0009), eps, &FloatMath));
    assert!(!near_zero(s(0.0011), eps, &FloatMath));
    assert!(!near_zero(s(-0.0011), eps, &FloatMath));
    assert!(!near_zero(s(150.0), eps, &FloatMath));
}

#[test]
fn vectors_are_built_and_set() {
    let v = Vector2::new(s(1.0), s(2.0));
    assert_eq!(f(v.x), 1.0);
    assert_eq!(f(v.y), 2.0);
    assert_eq!(Vector2::zero(), Vector2::new(s(0.0), s(0.0)));
    let mut w = Vector2::zero();
    w.set(s(3.0), s(4.0));
    assert_eq!(w, Vector2::new(s(3.0), s(4.0)));
    let mut u = Vector3::zero();
    assert_eq!(u, Vector3::new(s(0.0), s(0.0), s(0.0)));
    u.set(s(1.0), s(2.0), s(3.0));
    assert_eq!(u, Vector3::new(s(1.0), s(2.0), s(3.0)));
}

#[test]
fn vector_arithmetic_goes_coordinate_by_coordinate() {
    let a = Vector2::new(s(1.0), s(2.0));
    let b = Vector2::new(s(10.0), s(20.0));
    assert_eq!(Vector2::plus(a, b, &FloatMath), Vector2::new(s(11.0), s(22.0)));
    assert_eq!(Vector2::minus(a, b, &FloatMath), Vector2::new(s(-9.0), s(-18.0)));
    assert_eq!(Vector2::times(a, b, &FloatMath), Vector2::new(s(10.0), s(40.0)));
    assert_eq!(Vector2::scaled(a, s(3.0), &FloatMath), Vector2::new(s(3.0), s(6.0)));
    assert_eq!(f(Vector2::new(s(3.0), s(4.0)).length_sq(&FloatMath)), 25.0);
}

#[test]
fn identity_has_ones_on_the_diagonal() {
    let m = floats(&Matrix4::identity());
    for row in 0..4 {
        for col in 0..4 {
            assert_eq!(m[row][col], if row == col { 1.0 } else { 0.0 });
        }
    }
}

#[test]
fn scale_matrix_has_the_factors_on_the_diagonal() {
    let m = floats(&Matrix4::create_scale(s(2.0), s(3.0), s(4.0)));
    assert_eq!(
        m,
        [[2.0, 0.0, 0.0, 0.0], [0.0, 3.0, 0.0, 0.0], [0.0, 0.0, 4.0, 0.0], [0.0, 0.0, 0.0, 1.0]]
    );
    let u = floats(&Matrix4::create_uniform_scale(s(5.0)));
    assert_eq!(
        u,
        [[5.0, 0.0, 0.0, 0.0], [0.0, 5.0, 0.0, 0.0], [0.0, 0.0, 5.0, 0.0], [0.0, 0.0, 0.0, 1.0]]
    );
}

#[test]
fn translation_matrix_has_the_offset_in_the_last_row() {
    let m = floats(&Matrix4::create_translation(Vector3::new(s(7.0), s(8.0), s(9.0))));
    assert_eq!(
        m,
        [[1.0, 0.0, 0.0, 0.0], [0.0, 1.0, 0.0, 0.0], [0.0, 0.0, 1.0, 0.0], [7.0, 8.0, 9.0, 1.0]]
    );
}

#[test]
fn rotation_matrix_holds_cosine_and_sine() {
    let theta = 0.5f32;
    let m = floats(&Matrix4::create_rotation_z(s(theta), &FloatMath));
    let (c, n) = (theta.cos(), theta.sin());
    assert_eq!(
        m,
        [[c, n, 0.0, 0.0], [-n, c, 0.0, 0.0], [0.0, 0.0, 1.0, 0.0], [0.0, 0.0, 0.0, 1.0]]
    );
    let unturned = floats(&Matrix4::create_rotation_z(s(0.0), &FloatMath));
    assert_eq!(unturned[0][0], 1.0);
    assert_eq!(unturned[0][1], 0.0);
    assert_eq!(unturned[1][1], 1.0);
}

#[test]
fn matrix_new_keeps_every_entry() {
    let mut rows = [[s(0.0); 4]; 4];
    for row in 0..4 {
        for col in 0..4 {
            rows[row][col] = s((row * 4 + col) as f32);
        }
    }
    let m = Matrix4::new(rows);
    for row in 0..4 {
        for col in 0..4 {
            assert_eq!(f(m.get(row, col)), (row * 4 + col) as f32);
        }
    }
}

#[test]
fn wrap_brings_a_coordinate_back_in_on_the_far_side() {
    let field = PlayField::screen();
    let wrapped = field.wrap(Vector2::new(s(1024.5), s(-0.5)), &FloatMath);
    assert_eq!(f(wrapped.x), 2.0);
    assert_eq!(f(wrapped.y), 766.0);
    let other = field.wrap(Vector2::new(s(-3.0), s(800.0)), &FloatMath);
    assert_eq!(f(other.x), 1022.0);
    assert_eq!(f(other.y), 2.0);
}

#[test]
fn wrap_leaves_a_coordinate_inside_or_on_a_bound_alone() {
    let field = PlayField::screen();
    let inside = field.wrap(Vector2::new(s(512.0), s(300.0)), &FloatMath);
    assert_eq!(inside, Vector2::new(s(512.0), s(300.0)));
    let on_bounds = field.wrap(Vector2::new(s(1024.0), s(0.0)), &FloatMath);
    assert_eq!(on_bounds, Vector2::new(s(1024.0), s(0.0)));
}

#[test]
fn wrap_follows_the_configured_field() {
    let field = PlayField::new(s(-10.0), s(10.0), s(-5.0), s(5.0), s(0.5));
    let wrapped = field.wrap(Vector2::new(s(10.25), s(-5.25)), &FloatMath);
    assert_eq!(f(wrapped.x), -9.5);
    assert_eq!(f(wrapped.y), 4.5);
    assert_eq!(f(PlayField::wrap_coordinate(s(0.0), s(1.0), s(0.25), s(2.0), &FloatMath)), 0.25);
    assert_eq!(f(PlayField::wrap_coordinate(s(0.0), s(1.0), s(0.25), s(-2.0), &FloatMath)), 0.75);
    assert_eq!(f(PlayField::wrap_coordinate(s(0.0), s(1.0), s(0.25), s(0.5), &FloatMath)), 0.5);
}

#[test]
fn screen_field_has_the_screen_bounds() {
    let field = PlayField::screen();
    assert_eq!(f(field.min_x), 0.0);
    assert_eq!(f(field.max_x), 1024.0);
    assert_eq!(f(field.min_y), 0.0);
    assert_eq!(f(field.max_y), 768.0);
    assert_eq!(f(field.wrap_offset), 2.0);
}

#[test]
fn matrix_product_is_rows_times_columns() {
    let mut left = [[s(0.0); 4]; 4];
    let mut right = [[s(0.0); 4]; 4];
    for row in 0..4 {
        for col in 0..4 {
            left[row][col] = s((row * 4 + col) as f32 + 1.0);
            right[row][col] = s(((row + 1) * (col + 2)) as f32 - 3.0);
        }
    }
    let product = floats(&Matrix4::new(left).mul(Matrix4::new(right), &FloatMath));
    for row in 0..4 {
        for col in 0..4 {
            let mut expected = 0.0f32;
            for k in 0..4 {
                expected += f(left[row][k]) * f(right[k][col]);
            }
            assert_eq!(product[row][col], expected);
        }
    }
}

#[test]
fn matrix_product_with_the_identity_changes_nothing() {
    let m = Matrix4::create_translation(Vector3::new(s(7.0), s(8.0), s(9.0)));
    assert_eq!(floats(&m.mul(Matrix4::identity(), &FloatMath)), floats(&m));
    assert_eq!(floats(&Matrix4::identity().mul(m, &FloatMath)), floats(&m));
}

#[test]
fn matrix_product_depends_on_the_order() {
    let scale = Matrix4::create_scale(s(2.0), s(2.0), s(2.0));
    let shift = Matrix4::create_translation(Vector3::new(s(1.0), s(0.0), s(0.0)));
    // Scaling first leaves the offset as it is; moving first scales it too.
    assert_eq!(floats(&scale.mul(shift, &FloatMath))[3], [1.0, 0.0, 0.0, 1.0]);
    assert_eq!(floats(&shift.mul(scale, &FloatMath))[3], [2.0, 0.0, 0.0, 1.0]);
}

#[test]
fn unit_vectors_point_along_the_axes() {
    assert_eq!(Vector2::unit_x(), Vector2::new(s(1.0), s(0.0)));
    assert_eq!(Vector2::unit_y(), Vector2::new(s(0.0), s(1.0)));
    assert_eq!(Vector2::neg_unit_x(), Vector2::new(s(-1.0), s(0.0)));
    assert_eq!(Vector2::neg_unit_y(), Vector2::new(s(0.0), s(-1.0)));
}
