use std::cell::Cell;
use std::cell::RefCell;

use actor_scene::actor::Actor;
use actor_scene::actor::ActorId;
use actor_scene::actor::Behavior;
use actor_scene::actor::Pose;
use actor_scene::actor::State;
use actor_scene::circle_component::intersect;
use actor_scene::circle_component::CircleComponent;
use actor_scene::component::BaseComponent;
use actor_scene::component::Component;
use actor_scene::component::ComponentId;
use actor_scene::game::Game;
use actor_scene::input_component::is_pressed;
use actor_scene::input_component::InputComponent;
use actor_scene::math::Arithmetic;
use actor_scene::math::Scalar;
use actor_scene::matrix::Matrix4;
use actor_scene::move_component::MoveComponent;
use actor_scene::move_component::PlayField;
use actor_scene::vector::Vector2;

struct FloatMath;

fn s(v: f32) -> Scalar {
    Scalar::from_bits(v.to_bits())
}

fn f(v: Scalar) -> f32 {
    f32::from_bits(v.to_bits())
}

impl Arithmetic for FloatMath {
    fn sum(&self, a: Scalar, b: Scalar) -> Scalar {
        s(f(a) + f(b))
    }

    fn difference(&self, a: Scalar, b: Scalar) -> Scalar {
        s(f(a) - f(b))
    }

    fn product(&self, a: Scalar, b: Scalar) -> Scalar {
        s(f(a) * f(b))
    }

    fn quotient(&self, a: Scalar, b: Scalar) -> Scalar {
        s(f(a) / f(b))
    }

    fn remainder(&self, a: Scalar, b: Scalar) -> Scalar {
        s(f(a) % f(b))
    }

    fn negation(&self, a: Scalar) -> Scalar {
        s(-f(a))
    }

    fn magnitude(&self, a: Scalar) -> Scalar {
        s(f(a).abs())
    }

    fn square_root(&self, a: Scalar) -> Scalar {
        s(f(a).sqrt())
    }

    fn cosine(&self, angle: Scalar) -> Scalar {
        s(f(angle).cos())
    }

    fn sine(&self, angle: Scalar) -> Scalar {
        s(f(angle).sin())
    }

    fn tangent(&self, angle: Scalar) -> Scalar {
        s(f(angle).tan())
    }

    fn arc_cosine(&self, a: Scalar) -> Scalar {
        s(f(a).acos())
    }

    fn arc_tangent(&self, y: Scalar, x: Scalar) -> Scalar {
        s(f(y).atan2(f(x)))
    }

    fn less(&self, a: Scalar, b: Scalar) -> bool {
        f(a) < f(b)
    }

    fn at_most(&self, a: Scalar, b: Scalar) -> bool {
        f(a) <= f(b)
    }
}

struct Idle;

impl Behavior for Idle {
    fn update_actor(&self, _actor: ActorId, pose: Pose, _delta_time: Scalar) -> Pose {
        pose
    }

    fn actor_input(&self, _actor: ActorId, _key_state: &[u8]) {}
}

fn floats(m: &Matrix4) -> [[f32; 4]; 4] {
    let mut out = [[0.0f32; 4]; 4];
    for row in 0..4 {
        for col in 0..4 {
            out[row][col] = f(m.get(row, col));
        }
    }
    out
}

/// A game with one actor, taken out of it for the test to hold.
fn lone_actor() -> Actor {
    let mut game = Game::new();
    let id = Actor::new(&mut game);
    game.remove_actor(id).unwrap()
}

fn orders(actor: &Actor) -> Vec<i32> {
    actor.get_components().iter().map(|c| c.get_update_order()).collect()
}

fn ids(actor: &Actor) -> Vec<u64> {
    actor.get_components().iter().map(|c| c.get_base().id.0).collect()
}

/// A pass-through arithmetic that notes each speed it is asked to judge and
/// counts the cosines it takes: one for each world transform it computes.
struct Noting {
    judged: RefCell<Vec<f32>>,
    cosines: Cell<usize>,
}

impl Arithmetic for Noting {
    fn sum(&self, a: Scalar, b: Scalar) -> Scalar {
        FloatMath.sum(a, b)
    }

    fn difference(&self, a: Scalar, b: Scalar) -> Scalar {
        FloatMath.difference(a, b)
    }

    fn product(&self, a: Scalar, b: Scalar) -> Scalar {
        FloatMath.product(a, b)
    }

    fn quotient(&self, a: Scalar, b: Scalar) -> Scalar {
        FloatMath.quotient(a, b)
    }

    fn remainder(&self, a: Scalar, b: Scalar) -> Scalar {
        FloatMath.remainder(a, b)
    }

    fn negation(&self, a: Scalar) -> Scalar {
        FloatMath.negation(a)
    }

    fn magnitude(&self, a: Scalar) -> Scalar {
        self.judged.borrow_mut().push(f(a));
        FloatMath.magnitude(a)
    }

    fn cosine(&self, angle: Scalar) -> Scalar {
        self.cosines.set(self.cosines.get() + 1);
        FloatMath.cosine(angle)
    }

    fn sine(&self, angle: Scalar) -> Scalar {
        FloatMath.sine(angle)
    }

    fn tangent(&self, angle: Scalar) -> Scalar {
        FloatMath.tangent(angle)
    }

    fn arc_cosine(&self, a: Scalar) -> Scalar {
        FloatMath.arc_cosine(a)
    }

    fn arc_tangent(&self, y: Scalar, x: Scalar) -> Scalar {
        FloatMath.arc_tangent(y, x)
    }

    fn square_root(&self, a: Scalar) -> Scalar {
        FloatMath.square_root(a)
    }

    fn less(&self, a: Scalar, b: Scalar) -> bool {
        FloatMath.less(a, b)
    }

    fn at_most(&self, a: Scalar, b: Scalar) -> bool {
        FloatMath.at_most(a, b)
    }
}

fn noting() -> Noting {
    Noting { judged: RefCell::new(Vec::new()), cosines: Cell::new(0) }
}

#[test]
fn new_actor_is_active_at_the_origin() {
    let actor = lone_actor();
    assert_eq!(actor.get_state(), State::Active);
    assert_eq!(actor.get_position(), Vector2::zero());
    assert_eq!(f(actor.get_rotation()), 0.0);
    assert_eq!(f(actor.get_scale()), 1.0);
    assert!(actor.needs_world_transform());
    assert_eq!(floats(&actor.get_world_transform()), floats(&Matrix4::identity()));
    assert!(actor.get_components().is_empty());
    assert_eq!(actor.get_pose(), Pose { position: Vector2::zero(), rotation: s(0.0), scale: s(1.0) });
}

#[test]
fn components_stand_in_update_order_ties_in_order_of_arrival() {
    let mut actor = lone_actor();
    let five = BaseComponent::new(&mut actor, 5);
    let one = BaseComponent::new(&mut actor, 1);
    let five_again = BaseComponent::new(&mut actor, 5);
    let three = BaseComponent::new(&mut actor, 3);
    assert_eq!(orders(&actor), vec![1, 3, 5, 5]);
    assert_eq!(ids(&actor), vec![one.id.0, three.id.0, five.id.0, five_again.id.0]);
    assert!(five.id.0 < five_again.id.0);
}

#[test]
fn components_are_updated_in_update_order() {
    let mut actor = lone_actor();
    // Update orders 5, 1, 5, 3; the angular speed tells the components apart.
    for (order, speed) in [(5, 50.0), (1, 10.0), (5, 51.0), (3, 30.0)] {
        let mut mover = MoveComponent::new(&mut actor, order);
        mover.set_angular_speed(s(speed));
        mover.set_forward_speed(s(0.0));
        assert!(actor.set_component(Component::Move(mover)));
    }
    let ops = noting();
    actor.update(s(0.0), &PlayField::screen(), &ops, &Idle);
    // Each update judges its angular speed, then its forward speed.
    assert_eq!(*ops.judged.borrow(), vec![10.0, 0.0, 30.0, 0.0, 50.0, 0.0, 51.0, 0.0]);
}

#[test]
fn equal_update_orders_append_after_existing_ones() {
    let mut actor = lone_actor();
    let first = CircleComponent::new(&mut actor);
    let second = CircleComponent::new(&mut actor);
    let third = BaseComponent::new(&mut actor, 100);
    let low = BaseComponent::new(&mut actor, 99);
    let high = BaseComponent::new(&mut actor, 101);
    assert_eq!(
        ids(&actor),
        vec![low.id.0, first.base.id.0, second.base.id.0, third.id.0, high.id.0]
    );
}

#[test]
fn add_component_gives_a_new_identity_and_this_owner() {
    let mut game = Game::new();
    let _other = Actor::new(&mut game);
    let id = Actor::new(&mut game);
    let mut actor = game.remove_actor(id).unwrap();
    let stray = Component::Base(BaseComponent {
        id: ComponentId(77),
        owner: ActorId(99),
        update_order: 4,
    });
    let first = actor.add_component(stray);
    let second = actor.add_component(stray);
    assert_eq!(first, ComponentId(0));
    assert_eq!(second, ComponentId(1));
    let stored = actor.component(first).unwrap();
    assert_eq!(stored.get_base().owner, actor.get_id());
    assert_eq!(stored.get_base().owner, ActorId(1));
    assert_eq!(stored.get_update_order(), 4);
    assert_eq!(ids(&actor), vec![0, 1]);
}

#[test]
fn remove_component_takes_out_the_one_with_the_identity() {
    let mut actor = lone_actor();
    let a = BaseComponent::new(&mut actor, 1);
    let b = BaseComponent::new(&mut actor, 2);
    let c = BaseComponent::new(&mut actor, 3);
    let removed = actor.remove_component(b.id);
    assert_eq!(removed, Some(Component::Base(b)));
    assert_eq!(ids(&actor), vec![a.id.0, c.id.0]);
    assert_eq!(actor.component(b.id), None);
}

#[test]
fn remove_component_of_an_absent_identity_does_nothing() {
    let mut actor = lone_actor();
    let a = BaseComponent::new(&mut actor, 1);
    assert_eq!(actor.remove_component(ComponentId(42)), None);
    assert_eq!(ids(&actor), vec![a.id.0]);
    assert_eq!(actor.remove_component(a.id), Some(Component::Base(a)));
    assert_eq!(actor.remove_component(a.id), None);
    assert!(actor.get_components().is_empty());
}

#[test]
fn identities_are_not_handed_out_again_after_a_removal() {
    let mut actor = lone_actor();
    let a = BaseComponent::new(&mut actor, 1);
    actor.remove_component(a.id);
    let b = BaseComponent::new(&mut actor, 1);
    assert_ne!(a.id, b.id);
}

#[test]
fn set_component_replaces_what_the_component_holds() {
    let mut actor = lone_actor();
    let mut circle = CircleComponent::new(&mut actor);
    assert_eq!(f(circle.radius), 0.0);
    circle.set_radius(s(40.0));
    assert!(actor.set_component(Component::Circle(circle)));
    assert_eq!(actor.component(circle.base.id), Some(Component::Circle(circle)));
}

#[test]
fn set_component_keeps_identity_owner_and_update_order() {
    let mut actor = lone_actor();
    let circle = CircleComponent::new(&mut actor);
    let mut forged = circle;
    forged.base.update_order = -7;
    forged.base.owner = ActorId(1234);
    forged.radius = s(3.0);
    assert!(actor.set_component(Component::Circle(forged)));
    let stored = actor.component(circle.base.id).unwrap();
    assert_eq!(stored.get_base(), circle.base);
    match stored {
        Component::Circle(c) => assert_eq!(f(c.radius), 3.0),
        _ => panic!("the component is a circle"),
    }
}

#[test]
fn set_component_of_an_absent_identity_does_nothing() {
    let mut actor = lone_actor();
    let circle = CircleComponent::new(&mut actor);
    let mut stray = circle;
    stray.base.id = ComponentId(9);
    stray.radius = s(5.0);
    assert!(!actor.set_component(Component::Circle(stray)));
    assert_eq!(actor.component(circle.base.id), Some(Component::Circle(circle)));
}

#[test]
fn setters_mark_the_world_transform() {
    let mut actor = lone_actor();
    actor.compute_world_transform(&FloatMath);
    assert!(!actor.needs_world_transform());
    actor.set_position(Vector2::new(s(1.0), s(2.0)));
    assert!(actor.needs_world_transform());
    assert_eq!(actor.get_position(), Vector2::new(s(1.0), s(2.0)));
    actor.compute_world_transform(&FloatMath);
    actor.set_rotation(s(0.5));
    assert!(actor.needs_world_transform());
    assert_eq!(f(actor.get_rotation()), 0.5);
    actor.compute_world_transform(&FloatMath);
    actor.set_scale(s(3.0));
    assert!(actor.needs_world_transform());
    assert_eq!(f(actor.get_scale()), 3.0);
}

#[test]
fn setters_do_not_recompute() {
    let mut actor = lone_actor();
    actor.compute_world_transform(&FloatMath);
    let before = floats(&actor.get_world_transform());
    actor.set_position(Vector2::new(s(9.0), s(9.0)));
    actor.set_scale(s(2.0));
    assert_eq!(floats(&actor.get_world_transform()), before);
}

#[test]
fn world_transform_is_scale_then_rotation_then_translation() {
    let mut actor = lone_actor();
    actor.set_position(Vector2::new(s(3.0), s(4.0)));
    actor.set_rotation(s(0.75));
    actor.set_scale(s(2.0));
    actor.compute_world_transform(&FloatMath);
    let (c, n) = (0.75f32.cos(), 0.75f32.sin());
    let expected = [
        [2.0 * c, 2.0 * n, 0.0, 0.0],
        [2.0 * -n, 2.0 * c, 0.0, 0.0],
        [0.0, 0.0, 2.0, 0.0],
        [3.0, 4.0, 0.0, 1.0],
    ];
    assert_eq!(floats(&actor.get_world_transform()), expected);
}

#[test]
fn world_transform_turns_about_the_actors_own_origin() {
    // A quarter turn must not swing the actor round the origin of the world:
    // the last row holds the position as it was set.
    let mut actor = lone_actor();
    actor.set_position(Vector2::new(s(100.0), s(0.0)));
    actor.set_rotation(s(std::f32::consts::FRAC_PI_2));
    actor.compute_world_transform(&FloatMath);
    let m = floats(&actor.get_world_transform());
    assert_eq!(m[3], [100.0, 0.0, 0.0, 1.0]);
}

#[test]
fn world_transform_of_a_fresh_actor_is_the_identity_once_computed() {
    let mut actor = lone_actor();
    actor.compute_world_transform(&FloatMath);
    assert_eq!(floats(&actor.get_world_transform()), floats(&Matrix4::identity()));
    assert!(!actor.needs_world_transform());
}

#[test]
fn computing_the_world_transform_twice_computes_once() {
    let mut actor = lone_actor();
    actor.set_position(Vector2::new(s(3.0), s(4.0)));
    let ops = noting();
    actor.compute_world_transform(&ops);
    assert!(!actor.needs_world_transform());
    assert_eq!(ops.cosines.get(), 1);
    let first = floats(&actor.get_world_transform());
    actor.compute_world_transform(&ops);
    assert_eq!(ops.cosines.get(), 1);
    assert_eq!(floats(&actor.get_world_transform()), first);
    assert!(!actor.needs_world_transform());
}

#[test]
fn a_set_value_shows_in_the_next_world_transform() {
    let mut actor = lone_actor();
    actor.compute_world_transform(&FloatMath);
    let before = floats(&actor.get_world_transform());
    actor.set_position(Vector2::new(s(5.0), s(0.0)));
    actor.compute_world_transform(&FloatMath);
    let moved = floats(&actor.get_world_transform());
    assert_ne!(moved, before);
    assert_eq!(moved[3][0], 5.0);
    actor.set_scale(s(2.0));
    actor.compute_world_transform(&FloatMath);
    let scaled = floats(&actor.get_world_transform());
    assert_ne!(scaled, moved);
    actor.set_rotation(s(1.0));
    actor.compute_world_transform(&FloatMath);
    assert_ne!(floats(&actor.get_world_transform()), scaled);
}

#[test]
fn setting_the_same_value_yields_the_same_world_transform() {
    let mut actor = lone_actor();
    actor.set_position(Vector2::new(s(5.0), s(6.0)));
    actor.compute_world_transform(&FloatMath);
    let before = floats(&actor.get_world_transform());
    actor.set_position(Vector2::new(s(5.0), s(6.0)));
    assert!(actor.needs_world_transform());
    actor.compute_world_transform(&FloatMath);
    assert_eq!(floats(&actor.get_world_transform()), before);
}

#[test]
fn set_pose_marks_only_on_a_change() {
    let mut actor = lone_actor();
    actor.compute_world_transform(&FloatMath);
    let pose = actor.get_pose();
    actor.set_pose(pose);
    assert!(!actor.needs_world_transform());
    actor.set_pose(Pose { rotation: s(1.0), ..pose });
    assert!(actor.needs_world_transform());
    assert_eq!(f(actor.get_rotation()), 1.0);
    assert_eq!(actor.get_position(), pose.position);
}

#[test]
fn forward_is_cosine_and_sine_of_the_rotation() {
    let mut actor = lone_actor();
    let ahead = actor.get_forward(&FloatMath);
    assert_eq!((f(ahead.x), f(ahead.y)), (1.0, 0.0));
    actor.set_rotation(s(0.3));
    let turned = actor.get_forward(&FloatMath);
    assert_eq!((f(turned.x), f(turned.y)), (0.3f32.cos(), 0.3f32.sin()));
}

#[test]
fn state_is_set_and_read() {
    let mut actor = lone_actor();
    actor.set_state(State::Paused);
    assert_eq!(actor.get_state(), State::Paused);
    actor.set_state(State::Dead);
    assert_eq!(actor.get_state(), State::Dead);
    actor.set_state(State::Active);
    assert_eq!(actor.get_state(), State::Active);
}

#[test]
fn update_moves_forward_by_speed_times_time() {
    let mut actor = lone_actor();
    actor.set_position(Vector2::new(s(100.0), s(200.0)));
    let mut mover = MoveComponent::new(&mut actor, 10);
    mover.set_forward_speed(s(150.0));
    actor.set_component(Component::Move(mover));
    actor.update(s(1.0), &PlayField::screen(), &FloatMath, &Idle);
    assert_eq!(f(actor.get_position().x), 250.0);
    assert_eq!(f(actor.get_position().y), 200.0);
    assert_eq!(f(actor.get_rotation()), 0.0);
}

#[test]
fn update_moves_along_the_heading() {
    let mut actor = lone_actor();
    actor.set_position(Vector2::new(s(100.0), s(200.0)));
    actor.set_rotation(s(0.5));
    let mut mover = MoveComponent::new(&mut actor, 10);
    mover.set_forward_speed(s(10.0));
    actor.set_component(Component::Move(mover));
    actor.update(s(0.5), &PlayField::screen(), &FloatMath, &Idle);
    let expected_x = 100.0 + 0.5f32.cos() * 10.0 * 0.5;
    let expected_y = 200.0 + 0.5f32.sin() * 10.0 * 0.5;
    assert_eq!(f(actor.get_position().x), expected_x);
    assert_eq!(f(actor.get_position().y), expected_y);
}

#[test]
fn update_turns_by_angular_speed_times_time() {
    let mut actor = lone_actor();
    actor.set_rotation(s(1.0));
    let mut mover = MoveComponent::new(&mut actor, 10);
    mover.set_angular_speed(s(2.0));
    actor.set_component(Component::Move(mover));
    actor.update(s(0.25), &PlayField::screen(), &FloatMath, &Idle);
    assert_eq!(f(actor.get_rotation()), 1.5);
    assert_eq!(actor.get_position(), Vector2::zero());
}

#[test]
fn update_turns_before_it_advances() {
    let mut actor = lone_actor();
    actor.set_position(Vector2::new(s(500.0), s(300.0)));
    let mut mover = MoveComponent::new(&mut actor, 10);
    mover.set_angular_speed(s(1.0));
    mover.set_forward_speed(s(10.0));
    actor.set_component(Component::Move(mover));
    actor.update(s(1.0), &PlayField::screen(), &FloatMath, &Idle);
    assert_eq!(f(actor.get_rotation()), 1.0);
    assert_eq!(f(actor.get_position().x), 500.0 + 1.0f32.cos() * 10.0 * 1.0);
    assert_eq!(f(actor.get_position().y), 300.0 + 1.0f32.sin() * 10.0 * 1.0);
}

#[test]
fn angular_speed_within_epsilon_never_turns() {
    for speed in [0.0f32, 0.0005, -0.0005, 0.001, -0.001] {
        for dt in [0.016f32, 1.0, 1000.0, 1.0e9] {
            let mut actor = lone_actor();
            actor.set_rotation(s(0.25));
            let mut mover = MoveComponent::new(&mut actor, 10);
            mover.set_angular_speed(s(speed));
            actor.set_component(Component::Move(mover));
            actor.update(s(dt), &PlayField::screen(), &FloatMath, &Idle);
            assert_eq!(actor.get_rotation(), s(0.25));
        }
    }
}

#[test]
fn angular_speed_just_beyond_epsilon_turns() {
    let mut actor = lone_actor();
    let mut mover = MoveComponent::new(&mut actor, 10);
    mover.set_angular_speed(s(0.002));
    actor.set_component(Component::Move(mover));
    actor.update(s(1000.0), &PlayField::screen(), &FloatMath, &Idle);
    assert_eq!(f(actor.get_rotation()), 0.002f32 * 1000.0);
}

#[test]
fn forward_speed_within_epsilon_never_moves_nor_wraps() {
    let mut actor = lone_actor();
    // Out of the field already: a resting actor is not wrapped either.
    actor.set_position(Vector2::new(s(2000.0), s(-50.0)));
    let mut mover = MoveComponent::new(&mut actor, 10);
    mover.set_forward_speed(s(0.001));
    actor.set_component(Component::Move(mover));
    actor.update(s(1.0e6), &PlayField::screen(), &FloatMath, &Idle);
    assert_eq!(actor.get_position(), Vector2::new(s(2000.0), s(-50.0)));
}

#[test]
fn a_resting_mover_leaves_the_cache_clean() {
    let mut actor = lone_actor();
    MoveComponent::new(&mut actor, 10);
    let ops = noting();
    actor.update(s(1.0), &PlayField::screen(), &ops, &Idle);
    // Computed once on entry; nothing moved, so not again on exit.
    assert_eq!(ops.cosines.get(), 1);
    actor.update(s(1.0), &PlayField::screen(), &ops, &Idle);
    assert_eq!(ops.cosines.get(), 1);
}

#[test]
fn a_moving_actor_has_a_fresh_world_transform_after_update() {
    let mut actor = lone_actor();
    actor.set_position(Vector2::new(s(10.0), s(20.0)));
    let mut mover = MoveComponent::new(&mut actor, 10);
    mover.set_forward_speed(s(5.0));
    actor.set_component(Component::Move(mover));
    actor.update(s(1.0), &PlayField::screen(), &FloatMath, &Idle);
    assert!(!actor.needs_world_transform());
    assert_eq!(floats(&actor.get_world_transform())[3], [15.0, 20.0, 0.0, 1.0]);
}

#[test]
fn position_past_the_upper_bound_wraps_to_just_inside_the_lower() {
    let mut actor = lone_actor();
    actor.set_position(Vector2::new(s(1023.0), s(300.0)));
    let mut mover = MoveComponent::new(&mut actor, 10);
    mover.set_forward_speed(s(150.0));
    actor.set_component(Component::Move(mover));
    actor.update(s(0.016), &PlayField::screen(), &FloatMath, &Idle);
    // 1023 + 2.4 is past 1024: back in at 0 + 2, not held at 1024.
    assert_eq!(f(actor.get_position().x), 2.0);
    assert_eq!(f(actor.get_position().y), 300.0);
}

#[test]
fn position_below_the_lower_bound_wraps_to_just_inside_the_upper() {
    let mut actor = lone_actor();
    actor.set_position(Vector2::new(s(300.0), s(1.0)));
    actor.set_rotation(s(-std::f32::consts::FRAC_PI_2));
    let mut mover = MoveComponent::new(&mut actor, 10);
    mover.set_forward_speed(s(100.0));
    actor.set_component(Component::Move(mover));
    actor.update(s(1.0), &PlayField::screen(), &FloatMath, &Idle);
    assert_eq!(f(actor.get_position().y), 766.0);
}

#[test]
fn wrap_uses_the_field_that_is_handed_in() {
    let mut actor = lone_actor();
    actor.set_position(Vector2::new(s(9.0), s(0.0)));
    let mut mover = MoveComponent::new(&mut actor, 10);
    mover.set_forward_speed(s(2.0));
    actor.set_component(Component::Move(mover));
    let field = PlayField::new(s(-10.0), s(10.0), s(-10.0), s(10.0), s(0.25));
    actor.update(s(1.0), &field, &FloatMath, &Idle);
    assert_eq!(f(actor.get_position().x), -9.75);
    assert_eq!(f(actor.get_position().y), 0.0);
}

#[test]
fn update_skips_an_actor_that_is_not_active() {
    for state in [State::Paused, State::Dead] {
        let mut actor = lone_actor();
        let mut mover = MoveComponent::new(&mut actor, 10);
        mover.set_forward_speed(s(150.0));
        mover.set_angular_speed(s(1.0));
        actor.set_component(Component::Move(mover));
        actor.set_state(state);
        let ops = noting();
        actor.update(s(1.0), &PlayField::screen(), &ops, &Idle);
        assert_eq!(actor.get_position(), Vector2::zero());
        assert_eq!(f(actor.get_rotation()), 0.0);
        assert!(actor.needs_world_transform());
        assert!(ops.judged.borrow().is_empty());
        assert_eq!(ops.cosines.get(), 0);
    }
}

/// A behaviour that pushes its actor along x and notes what it was handed.
struct Pusher {
    seen: RefCell<Vec<(u64, f32, f32)>>,
    keys: RefCell<Vec<(u64, Vec<u8>)>>,
}

impl Behavior for Pusher {
    fn update_actor(&self, actor: ActorId, pose: Pose, delta_time: Scalar) -> Pose {
        self.seen.borrow_mut().push((actor.0, f(pose.position.x), f(delta_time)));
        Pose { position: Vector2::new(s(f(pose.position.x) + 7.0), pose.position.y), ..pose }
    }

    fn actor_input(&self, actor: ActorId, key_state: &[u8]) {
        self.keys.borrow_mut().push((actor.0, key_state.to_vec()));
    }
}

#[test]
fn the_actors_own_behaviour_runs_after_its_components() {
    let mut actor = lone_actor();
    let mut mover = MoveComponent::new(&mut actor, 10);
    mover.set_forward_speed(s(150.0));
    actor.set_component(Component::Move(mover));
    let pusher = Pusher { seen: RefCell::new(Vec::new()), keys: RefCell::new(Vec::new()) };
    actor.update(s(1.0), &PlayField::screen(), &FloatMath, &pusher);
    // The behaviour saw the position that the mover had left.
    assert_eq!(*pusher.seen.borrow(), vec![(actor.get_id().0, 150.0, 1.0)]);
    assert_eq!(f(actor.get_position().x), 157.0);
    // What it did shows in the world transform.
    assert!(!actor.needs_world_transform());
    assert_eq!(floats(&actor.get_world_transform())[3][0], 157.0);
}

#[test]
fn process_input_sets_speeds_from_pressed_keys() {
    let mut actor = lone_actor();
    let mut input = InputComponent::new(&mut actor, 10);
    input.set_max_forward_speed(s(300.0));
    input.set_max_angular_speed(s(6.0));
    input.set_forward_key(26);
    input.set_back_key(22);
    input.set_clockwise_key(4);
    input.set_counter_clockwise_key(7);
    actor.set_component(Component::Input(input));
    let mut keys = vec![0u8; 64];
    keys[26] = 1;
    keys[7] = 1;
    actor.process_input(&keys, &FloatMath, &Idle);
    match actor.component(input.move_component.base.id).unwrap() {
        Component::Input(read) => {
            assert_eq!(f(read.move_component.get_forward_speed()), 300.0);
            assert_eq!(f(read.move_component.get_angular_speed()), -6.0);
        },
        _ => panic!("the component is an input component"),
    }
}

#[test]
fn opposite_keys_cancel_and_no_keys_rest() {
    let mut input = {
        let mut actor = lone_actor();
        InputComponent::new(&mut actor, 10)
    };
    input.set_max_forward_speed(s(300.0));
    input.set_max_angular_speed(s(6.0));
    input.set_forward_key(1);
    input.set_back_key(2);
    input.set_clockwise_key(3);
    input.set_counter_clockwise_key(4);
    input.process_input(&[0, 9, 9, 9, 9], &FloatMath);
    assert_eq!(f(input.move_component.get_forward_speed()), 0.0);
    assert_eq!(f(input.move_component.get_angular_speed()), 0.0);
    input.process_input(&[0, 0, 1, 1, 0], &FloatMath);
    assert_eq!(f(input.move_component.get_forward_speed()), -300.0);
    assert_eq!(f(input.move_component.get_angular_speed()), 6.0);
    input.process_input(&[0; 5], &FloatMath);
    assert_eq!(f(input.move_component.get_forward_speed()), 0.0);
    assert_eq!(f(input.move_component.get_angular_speed()), 0.0);
}

#[test]
fn a_key_beyond_the_snapshot_is_not_pressed() {
    let mut input = {
        let mut actor = lone_actor();
        InputComponent::new(&mut actor, 10)
    };
    input.set_max_forward_speed(s(300.0));
    input.set_forward_key(200);
    input.set_back_key(255);
    input.process_input(&[1, 1, 1], &FloatMath);
    assert_eq!(f(input.move_component.get_forward_speed()), 0.0);
    input.process_input(&[], &FloatMath);
    assert_eq!(f(input.move_component.get_forward_speed()), 0.0);
    assert!(!is_pressed(&[1, 1, 1], 3));
    assert!(is_pressed(&[1, 1, 1], 2));
    assert!(!is_pressed(&[1, 0, 1], 1));
    assert!(is_pressed(&[0, 0, 255], 2));
}

#[test]
fn process_input_skips_an_actor_that_is_not_active() {
    let mut actor = lone_actor();
    let mut input = InputComponent::new(&mut actor, 10);
    input.set_max_forward_speed(s(300.0));
    input.set_forward_key(0);
    actor.set_component(Component::Input(input));
    actor.set_state(State::Paused);
    let pusher = Pusher { seen: RefCell::new(Vec::new()), keys: RefCell::new(Vec::new()) };
    actor.process_input(&[1], &FloatMath, &pusher);
    assert_eq!(actor.component(input.move_component.base.id), Some(Component::Input(input)));
    assert!(pusher.keys.borrow().is_empty());
}

#[test]
fn process_input_hands_the_keys_to_the_actors_own_behaviour() {
    let mut actor = lone_actor();
    let pusher = Pusher { seen: RefCell::new(Vec::new()), keys: RefCell::new(Vec::new()) };
    actor.process_input(&[0, 1, 0], &FloatMath, &pusher);
    assert_eq!(*pusher.keys.borrow(), vec![(actor.get_id().0, vec![0u8, 1, 0])]);
}

#[test]
fn an_input_component_moves_with_the_speeds_it_read() {
    let mut actor = lone_actor();
    actor.set_position(Vector2::new(s(100.0), s(100.0)));
    let mut input = InputComponent::new(&mut actor, 10);
    input.set_max_forward_speed(s(50.0));
    input.set_forward_key(3);
    actor.set_component(Component::Input(input));
    actor.process_input(&[0, 0, 0, 1], &FloatMath, &Idle);
    actor.update(s(2.0), &PlayField::screen(), &FloatMath, &Idle);
    assert_eq!(f(actor.get_position().x), 200.0);
}

#[test]
fn input_component_keeps_what_is_set() {
    let mut actor = lone_actor();
    let mut input = InputComponent::new(&mut actor, 3);
    assert_eq!(input.get_update_order(), 3);
    assert_eq!(f(input.get_max_forward_speed()), 0.0);
    assert_eq!(f(input.get_max_angular_speed()), 0.0);
    assert_eq!(
        (
            input.get_forward_key(),
            input.get_back_key(),
            input.get_clockwise_key(),
            input.get_counter_clockwise_key()
        ),
        (0, 0, 0, 0)
    );
    input.set_max_forward_speed(s(1.5));
    input.set_max_angular_speed(s(2.5));
    input.set_forward_key(1);
    input.set_back_key(2);
    input.set_clockwise_key(3);
    input.set_counter_clockwise_key(4);
    assert_eq!(f(input.get_max_forward_speed()), 1.5);
    assert_eq!(f(input.get_max_angular_speed()), 2.5);
    assert_eq!(
        (
            input.get_forward_key(),
            input.get_back_key(),
            input.get_clockwise_key(),
            input.get_counter_clockwise_key()
        ),
        (1, 2, 3, 4)
    );
}

#[test]
fn move_component_starts_at_rest_and_keeps_what_is_set() {
    let mut actor = lone_actor();
    let mut mover = MoveComponent::new(&mut actor, 12);
    assert_eq!(mover.get_update_order(), 12);
    assert_eq!(f(mover.get_angular_speed()), 0.0);
    assert_eq!(f(mover.get_forward_speed()), 0.0);
    mover.set_angular_speed(s(1.25));
    mover.set_forward_speed(s(150.0));
    assert_eq!(f(mover.get_angular_speed()), 1.25);
    assert_eq!(f(mover.get_forward_speed()), 150.0);
    assert_eq!(mover.base.owner, actor.get_id());
}

#[test]
fn circle_radius_grows_with_the_owners_scale() {
    let mut actor = lone_actor();
    actor.set_position(Vector2::new(s(7.0), s(8.0)));
    let mut circle = CircleComponent::new(&mut actor);
    assert_eq!(circle.get_update_order(), 100);
    circle.set_radius(s(40.0));
    assert_eq!(f(circle.get_radius(&actor, &FloatMath)), 40.0);
    actor.set_scale(s(1.5));
    assert_eq!(f(circle.get_radius(&actor, &FloatMath)), 60.0);
    actor.set_rotation(s(2.0));
    assert_eq!(f(circle.get_radius(&actor, &FloatMath)), 60.0);
    assert_eq!(circle.get_center(&actor), Vector2::new(s(7.0), s(8.0)));
}

fn circle_at(x: f32, y: f32, radius: f32, scale: f32) -> (Actor, CircleComponent) {
    let mut actor = lone_actor();
    actor.set_position(Vector2::new(s(x), s(y)));
    actor.set_scale(s(scale));
    let mut circle = CircleComponent::new(&mut actor);
    circle.set_radius(s(radius));
    actor.set_component(Component::Circle(circle));
    (actor, circle)
}

#[test]
fn circles_three_apart_with_radius_one_do_not_meet() {
    let (owner_a, a) = circle_at(0.0, 0.0, 1.0, 1.0);
    let (owner_b, b) = circle_at(3.0, 0.0, 1.0, 1.0);
    assert!(!intersect(&a, &owner_a, &b, &owner_b, &FloatMath));
}

#[test]
fn circles_three_apart_with_radius_two_meet() {
    let (owner_a, a) = circle_at(0.0, 0.0, 2.0, 1.0);
    let (owner_b, b) = circle_at(3.0, 0.0, 2.0, 1.0);
    assert!(intersect(&a, &owner_a, &b, &owner_b, &FloatMath));
}

#[test]
fn circles_that_touch_meet() {
    let (owner_a, a) = circle_at(0.0, 0.0, 1.0, 1.0);
    let (owner_b, b) = circle_at(3.0, 0.0, 2.0, 1.0);
    assert!(intersect(&a, &owner_a, &b, &owner_b, &FloatMath));
    let (owner_c, c) = circle_at(3.0, 4.0, 2.5, 1.0);
    let (owner_d, d) = circle_at(0.0, 0.0, 2.5, 1.0);
    assert!(intersect(&c, &owner_c, &d, &owner_d, &FloatMath));
}

#[test]
fn intersect_gives_the_same_answer_both_ways() {
    let cases = [
        (0.0, 0.0, 1.0, 3.0, 0.0, 1.0),
        (0.0, 0.0, 2.0, 3.0, 0.0, 2.0),
        (0.0, 0.0, 1.0, 3.0, 0.0, 2.0),
        (-5.5, 2.25, 0.75, 1.5, -3.0, 7.0),
        (10.0, 10.0, 0.0, 10.0, 10.0, 0.0),
        (1.0e3, -1.0e3, 12.5, 990.0, -1010.0, 1.5),
    ];
    for (ax, ay, ar, bx, by, br) in cases {
        let (owner_a, a) = circle_at(ax, ay, ar, 1.0);
        let (owner_b, b) = circle_at(bx, by, br, 1.0);
        assert_eq!(
            intersect(&a, &owner_a, &b, &owner_b, &FloatMath),
            intersect(&b, &owner_b, &a, &owner_a, &FloatMath)
        );
    }
}

#[test]
fn intersect_counts_the_owners_scale() {
    let (owner_a, a) = circle_at(0.0, 0.0, 1.0, 1.0);
    let (mut owner_b, b) = circle_at(3.0, 0.0, 1.0, 1.0);
    assert!(!intersect(&a, &owner_a, &b, &owner_b, &FloatMath));
    owner_b.set_scale(s(2.0));
    assert!(intersect(&a, &owner_a, &b, &owner_b, &FloatMath));
    owner_b.set_rotation(s(1.0));
    assert!(intersect(&a, &owner_a, &b, &owner_b, &FloatMath));
}

#[test]
fn base_component_knows_its_update_order() {
    let mut actor = lone_actor();
    let base = BaseComponent::new(&mut actor, -3);
    assert_eq!(base.get_update_order(), -3);
    assert_eq!(base.owner, actor.get_id());
    assert_eq!(Component::Base(base).get_update_order(), -3);
    assert_eq!(Component::Base(base).get_base(), base);
}

#[test]
fn components_other_than_movers_leave_the_owner_alone() {
    let mut actor = lone_actor();
    actor.set_position(Vector2::new(s(1.0), s(2.0)));
    BaseComponent::new(&mut actor, 1);
    CircleComponent::new(&mut actor);
    let ops = noting();
    actor.update(s(1.0), &PlayField::screen(), &ops, &Idle);
    assert_eq!(actor.get_position(), Vector2::new(s(1.0), s(2.0)));
    assert!(ops.judged.borrow().is_empty());
}

#[test]
fn the_transform_hook_changes_no_component() {
    let mut actor = lone_actor();
    let circle = CircleComponent::new(&mut actor);
    let mut c = Component::Circle(circle);
    c.on_update_world_transform();
    assert_eq!(c, Component::Circle(circle));
    actor.compute_world_transform(&FloatMath);
    assert_eq!(actor.component(circle.base.id), Some(Component::Circle(circle)));
}

#[test]
fn an_actor_can_take_a_component_while_identities_are_left() {
    let mut actor = lone_actor();
    assert!(actor.can_attach());
    BaseComponent::new(&mut actor, 0);
    assert!(actor.can_attach());
}
