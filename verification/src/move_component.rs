//! Motion: turning and advancing an actor by its speeds, within a play field
//! whose far side is reached by leaving through the near one.

use vstd::prelude::*;
use crate::actor::forward_is;
use crate::actor::Actor;
use crate::actor::ActorId;
use crate::actor::ActorView;
use crate::actor::Pose;
use crate::component::BaseComponent;
use crate::component::Component;
use crate::component::ComponentId;
use crate::math::difference_is;
use crate::math::less_is;
use crate::math::near_zero;
use crate::math::near_zero_is;
use crate::math::product_is;
use crate::math::sum_is;
use crate::math::Arithmetic;
use crate::math::Scalar;
use crate::vector::Vector2;

verus! {

/// Bit pattern of 0.001, the magnitude up to which a speed counts as zero.
pub const EPSILON_BITS: u32 = 0x3A83_126F;

/// Bit pattern of 1024, the width of the default play field.
pub const SCREEN_WIDTH_BITS: u32 = 0x4480_0000;

/// Bit pattern of 768, the height of the default play field.
pub const SCREEN_HEIGHT_BITS: u32 = 0x4440_0000;

/// Bit pattern of 2, the default distance from a bound at which a wrapped
/// coordinate comes back in.
pub const SCREEN_WRAP_OFFSET_BITS: u32 = 0x4000_0000;

/// The bounds of the play field, and how far inside the opposite bound a
/// coordinate comes back in once it has left.
#[derive(Clone, Copy, PartialEq, Eq, Structural, Debug)]
pub struct PlayField {
    pub min_x: Scalar,
    pub max_x: Scalar,
    pub min_y: Scalar,
    pub max_y: Scalar,
    pub wrap_offset: Scalar,
}

impl PlayField {
    /// The field of a screen 1024 wide and 768 high, wrapping 2 inside.
    pub open spec fn spec_screen() -> PlayField {
        PlayField {
            min_x: Scalar::spec_zero(),
            max_x: Scalar { bits: SCREEN_WIDTH_BITS },
            min_y: Scalar::spec_zero(),
            max_y: Scalar { bits: SCREEN_HEIGHT_BITS },
            wrap_offset: Scalar { bits: SCREEN_WRAP_OFFSET_BITS },
        }
    }

    /// `out` is an answer of `ops` for the coordinate `v` wrapped into
    /// `min..max`: `max - offset` where `v < min`, else `min + offset` where
    /// `max < v`, else `v` itself.
    pub open spec fn wrapped_coordinate_is<A: Arithmetic>(
        ops: &A,
        min: Scalar,
        max: Scalar,
        offset: Scalar,
        v: Scalar,
        out: Scalar,
    ) -> bool {
        exists|below: bool| #[trigger]
            less_is(ops, v, min, below) && if below {
                difference_is(ops, max, offset, out)
            } else {
                exists|above: bool| #[trigger]
                    less_is(ops, max, v, above) && if above {
                        sum_is(ops, min, offset, out)
                    } else {
                        out == v
                    }
            }
    }

    /// `out` is an answer of `ops` for the point `p` wrapped into the field,
    /// each coordinate by itself.
    pub open spec fn wrapped_is<A: Arithmetic>(self, ops: &A, p: Vector2, out: Vector2) -> bool {
        &&& PlayField::wrapped_coordinate_is(ops, self.min_x, self.max_x, self.wrap_offset, p.x, out.x)
        &&& PlayField::wrapped_coordinate_is(ops, self.min_y, self.max_y, self.wrap_offset, p.y, out.y)
    }

    pub fn new(
        min_x: Scalar,
        max_x: Scalar,
        min_y: Scalar,
        max_y: Scalar,
        wrap_offset: Scalar,
    ) -> (field: PlayField)
        ensures
            field == (PlayField { min_x, max_x, min_y, max_y, wrap_offset }),
    {
        PlayField { min_x, max_x, min_y, max_y, wrap_offset }
    }

    /// The field of a screen 1024 wide and 768 high, wrapping 2 inside.
    #[verifier::when_used_as_spec(spec_screen)]
    pub fn screen() -> (field: PlayField)
        ensures
            field == PlayField::spec_screen(),
    {
        PlayField {
            min_x: Scalar::zero(),
            max_x: Scalar::from_bits(SCREEN_WIDTH_BITS),
            min_y: Scalar::zero(),
            max_y: Scalar::from_bits(SCREEN_HEIGHT_BITS),
            wrap_offset: Scalar::from_bits(SCREEN_WRAP_OFFSET_BITS),
        }
    }

    /// Wraps one coordinate: a value below `min` comes back in at
    /// `max - offset`, one above `max` at `min + offset`.
    pub fn wrap_coordinate<A: Arithmetic>(
        min: Scalar,
        max: Scalar,
        offset: Scalar,
        v: Scalar,
        ops: &A,
    ) -> (out: Scalar)
        ensures
            PlayField::wrapped_coordinate_is(ops, min, max, offset, v, out),
    {
        let below = ops.less(v, min);
        assert(less_is(ops, v, min, below));
        if below {
            ops.difference(max, offset)
        } else {
            let above = ops.less(max, v);
            assert(less_is(ops, max, v, above));
            if above {
                ops.sum(min, offset)
            } else {
                v
            }
        }
    }

    /// Wraps a point into the field, each coordinate by itself.
    pub fn wrap<A: Arithmetic>(&self, p: Vector2, ops: &A) -> (out: Vector2)
        ensures
            self.wrapped_is(ops, p, out),
    {
        let x = PlayField::wrap_coordinate(self.min_x, self.max_x, self.wrap_offset, p.x, ops);
        let y = PlayField::wrap_coordinate(self.min_y, self.max_y, self.wrap_offset, p.y, ops);
        Vector2::new(x, y)
    }
}

/// Angular speed in radians per second and forward speed in units per second.
#[derive(Clone, Copy, PartialEq, Eq, Structural, Debug)]
pub struct MoveComponent {
    pub base: BaseComponent,
    pub angular_speed: Scalar,
    pub forward_speed: Scalar,
}

impl MoveComponent {
    /// The magnitude up to which a speed counts as zero.
    pub open spec fn epsilon() -> Scalar {
        Scalar { bits: EPSILON_BITS }
    }

    /// `out` is an answer of `ops` for `rotation + angular_speed * dt`.
    pub open spec fn turned_is<A: Arithmetic>(
        ops: &A,
        rotation: Scalar,
        angular_speed: Scalar,
        dt: Scalar,
        out: Scalar,
    ) -> bool {
        exists|step: Scalar| #[trigger]
            product_is(ops, angular_speed, dt, step) && sum_is(ops, rotation, step, out)
    }

    /// `out` is an answer of `ops` for `position + forward(rotation) *
    /// forward_speed * dt`, wrapped into `field`.
    pub open spec fn advanced_is<A: Arithmetic>(
        ops: &A,
        field: PlayField,
        pose: Pose,
        forward_speed: Scalar,
        dt: Scalar,
        out: Vector2,
    ) -> bool {
        exists|forward: Vector2, at_speed: Vector2, step: Vector2, free: Vector2|
            #![trigger
                Vector2::scaled_is(ops, forward, forward_speed, at_speed),
                Vector2::scaled_is(ops, at_speed, dt, step),
                field.wrapped_is(ops, free, out)]
            {
                &&& forward_is(ops, pose.rotation, forward)
                &&& Vector2::scaled_is(ops, forward, forward_speed, at_speed)
                &&& Vector2::scaled_is(ops, at_speed, dt, step)
                &&& Vector2::plus_is(ops, pose.position, step, free)
                &&& field.wrapped_is(ops, free, out)
            }
    }

    /// The first half of an update: where `ops` finds the angular speed
    /// within epsilon of zero, nothing changes; else the rotation is set to
    /// `rotation + angular_speed * dt`.
    pub open spec fn turn_done<A: Arithmetic>(
        self,
        ops: &A,
        dt: Scalar,
        before: ActorView,
        after: ActorView,
    ) -> bool {
        exists|still: bool| #[trigger]
            near_zero_is(ops, self.angular_speed, MoveComponent::epsilon(), still) && if still {
                after == before
            } else {
                exists|rotation: Scalar| #[trigger]
                    MoveComponent::turned_is(ops, before.pose.rotation, self.angular_speed, dt, rotation)
                        && after == before.with_rotation(rotation)
            }
    }

    /// The second half of an update: where `ops` finds the forward speed
    /// within epsilon of zero, nothing changes; else the position is set to
    /// the wrapped `position + forward(rotation) * forward_speed * dt`.
    pub open spec fn advance_done<A: Arithmetic>(
        self,
        ops: &A,
        field: PlayField,
        dt: Scalar,
        before: ActorView,
        after: ActorView,
    ) -> bool {
        exists|halted: bool| #[trigger]
            near_zero_is(ops, self.forward_speed, MoveComponent::epsilon(), halted) && if halted {
                after == before
            } else {
                exists|position: Vector2| #[trigger]
                    MoveComponent::advanced_is(ops, field, before.pose, self.forward_speed, dt, position)
                        && after == before.with_position(position)
            }
    }

    /// `after` is the owner `before` once this component updated it over the
    /// time `dt`: turned first, then advanced along the new heading.
    pub open spec fn moved<A: Arithmetic>(
        self,
        ops: &A,
        field: PlayField,
        dt: Scalar,
        before: ActorView,
        after: ActorView,
    ) -> bool {
        exists|turned: ActorView| #[trigger]
            self.turn_done(ops, dt, before, turned) && self.advance_done(ops, field, dt, turned, after)
    }

    /// Creates a move component at rest and attaches it to `owner`.
    pub fn new(owner: &mut Actor, update_order: i32) -> (c: MoveComponent)
        requires
            old(owner).wf(),
            old(owner).can_attach(),
        ensures
            c == (MoveComponent {
                base: old(owner)@.next_base(update_order),
                angular_speed: Scalar::spec_zero(),
                forward_speed: Scalar::spec_zero(),
            }),
            final(owner)@ == old(owner)@.with_component(Component::Move(c)),
            final(owner).wf(),
    {
        let unattached = MoveComponent {
            base: BaseComponent { id: ComponentId(0), owner: ActorId(0), update_order },
            angular_speed: Scalar::zero(),
            forward_speed: Scalar::zero(),
        };
        let id = owner.add_component(Component::Move(unattached));
        MoveComponent {
            base: BaseComponent { id, owner: owner.get_id(), update_order },
            angular_speed: Scalar::zero(),
            forward_speed: Scalar::zero(),
        }
    }

    pub fn get_angular_speed(&self) -> (speed: Scalar)
        ensures
            speed == self.angular_speed,
    {
        self.angular_speed
    }

    pub fn get_forward_speed(&self) -> (speed: Scalar)
        ensures
            speed == self.forward_speed,
    {
        self.forward_speed
    }

    pub fn set_angular_speed(&mut self, speed: Scalar)
        ensures
            *final(self) == (MoveComponent { angular_speed: speed, ..*old(self) }),
    {
        self.angular_speed = speed;
    }

    pub fn set_forward_speed(&mut self, speed: Scalar)
        ensures
            *final(self) == (MoveComponent { forward_speed: speed, ..*old(self) }),
    {
        self.forward_speed = speed;
    }

    pub fn get_update_order(&self) -> (order: i32)
        ensures
            order == self.base.update_order,
    {
        self.base.update_order
    }

    /// Turns the owner by `angular_speed * delta_time`, unless the angular
    /// speed is within epsilon of zero.
    fn turn<A: Arithmetic>(&self, owner: &mut Actor, delta_time: Scalar, ops: &A)
        ensures
            self.turn_done(ops, delta_time, old(owner)@, final(owner)@),
    {
        let still = near_zero(self.angular_speed, Scalar::from_bits(EPSILON_BITS), ops);
        if !still {
            let step = ops.product(self.angular_speed, delta_time);
            let rotation = ops.sum(owner.get_rotation(), step);
            assert(product_is(ops, self.angular_speed, delta_time, step));
            assert(MoveComponent::turned_is(
                ops,
                old(owner)@.pose.rotation,
                self.angular_speed,
                delta_time,
                rotation,
            ));
            owner.set_rotation(rotation);
        }
        assert(near_zero_is(ops, self.angular_speed, MoveComponent::epsilon(), still));
    }

    /// Advances the owner along its heading by `forward_speed * delta_time`
    /// and wraps it into `field`, unless the forward speed is within epsilon
    /// of zero.
    fn advance<A: Arithmetic>(&self, owner: &mut Actor, delta_time: Scalar, field: &PlayField, ops: &A)
        ensures
            self.advance_done(ops, *field, delta_time, old(owner)@, final(owner)@),
    {
        let halted = near_zero(self.forward_speed, Scalar::from_bits(EPSILON_BITS), ops);
        if !halted {
            let forward = owner.get_forward(ops);
            let at_speed = Vector2::scaled(forward, self.forward_speed, ops);
            let step = Vector2::scaled(at_speed, delta_time, ops);
            let free = Vector2::plus(owner.get_position(), step, ops);
            let position = field.wrap(free, ops);
            assert(MoveComponent::advanced_is(
                ops,
                *field,
                old(owner)@.pose,
                self.forward_speed,
                delta_time,
                position,
            ));
            owner.set_position(position);
        }
        assert(near_zero_is(ops, self.forward_speed, MoveComponent::epsilon(), halted));
    }

    /// Moves the owner over the time `delta_time`: turns it, then advances
    /// it along the new heading and wraps it into `field`. A speed within
    /// epsilon of zero leaves its part of the pose untouched and unmarked.
    pub fn update<A: Arithmetic>(&self, owner: &mut Actor, delta_time: Scalar, field: &PlayField, ops: &A)
        ensures
            self.moved(ops, *field, delta_time, old(owner)@, final(owner)@),
    {
        self.turn(owner, delta_time, ops);
        self.advance(owner, delta_time, field, ops);
    }
}

/// A coordinate that `ops` finds beyond the upper bound, and not below the
/// lower one, comes back in at `min + offset`: just inside the lower bound,
/// not held at the upper one.
pub proof fn lemma_wrapped_from_above<A: Arithmetic>(
    ops: &A,
    min: Scalar,
    max: Scalar,
    offset: Scalar,
    v: Scalar,
    out: Scalar,
)
    requires
        PlayField::wrapped_coordinate_is(ops, min, max, offset, v, out),
        forall|answer: bool| less_is(ops, v, min, answer) ==> !answer,
        forall|answer: bool| less_is(ops, max, v, answer) ==> answer,
    ensures
        sum_is(ops, min, offset, out),
{
}

/// A coordinate that `ops` finds below the lower bound comes back in at
/// `max - offset`: just inside the upper bound.
pub proof fn lemma_wrapped_from_below<A: Arithmetic>(
    ops: &A,
    min: Scalar,
    max: Scalar,
    offset: Scalar,
    v: Scalar,
    out: Scalar,
)
    requires
        PlayField::wrapped_coordinate_is(ops, min, max, offset, v, out),
        forall|answer: bool| less_is(ops, v, min, answer) ==> answer,
    ensures
        difference_is(ops, max, offset, out),
{
}

/// A coordinate that `ops` finds neither below the lower bound nor beyond
/// the upper one stays as it is.
pub proof fn lemma_wrapped_within<A: Arithmetic>(
    ops: &A,
    min: Scalar,
    max: Scalar,
    offset: Scalar,
    v: Scalar,
    out: Scalar,
)
    requires
        PlayField::wrapped_coordinate_is(ops, min, max, offset, v, out),
        forall|answer: bool| less_is(ops, v, min, answer) ==> !answer,
        forall|answer: bool| less_is(ops, max, v, answer) ==> !answer,
    ensures
        out == v,
{
}

/// An angular speed that `ops` always finds within epsilon of zero causes no
/// change of rotation, whatever the time step.
pub proof fn lemma_still_keeps_rotation<A: Arithmetic>(
    m: MoveComponent,
    ops: &A,
    field: PlayField,
    dt: Scalar,
    before: ActorView,
    after: ActorView,
)
    requires
        m.moved(ops, field, dt, before, after),
        forall|answer: bool|
            near_zero_is(ops, m.angular_speed, MoveComponent::epsilon(), answer) ==> answer,
    ensures
        after.pose.rotation == before.pose.rotation,
{
    let turned = choose|turned: ActorView| #[trigger]
        m.turn_done(ops, dt, before, turned) && m.advance_done(ops, field, dt, turned, after);
}

/// A forward speed that `ops` always finds within epsilon of zero causes no
/// change of position, whatever the time step.
pub proof fn lemma_halted_keeps_position<A: Arithmetic>(
    m: MoveComponent,
    ops: &A,
    field: PlayField,
    dt: Scalar,
    before: ActorView,
    after: ActorView,
)
    requires
        m.moved(ops, field, dt, before, after),
        forall|answer: bool|
            near_zero_is(ops, m.forward_speed, MoveComponent::epsilon(), answer) ==> answer,
    ensures
        after.pose.position == before.pose.position,
{
    let turned = choose|turned: ActorView| #[trigger]
        m.turn_done(ops, dt, before, turned) && m.advance_done(ops, field, dt, turned, after);
}

} // verus!
