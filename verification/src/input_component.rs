//! Motion driven by keys.

use vstd::prelude::*;
use crate::actor::Actor;
use crate::actor::ActorId;
use crate::component::BaseComponent;
use crate::component::Component;
use crate::component::ComponentId;
use crate::math::difference_is;
use crate::math::sum_is;
use crate::math::Arithmetic;
use crate::math::Scalar;
use crate::move_component::MoveComponent;
use crate::move_component::PlayField;

verus! {

/// A move component whose speeds are set from four keys: each frame the
/// forward speed becomes the sum of `+max_forward_speed` for the forward key
/// and `-max_forward_speed` for the back key, as far as they are pressed,
/// and the angular speed likewise from the two turning keys.
#[derive(Clone, Copy, PartialEq, Eq, Structural, Debug)]
pub struct InputComponent {
    pub move_component: MoveComponent,
    pub max_forward_speed: Scalar,
    pub max_angular_speed: Scalar,
    pub forward_key: u8,
    pub back_key: u8,
    pub clockwise_key: u8,
    pub counter_clockwise_key: u8,
}

/// Whether `key_state` shows the key with code `key` as pressed. A code
/// beyond the snapshot is not pressed.
pub open spec fn pressed(key_state: Seq<u8>, key: u8) -> bool {
    key < key_state.len() && key_state[key as int] != 0
}

/// Whether `key_state` shows the key with code `key` as pressed.
pub fn is_pressed(key_state: &[u8], key: u8) -> (down: bool)
    ensures
        down == pressed(key_state@, key),
{
    let index = key as usize;
    index < key_state.len() && key_state[index] != 0
}

/// `out` is an answer of `ops` for the speed along one axis: from zero,
/// `+ max` where the `plus` key is pressed, then `- max` where the `minus`
/// key is.
pub open spec fn axis_speed_is<A: Arithmetic>(
    ops: &A,
    plus: bool,
    minus: bool,
    max: Scalar,
    out: Scalar,
) -> bool {
    exists|raised: Scalar| #[trigger]
        raised_is(ops, plus, max, raised) && if minus {
            difference_is(ops, raised, max, out)
        } else {
            out == raised
        }
}

/// `raised` is an answer of `ops` for `0 + max` where `plus`, else zero.
pub open spec fn raised_is<A: Arithmetic>(ops: &A, plus: bool, max: Scalar, raised: Scalar) -> bool {
    if plus {
        sum_is(ops, Scalar::spec_zero(), max, raised)
    } else {
        raised == Scalar::spec_zero()
    }
}

/// The speed along one axis from its two keys.
pub fn axis_speed<A: Arithmetic>(plus: bool, minus: bool, max: Scalar, ops: &A) -> (speed: Scalar)
    ensures
        axis_speed_is(ops, plus, minus, max, speed),
{
    let mut speed = Scalar::zero();
    if plus {
        speed = ops.sum(speed, max);
    }
    let ghost raised = speed;
    if minus {
        speed = ops.difference(speed, max);
    }
    assert(raised_is(ops, plus, max, raised));
    speed
}

impl InputComponent {
    /// `after` is `before` once it read `key_state`: both speeds of its move
    /// component are set from the keys, nothing else changes.
    pub open spec fn input_applied<A: Arithmetic>(
        ops: &A,
        key_state: Seq<u8>,
        before: InputComponent,
        after: InputComponent,
    ) -> bool {
        &&& axis_speed_is(
            ops,
            pressed(key_state, before.forward_key),
            pressed(key_state, before.back_key),
            before.max_forward_speed,
            after.move_component.forward_speed,
        )
        &&& axis_speed_is(
            ops,
            pressed(key_state, before.clockwise_key),
            pressed(key_state, before.counter_clockwise_key),
            before.max_angular_speed,
            after.move_component.angular_speed,
        )
        &&& after == (InputComponent {
            move_component: MoveComponent {
                forward_speed: after.move_component.forward_speed,
                angular_speed: after.move_component.angular_speed,
                ..before.move_component
            },
            ..before
        })
    }

    /// Creates an input component at rest, with all maximal speeds zero and
    /// all keys bound to code 0, and attaches it to `owner`.
    pub fn new(owner: &mut Actor, update_order: i32) -> (c: InputComponent)
        requires
            old(owner).wf(),
            old(owner).can_attach(),
        ensures
            c == (InputComponent {
                move_component: MoveComponent {
                    base: old(owner)@.next_base(update_order),
                    angular_speed: Scalar::spec_zero(),
                    forward_speed: Scalar::spec_zero(),
                },
                max_forward_speed: Scalar::spec_zero(),
                max_angular_speed: Scalar::spec_zero(),
                forward_key: 0,
                back_key: 0,
                clockwise_key: 0,
                counter_clockwise_key: 0,
            }),
            final(owner)@ == old(owner)@.with_component(Component::Input(c)),
            final(owner).wf(),
    {
        let unattached = InputComponent {
            move_component: MoveComponent {
                base: BaseComponent { id: ComponentId(0), owner: ActorId(0), update_order },
                angular_speed: Scalar::zero(),
                forward_speed: Scalar::zero(),
            },
            max_forward_speed: Scalar::zero(),
            max_angular_speed: Scalar::zero(),
            forward_key: 0,
            back_key: 0,
            clockwise_key: 0,
            counter_clockwise_key: 0,
        };
        let id = owner.add_component(Component::Input(unattached));
        InputComponent {
            move_component: MoveComponent {
                base: BaseComponent { id, owner: owner.get_id(), update_order },
                angular_speed: Scalar::zero(),
                forward_speed: Scalar::zero(),
            },
            max_forward_speed: Scalar::zero(),
            max_angular_speed: Scalar::zero(),
            forward_key: 0,
            back_key: 0,
            clockwise_key: 0,
            counter_clockwise_key: 0,
        }
    }

    /// Sets the speeds of the move component from the keys that `key_state`
    /// shows as pressed.
    pub fn process_input<A: Arithmetic>(&mut self, key_state: &[u8], ops: &A)
        ensures
            InputComponent::input_applied(ops, key_state@, *old(self), *final(self)),
    {
        let forward_speed = axis_speed(
            is_pressed(key_state, self.forward_key),
            is_pressed(key_state, self.back_key),
            self.max_forward_speed,
            ops,
        );
        self.move_component.set_forward_speed(forward_speed);
        let angular_speed = axis_speed(
            is_pressed(key_state, self.clockwise_key),
            is_pressed(key_state, self.counter_clockwise_key),
            self.max_angular_speed,
            ops,
        );
        self.move_component.set_angular_speed(angular_speed);
    }

    /// Moves the owner as the move component says.
    pub fn update<A: Arithmetic>(&self, owner: &mut Actor, delta_time: Scalar, field: &PlayField, ops: &A)
        ensures
            self.move_component.moved(ops, *field, delta_time, old(owner)@, final(owner)@),
    {
        self.move_component.update(owner, delta_time, field, ops);
    }

    pub fn get_update_order(&self) -> (order: i32)
        ensures
            order == self.move_component.base.update_order,
    {
        self.move_component.get_update_order()
    }

    pub fn get_max_forward_speed(&self) -> (speed: Scalar)
        ensures
            speed == self.max_forward_speed,
    {
        self.max_forward_speed
    }

    pub fn get_max_angular_speed(&self) -> (speed: Scalar)
        ensures
            speed == self.max_angular_speed,
    {
        self.max_angular_speed
    }

    pub fn get_forward_key(&self) -> (key: u8)
        ensures
            key == self.forward_key,
    {
        self.forward_key
    }

    pub fn get_back_key(&self) -> (key: u8)
        ensures
            key == self.back_key,
    {
        self.back_key
    }

    pub fn get_clockwise_key(&self) -> (key: u8)
        ensures
            key == self.clockwise_key,
    {
        self.clockwise_key
    }

    pub fn get_counter_clockwise_key(&self) -> (key: u8)
        ensures
            key == self.counter_clockwise_key,
    {
        self.counter_clockwise_key
    }

    pub fn set_max_forward_speed(&mut self, speed: Scalar)
        ensures
            *final(self) == (InputComponent { max_forward_speed: speed, ..*old(self) }),
    {
        self.max_forward_speed = speed;
    }

    pub fn set_max_angular_speed(&mut self, speed: Scalar)
        ensures
            *final(self) == (InputComponent { max_angular_speed: speed, ..*old(self) }),
    {
        self.max_angular_speed = speed;
    }

    pub fn set_forward_key(&mut self, key: u8)
        ensures
            *final(self) == (InputComponent { forward_key: key, ..*old(self) }),
    {
        self.forward_key = key;
    }

    pub fn set_back_key(&mut self, key: u8)
        ensures
            *final(self) == (InputComponent { back_key: key, ..*old(self) }),
    {
        self.back_key = key;
    }

    pub fn set_clockwise_key(&mut self, key: u8)
        ensures
            *final(self) == (InputComponent { clockwise_key: key, ..*old(self) }),
    {
        self.clockwise_key = key;
    }

    pub fn set_counter_clockwise_key(&mut self, key: u8)
        ensures
            *final(self) == (InputComponent { counter_clockwise_key: key, ..*old(self) }),
    {
        self.counter_clockwise_key = key;
    }
}

} // verus!
