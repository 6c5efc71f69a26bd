//! Components: the units of per-frame behaviour that an actor owns.

use vstd::prelude::*;
use crate::actor::Actor;
use crate::actor::ActorId;
use crate::actor::ActorView;
use crate::circle_component::CircleComponent;
use crate::input_component::InputComponent;
use crate::math::Arithmetic;
use crate::math::Scalar;
use crate::move_component::MoveComponent;
use crate::move_component::PlayField;
use crate::ordered::Identified;
use crate::ordered::Ordered;

verus! {

/// The identity of a component within the actor that owns it.
#[derive(Clone, Copy, PartialEq, Eq, Structural, Debug)]
pub struct ComponentId(pub u64);

/// What every component carries: its identity, its owner, and the key by
/// which the owner orders its updates (lower first).
#[derive(Clone, Copy, PartialEq, Eq, Structural, Debug)]
pub struct BaseComponent {
    pub id: ComponentId,
    pub owner: ActorId,
    pub update_order: i32,
}

/// The closed set of component kinds.
#[derive(Clone, Copy, PartialEq, Eq, Structural, Debug)]
pub enum Component {
    Base(BaseComponent),
    Circle(CircleComponent),
    Move(MoveComponent),
    Input(InputComponent),
}

impl Component {
    /// The part shared by all kinds.
    pub open spec fn base(self) -> BaseComponent {
        match self {
            Component::Base(b) => b,
            Component::Circle(c) => c.base,
            Component::Move(m) => m.base,
            Component::Input(i) => i.move_component.base,
        }
    }

    /// The same component under another identity and owner.
    pub open spec fn attached(self, id: ComponentId, owner: ActorId) -> Component {
        self.rebased(BaseComponent { id, owner, update_order: self.base().update_order })
    }

    /// The same component with its shared part replaced.
    pub open spec fn rebased(self, base: BaseComponent) -> Component {
        match self {
            Component::Base(_) => Component::Base(base),
            Component::Circle(c) => Component::Circle(CircleComponent { base, ..c }),
            Component::Move(m) => Component::Move(MoveComponent { base, ..m }),
            Component::Input(i) => Component::Input(
                InputComponent { move_component: MoveComponent { base, ..i.move_component }, ..i },
            ),
        }
    }

    /// `after` is the owner `before` once this component updated it over
    /// the time `dt`: moved by a move or an input component, untouched by
    /// the other kinds.
    pub open spec fn updated<A: Arithmetic>(
        self,
        ops: &A,
        field: PlayField,
        dt: Scalar,
        before: ActorView,
        after: ActorView,
    ) -> bool {
        match self {
            Component::Base(_) => after == before,
            Component::Circle(_) => after == before,
            Component::Move(m) => m.moved(ops, field, dt, before, after),
            Component::Input(i) => i.move_component.moved(ops, field, dt, before, after),
        }
    }

    /// `after` is the component `before` once it read `key_state`: an input
    /// component has set its speeds from the keys, the other kinds are
    /// untouched.
    pub open spec fn input_applied<A: Arithmetic>(
        ops: &A,
        key_state: Seq<u8>,
        before: Component,
        after: Component,
    ) -> bool {
        match before {
            Component::Input(i) => after is Input && InputComponent::input_applied(
                ops,
                key_state,
                i,
                after->Input_0,
            ),
            _ => after == before,
        }
    }

    pub fn get_base(&self) -> (b: BaseComponent)
        ensures
            b == self.base(),
    {
        match self {
            Component::Base(b) => *b,
            Component::Circle(c) => c.base,
            Component::Move(m) => m.base,
            Component::Input(i) => i.move_component.base,
        }
    }

    pub fn get_update_order(&self) -> (order: i32)
        ensures
            order == self.base().update_order,
    {
        self.get_base().update_order
    }

    /// This component with `base` in place of its shared part.
    pub fn with_base(self, base: BaseComponent) -> (c: Component)
        ensures
            c == self.rebased(base),
    {
        match self {
            Component::Base(_) => Component::Base(base),
            Component::Circle(c) => Component::Circle(CircleComponent { base, radius: c.radius }),
            Component::Move(m) => Component::Move(
                MoveComponent {
                    base,
                    angular_speed: m.angular_speed,
                    forward_speed: m.forward_speed,
                },
            ),
            Component::Input(i) => Component::Input(
                InputComponent {
                    move_component: MoveComponent {
                        base,
                        angular_speed: i.move_component.angular_speed,
                        forward_speed: i.move_component.forward_speed,
                    },
                    max_forward_speed: i.max_forward_speed,
                    max_angular_speed: i.max_angular_speed,
                    forward_key: i.forward_key,
                    back_key: i.back_key,
                    clockwise_key: i.clockwise_key,
                    counter_clockwise_key: i.counter_clockwise_key,
                },
            ),
        }
    }

    /// Updates the owner over the time `delta_time`, as the kind says.
    pub fn update<A: Arithmetic>(&self, owner: &mut Actor, delta_time: Scalar, field: &PlayField, ops: &A)
        requires
            old(owner).wf(),
        ensures
            self.updated(ops, *field, delta_time, old(owner)@, final(owner)@),
            final(owner)@.components == old(owner)@.components,
            final(owner).wf(),
    {
        match self {
            Component::Base(_) => {},
            Component::Circle(_) => {},
            Component::Move(m) => {
                m.update(owner, delta_time, field, ops);
            },
            Component::Input(i) => {
                i.update(owner, delta_time, field, ops);
            },
        }
    }

    /// Reads the keys that `key_state` shows as pressed, as the kind says.
    pub fn process_input<A: Arithmetic>(&mut self, key_state: &[u8], ops: &A)
        ensures
            Component::input_applied(ops, key_state@, *old(self), *final(self)),
            final(self).base() == old(self).base(),
    {
        match self {
            Component::Input(i) => {
                i.process_input(key_state, ops);
            },
            _ => {},
        }
    }

    /// Told that the owner's world transform was recomputed. No kind caches
    /// anything derived from it, so nothing changes.
    pub fn on_update_world_transform(&mut self)
        ensures
            *final(self) == *old(self),
    {
    }
}

/// Components are ordered by update order; the serial number is the number
/// of the identity.
impl Identified for Component {
    open spec fn serial(&self) -> u64 {
        self.base().id.0
    }

    fn get_serial(&self) -> (serial: u64) {
        self.get_base().id.0
    }
}

impl Ordered for Component {
    open spec fn key(&self) -> i32 {
        self.base().update_order
    }

    fn get_key(&self) -> (key: i32) {
        self.get_base().update_order
    }
}

impl BaseComponent {
    /// Creates a component of the plain kind and attaches it to `owner`.
    pub fn new(owner: &mut Actor, update_order: i32) -> (c: BaseComponent)
        requires
            old(owner).wf(),
            old(owner).can_attach(),
        ensures
            c == old(owner)@.next_base(update_order),
            final(owner)@ == old(owner)@.with_component(Component::Base(c)),
            final(owner).wf(),
    {
        let unattached = BaseComponent { id: ComponentId(0), owner: ActorId(0), update_order };
        let id = owner.add_component(Component::Base(unattached));
        BaseComponent { id, owner: owner.get_id(), update_order }
    }

    pub fn get_update_order(&self) -> (order: i32)
        ensures
            order == self.update_order,
    {
        self.update_order
    }
}

} // verus!
