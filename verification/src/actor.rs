//! Actors: positioned, turned and scaled entities that own an ordered list of
//! components and cache their world transform.

use vstd::prelude::*;
use crate::component::BaseComponent;
use crate::component::Component;
use crate::component::ComponentId;
use crate::game::Game;
use crate::math::Arithmetic;
use crate::math::Scalar;
use crate::matrix::Matrix4;
use crate::move_component::PlayField;
use crate::ordered::find_serial;
use crate::ordered::first_greater;
use crate::ordered::holds;
use crate::ordered::in_order;
use crate::ordered::insert_in_order;
use crate::ordered::lemma_first_greater;
use crate::ordered::position_of;
use crate::ordered::serials_below;
use crate::ordered::with_entry;
use crate::ordered::without_entry;
use crate::vector::Vector2;
use crate::vector::Vector3;

verus! {

/// The lifecycle state of an actor. Only an active actor is updated or
/// reads input.
#[derive(Clone, Copy, PartialEq, Eq, Structural, Debug)]
pub enum State {
    Active,
    Paused,
    Dead,
}

/// The identity of an actor, given by the game that registers it.
#[derive(Clone, Copy, PartialEq, Eq, Structural, Debug)]
pub struct ActorId(pub u64);

/// A local transform: where an actor is, how far it is turned about the z
/// axis (radians), and its uniform scale.
#[derive(Clone, Copy, PartialEq, Eq, Structural, Debug)]
pub struct Pose {
    pub position: Vector2,
    pub rotation: Scalar,
    pub scale: Scalar,
}

impl Pose {
    /// At the origin, unturned, at scale one.
    pub open spec fn initial() -> Pose {
        Pose { position: Vector2::spec_zero(), rotation: Scalar::spec_zero(), scale: Scalar::spec_one() }
    }

    /// `w` is an answer of `ops` for `Scale(scale) * RotateZ(rotation) *
    /// Translate(position)`: scale and rotation act about the actor's own
    /// origin, the translation comes last.
    pub open spec fn world_is<A: Arithmetic>(self, ops: &A, w: Matrix4) -> bool {
        exists|turn: Matrix4, scale_turn: Matrix4|
            {
                &&& Matrix4::rotation_z_is(ops, self.rotation, turn)
                &&& #[trigger] Matrix4::product_is(
                    ops,
                    Matrix4::spec_scale(self.scale, self.scale, self.scale),
                    turn,
                    scale_turn,
                )
                &&& Matrix4::product_is(
                    ops,
                    scale_turn,
                    Matrix4::spec_translation(
                        Vector3 { x: self.position.x, y: self.position.y, z: Scalar::spec_zero() },
                    ),
                    w,
                )
            }
    }
}

/// What an actor does beyond its components: the behaviour of its kind,
/// supplied by the caller. No method promises anything.
pub trait Behavior {
    /// The actor's own update over the time `delta_time`, run after its
    /// components': the pose the actor is to have.
    fn update_actor(&self, actor: ActorId, pose: Pose, delta_time: Scalar) -> Pose;

    /// The actor's own reading of the keys, run after its components'.
    fn actor_input(&self, actor: ActorId, key_state: &[u8]);
}

/// What an actor is, as contracts see it.
pub struct ActorView {
    pub id: ActorId,
    pub state: State,
    pub pose: Pose,
    /// Whether the pose was set since the world transform was last computed.
    pub dirty: bool,
    /// The cached world transform.
    pub world_transform: Matrix4,
    /// The pose from which the cached world transform was last computed.
    pub cached_pose: Pose,
    /// The components, in the order in which they are updated.
    pub components: Seq<Component>,
    /// The number that the next attached component gets as its identity.
    pub next_component: u64,
}

impl ActorView {
    /// The components are owned by this actor, carry identities that were
    /// handed out, and stand in strict update order; a clean cache was
    /// computed from the present pose.
    pub open spec fn wf(self) -> bool {
        &&& forall|i: int|
            0 <= i < self.components.len() ==> (#[trigger] self.components[i]).base().owner
                == self.id
        &&& serials_below(self.components, self.next_component)
        &&& in_order(self.components)
        &&& !self.dirty ==> self.cached_pose == self.pose
    }

    /// A fresh actor under the identity `id`: active, at the origin,
    /// unturned, at scale one, without components, its world transform the
    /// identity and due for computation.
    pub open spec fn initial(id: ActorId) -> ActorView {
        ActorView {
            id,
            state: State::Active,
            pose: Pose::initial(),
            dirty: true,
            world_transform: Matrix4::spec_identity(),
            cached_pose: Pose::initial(),
            components: Seq::empty(),
            next_component: 0,
        }
    }

    pub open spec fn with_state(self, state: State) -> ActorView {
        ActorView { state, ..self }
    }

    pub open spec fn with_position(self, position: Vector2) -> ActorView {
        ActorView { pose: Pose { position, ..self.pose }, dirty: true, ..self }
    }

    pub open spec fn with_rotation(self, rotation: Scalar) -> ActorView {
        ActorView { pose: Pose { rotation, ..self.pose }, dirty: true, ..self }
    }

    pub open spec fn with_scale(self, scale: Scalar) -> ActorView {
        ActorView { pose: Pose { scale, ..self.pose }, dirty: true, ..self }
    }

    /// The actor after each part of `pose` that differs from its own was set.
    pub open spec fn with_pose(self, pose: Pose) -> ActorView {
        ActorView { pose, dirty: self.dirty || pose != self.pose, ..self }
    }

    /// The actor under another identity, its components owned by it.
    pub open spec fn rebound(self, id: ActorId) -> ActorView {
        ActorView {
            id,
            components: Seq::new(
                self.components.len(),
                |i: int| self.components[i].attached(self.components[i].base().id, id),
            ),
            ..self
        }
    }

    /// `after` is `before` once its world transform was resolved with `ops`:
    /// unchanged where the cache was clean; else the cache holds an answer
    /// for the present pose and is clean.
    pub open spec fn resolved<A: Arithmetic>(ops: &A, before: ActorView, after: ActorView) -> bool {
        if before.dirty {
            &&& before.pose.world_is(ops, after.world_transform)
            &&& after == (ActorView {
                dirty: false,
                world_transform: after.world_transform,
                cached_pose: before.pose,
                ..before
            })
        } else {
            after == before
        }
    }

    /// `after` is `before` once every component updated it over the time
    /// `dt`, one after the other in the order of the list.
    pub open spec fn components_updated<A: Arithmetic>(
        ops: &A,
        field: PlayField,
        dt: Scalar,
        before: ActorView,
        after: ActorView,
    ) -> bool {
        exists|stages: Seq<ActorView>|
            {
                &&& #[trigger] stages.len() == before.components.len() + 1
                &&& stages[0] == before
                &&& stages.last() == after
                &&& forall|i: int|
                    0 <= i < before.components.len() ==> before.components[i].updated(
                        ops,
                        field,
                        dt,
                        #[trigger] stages[i],
                        stages[i + 1],
                    )
            }
    }

    /// `after` is `before` once it was updated over the time `dt`. An actor
    /// that is not active stays as it is. An active one resolves its world
    /// transform, lets its components update it in order, takes the pose
    /// that its own behaviour answers, and resolves its world transform
    /// again.
    pub open spec fn updated<A: Arithmetic, B: Behavior>(
        ops: &A,
        behavior: &B,
        field: PlayField,
        dt: Scalar,
        before: ActorView,
        after: ActorView,
    ) -> bool {
        if before.state != State::Active {
            after == before
        } else {
            exists|resolved: ActorView, moved: ActorView, pose: Pose|
                {
                    &&& #[trigger] ActorView::resolved(ops, before, resolved)
                    &&& #[trigger] ActorView::components_updated(ops, field, dt, resolved, moved)
                    &&& #[trigger] call_ensures(
                        B::update_actor,
                        (behavior, moved.id, moved.pose, dt),
                        pose,
                    )
                    &&& ActorView::resolved(ops, moved.with_pose(pose), after)
                }
        }
    }

    /// `after` is `before` once it read `key_state`. An actor that is not
    /// active stays as it is. In an active one every component has read the
    /// keys, and its own behaviour was handed them.
    pub open spec fn input_processed<A: Arithmetic, B: Behavior>(
        ops: &A,
        behavior: &B,
        key_state: &[u8],
        before: ActorView,
        after: ActorView,
    ) -> bool {
        if before.state != State::Active {
            after == before
        } else {
            &&& after == (ActorView { components: after.components, ..before })
            &&& after.components.len() == before.components.len()
            &&& forall|i: int|
                0 <= i < before.components.len() ==> Component::input_applied(
                    ops,
                    key_state@,
                    before.components[i],
                    #[trigger] after.components[i],
                )
            &&& call_ensures(B::actor_input, (behavior, before.id, key_state), ())
        }
    }

    /// The shared part that the next attached component gets.
    pub open spec fn next_base(self, update_order: i32) -> BaseComponent {
        BaseComponent { id: ComponentId(self.next_component), owner: self.id, update_order }
    }

    /// The actor after `c`, which already carries the identity
    /// `next_component`, was attached: `c` stands before the first component
    /// of strictly greater update order, after all of equal order.
    pub open spec fn with_component(self, c: Component) -> ActorView {
        ActorView {
            components: with_entry(self.components, c),
            next_component: (self.next_component + 1) as u64,
            ..self
        }
    }

    /// Whether a component with identity `id` is attached.
    pub open spec fn has_component(self, id: ComponentId) -> bool {
        holds(self.components, id.0)
    }

    /// The attached component with identity `id`.
    pub open spec fn component(self, id: ComponentId) -> Component
        recommends
            self.has_component(id),
    {
        self.components[position_of(self.components, id.0)]
    }

    /// The actor without the component with identity `id`.
    pub open spec fn without_component(self, id: ComponentId) -> ActorView {
        ActorView { components: without_entry(self.components, id.0), ..self }
    }

    /// The actor after the component that shares its identity with `c` took
    /// what `c` holds, keeping its own identity, owner and update order.
    pub open spec fn with_replaced(self, c: Component) -> ActorView {
        if self.has_component(c.base().id) {
            ActorView {
                components: self.components.update(
                    position_of(self.components, c.base().id.0),
                    c.rebased(self.component(c.base().id).base()),
                ),
                ..self
            }
        } else {
            self
        }
    }
}

/// Resolving the world transform of an actor whose pose was set leaves, for
/// the pose as it is, an answer for `Scale * RotateZ * Translate` in the
/// cache, and the cache clean.
pub proof fn lemma_resolved_matches_pose<A: Arithmetic>(ops: &A, before: ActorView, after: ActorView)
    requires
        before.dirty,
        ActorView::resolved(ops, before, after),
    ensures
        after.pose == before.pose,
        after.pose.world_is(ops, after.world_transform),
        after.cached_pose == after.pose,
        !after.dirty,
{
}

/// Resolving the world transform twice, the pose not set in between, does
/// nothing the second time: the first leaves the cache clean and the second
/// leaves the actor, its matrix included, as it is.
pub proof fn lemma_resolved_twice<A: Arithmetic, A2: Arithmetic>(
    first: &A,
    second: &A2,
    before: ActorView,
    once: ActorView,
    twice: ActorView,
)
    requires
        ActorView::resolved(first, before, once),
        ActorView::resolved(second, once, twice),
    ensures
        !once.dirty,
        twice == once,
{
}

/// Setting the position marks the cache, so that the next resolution
/// computes the world transform from the new position.
pub proof fn lemma_position_set_then_resolved<A: Arithmetic>(
    ops: &A,
    before: ActorView,
    position: Vector2,
    after: ActorView,
)
    requires
        ActorView::resolved(ops, before.with_position(position), after),
    ensures
        before.with_position(position).dirty,
        after.pose == (Pose { position, ..before.pose }),
        after.pose.world_is(ops, after.world_transform),
        !after.dirty,
{
}

/// Setting the rotation marks the cache, so that the next resolution
/// computes the world transform from the new rotation.
pub proof fn lemma_rotation_set_then_resolved<A: Arithmetic>(
    ops: &A,
    before: ActorView,
    rotation: Scalar,
    after: ActorView,
)
    requires
        ActorView::resolved(ops, before.with_rotation(rotation), after),
    ensures
        before.with_rotation(rotation).dirty,
        after.pose == (Pose { rotation, ..before.pose }),
        after.pose.world_is(ops, after.world_transform),
        !after.dirty,
{
}

/// Setting the scale marks the cache, so that the next resolution computes
/// the world transform from the new scale.
pub proof fn lemma_scale_set_then_resolved<A: Arithmetic>(
    ops: &A,
    before: ActorView,
    scale: Scalar,
    after: ActorView,
)
    requires
        ActorView::resolved(ops, before.with_scale(scale), after),
    ensures
        before.with_scale(scale).dirty,
        after.pose == (Pose { scale, ..before.pose }),
        after.pose.world_is(ops, after.world_transform),
        !after.dirty,
{
}

/// Where the pose of an actor was set to one that `ops` tells apart from the
/// pose before, in that no matrix is an answer for both, the next resolution
/// changes the cached matrix. `before` is the actor with its cache in use,
/// `marked` the actor after the setting, which leaves the matrix alone.
pub proof fn lemma_changed_pose_changes_matrix<A: Arithmetic>(
    ops: &A,
    before: ActorView,
    marked: ActorView,
    after: ActorView,
)
    requires
        before.pose.world_is(ops, before.world_transform),
        marked.dirty,
        marked.world_transform == before.world_transform,
        ActorView::resolved(ops, marked, after),
        forall|w: Matrix4| !(before.pose.world_is(ops, w) && #[trigger] marked.pose.world_is(ops, w)),
    ensures
        after.world_transform != before.world_transform,
{
}

/// Where the pose of an actor was set to what it was, and `ops` answers one
/// matrix for a pose, the next resolution leaves the cached matrix as it
/// is.
pub proof fn lemma_same_pose_same_matrix<A: Arithmetic>(
    ops: &A,
    before: ActorView,
    marked: ActorView,
    after: ActorView,
)
    requires
        before.pose.world_is(ops, before.world_transform),
        marked.dirty,
        marked.pose == before.pose,
        ActorView::resolved(ops, marked, after),
        forall|w1: Matrix4, w2: Matrix4|
            #![trigger before.pose.world_is(ops, w1), before.pose.world_is(ops, w2)]
            before.pose.world_is(ops, w1) && before.pose.world_is(ops, w2) ==> w1 == w2,
    ensures
        after.world_transform == before.world_transform,
{
}

/// After the first `i` updates of a chain, everything but the pose and the
/// mark on the cache is as at the start.
proof fn lemma_stages_frame<A: Arithmetic>(
    ops: &A,
    field: PlayField,
    dt: Scalar,
    components: Seq<Component>,
    stages: Seq<ActorView>,
    i: int,
)
    requires
        stages.len() == components.len() + 1,
        forall|k: int|
            0 <= k < components.len() ==> components[k].updated(
                ops,
                field,
                dt,
                #[trigger] stages[k],
                stages[k + 1],
            ),
        0 <= i <= components.len(),
    ensures
        stages[i] == (ActorView { pose: stages[i].pose, dirty: stages[i].dirty, ..stages[0] }),
        stages[0].wf() ==> stages[i].wf(),
    decreases i,
{
    if i > 0 {
        lemma_stages_frame(ops, field, dt, components, stages, i - 1);
    }
}

/// The updates of the components leave everything of the actor but the
/// pose and the mark on the cache as it was, and keep it well formed.
pub proof fn lemma_components_updated_frame<A: Arithmetic>(
    ops: &A,
    field: PlayField,
    dt: Scalar,
    before: ActorView,
    after: ActorView,
)
    requires
        ActorView::components_updated(ops, field, dt, before, after),
    ensures
        after == (ActorView { pose: after.pose, dirty: after.dirty, ..before }),
        before.wf() ==> after.wf(),
{
    let stages = choose|stages: Seq<ActorView>|
        {
            &&& #[trigger] stages.len() == before.components.len() + 1
            &&& stages[0] == before
            &&& stages.last() == after
            &&& forall|i: int|
                0 <= i < before.components.len() ==> before.components[i].updated(
                    ops,
                    field,
                    dt,
                    #[trigger] stages[i],
                    stages[i + 1],
                )
        };
    lemma_stages_frame(ops, field, dt, before.components, stages, before.components.len() as int);
}

/// An update leaves the identity, the state and the components of an actor
/// as they were and keeps it well formed; it leaves the cache of an active
/// actor clean.
pub proof fn lemma_updated_frame<A: Arithmetic, B: Behavior>(
    ops: &A,
    behavior: &B,
    field: PlayField,
    dt: Scalar,
    before: ActorView,
    after: ActorView,
)
    requires
        ActorView::updated(ops, behavior, field, dt, before, after),
    ensures
        after.id == before.id,
        after.state == before.state,
        after.components == before.components,
        after.next_component == before.next_component,
        before.state == State::Active ==> !after.dirty,
        before.wf() ==> after.wf(),
{
    if before.state == State::Active {
        let (resolved, moved, pose) = choose|resolved: ActorView, moved: ActorView, pose: Pose|
            {
                &&& #[trigger] ActorView::resolved(ops, before, resolved)
                &&& #[trigger] ActorView::components_updated(ops, field, dt, resolved, moved)
                &&& #[trigger] call_ensures(B::update_actor, (behavior, moved.id, moved.pose, dt), pose)
                &&& ActorView::resolved(ops, moved.with_pose(pose), after)
            };
        lemma_components_updated_frame(ops, field, dt, resolved, moved);
    }
}

/// An entity of the scene.
pub struct Actor {
    id: ActorId,
    state: State,
    position: Vector2,
    scale: Scalar,
    rotation: Scalar,
    recompute_world_transform: bool,
    components: Vec<Component>,
    world_transform: Matrix4,
    next_component: u64,
    cached_pose: Ghost<Pose>,
}

impl View for Actor {
    type V = ActorView;

    closed spec fn view(&self) -> ActorView {
        ActorView {
            id: self.id,
            state: self.state,
            pose: Pose { position: self.position, rotation: self.rotation, scale: self.scale },
            dirty: self.recompute_world_transform,
            world_transform: self.world_transform,
            cached_pose: self.cached_pose@,
            components: self.components@,
            next_component: self.next_component,
        }
    }
}

impl Actor {
    /// Whether the actor's invariant holds.
    pub open spec fn wf(&self) -> bool {
        self@.wf()
    }

    /// Whether an identity is left for one more component.
    pub open spec fn spec_can_attach(&self) -> bool {
        self@.next_component < u64::MAX
    }

    /// Whether an identity is left for one more component.
    #[verifier::when_used_as_spec(spec_can_attach)]
    pub fn can_attach(&self) -> (b: bool)
        ensures
            b == self.spec_can_attach(),
    {
        self.next_component < u64::MAX
    }

    /// Creates an actor and registers it with `game`: active, at the
    /// origin, unturned, at scale one, without components. While an update
    /// pass runs the actor waits in the queue until the pass ends.
    pub fn new(game: &mut Game) -> (id: ActorId)
        requires
            old(game).wf(),
            old(game).can_register(),
        ensures
            id == ActorId(old(game)@.next_actor),
            final(game)@ == old(game)@.with_actor(ActorView::initial(id)),
            final(game).wf(),
    {
        let actor = Actor::unregistered();
        game.add_actor(actor)
    }

    /// An active actor at the origin, unturned, at scale one, without
    /// components and not yet registered with any game.
    pub(crate) fn unregistered() -> (actor: Actor)
        ensures
            actor@ == ActorView::initial(ActorId(0)),
            actor.wf(),
    {
        Actor {
            id: ActorId(0),
            state: State::Active,
            position: Vector2::zero(),
            scale: Scalar::one(),
            rotation: Scalar::zero(),
            recompute_world_transform: true,
            components: Vec::new(),
            world_transform: Matrix4::identity(),
            next_component: 0,
            cached_pose: Ghost(Pose::initial()),
        }
    }

    /// Gives the actor the identity `id` and makes it the owner of its
    /// components.
    pub(crate) fn bind(&mut self, id: ActorId)
        requires
            old(self).wf(),
        ensures
            final(self)@ == old(self)@.rebound(id),
            final(self).wf(),
    {
        self.id = id;
        let mut i: usize = 0;
        while i < self.components.len()
            invariant
                i <= self.components.len(),
                self.components@.len() == old(self).components@.len(),
                self@ == (ActorView { id, components: self.components@, ..old(self)@ }),
                forall|k: int|
                    0 <= k < i ==> #[trigger] self.components@[k] == old(self).components@[k].attached(
                        old(self).components@[k].base().id,
                        id,
                    ),
                forall|k: int|
                    i <= k < self.components.len() ==> #[trigger] self.components@[k] == old(
                        self,
                    ).components@[k],
            decreases self.components.len() - i,
        {
            let c = self.components[i];
            let base = c.get_base();
            let bound = c.with_base(
                BaseComponent { id: base.id, owner: id, update_order: base.update_order },
            );
            self.components.set(i, bound);
            i += 1;
        }
        assert(self@.components =~= old(self)@.rebound(id).components);
    }

    pub fn get_id(&self) -> (id: ActorId)
        ensures
            id == self@.id,
    {
        self.id
    }

    /// Updates the actor over the time `delta_time`; does nothing unless it
    /// is active. Resolves the world transform, updates the components in
    /// ascending update order, runs the actor's own behaviour, and resolves
    /// the world transform again, so that what the components and the
    /// behaviour moved is seen by whoever draws next.
    pub fn update<A: Arithmetic, B: Behavior>(
        &mut self,
        delta_time: Scalar,
        field: &PlayField,
        ops: &A,
        behavior: &B,
    )
        requires
            old(self).wf(),
        ensures
            ActorView::updated(ops, behavior, *field, delta_time, old(self)@, final(self)@),
            final(self).wf(),
    {
        if self.state == State::Active {
            self.compute_world_transform(ops);
            self.update_components(delta_time, field, ops);
            let pose = self.update_actor(delta_time, behavior);
            self.compute_world_transform(ops);
        }
    }

    /// Lets every component update the actor, in the order of the list.
    fn update_components<A: Arithmetic>(&mut self, delta_time: Scalar, field: &PlayField, ops: &A)
        requires
            old(self).wf(),
        ensures
            ActorView::components_updated(ops, *field, delta_time, old(self)@, final(self)@),
            final(self).wf(),
    {
        let ghost mut stages: Seq<ActorView> = seq![self@];
        let mut i: usize = 0;
        while i < self.components.len()
            invariant
                i <= self.components.len(),
                self.wf(),
                self@.components == old(self)@.components,
                stages.len() == i + 1,
                stages[0] == old(self)@,
                stages.last() == self@,
                forall|k: int|
                    0 <= k < i ==> old(self)@.components[k].updated(
                        ops,
                        *field,
                        delta_time,
                        #[trigger] stages[k],
                        stages[k + 1],
                    ),
            decreases self.components.len() - i,
        {
            let c = self.components[i];
            c.update(self, delta_time, field, ops);
            proof {
                stages = stages.push(self@);
            }
            i += 1;
        }
    }

    /// Asks the actor's own behaviour for its pose and sets what differs.
    fn update_actor<B: Behavior>(&mut self, delta_time: Scalar, behavior: &B) -> (pose: Pose)
        ensures
            call_ensures(B::update_actor, (behavior, old(self)@.id, old(self)@.pose, delta_time), pose),
            final(self)@ == old(self)@.with_pose(pose),
    {
        let pose = behavior.update_actor(self.id, self.get_pose(), delta_time);
        self.set_pose(pose);
        pose
    }

    /// Reads the keys that `key_state` shows as pressed; does nothing unless
    /// the actor is active. Every component reads them, in update order,
    /// then the actor's own behaviour.
    pub fn process_input<A: Arithmetic, B: Behavior>(&mut self, key_state: &[u8], ops: &A, behavior: &B)
        requires
            old(self).wf(),
        ensures
            ActorView::input_processed(ops, behavior, key_state, old(self)@, final(self)@),
            final(self).wf(),
    {
        if self.state == State::Active {
            let mut i: usize = 0;
            while i < self.components.len()
                invariant
                    i <= self.components.len(),
                    self@ == (ActorView { components: self@.components, ..old(self)@ }),
                    self@.components.len() == old(self)@.components.len(),
                    forall|k: int|
                        0 <= k < i ==> Component::input_applied(
                            ops,
                            key_state@,
                            old(self)@.components[k],
                            #[trigger] self@.components[k],
                        ),
                    forall|k: int|
                        i <= k < self.components.len() ==> #[trigger] self@.components[k] == old(
                            self,
                        )@.components[k],
                    forall|k: int|
                        0 <= k < self.components.len() ==> (#[trigger] self@.components[k]).base() == old(
                            self,
                        )@.components[k].base(),
                decreases self.components.len() - i,
            {
                let mut c = self.components[i];
                c.process_input(key_state, ops);
                self.components.set(i, c);
                i += 1;
            }
            self.actor_input(key_state, behavior);
        }
    }

    /// Hands the keys to the actor's own behaviour.
    fn actor_input<B: Behavior>(&self, key_state: &[u8], behavior: &B)
        ensures
            call_ensures(B::actor_input, (behavior, self@.id, key_state), ()),
    {
        behavior.actor_input(self.id, key_state);
    }

    /// Resolves the world transform: where the pose was set since it was
    /// last computed, computes `Scale * RotateZ * Translate` with `ops`,
    /// marks the cache clean and tells every component; else does nothing.
    pub fn compute_world_transform<A: Arithmetic>(&mut self, ops: &A)
        requires
            old(self).wf(),
        ensures
            ActorView::resolved(ops, old(self)@, final(self)@),
            final(self).wf(),
    {
        if self.recompute_world_transform {
            self.recompute_world_transform = false;
            let scale = Matrix4::create_scale(self.scale, self.scale, self.scale);
            let turn = Matrix4::create_rotation_z(self.rotation, ops);
            let shift = Matrix4::create_translation(
                Vector3::new(self.position.x, self.position.y, Scalar::zero()),
            );
            let scale_turn = scale.mul(turn, ops);
            self.world_transform = scale_turn.mul(shift, ops);
            self.cached_pose = Ghost(
                Pose { position: self.position, rotation: self.rotation, scale: self.scale },
            );
            proof {
                let pose = old(self)@.pose;
                assert(Matrix4::product_is(
                    ops,
                    Matrix4::spec_scale(pose.scale, pose.scale, pose.scale),
                    turn,
                    scale_turn,
                ));
            }
            let ghost resolved = self@;
            let mut i: usize = 0;
            while i < self.components.len()
                invariant
                    self@ == resolved,
                decreases self.components.len() - i,
            {
                let mut c = self.components[i];
                c.on_update_world_transform();
                self.components.set(i, c);
                assert(self.components@ =~= resolved.components);
                i += 1;
            }
        }
    }

    /// Attaches `component` under the next identity, whatever identity and
    /// owner it carried: before the first component of strictly greater
    /// update order, so after all of equal order.
    pub fn add_component(&mut self, component: Component) -> (id: ComponentId)
        requires
            old(self).wf(),
            old(self).can_attach(),
        ensures
            id == ComponentId(old(self)@.next_component),
            final(self)@ == old(self)@.with_component(component.attached(id, old(self)@.id)),
            final(self).wf(),
    {
        let id = ComponentId(self.next_component);
        let order = component.get_update_order();
        let attached = component.with_base(BaseComponent { id, owner: self.id, update_order: order });
        insert_in_order(&mut self.components, attached);
        self.next_component = self.next_component + 1;
        proof {
            let at = first_greater(old(self)@.components, order);
            lemma_first_greater(old(self)@.components, order);
        }
        id
    }

    /// Detaches the component with identity `id` and hands it back; does
    /// nothing where none has it.
    pub fn remove_component(&mut self, id: ComponentId) -> (removed: Option<Component>)
        requires
            old(self).wf(),
        ensures
            final(self)@ == old(self)@.without_component(id),
            removed == (if old(self)@.has_component(id) {
                Some(old(self)@.component(id))
            } else {
                None
            }),
            final(self).wf(),
    {
        let index = find_serial(&self.components, id.0);
        if index < self.components.len() {
            let c = self.components.remove(index);
            Some(c)
        } else {
            None
        }
    }

    /// The components, in the order in which they are updated.
    pub fn get_components(&self) -> (components: &Vec<Component>)
        ensures
            components@ == self@.components,
    {
        &self.components
    }

    /// The component with identity `id`, if one is attached.
    pub fn component(&self, id: ComponentId) -> (found: Option<Component>)
        ensures
            found == (if self@.has_component(id) {
                Some(self@.component(id))
            } else {
                None
            }),
    {
        let index = find_serial(&self.components, id.0);
        if index < self.components.len() {
            Some(self.components[index])
        } else {
            None
        }
    }

    /// Lets the attached component that shares its identity with `component`
    /// take what `component` holds; identity, owner and update order stay.
    /// Answers whether there was one.
    pub fn set_component(&mut self, component: Component) -> (found: bool)
        requires
            old(self).wf(),
        ensures
            found == old(self)@.has_component(component.base().id),
            final(self)@ == old(self)@.with_replaced(component),
            final(self).wf(),
    {
        let index = find_serial(&self.components, component.get_base().id.0);
        if index < self.components.len() {
            let kept = self.components[index].get_base();
            self.components.set(index, component.with_base(kept));
            true
        } else {
            false
        }
    }

    /// Sets the position and marks the world transform for recomputation.
    pub fn set_position(&mut self, pos: Vector2)
        ensures
            final(self)@ == old(self)@.with_position(pos),
    {
        self.position = pos;
        self.recompute_world_transform = true;
    }

    /// Sets the rotation and marks the world transform for recomputation.
    pub fn set_rotation(&mut self, rotation: Scalar)
        ensures
            final(self)@ == old(self)@.with_rotation(rotation),
    {
        self.rotation = rotation;
        self.recompute_world_transform = true;
    }

    /// Sets the scale and marks the world transform for recomputation.
    pub fn set_scale(&mut self, scale: Scalar)
        ensures
            final(self)@ == old(self)@.with_scale(scale),
    {
        self.scale = scale;
        self.recompute_world_transform = true;
    }

    /// Sets each part of `pose` that differs from the actor's own.
    pub fn set_pose(&mut self, pose: Pose)
        ensures
            final(self)@ == old(self)@.with_pose(pose),
    {
        if pose.position != self.position {
            self.set_position(pose.position);
        }
        if pose.rotation != self.rotation {
            self.set_rotation(pose.rotation);
        }
        if pose.scale != self.scale {
            self.set_scale(pose.scale);
        }
    }

    pub fn get_position(&self) -> (pos: Vector2)
        ensures
            pos == self@.pose.position,
    {
        self.position
    }

    pub fn get_scale(&self) -> (scale: Scalar)
        ensures
            scale == self@.pose.scale,
    {
        self.scale
    }

    pub fn get_rotation(&self) -> (rotation: Scalar)
        ensures
            rotation == self@.pose.rotation,
    {
        self.rotation
    }

    pub fn get_pose(&self) -> (pose: Pose)
        ensures
            pose == self@.pose,
    {
        Pose { position: self.position, rotation: self.rotation, scale: self.scale }
    }

    /// The cached world transform, as last computed.
    pub fn get_world_transform(&self) -> (m: Matrix4)
        ensures
            m == self@.world_transform,
    {
        self.world_transform
    }

    /// The unit vector the actor faces along: `(cos(rotation), sin(rotation))`.
    pub fn get_forward<A: Arithmetic>(&self, ops: &A) -> (forward: Vector2)
        ensures
            forward_is(ops, self@.pose.rotation, forward),
    {
        Vector2::new(ops.cosine(self.rotation), ops.sine(self.rotation))
    }

    pub fn get_state(&self) -> (state: State)
        ensures
            state == self@.state,
    {
        self.state
    }

    pub fn set_state(&mut self, state: State)
        ensures
            final(self)@ == old(self)@.with_state(state),
    {
        self.state = state;
    }

    /// Whether the pose was set since the world transform was last computed.
    pub fn needs_world_transform(&self) -> (dirty: bool)
        ensures
            dirty == self@.dirty,
    {
        self.recompute_world_transform
    }
}

/// `forward` is an answer of `ops` for `(cos(rotation), sin(rotation))`.
pub open spec fn forward_is<A: Arithmetic>(ops: &A, rotation: Scalar, forward: Vector2) -> bool {
    crate::math::cosine_is(ops, rotation, forward.x) && crate::math::sine_is(ops, rotation, forward.y)
}

} // verus!
