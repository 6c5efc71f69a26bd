//! The collision circle of an actor, and the test whether two of them meet.

use vstd::prelude::*;
use crate::actor::Actor;
use crate::actor::ActorId;
use crate::actor::ActorView;
use crate::component::BaseComponent;
use crate::component::Component;
use crate::component::ComponentId;
use crate::math::at_most_is;
use crate::math::difference_is;
use crate::math::product_is;
use crate::math::sum_is;
use crate::math::Arithmetic;
use crate::math::Scalar;
use crate::vector::Vector2;

verus! {

/// The update order of every collision circle.
pub const CIRCLE_UPDATE_ORDER: i32 = 100;

/// A circle about its owner's position. `radius` is the radius at scale
/// one; the circle that collides has the radius `owner.scale * radius`.
#[derive(Clone, Copy, PartialEq, Eq, Structural, Debug)]
pub struct CircleComponent {
    pub base: BaseComponent,
    pub radius: Scalar,
}

impl CircleComponent {
    /// Creates a circle of radius zero and attaches it to `owner`.
    pub fn new(owner: &mut Actor) -> (c: CircleComponent)
        requires
            old(owner).wf(),
            old(owner).can_attach(),
        ensures
            c == (CircleComponent {
                base: old(owner)@.next_base(CIRCLE_UPDATE_ORDER),
                radius: Scalar::spec_zero(),
            }),
            final(owner)@ == old(owner)@.with_component(Component::Circle(c)),
            final(owner).wf(),
    {
        let unattached = CircleComponent {
            base: BaseComponent {
                id: ComponentId(0),
                owner: ActorId(0),
                update_order: CIRCLE_UPDATE_ORDER,
            },
            radius: Scalar::zero(),
        };
        let id = owner.add_component(Component::Circle(unattached));
        CircleComponent {
            base: BaseComponent { id, owner: owner.get_id(), update_order: CIRCLE_UPDATE_ORDER },
            radius: Scalar::zero(),
        }
    }

    /// Sets the radius at scale one.
    pub fn set_radius(&mut self, radius: Scalar)
        ensures
            *final(self) == (CircleComponent { radius, ..*old(self) }),
    {
        self.radius = radius;
    }

    /// The radius in the world: `owner.scale * radius`. It grows with the
    /// owner's scale and does not depend on its rotation.
    pub fn get_radius<A: Arithmetic>(&self, owner: &Actor, ops: &A) -> (radius: Scalar)
        ensures
            product_is(ops, owner@.pose.scale, self.radius, radius),
    {
        ops.product(owner.get_scale(), self.radius)
    }

    /// The centre in the world: the owner's position.
    pub fn get_center(&self, owner: &Actor) -> (center: Vector2)
        ensures
            center == owner@.pose.position,
    {
        owner.get_position()
    }

    pub fn get_update_order(&self) -> (order: i32)
        ensures
            order == self.base.update_order,
    {
        self.base.update_order
    }
}

/// `hit` is an answer of `ops` for whether the circles `a` of `owner_a` and
/// `b` of `owner_b` meet: `|center(a) - center(b)|^2 <= (radius(a) +
/// radius(b))^2`, with `<=` so that circles that touch do meet.
pub open spec fn intersect_is<A: Arithmetic>(
    ops: &A,
    a: CircleComponent,
    owner_a: ActorView,
    b: CircleComponent,
    owner_b: ActorView,
    hit: bool,
) -> bool {
    exists|
        diff: Vector2,
        dist_sq: Scalar,
        radius_a: Scalar,
        radius_b: Scalar,
        radii_sum: Scalar,
        radii_sq: Scalar,
    |
        #![trigger
            Vector2::length_sq_is(ops, diff, dist_sq),
            sum_is(ops, radius_a, radius_b, radii_sum),
            at_most_is(ops, dist_sq, radii_sq, hit)]
        {
            &&& Vector2::minus_is(ops, owner_a.pose.position, owner_b.pose.position, diff)
            &&& Vector2::length_sq_is(ops, diff, dist_sq)
            &&& product_is(ops, owner_a.pose.scale, a.radius, radius_a)
            &&& product_is(ops, owner_b.pose.scale, b.radius, radius_b)
            &&& sum_is(ops, radius_a, radius_b, radii_sum)
            &&& product_is(ops, radii_sum, radii_sum, radii_sq)
            &&& at_most_is(ops, dist_sq, radii_sq, hit)
        }
}

/// Whether `ops` answers one sum, one product and one comparison for given
/// arguments, the same sum whichever argument comes first, and the same
/// square for a difference taken either way round.
pub open spec fn symmetric<A: Arithmetic>(ops: &A) -> bool {
    &&& forall|a: Scalar, b: Scalar, r1: Scalar, r2: Scalar|
        #![trigger sum_is(ops, a, b, r1), sum_is(ops, a, b, r2)]
        sum_is(ops, a, b, r1) && sum_is(ops, a, b, r2) ==> r1 == r2
    &&& forall|a: Scalar, b: Scalar, r1: Scalar, r2: Scalar|
        #![trigger sum_is(ops, a, b, r1), sum_is(ops, b, a, r2)]
        sum_is(ops, a, b, r1) && sum_is(ops, b, a, r2) ==> r1 == r2
    &&& forall|a: Scalar, b: Scalar, r1: Scalar, r2: Scalar|
        #![trigger product_is(ops, a, b, r1), product_is(ops, a, b, r2)]
        product_is(ops, a, b, r1) && product_is(ops, a, b, r2) ==> r1 == r2
    &&& forall|a: Scalar, b: Scalar, r1: bool, r2: bool|
        #![trigger at_most_is(ops, a, b, r1), at_most_is(ops, a, b, r2)]
        at_most_is(ops, a, b, r1) && at_most_is(ops, a, b, r2) ==> r1 == r2
    &&& forall|a: Scalar, b: Scalar, d1: Scalar, d2: Scalar, q1: Scalar, q2: Scalar|
        #![trigger
            difference_is(ops, a, b, d1),
            difference_is(ops, b, a, d2),
            product_is(ops, d1, d1, q1),
            product_is(ops, d2, d2, q2)]
        difference_is(ops, a, b, d1) && difference_is(ops, b, a, d2) && product_is(ops, d1, d1, q1)
            && product_is(ops, d2, d2, q2) ==> q1 == q2
}

/// With symmetric arithmetic, two circles meet whichever of them is asked
/// first.
pub proof fn lemma_intersect_symmetric<A: Arithmetic>(
    ops: &A,
    a: CircleComponent,
    owner_a: ActorView,
    b: CircleComponent,
    owner_b: ActorView,
    one_way: bool,
    other_way: bool,
)
    requires
        symmetric(ops),
        intersect_is(ops, a, owner_a, b, owner_b, one_way),
        intersect_is(ops, b, owner_b, a, owner_a, other_way),
    ensures
        one_way == other_way,
{
    let (diff, dist_sq, radius_a, radius_b, radii_sum, radii_sq) = choose|
        diff: Vector2,
        dist_sq: Scalar,
        radius_a: Scalar,
        radius_b: Scalar,
        radii_sum: Scalar,
        radii_sq: Scalar,
    |
        #![trigger
            Vector2::length_sq_is(ops, diff, dist_sq),
            sum_is(ops, radius_a, radius_b, radii_sum),
            at_most_is(ops, dist_sq, radii_sq, one_way)]
        {
            &&& Vector2::minus_is(ops, owner_a.pose.position, owner_b.pose.position, diff)
            &&& Vector2::length_sq_is(ops, diff, dist_sq)
            &&& product_is(ops, owner_a.pose.scale, a.radius, radius_a)
            &&& product_is(ops, owner_b.pose.scale, b.radius, radius_b)
            &&& sum_is(ops, radius_a, radius_b, radii_sum)
            &&& product_is(ops, radii_sum, radii_sum, radii_sq)
            &&& at_most_is(ops, dist_sq, radii_sq, one_way)
        };
    let (back, back_sq, again_b, again_a, back_sum, back_radii_sq) = choose|
        diff: Vector2,
        dist_sq: Scalar,
        radius_a: Scalar,
        radius_b: Scalar,
        radii_sum: Scalar,
        radii_sq: Scalar,
    |
        #![trigger
            Vector2::length_sq_is(ops, diff, dist_sq),
            sum_is(ops, radius_a, radius_b, radii_sum),
            at_most_is(ops, dist_sq, radii_sq, other_way)]
        {
            &&& Vector2::minus_is(ops, owner_b.pose.position, owner_a.pose.position, diff)
            &&& Vector2::length_sq_is(ops, diff, dist_sq)
            &&& product_is(ops, owner_b.pose.scale, b.radius, radius_a)
            &&& product_is(ops, owner_a.pose.scale, a.radius, radius_b)
            &&& sum_is(ops, radius_a, radius_b, radii_sum)
            &&& product_is(ops, radii_sum, radii_sum, radii_sq)
            &&& at_most_is(ops, dist_sq, radii_sq, other_way)
        };
    let (xx, yy) = choose|xx: Scalar, yy: Scalar|
        product_is(ops, diff.x, diff.x, xx) && product_is(ops, diff.y, diff.y, yy) && #[trigger] sum_is(
            ops,
            xx,
            yy,
            dist_sq,
        );
    let (back_xx, back_yy) = choose|xx: Scalar, yy: Scalar|
        product_is(ops, back.x, back.x, xx) && product_is(ops, back.y, back.y, yy) && #[trigger] sum_is(
            ops,
            xx,
            yy,
            back_sq,
        );
}

/// Whether two circles meet: the squared distance of their centres is at
/// most the square of the sum of their radii. No square root is taken.
pub fn intersect<A: Arithmetic>(
    a: &CircleComponent,
    owner_a: &Actor,
    b: &CircleComponent,
    owner_b: &Actor,
    ops: &A,
) -> (hit: bool)
    ensures
        intersect_is(ops, *a, owner_a@, *b, owner_b@, hit),
{
    let diff = Vector2::minus(a.get_center(owner_a), b.get_center(owner_b), ops);
    let dist_sq = diff.length_sq(ops);
    let radius_a = a.get_radius(owner_a, ops);
    let radius_b = b.get_radius(owner_b, ops);
    let radii_sum = ops.sum(radius_a, radius_b);
    let radii_sq = ops.product(radii_sum, radii_sum);
    let hit = ops.at_most(dist_sq, radii_sq);
    assert(Vector2::length_sq_is(ops, diff, dist_sq) && sum_is(ops, radius_a, radius_b, radii_sum)
        && at_most_is(ops, dist_sq, radii_sq, hit));
    hit
}

} // verus!
