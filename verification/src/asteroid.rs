//! Asteroids: actors that start somewhere at random, show an image and can
//! be hit.

use vstd::prelude::*;
use crate::actor::Actor;
use crate::actor::ActorId;
use crate::actor::ActorView;
use crate::actor::Pose;
use crate::circle_component::CircleComponent;
use crate::circle_component::CIRCLE_UPDATE_ORDER;
use crate::component::BaseComponent;
use crate::component::Component;
use crate::component::ComponentId;
use crate::game::Game;
use crate::game::GameView;
use crate::math::Arithmetic;
use crate::math::Scalar;
use crate::ordered::Identified;
use crate::random::Random;
use crate::sprite_component::SpriteComponent;
use crate::sprite_component::SpriteId;
use crate::texture::Texture;
use crate::vector::Vector2;

verus! {

/// Bit pattern of -512, the least x at which an asteroid starts.
pub const SPAWN_MIN_X_BITS: u32 = 0xC400_0000;

/// Bit pattern of -384, the least y at which an asteroid starts.
pub const SPAWN_MIN_Y_BITS: u32 = 0xC3C0_0000;

/// Bit pattern of 512, the greatest x at which an asteroid starts.
pub const SPAWN_MAX_X_BITS: u32 = 0x4400_0000;

/// Bit pattern of 384, the greatest y at which an asteroid starts.
pub const SPAWN_MAX_Y_BITS: u32 = 0x43C0_0000;

/// Bit pattern of 40, the radius of an asteroid's collision circle.
pub const ASTEROID_RADIUS_BITS: u32 = 0x4220_0000;

/// The draw order of an asteroid's sprite.
pub const ASTEROID_DRAW_ORDER: i32 = 100;

/// An asteroid: its actor, and the collision circle attached to it.
#[derive(Clone, Copy, PartialEq, Eq, Structural, Debug)]
pub struct Asteroid {
    pub actor: ActorId,
    pub circle: Option<ComponentId>,
}

/// An asteroid is found again by the number of its actor's identity.
impl Identified for Asteroid {
    open spec fn serial(&self) -> u64 {
        self.actor.0
    }

    fn get_serial(&self) -> (serial: u64) {
        self.actor.0
    }
}

impl Asteroid {
    /// The name under which the image of an asteroid is loaded.
    pub open spec fn image() -> Seq<char> {
        "Assets/Asteroid.png"@
    }

    /// The least corner of the box in which asteroids start.
    pub open spec fn spawn_min() -> Vector2 {
        Vector2 { x: Scalar { bits: SPAWN_MIN_X_BITS }, y: Scalar { bits: SPAWN_MIN_Y_BITS } }
    }

    /// The greatest corner of the box in which asteroids start.
    pub open spec fn spawn_max() -> Vector2 {
        Vector2 { x: Scalar { bits: SPAWN_MAX_X_BITS }, y: Scalar { bits: SPAWN_MAX_Y_BITS } }
    }

    /// The collision circle of an asteroid whose actor is `owner`.
    pub open spec fn circle_of(owner: ActorId) -> CircleComponent {
        CircleComponent {
            base: BaseComponent { id: ComponentId(0), owner, update_order: CIRCLE_UPDATE_ORDER },
            radius: Scalar { bits: ASTEROID_RADIUS_BITS },
        }
    }

    /// The actor of a new asteroid under the identity `id`: at `position`,
    /// turned by `rotation`, with its collision circle as only component.
    pub open spec fn actor_of(id: ActorId, position: Vector2, rotation: Scalar) -> ActorView {
        ActorView {
            pose: Pose { position, rotation, scale: Scalar::spec_one() },
            components: seq![Component::Circle(Asteroid::circle_of(id))],
            next_component: 1,
            ..ActorView::initial(id)
        }
    }

    /// The sprite of a new asteroid: the image `texture` at its own size.
    pub open spec fn sprite_of(owner: ActorId, texture: Texture) -> SpriteComponent {
        SpriteComponent {
            id: SpriteId(0),
            owner,
            texture: Some(texture),
            draw_order: ASTEROID_DRAW_ORDER,
            tex_width: texture.width as i32,
            tex_height: texture.height as i32,
        }
    }

    /// The game after an asteroid was spawned at `position`, turned by
    /// `rotation`, showing `texture`: its actor is registered, its sprite is
    /// on the draw list, and it stands at the end of the asteroids.
    pub open spec fn spawned(
        before: GameView,
        position: Vector2,
        rotation: Scalar,
        texture: Texture,
    ) -> GameView {
        let id = ActorId(before.next_actor);
        let with_both = before.with_actor(Asteroid::actor_of(id, position, rotation)).with_sprite(
            Asteroid::sprite_of(id, texture),
        );
        GameView {
            asteroids: before.asteroids.push(Asteroid { actor: id, circle: Some(ComponentId(0)) }),
            ..with_both
        }
    }

    /// The asteroid that is spawned in a game whose next actor identity is
    /// `next_actor`.
    pub open spec fn next(next_actor: u64) -> Asteroid {
        Asteroid { actor: ActorId(next_actor), circle: Some(ComponentId(0)) }
    }

    /// `after` is `before` once an asteroid was asked for, and `spawned` is
    /// the answer. The image is fetched from the cache, which asks `load`
    /// where it does not hold it. Without the image nothing is spawned.
    /// With it, the asteroid is spawned at an answer of `ops` for the point
    /// of the spawn box that `sample` picks, turned by `rotation`.
    pub open spec fn spawned_is<A: Arithmetic, F: FnOnce(&str) -> Option<Texture>>(
        ops: &A,
        load: F,
        sample: Vector2,
        rotation: Scalar,
        before: GameView,
        after: GameView,
        spawned: Option<Asteroid>,
    ) -> bool {
        exists|cached: GameView, texture: Option<Texture>| #[trigger]
            GameView::fetched(load, "Assets/Asteroid.png", before, cached, texture) && match texture {
                None => spawned.is_none() && after == cached,
                Some(image) => exists|position: Vector2| #[trigger]
                    Random::vector2_is(
                        ops,
                        Asteroid::spawn_min(),
                        Asteroid::spawn_max(),
                        sample,
                        position,
                    ) && after == Asteroid::spawned(cached, position, rotation, image) && spawned
                        == Some(Asteroid::next(before.next_actor)),
            }
    }

    /// Spawns an asteroid: an actor at the point of the spawn box that the
    /// random `sample` picks, turned by the random `rotation`, with a sprite
    /// that shows the asteroid image and a collision circle of radius 40.
    /// The image comes from the cache of `game`, which asks `load` for it
    /// where it does not hold it. Where the image is not to be had, nothing
    /// is spawned and `None` is answered.
    pub fn new<A: Arithmetic, F: FnOnce(&str) -> Option<Texture>>(
        game: &mut Game,
        sample: Vector2,
        rotation: Scalar,
        load: F,
        ops: &A,
    ) -> (spawned: Option<Asteroid>)
        requires
            old(game).wf(),
            old(game).can_register(),
            old(game).can_add_sprite(),
            call_requires(load, ("Assets/Asteroid.png",)),
        ensures
            Asteroid::spawned_is(ops, load, sample, rotation, old(game)@, final(game)@, spawned),
            final(game).wf(),
    {
        let fetched = game.get_texture("Assets/Asteroid.png", load);
        let texture = match fetched {
            Some(texture) => texture,
            None => {
                return None;
            },
        };
        let min = Vector2::new(Scalar::from_bits(SPAWN_MIN_X_BITS), Scalar::from_bits(SPAWN_MIN_Y_BITS));
        let max = Vector2::new(Scalar::from_bits(SPAWN_MAX_X_BITS), Scalar::from_bits(SPAWN_MAX_Y_BITS));
        let position = Random::get_vector2(min, max, sample, ops);
        let mut actor = Actor::unregistered();
        actor.set_position(position);
        actor.set_rotation(rotation);
        let mut circle = CircleComponent::new(&mut actor);
        circle.set_radius(Scalar::from_bits(ASTEROID_RADIUS_BITS));
        actor.set_component(Component::Circle(circle));
        let ghost built = actor@;
        let id = game.add_actor(actor);
        let mut sprite = SpriteComponent {
            id: SpriteId(0),
            owner: id,
            texture: None,
            draw_order: ASTEROID_DRAW_ORDER,
            tex_width: 0,
            tex_height: 0,
        };
        sprite.set_texture(&texture);
        game.add_sprite(sprite);
        let asteroid = Asteroid { actor: id, circle: Some(circle.base.id) };
        game.add_asteroid(asteroid);
        proof {
            assert(built.rebound(id).components =~= Asteroid::actor_of(id, position, rotation).components);
            assert(Asteroid::actor_of(id, position, rotation).rebound(id).components
                =~= Asteroid::actor_of(id, position, rotation).components);
            assert(Random::vector2_is(
                ops,
                Asteroid::spawn_min(),
                Asteroid::spawn_max(),
                sample,
                position,
            ));
        }
        Some(asteroid)
    }

    pub fn get_circle(&self) -> (circle: Option<ComponentId>)
        ensures
            circle == self.circle,
    {
        self.circle
    }
}

} // verus!
