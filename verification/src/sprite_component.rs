//! Sprites: what an actor shows, and the order in which sprites are drawn.

use vstd::prelude::*;
use crate::actor::Actor;
use crate::actor::ActorId;
use crate::game::Game;
use crate::matrix::Matrix4;
use crate::ordered::Identified;
use crate::ordered::Ordered;
use crate::texture::Texture;

verus! {

/// The identity of a sprite within the game that draws it.
#[derive(Clone, Copy, PartialEq, Eq, Structural, Debug)]
pub struct SpriteId(pub u64);

/// The image that an actor shows. Sprites are drawn in ascending draw
/// order; among equal draw orders the one registered first is drawn first.
#[derive(Clone, Copy, PartialEq, Eq, Structural, Debug)]
pub struct SpriteComponent {
    pub id: SpriteId,
    pub owner: ActorId,
    pub texture: Option<Texture>,
    pub draw_order: i32,
    pub tex_width: i32,
    pub tex_height: i32,
}

/// What the renderer needs to draw one sprite: the owner's world transform,
/// the handle of the texture, and the size of the image.
#[derive(Clone, Copy, Debug)]
pub struct DrawCommand {
    pub world_transform: Matrix4,
    pub texture_id: u32,
    pub width: i32,
    pub height: i32,
}

/// Sprites are ordered by draw order; the serial number is the number of
/// the identity.
impl Identified for SpriteComponent {
    open spec fn serial(&self) -> u64 {
        self.id.0
    }

    fn get_serial(&self) -> (serial: u64) {
        self.id.0
    }
}

impl Ordered for SpriteComponent {
    open spec fn key(&self) -> i32 {
        self.draw_order
    }

    fn get_key(&self) -> (key: i32) {
        self.draw_order
    }
}

impl SpriteComponent {
    /// A sprite of `owner` without a texture.
    pub open spec fn blank(id: SpriteId, owner: ActorId, draw_order: i32) -> SpriteComponent {
        SpriteComponent { id, owner, texture: None, draw_order, tex_width: 0, tex_height: 0 }
    }

    /// The same sprite under the identity `id`.
    pub open spec fn registered_as(self, id: SpriteId) -> SpriteComponent {
        SpriteComponent { id, ..self }
    }

    /// The same sprite with the identity and the draw order of `kept`.
    pub open spec fn keeping(self, kept: SpriteComponent) -> SpriteComponent {
        SpriteComponent { id: kept.id, draw_order: kept.draw_order, ..self }
    }

    /// What to draw for this sprite when its owner's world transform is
    /// `world`: nothing without a texture.
    pub open spec fn command(self, world: Matrix4) -> Option<DrawCommand> {
        match self.texture {
            Some(texture) => Some(
                DrawCommand {
                    world_transform: world,
                    texture_id: texture.texture_id,
                    width: self.tex_width,
                    height: self.tex_height,
                },
            ),
            None => None,
        }
    }

    /// Creates a sprite of `owner` without a texture and puts it on the
    /// draw list of `game`.
    pub fn new(game: &mut Game, owner: ActorId, draw_order: i32) -> (sprite: SpriteComponent)
        requires
            old(game).wf(),
            old(game).can_add_sprite(),
        ensures
            sprite == SpriteComponent::blank(SpriteId(old(game)@.next_sprite), owner, draw_order),
            final(game)@ == old(game)@.with_sprite(sprite),
            final(game).wf(),
    {
        let unregistered = SpriteComponent {
            id: SpriteId(0),
            owner,
            texture: None,
            draw_order,
            tex_width: 0,
            tex_height: 0,
        };
        let id = game.add_sprite(unregistered);
        SpriteComponent { id, owner, texture: None, draw_order, tex_width: 0, tex_height: 0 }
    }

    /// Takes `texture` as the image to show, and its size as the size of
    /// the sprite.
    pub fn set_texture(&mut self, texture: &Texture)
        ensures
            *final(self) == (SpriteComponent {
                texture: Some(*texture),
                tex_width: texture.width as i32,
                tex_height: texture.height as i32,
                ..*old(self)
            }),
    {
        self.texture = Some(*texture);
        self.tex_width = texture.get_width() as i32;
        self.tex_height = texture.get_height() as i32;
    }

    /// What to draw for this sprite, given its owner: the owner's cached
    /// world transform, the texture and the size; nothing without a
    /// texture.
    pub fn draw(&self, owner: &Actor) -> (command: Option<DrawCommand>)
        ensures
            command == self.command(owner@.world_transform),
    {
        match self.texture {
            Some(texture) => Some(
                DrawCommand {
                    world_transform: owner.get_world_transform(),
                    texture_id: texture.get_texture_id(),
                    width: self.tex_width,
                    height: self.tex_height,
                },
            ),
            None => None,
        }
    }

    pub fn get_draw_order(&self) -> (order: i32)
        ensures
            order == self.draw_order,
    {
        self.draw_order
    }

    pub fn get_tex_height(&self) -> (height: i32)
        ensures
            height == self.tex_height,
    {
        self.tex_height
    }

    pub fn get_tex_width(&self) -> (width: i32)
        ensures
            width == self.tex_width,
    {
        self.tex_width
    }
}

} // verus!
