//! The game: the registry of actors, the update pass over it, the draw list
//! and the cache of textures.
//!
//! Actors may be registered and removed while an update pass runs. The pass
//! walks a snapshot of the identities that were registered when it began;
//! an actor registered meanwhile waits in a queue and joins the registry
//! when the pass ends; an actor removed meanwhile is skipped when its turn
//! comes.

use vstd::prelude::*;
use crate::actor::lemma_updated_frame;
use crate::actor::Actor;
use crate::actor::ActorId;
use crate::actor::ActorView;
use crate::actor::Behavior;
use crate::asteroid::Asteroid;
use crate::math::Arithmetic;
use crate::math::Scalar;
use crate::move_component::PlayField;
use crate::ordered::find_serial;
use crate::ordered::holds;
use crate::ordered::in_order;
use crate::ordered::insert_in_order;
use crate::ordered::lemma_with_entry_in_order;
use crate::ordered::position_of;
use crate::ordered::serials_below;
use crate::ordered::with_entry;
use crate::ordered::without_entry;
use crate::sprite_component::DrawCommand;
use crate::sprite_component::SpriteComponent;
use crate::sprite_component::SpriteId;
use crate::texture::Texture;

verus! {

/// The first position in `actors` that holds the identity `id`, or the
/// length of `actors` if there is none.
pub open spec fn index_of(actors: Seq<ActorView>, id: ActorId) -> int
    decreases actors.len(),
{
    if actors.len() == 0 {
        0
    } else if actors[0].id == id {
        0
    } else {
        1 + index_of(actors.drop_first(), id)
    }
}

/// The identities of `actors`, in their order.
pub open spec fn ids_of(actors: Seq<ActorView>) -> Seq<ActorId> {
    Seq::new(actors.len(), |i: int| actors[i].id)
}

/// `s` without its entry at `i`, the last entry moved into its place.
pub open spec fn swap_removed<T>(s: Seq<T>, i: int) -> Seq<T> {
    s.update(i, s.last()).drop_last()
}

/// `index_of` is within bounds, nothing before it holds `id`, and what
/// stands at it does.
pub proof fn lemma_index_of(actors: Seq<ActorView>, id: ActorId)
    ensures
        0 <= index_of(actors, id) <= actors.len(),
        forall|j: int| 0 <= j < index_of(actors, id) ==> (#[trigger] actors[j]).id != id,
        index_of(actors, id) < actors.len() ==> actors[index_of(actors, id)].id == id,
    decreases actors.len(),
{
    if actors.len() > 0 && actors[0].id != id {
        let rest = actors.drop_first();
        lemma_index_of(rest, id);
        let k = index_of(rest, id);
        assert forall|j: int| 0 <= j < k + 1 implies (#[trigger] actors[j]).id != id by {
            if j > 0 {
                assert(actors[j] == rest[j - 1]);
            }
        }
        if k < rest.len() {
        }
    }
}

/// A position with the two properties of `index_of` is `index_of`.
pub proof fn lemma_index_of_is(actors: Seq<ActorView>, id: ActorId, k: int)
    requires
        0 <= k <= actors.len(),
        forall|j: int| 0 <= j < k ==> (#[trigger] actors[j]).id != id,
        k < actors.len() ==> actors[k].id == id,
    ensures
        index_of(actors, id) == k,
    decreases actors.len(),
{
    if actors.len() > 0 && k > 0 {
        let rest = actors.drop_first();
        if k - 1 < rest.len() {
        }
        lemma_index_of_is(rest, id, k - 1);
    }
}

/// What a game is, as contracts see it.
#[verifier::ext_equal]
pub struct GameView {
    /// Whether the game goes on.
    pub running: bool,
    /// The registry: the actors that the next update pass will visit.
    pub actors: Seq<ActorView>,
    /// The actors registered while an update pass runs, in the order in
    /// which they came.
    pub pending: Seq<ActorView>,
    /// Whether an update pass runs.
    pub updating: bool,
    /// The identities that the running pass visits, in its order.
    pub pass: Seq<ActorId>,
    /// How many of them it has visited.
    pub cursor: int,
    /// The draw list.
    pub sprites: Seq<SpriteComponent>,
    /// The asteroids, in the order in which they came.
    pub asteroids: Seq<Asteroid>,
    /// The cache of textures: what was loaded, by the name it was loaded
    /// under.
    pub textures: Map<Seq<char>, Texture>,
    /// The number that the next registered actor gets as its identity.
    pub next_actor: u64,
    /// The number that the next registered sprite gets as its identity.
    pub next_sprite: u64,
    /// The play field that moving actors are wrapped into.
    pub field: PlayField,
}

impl GameView {
    /// Every actor is well formed and carries an identity that was handed
    /// out; no identity occurs twice in registry and queue together; the
    /// draw list is in order; the pass visits no identity twice and only
    /// identities that were handed out; outside a pass the queue and the
    /// snapshot are empty.
    pub open spec fn wf(self) -> bool {
        &&& forall|i: int| 0 <= i < self.actors.len() ==> (#[trigger] self.actors[i]).wf()
        &&& forall|i: int| 0 <= i < self.pending.len() ==> (#[trigger] self.pending[i]).wf()
        &&& forall|i: int|
            0 <= i < self.actors.len() ==> (#[trigger] self.actors[i]).id.0 < self.next_actor
        &&& forall|i: int|
            0 <= i < self.pending.len() ==> (#[trigger] self.pending[i]).id.0 < self.next_actor
        &&& forall|i: int, j: int|
            0 <= i < j < self.actors.len() ==> (#[trigger] self.actors[i]).id != (
            #[trigger] self.actors[j]).id
        &&& forall|i: int, j: int|
            0 <= i < j < self.pending.len() ==> (#[trigger] self.pending[i]).id != (
            #[trigger] self.pending[j]).id
        &&& forall|i: int, j: int|
            0 <= i < self.actors.len() && 0 <= j < self.pending.len() ==> (
            #[trigger] self.actors[i]).id != (#[trigger] self.pending[j]).id
        &&& in_order(self.sprites)
        &&& serials_below(self.sprites, self.next_sprite)
        &&& 0 <= self.cursor <= self.pass.len()
        &&& self.pass.no_duplicates()
        &&& forall|k: int| 0 <= k < self.pass.len() ==> (#[trigger] self.pass[k]).0 < self.next_actor
        &&& !self.updating ==> self.pending.len() == 0 && self.pass.len() == 0 && self.cursor == 0
    }

    /// A game without actors, sprites, asteroids and textures, which goes
    /// on and plays on `field`.
    pub open spec fn initial(field: PlayField) -> GameView {
        GameView {
            running: true,
            actors: Seq::empty(),
            pending: Seq::empty(),
            updating: false,
            pass: Seq::empty(),
            cursor: 0,
            sprites: Seq::empty(),
            asteroids: Seq::empty(),
            textures: Map::empty(),
            next_actor: 0,
            next_sprite: 0,
            field,
        }
    }

    /// Whether an actor with identity `id` is in the registry or the queue.
    pub open spec fn registered(self, id: ActorId) -> bool {
        index_of(self.actors, id) < self.actors.len() || index_of(self.pending, id)
            < self.pending.len()
    }

    /// The actor with identity `id`, looked for in the registry first and
    /// then in the queue.
    pub open spec fn actor(self, id: ActorId) -> ActorView
        recommends
            self.registered(id),
    {
        if index_of(self.actors, id) < self.actors.len() {
            self.actors[index_of(self.actors, id)]
        } else {
            self.pending[index_of(self.pending, id)]
        }
    }

    /// The game after `actor` was registered under the next identity: at
    /// the end of the queue while a pass runs, else at the end of the
    /// registry.
    pub open spec fn with_actor(self, actor: ActorView) -> GameView {
        let bound = actor.rebound(ActorId(self.next_actor));
        if self.updating {
            GameView {
                pending: self.pending.push(bound),
                next_actor: (self.next_actor + 1) as u64,
                ..self
            }
        } else {
            GameView {
                actors: self.actors.push(bound),
                next_actor: (self.next_actor + 1) as u64,
                ..self
            }
        }
    }

    /// The game without the actor with identity `id`: taken from the queue
    /// or from the registry, the last entry of that list moved into its
    /// place. The snapshot of a running pass is not touched.
    pub open spec fn without_actor(self, id: ActorId) -> GameView {
        if index_of(self.pending, id) < self.pending.len() {
            GameView { pending: swap_removed(self.pending, index_of(self.pending, id)), ..self }
        } else if index_of(self.actors, id) < self.actors.len() {
            GameView { actors: swap_removed(self.actors, index_of(self.actors, id)), ..self }
        } else {
            self
        }
    }

    /// The game with `actor` in the place of the actor with identity `id`.
    pub open spec fn with_actor_replaced(self, id: ActorId, actor: ActorView) -> GameView {
        if index_of(self.actors, id) < self.actors.len() {
            GameView { actors: self.actors.update(index_of(self.actors, id), actor), ..self }
        } else if index_of(self.pending, id) < self.pending.len() {
            GameView { pending: self.pending.update(index_of(self.pending, id), actor), ..self }
        } else {
            self
        }
    }

    /// The game after an update pass began: the snapshot holds the
    /// identities of the registry, none is visited yet. A pass that runs
    /// already goes on as it is.
    pub open spec fn begun(self) -> GameView {
        if self.updating {
            self
        } else {
            GameView { updating: true, pass: ids_of(self.actors), cursor: 0, ..self }
        }
    }

    /// The game after the update pass ended: the queue has joined the
    /// registry at its end, in the order of arrival, and is empty.
    pub open spec fn ended(self) -> GameView {
        GameView {
            updating: false,
            actors: self.actors + self.pending,
            pending: Seq::empty(),
            pass: Seq::empty(),
            cursor: 0,
            ..self
        }
    }

    /// The game after `sprite` was put on the draw list under the next
    /// identity: before the first sprite of strictly greater draw order,
    /// after all of equal draw order.
    pub open spec fn with_sprite(self, sprite: SpriteComponent) -> GameView {
        GameView {
            sprites: with_entry(self.sprites, sprite.registered_as(SpriteId(self.next_sprite))),
            next_sprite: (self.next_sprite + 1) as u64,
            ..self
        }
    }

    /// Whether a sprite with identity `id` is on the draw list.
    pub open spec fn has_sprite(self, id: SpriteId) -> bool {
        holds(self.sprites, id.0)
    }

    /// The sprite with identity `id`.
    pub open spec fn sprite(self, id: SpriteId) -> SpriteComponent
        recommends
            self.has_sprite(id),
    {
        self.sprites[position_of(self.sprites, id.0)]
    }

    /// The game without the sprite with identity `id`.
    pub open spec fn without_sprite(self, id: SpriteId) -> GameView {
        GameView { sprites: without_entry(self.sprites, id.0), ..self }
    }

    /// The game after the sprite that shares its identity with `sprite`
    /// took what `sprite` holds, keeping its own identity and draw order.
    pub open spec fn with_sprite_replaced(self, sprite: SpriteComponent) -> GameView {
        if self.has_sprite(sprite.id) {
            GameView {
                sprites: self.sprites.update(
                    position_of(self.sprites, sprite.id.0),
                    sprite.keeping(self.sprite(sprite.id)),
                ),
                ..self
            }
        } else {
            self
        }
    }

    /// The game without the first asteroid of the actor `actor`.
    pub open spec fn without_asteroid(self, actor: ActorId) -> GameView {
        GameView { asteroids: without_entry(self.asteroids, actor.0), ..self }
    }

    /// `after` is `before` once the texture named `name` was asked for, and
    /// `texture` is the answer. Where the cache holds one under the name,
    /// that one is the answer and nothing changes. Else the answer is that
    /// of `load`: a texture is kept under the name, the lack of one leaves
    /// the cache as it is.
    pub open spec fn fetched<F: FnOnce(&str) -> Option<Texture>>(
        load: F,
        name: &str,
        before: GameView,
        after: GameView,
        texture: Option<Texture>,
    ) -> bool {
        if before.textures.contains_key(name@) {
            texture == Some(before.textures[name@]) && after == before
        } else {
            &&& call_ensures(load, (name,), texture)
            &&& after == (match texture {
                Some(loaded) => GameView { textures: before.textures.insert(name@, loaded), ..before },
                None => before,
            })
        }
    }

    /// What to draw for the first sprites of the draw list, `sprites`, in
    /// their order: for each sprite that has a texture and whose owner is
    /// registered, the owner's cached world transform, the texture and the
    /// size.
    pub open spec fn commands_of(self, sprites: Seq<SpriteComponent>) -> Seq<DrawCommand>
        decreases sprites.len(),
    {
        if sprites.len() == 0 {
            Seq::empty()
        } else {
            let before = self.commands_of(sprites.drop_last());
            match self.command_of(sprites.last()) {
                Some(command) => before.push(command),
                None => before,
            }
        }
    }

    /// What to draw for `sprite`: nothing where it has no texture or its
    /// owner is not registered.
    pub open spec fn command_of(self, sprite: SpriteComponent) -> Option<DrawCommand> {
        if self.registered(sprite.owner) {
            sprite.command(self.actor(sprite.owner).world_transform)
        } else {
            None
        }
    }

    /// What to draw this frame, in the order in which to draw it.
    pub open spec fn draw_commands(self) -> Seq<DrawCommand> {
        self.commands_of(self.sprites)
    }

    /// `after` is `before` once the running pass took its next step, and
    /// `visited` is the identity whose turn it was. Where the pass has
    /// visited its whole snapshot, nothing changes and `visited` is `None`.
    /// Else the pass moves on by one; the actor whose turn it is was
    /// updated if it is still in the registry, and nothing else changed.
    pub open spec fn stepped<A: Arithmetic, B: Behavior>(
        ops: &A,
        behavior: &B,
        dt: Scalar,
        before: GameView,
        after: GameView,
        visited: Option<ActorId>,
    ) -> bool {
        if before.cursor >= before.pass.len() {
            visited.is_none() && after == before
        } else {
            let id = before.pass[before.cursor];
            let at = index_of(before.actors, id);
            &&& visited == Some(id)
            &&& if at < before.actors.len() {
                &&& after.actors.len() == before.actors.len()
                &&& after == (GameView {
                    cursor: before.cursor + 1,
                    actors: before.actors.update(at, after.actors[at]),
                    ..before
                })
                &&& ActorView::updated(ops, behavior, before.field, dt, before.actors[at], after.actors[at])
            } else {
                after == (GameView { cursor: before.cursor + 1, ..before })
            }
        }
    }
}

/// Putting a well-formed actor in the place of a registered one of the same
/// identity keeps the game well formed.
pub proof fn lemma_replaced_wf(game: GameView, id: ActorId, actor: ActorView)
    requires
        game.wf(),
        actor.wf(),
        actor.id == id,
    ensures
        game.with_actor_replaced(id, actor).wf(),
{
    lemma_index_of(game.actors, id);
    lemma_index_of(game.pending, id);
    let after = game.with_actor_replaced(id, actor);
    let at = index_of(game.actors, id);
    let queued = index_of(game.pending, id);
    if at < game.actors.len() {
    } else if queued < game.pending.len() {
    }
}

/// A texture kept under the name it was loaded by.
struct CachedTexture {
    name: String,
    texture: Texture,
}

/// What the cache holds: each name with the texture of the first entry
/// under that name.
closed spec fn cache_of(entries: Seq<CachedTexture>) -> Map<Seq<char>, Texture>
    decreases entries.len(),
{
    if entries.len() == 0 {
        Map::empty()
    } else {
        let before = cache_of(entries.drop_last());
        if before.contains_key(entries.last().name@) {
            before
        } else {
            before.insert(entries.last().name@, entries.last().texture)
        }
    }
}

/// A name that no entry carries is not in the cache.
proof fn lemma_cache_miss(entries: Seq<CachedTexture>, name: Seq<char>)
    requires
        forall|j: int| 0 <= j < entries.len() ==> (#[trigger] entries[j]).name@ != name,
    ensures
        !cache_of(entries).contains_key(name),
    decreases entries.len(),
{
    if entries.len() > 0 {
        let rest = entries.drop_last();
        lemma_cache_miss(rest, name);
    }
}

/// The cache holds, under a name, the texture of the first entry that
/// carries the name.
proof fn lemma_cache_hit(entries: Seq<CachedTexture>, name: Seq<char>, i: int)
    requires
        0 <= i < entries.len(),
        entries[i].name@ == name,
        forall|j: int| 0 <= j < i ==> (#[trigger] entries[j]).name@ != name,
    ensures
        cache_of(entries).contains_key(name),
        cache_of(entries)[name] == entries[i].texture,
    decreases entries.len(),
{
    let rest = entries.drop_last();
    if i == entries.len() - 1 {
        lemma_cache_miss(rest, name);
    } else {
        lemma_cache_hit(rest, name, i);
    }
}

/// The game.
pub struct Game {
    is_running: bool,
    actors: Vec<Actor>,
    pending_actors: Vec<Actor>,
    updating_actors: bool,
    pass: Vec<ActorId>,
    cursor: usize,
    sprites: Vec<SpriteComponent>,
    asteroids: Vec<Asteroid>,
    textures: Vec<CachedTexture>,
    next_actor: u64,
    next_sprite: u64,
    play_field: PlayField,
}

/// The views of `actors`, in their order.
pub closed spec fn views_of(actors: Seq<Actor>) -> Seq<ActorView> {
    Seq::new(actors.len(), |i: int| actors[i]@)
}

impl View for Game {
    type V = GameView;

    closed spec fn view(&self) -> GameView {
        GameView {
            running: self.is_running,
            actors: views_of(self.actors@),
            pending: views_of(self.pending_actors@),
            updating: self.updating_actors,
            pass: self.pass@,
            cursor: self.cursor as int,
            sprites: self.sprites@,
            asteroids: self.asteroids@,
            textures: cache_of(self.textures@),
            next_actor: self.next_actor,
            next_sprite: self.next_sprite,
            field: self.play_field,
        }
    }
}

impl Game {
    /// Whether the game's invariant holds.
    pub open spec fn wf(&self) -> bool {
        self@.wf()
    }

    /// Whether an identity is left for one more actor.
    pub open spec fn spec_can_register(&self) -> bool {
        self@.next_actor < u64::MAX
    }

    /// Whether an identity is left for one more actor.
    #[verifier::when_used_as_spec(spec_can_register)]
    pub fn can_register(&self) -> (b: bool)
        ensures
            b == self.spec_can_register(),
    {
        self.next_actor < u64::MAX
    }

    /// A game without actors, sprites, asteroids and textures, on the play
    /// field of the screen.
    pub fn new() -> (game: Game)
        ensures
            game@ == GameView::initial(PlayField::spec_screen()),
            game.wf(),
    {
        let game = Game {
            is_running: true,
            actors: Vec::new(),
            pending_actors: Vec::new(),
            updating_actors: false,
            pass: Vec::new(),
            cursor: 0,
            sprites: Vec::new(),
            asteroids: Vec::new(),
            textures: Vec::new(),
            next_actor: 0,
            next_sprite: 0,
            play_field: PlayField::screen(),
        };
        game
    }

    /// Registers `actor` under the next identity, whatever identity it
    /// carried: in the queue while an update pass runs, so that the pass
    /// does not see it, else in the registry.
    pub fn add_actor(&mut self, actor: Actor) -> (id: ActorId)
        requires
            old(self).wf(),
            old(self).can_register(),
            actor.wf(),
        ensures
            id == ActorId(old(self)@.next_actor),
            final(self)@ == old(self)@.with_actor(actor@),
            final(self).wf(),
    {
        let id = ActorId(self.next_actor);
        let mut actor = actor;
        actor.bind(id);
        if self.updating_actors {
            self.pending_actors.push(actor);
            assert(self@.pending =~= old(self)@.pending.push(actor@));
        } else {
            self.actors.push(actor);
        }
        self.next_actor = self.next_actor + 1;
        id
    }

    /// The position in `actors` of the actor with identity `id`, or their
    /// number.
    fn find_actor(actors: &Vec<Actor>, id: ActorId) -> (index: usize)
        ensures
            index == index_of(views_of(actors@), id),
            index <= actors@.len(),
    {
        let mut index: usize = 0;
        loop
            invariant_except_break
                index <= actors.len(),
                forall|j: int| 0 <= j < index ==> (#[trigger] views_of(actors@)[j]).id != id,
            ensures
                index <= actors.len(),
                forall|j: int| 0 <= j < index ==> (#[trigger] views_of(actors@)[j]).id != id,
                index < actors.len() ==> views_of(actors@)[index as int].id == id,
            decreases actors.len() - index,
        {
            if index >= actors.len() {
                break ;
            }
            if actors[index].get_id() == id {
                break ;
            }
            index += 1;
        }
        proof {
            lemma_index_of_is(views_of(actors@), id, index as int);
        }
        index
    }

    /// Takes the actor with identity `id` out of the queue or the registry
    /// and hands it back; does nothing where there is none. A running
    /// update pass skips the actor when its turn comes.
    pub fn remove_actor(&mut self, id: ActorId) -> (removed: Option<Actor>)
        requires
            old(self).wf(),
        ensures
            final(self)@ == old(self)@.without_actor(id),
            match removed {
                Some(actor) => old(self)@.registered(id) && actor@ == old(self)@.actor(id),
                None => !old(self)@.registered(id),
            },
            final(self).wf(),
    {
        proof {
            lemma_index_of(self@.actors, id);
            lemma_index_of(self@.pending, id);
        }
        let queued = Game::find_actor(&self.pending_actors, id);
        if queued < self.pending_actors.len() {
            let actor = self.pending_actors.swap_remove(queued);
            proof {
                assert(self@.pending =~= swap_removed(old(self)@.pending, queued as int));
                let at = index_of(old(self)@.actors, id);
                if at < old(self)@.actors.len() {
                }
            }
            return Some(actor);
        }
        let at = Game::find_actor(&self.actors, id);
        if at < self.actors.len() {
            let actor = self.actors.swap_remove(at);
            proof {
                assert(self@.actors =~= swap_removed(old(self)@.actors, at as int));
            }
            return Some(actor);
        }
        None
    }

    /// The actor with identity `id`, looked for in the registry first and
    /// then in the queue.
    pub fn actor(&self, id: ActorId) -> (found: Option<&Actor>)
        ensures
            match found {
                Some(actor) => self@.registered(id) && actor@ == self@.actor(id),
                None => !self@.registered(id),
            },
    {
        let at = Game::find_actor(&self.actors, id);
        if at < self.actors.len() {
            return Some(&self.actors[at]);
        }
        let queued = Game::find_actor(&self.pending_actors, id);
        if queued < self.pending_actors.len() {
            return Some(&self.pending_actors[queued]);
        }
        None
    }

    /// The actor with identity `id`, to be changed in place. The game stays
    /// well formed as long as the actor does and keeps its identity.
    pub fn actor_mut(&mut self, id: ActorId) -> (found: Option<&mut Actor>)
        ensures
            match found {
                Some(actor) => old(self)@.registered(id) && actor@ == old(self)@.actor(id)
                    && final(self)@ =~= old(self)@.with_actor_replaced(id, final(actor)@),
                None => !old(self)@.registered(id) && final(self)@ == old(self)@,
            },
    {
        let at = Game::find_actor(&self.actors, id);
        if at < self.actors.len() {
            return Some(&mut self.actors[at]);
        }
        let queued = Game::find_actor(&self.pending_actors, id);
        if queued < self.pending_actors.len() {
            return Some(&mut self.pending_actors[queued]);
        }
        None
    }
}

impl Game {
    /// Begins an update pass: takes the snapshot of the identities in the
    /// registry and marks the pass as running. Does nothing while a pass
    /// runs already.
    pub fn begin_update(&mut self)
        requires
            old(self).wf(),
        ensures
            final(self)@ == old(self)@.begun(),
            final(self).wf(),
    {
        if !self.updating_actors {
            let pass = Game::ids(&self.actors);
            self.pass = pass;
            self.cursor = 0;
            self.updating_actors = true;
        }
    }

    /// Takes the next step of the running update pass and answers the
    /// identity whose turn it was: the actor with that identity is updated
    /// over the time `delta_time` if it is still in the registry, and
    /// skipped if it was removed meanwhile. Answers `None`, and does
    /// nothing, where no pass runs or the pass has visited its whole
    /// snapshot.
    pub fn update_next<A: Arithmetic, B: Behavior>(
        &mut self,
        delta_time: Scalar,
        ops: &A,
        behavior: &B,
    ) -> (visited: Option<ActorId>)
        requires
            old(self).wf(),
        ensures
            GameView::stepped(ops, behavior, delta_time, old(self)@, final(self)@, visited),
            final(self).wf(),
    {
        if self.cursor >= self.pass.len() {
            return None;
        }
        let id = self.pass[self.cursor];
        self.cursor = self.cursor + 1;
        let at = Game::find_actor(&self.actors, id);
        if at < self.actors.len() {
            let field = self.play_field;
            proof {
                lemma_index_of(old(self)@.actors, id);
            }
            self.actors[at].update(delta_time, &field, ops, behavior);
            proof {
                let before = old(self)@;
                let after = self@;
                assert(after.actors =~= before.actors.update(at as int, after.actors[at as int]));
                lemma_updated_frame(
                    ops,
                    behavior,
                    before.field,
                    delta_time,
                    before.actors[at as int],
                    after.actors[at as int],
                );
            }
        }
        Some(id)
    }

    /// Ends the update pass: the actors that were registered while it ran
    /// join the registry, in the order in which they came.
    pub fn end_update(&mut self)
        requires
            old(self).wf(),
        ensures
            final(self)@ == old(self)@.ended(),
            final(self).wf(),
    {
        self.updating_actors = false;
        self.actors.append(&mut self.pending_actors);
        self.pass.clear();
        self.cursor = 0;
        proof {
            let before = old(self)@;
            let after = self@;
            assert(after.actors =~= before.actors + before.pending);
        }
    }

    /// Runs a whole update pass: every actor of the registry is updated
    /// once over the time `delta_time`, in the order of the registry. Does
    /// nothing while a pass runs already.
    pub fn update_game<A: Arithmetic, B: Behavior>(&mut self, delta_time: Scalar, ops: &A, behavior: &B)
        requires
            old(self).wf(),
        ensures
            old(self)@.updating ==> final(self)@ == old(self)@,
            !old(self)@.updating ==> {
                &&& final(self)@ == (GameView { actors: final(self)@.actors, ..old(self)@ })
                &&& final(self)@.actors.len() == old(self)@.actors.len()
                &&& forall|i: int|
                    0 <= i < old(self)@.actors.len() ==> ActorView::updated(
                        ops,
                        behavior,
                        old(self)@.field,
                        delta_time,
                        old(self)@.actors[i],
                        #[trigger] final(self)@.actors[i],
                    )
            },
            final(self).wf(),
    {
        if self.updating_actors {
            return ;
        }
        self.begin_update();
        loop
            invariant_except_break
                self.wf(),
                self@ == (GameView {
                    actors: self@.actors,
                    updating: true,
                    pass: ids_of(old(self)@.actors),
                    cursor: self@.cursor,
                    ..old(self)@
                }),
                self@.actors.len() == old(self)@.actors.len(),
                forall|i: int|
                    0 <= i < self@.actors.len() ==> (#[trigger] self@.actors[i]).id == old(
                        self,
                    )@.actors[i].id,
                forall|i: int|
                    0 <= i < self@.cursor ==> ActorView::updated(
                        ops,
                        behavior,
                        old(self)@.field,
                        delta_time,
                        old(self)@.actors[i],
                        #[trigger] self@.actors[i],
                    ),
                forall|i: int|
                    self@.cursor <= i < self@.actors.len() ==> #[trigger] self@.actors[i] == old(
                        self,
                    )@.actors[i],
            ensures
                self.wf(),
                self@ == (GameView {
                    actors: self@.actors,
                    updating: true,
                    pass: ids_of(old(self)@.actors),
                    cursor: self@.cursor,
                    ..old(self)@
                }),
                self@.cursor == self@.pass.len(),
                self@.actors.len() == old(self)@.actors.len(),
                forall|i: int|
                    0 <= i < self@.cursor ==> ActorView::updated(
                        ops,
                        behavior,
                        old(self)@.field,
                        delta_time,
                        old(self)@.actors[i],
                        #[trigger] self@.actors[i],
                    ),
            decreases self@.pass.len() - self@.cursor,
        {
            let ghost before = self@;
            let visited = self.update_next(delta_time, ops, behavior);
            if visited.is_none() {
                break ;
            }
            proof {
                let k = before.cursor;
                lemma_index_of_is_own(before.actors, k);
                lemma_updated_frame(
                    ops,
                    behavior,
                    before.field,
                    delta_time,
                    before.actors[k],
                    self@.actors[k],
                );
            }
        }
        self.end_update();
    }

    /// The identities in `actors`, in their order.
    fn ids(actors: &Vec<Actor>) -> (ids: Vec<ActorId>)
        ensures
            ids@ == ids_of(views_of(actors@)),
    {
        let mut ids: Vec<ActorId> = Vec::new();
        let mut i: usize = 0;
        while i < actors.len()
            invariant
                i <= actors.len(),
                ids@.len() == i,
                forall|k: int| 0 <= k < i ==> #[trigger] ids@[k] == views_of(actors@)[k].id,
            decreases actors.len() - i,
        {
            ids.push(actors[i].get_id());
            i += 1;
        }
        ids
    }

    /// The identities of the actors in the registry, in its order.
    pub fn actor_ids(&self) -> (ids: Vec<ActorId>)
        ensures
            ids@ == ids_of(self@.actors),
    {
        Game::ids(&self.actors)
    }

    /// The identities of the actors in the queue, in the order in which
    /// they came.
    pub fn pending_ids(&self) -> (ids: Vec<ActorId>)
        ensures
            ids@ == ids_of(self@.pending),
    {
        Game::ids(&self.pending_actors)
    }

    /// The draw list, in draw order.
    pub fn get_sprites(&self) -> (sprites: &Vec<SpriteComponent>)
        ensures
            sprites@ == self@.sprites,
    {
        &self.sprites
    }

    /// The play field that moving actors are wrapped into.
    pub fn get_play_field(&self) -> (field: PlayField)
        ensures
            field == self@.field,
    {
        self.play_field
    }

    /// Sets the play field that moving actors are wrapped into.
    pub fn set_play_field(&mut self, field: PlayField)
        ensures
            final(self)@ == (GameView { field, ..old(self)@ }),
    {
        self.play_field = field;
    }

    /// Whether an update pass runs.
    pub fn is_updating(&self) -> (updating: bool)
        ensures
            updating == self@.updating,
    {
        self.updating_actors
    }

    /// Whether the game goes on.
    pub fn is_running(&self) -> (running: bool)
        ensures
            running == self@.running,
    {
        self.is_running
    }

    /// Takes note of what the player asked for: the game stops going on
    /// where the window was closed or the escape key is pressed.
    pub fn process_input(&mut self, quit_requested: bool, escape_pressed: bool)
        ensures
            final(self)@ == (GameView {
                running: old(self)@.running && !quit_requested && !escape_pressed,
                ..old(self)@
            }),
    {
        if quit_requested {
            self.is_running = false;
        }
        if escape_pressed {
            self.is_running = false;
        }
    }
}

impl Game {
    /// Whether an identity is left for one more sprite.
    pub open spec fn spec_can_add_sprite(&self) -> bool {
        self@.next_sprite < u64::MAX
    }

    /// Whether an identity is left for one more sprite.
    #[verifier::when_used_as_spec(spec_can_add_sprite)]
    pub fn can_add_sprite(&self) -> (b: bool)
        ensures
            b == self.spec_can_add_sprite(),
    {
        self.next_sprite < u64::MAX
    }

    /// Puts `sprite` on the draw list under the next identity, whatever
    /// identity it carried: before the first sprite of strictly greater
    /// draw order, so after all of equal draw order.
    pub fn add_sprite(&mut self, sprite: SpriteComponent) -> (id: SpriteId)
        requires
            old(self).wf(),
            old(self).can_add_sprite(),
        ensures
            id == SpriteId(old(self)@.next_sprite),
            final(self)@ == old(self)@.with_sprite(sprite),
            final(self).wf(),
    {
        let id = SpriteId(self.next_sprite);
        let registered = SpriteComponent {
            id,
            owner: sprite.owner,
            texture: sprite.texture,
            draw_order: sprite.draw_order,
            tex_width: sprite.tex_width,
            tex_height: sprite.tex_height,
        };
        proof {
            lemma_with_entry_in_order(self.sprites@, registered);
        }
        insert_in_order(&mut self.sprites, registered);
        self.next_sprite = self.next_sprite + 1;
        id
    }

    /// Takes the sprite with identity `id` off the draw list and hands it
    /// back; does nothing where there is none.
    pub fn remove_sprite(&mut self, id: SpriteId) -> (removed: Option<SpriteComponent>)
        requires
            old(self).wf(),
        ensures
            final(self)@ == old(self)@.without_sprite(id),
            removed == (if old(self)@.has_sprite(id) {
                Some(old(self)@.sprite(id))
            } else {
                None
            }),
            final(self).wf(),
    {
        let index = find_serial(&self.sprites, id.0);
        if index < self.sprites.len() {
            Some(self.sprites.remove(index))
        } else {
            None
        }
    }

    /// The sprite with identity `id`, if it is on the draw list.
    pub fn sprite(&self, id: SpriteId) -> (found: Option<SpriteComponent>)
        ensures
            found == (if self@.has_sprite(id) {
                Some(self@.sprite(id))
            } else {
                None
            }),
    {
        let index = find_serial(&self.sprites, id.0);
        if index < self.sprites.len() {
            Some(self.sprites[index])
        } else {
            None
        }
    }

    /// Lets the sprite on the draw list that shares its identity with
    /// `sprite` take what `sprite` holds; identity and draw order stay.
    /// Answers whether there was one.
    pub fn set_sprite(&mut self, sprite: SpriteComponent) -> (found: bool)
        requires
            old(self).wf(),
        ensures
            found == old(self)@.has_sprite(sprite.id),
            final(self)@ == old(self)@.with_sprite_replaced(sprite),
            final(self).wf(),
    {
        let index = find_serial(&self.sprites, sprite.id.0);
        if index < self.sprites.len() {
            let kept = self.sprites[index];
            self.sprites.set(
                index,
                SpriteComponent {
                    id: kept.id,
                    owner: sprite.owner,
                    texture: sprite.texture,
                    draw_order: kept.draw_order,
                    tex_width: sprite.tex_width,
                    tex_height: sprite.tex_height,
                },
            );
            true
        } else {
            false
        }
    }

    /// Adds `asteroid` at the end of the list of asteroids.
    pub fn add_asteroid(&mut self, asteroid: Asteroid)
        ensures
            final(self)@ == (GameView {
                asteroids: old(self)@.asteroids.push(asteroid),
                ..old(self)@
            }),
    {
        self.asteroids.push(asteroid);
    }

    /// Takes the first asteroid of the actor `actor` off the list of
    /// asteroids and hands it back; does nothing where there is none.
    pub fn remove_asteroid(&mut self, actor: ActorId) -> (removed: Option<Asteroid>)
        ensures
            final(self)@ == old(self)@.without_asteroid(actor),
            removed == (if holds(old(self)@.asteroids, actor.0) {
                Some(old(self)@.asteroids[position_of(old(self)@.asteroids, actor.0)])
            } else {
                None
            }),
    {
        let index = find_serial(&self.asteroids, actor.0);
        if index < self.asteroids.len() {
            Some(self.asteroids.remove(index))
        } else {
            None
        }
    }

    /// The asteroids, in the order in which they came.
    pub fn get_asteroids(&self) -> (asteroids: &Vec<Asteroid>)
        ensures
            asteroids@ == self@.asteroids,
    {
        &self.asteroids
    }

    /// The texture loaded under the name `file_name`. Where the cache holds
    /// one, that one is answered and `load` is not asked. Else `load` is
    /// asked for it: a texture it answers is kept under the name and
    /// answered; where it answers none, none is answered and the cache
    /// stays as it is.
    pub fn get_texture<F: FnOnce(&str) -> Option<Texture>>(
        &mut self,
        file_name: &str,
        load: F,
    ) -> (texture: Option<Texture>)
        requires
            call_requires(load, (file_name,)),
        ensures
            GameView::fetched(load, file_name, old(self)@, final(self)@, texture),
            old(self).wf() ==> final(self).wf(),
    {
        let name = file_name.to_owned();
        let mut index: usize = 0;
        while index < self.textures.len()
            invariant
                index <= self.textures.len(),
                name@ == file_name@,
                forall|j: int| 0 <= j < index ==> (#[trigger] self.textures@[j]).name@ != name@,
            decreases self.textures.len() - index,
        {
            if self.textures[index].name == name {
                proof {
                    lemma_cache_hit(self.textures@, name@, index as int);
                }
                return Some(self.textures[index].texture);
            }
            index += 1;
        }
        proof {
            lemma_cache_miss(self.textures@, name@);
        }
        let loaded = load(file_name);
        match loaded {
            Some(texture) => {
                self.textures.push(CachedTexture { name, texture });
                proof {
                    assert(self.textures@.drop_last() =~= old(self).textures@);
                }
                Some(texture)
            },
            None => None,
        }
    }

    /// What to draw this frame, in draw order: for each sprite that has a
    /// texture and whose owner is registered, the owner's cached world
    /// transform, the texture and the size.
    pub fn generate_output(&self) -> (commands: Vec<DrawCommand>)
        ensures
            commands@ == self@.draw_commands(),
    {
        let mut commands: Vec<DrawCommand> = Vec::new();
        let mut i: usize = 0;
        while i < self.sprites.len()
            invariant
                i <= self.sprites.len(),
                commands@ == self@.commands_of(self.sprites@.subrange(0, i as int)),
            decreases self.sprites.len() - i,
        {
            let sprite = self.sprites[i];
            proof {
                assert(self.sprites@.subrange(0, i + 1).drop_last() =~= self.sprites@.subrange(
                    0,
                    i as int,
                ));
            }
            match self.actor(sprite.owner) {
                Some(owner) => {
                    match sprite.draw(owner) {
                        Some(command) => {
                            commands.push(command);
                        },
                        None => {},
                    }
                },
                None => {},
            }
            i += 1;
        }
        proof {
            assert(self.sprites@.subrange(0, self.sprites@.len() as int) =~= self.sprites@);
        }
        commands
    }
}

/// An actor registered while an update pass runs waits in the queue: the
/// snapshot of the pass does not hold its identity and the registry, in
/// which the pass looks its actors up, does not hold the actor, so the pass
/// does not update it. When the pass ends the actor stands last in the
/// registry, and the snapshot of the next pass holds its identity.
pub proof fn lemma_registered_during_pass(game: GameView, actor: ActorView)
    requires
        game.wf(),
        game.updating,
    ensures
        ({
            let id = ActorId(game.next_actor);
            let after = game.with_actor(actor);
            &&& after.pass == game.pass
            &&& after.cursor == game.cursor
            &&& !after.pass.contains(id)
            &&& after.actors == game.actors
            &&& index_of(after.actors, id) == after.actors.len()
            &&& after.pending == game.pending.push(actor.rebound(id))
            &&& after.ended().actors.last() == actor.rebound(id)
            &&& index_of(after.ended().actors, id) == after.ended().actors.len() - 1
            &&& after.ended().begun().pass.last() == id
        }),
{
    let id = ActorId(game.next_actor);
    let after = game.with_actor(actor);
    let ended = after.ended();
    lemma_index_of_is(after.actors, id, after.actors.len() as int);
    lemma_index_of_is(ended.actors, id, ended.actors.len() - 1);
    if after.pass.contains(id) {
        let k = choose|k: int| 0 <= k < after.pass.len() && after.pass[k] == id;
    }
}

/// Removing an actor, whether an update pass runs or not, keeps the game
/// well formed and leaves the snapshot of the pass and its progress as they
/// are; the actor is registered no more, so the pass skips it when its turn
/// comes.
pub proof fn lemma_removed_during_pass(game: GameView, id: ActorId)
    requires
        game.wf(),
    ensures
        game.without_actor(id).wf(),
        game.without_actor(id).pass == game.pass,
        game.without_actor(id).cursor == game.cursor,
        !game.without_actor(id).registered(id),
{
    lemma_index_of(game.actors, id);
    lemma_index_of(game.pending, id);
    let after = game.without_actor(id);
    let queued = index_of(game.pending, id);
    let at = index_of(game.actors, id);
    if queued < game.pending.len() {
        lemma_index_of_is(after.pending, id, after.pending.len() as int);
    } else if at < game.actors.len() {
        lemma_index_of_is(after.actors, id, after.actors.len() as int);
    }
}

/// A pass visits no identity twice.
pub proof fn lemma_pass_visits_once(game: GameView, i: int, j: int)
    requires
        game.wf(),
        0 <= i < game.pass.len(),
        0 <= j < game.pass.len(),
        i != j,
    ensures
        game.pass[i] != game.pass[j],
{
}

/// A step of the pass moves on by one and changes at most the actor whose
/// turn it is; where that actor is registered no more, it changes no actor
/// at all. The game stays well formed.
pub proof fn lemma_step_updates_one<A: Arithmetic, B: Behavior>(
    ops: &A,
    behavior: &B,
    dt: Scalar,
    before: GameView,
    after: GameView,
    visited: Option<ActorId>,
)
    requires
        before.wf(),
        GameView::stepped(ops, behavior, dt, before, after, visited),
    ensures
        after.wf(),
        after.pass == before.pass,
        after.pending == before.pending,
        after.actors.len() == before.actors.len(),
        visited is Some ==> after.cursor == before.cursor + 1 && visited == Some(
            before.pass[before.cursor],
        ),
        visited is None ==> after == before,
        forall|j: int|
            0 <= j < before.actors.len() && Some((#[trigger] before.actors[j]).id) != visited
                ==> after.actors[j] == before.actors[j],
        visited is Some && index_of(before.actors, visited->Some_0) == before.actors.len()
            ==> after.actors == before.actors,
{
    if before.cursor < before.pass.len() {
        let id = before.pass[before.cursor];
        let at = index_of(before.actors, id);
        lemma_index_of(before.actors, id);
        if at < before.actors.len() {
            lemma_updated_frame(ops, behavior, before.field, dt, before.actors[at], after.actors[at]);
        }
    }
}

/// Where no identity occurs twice, the first position that holds the
/// identity of the actor at `k` is `k`.
pub proof fn lemma_index_of_is_own(actors: Seq<ActorView>, k: int)
    requires
        0 <= k < actors.len(),
        forall|i: int, j: int|
            0 <= i < j < actors.len() ==> (#[trigger] actors[i]).id != (#[trigger] actors[j]).id,
    ensures
        index_of(actors, actors[k].id) == k,
{
    lemma_index_of_is(actors, actors[k].id, k);
}

} // verus!
