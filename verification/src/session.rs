//! One game: the player, the live fallers, the spawner and the clock, and
//! the tick that moves them all.
use vstd::prelude::*;
use rand::rngs::StdRng;
use crate::config::{
    Config, ConfigError, Ramp, SpawnMode, Wave, FULL_CHANCE, TIME_UNITS_PER_SECOND,
};
use crate::faller::Faller;
use crate::geometry::{collides, collides_spec};
use crate::motion::elapsed_part;
use crate::pattern::{column_pair, wave_steps, Pattern, Step, StepView};
use crate::player::{button_keeps_wf, Key, Player, Transition};
use crate::random::{draw_below, seeded};

verus! {

/// Whether the game is running or has ended.
#[derive(Clone, Copy, Debug, PartialEq, Eq, Structural)]
pub enum State {
    Playing,
    GameOver,
}

/// A game session. It owns everything that a tick changes.
///
/// A session is only made by `Session::new` and only changed by its own
/// methods, each of which keeps the rules of `SessionView::wf`.
pub struct Session {
    config: Config,
    player: Player,
    fallers: Vec<Faller>,
    spawn_percent_chance: i64,
    size_offset: i64,
    rng: StdRng,
    pattern: Option<Pattern>,
    elapsed: i64,
    state: State,
}

/// What a session is to a contract: all of it but the state of the random
/// source.
#[verifier::ext_equal]
pub ghost struct SessionView {
    pub config: Config,
    pub player: Player,
    /// The live fallers, oldest first.
    pub fallers: Seq<Faller>,
    pub spawn_percent_chance: i64,
    pub size_offset: i64,
    /// The steps left of the active pattern, if one is active.
    pub pattern: Option<Seq<StepView>>,
    /// Time played, in time units.
    pub elapsed: i64,
    pub state: State,
}

/// The sum of two amounts, held at the largest number that fits.
pub open spec fn capped_sum(a: int, b: int) -> int {
    if a + b > i64::MAX {
        i64::MAX as int
    } else {
        a + b
    }
}

/// The predicate that keeps the fallers that are not dead.
pub open spec fn is_live() -> spec_fn(Faller) -> bool {
    |faller: Faller| !faller.is_dead
}

/// The player's square and the faller's square collide.
pub open spec fn hits(player: Player, faller: Faller) -> bool {
    collides_spec(player.position, player.size as int, faller.position, faller.size as int)
}

/// A faller after one tick beside the player: it has fallen for `dt`, and
/// it is dead if it then collides with the player.
pub open spec fn resolved(faller: Faller, player: Player, dt: int, height: int) -> Faller {
    let moved = faller.advanced(dt, height);
    if hits(player, moved) {
        moved.struck()
    } else {
        moved
    }
}

/// One of the first `count` fallers collides with the player once it has
/// fallen for `dt`.
pub open spec fn any_hit(
    fallers: Seq<Faller>,
    count: int,
    player: Player,
    dt: int,
    height: int,
) -> bool {
    exists|i: int| 0 <= i < count && hits(player, (#[trigger] fallers[i]).advanced(dt, height))
}

/// The fallers after one tick beside the player, dead ones included.
pub open spec fn resolve_all(fallers: Seq<Faller>, player: Player, dt: int, height: int) -> Seq<
    Faller,
> {
    Seq::new(fallers.len(), |i: int| resolved(fallers[i], player, dt, height))
}

/// Every faller is well-formed.
pub open spec fn all_wf(fallers: Seq<Faller>) -> bool {
    forall|i: int| 0 <= i < fallers.len() ==> (#[trigger] fallers[i]).wf()
}

/// Every faller that a step of the pattern spawns is well-formed.
pub open spec fn steps_wf(steps: Seq<StepView>) -> bool {
    forall|k: int| 0 <= k < steps.len() ==> all_wf((#[trigger] steps[k]).fallers())
}

/// A faller that random spawning may produce at the given size offset: its
/// side lies in the size range moved up by the offset and leaves room
/// between the walls, it stands inside the walls just above the top edge,
/// and its velocity lies in the velocity range.
pub open spec fn random_faller(ramp: Ramp, offset: int, width: int, faller: Faller) -> bool {
    &&& ramp.size_min + offset <= faller.size <= ramp.size_max + offset
    &&& faller.size < width
    &&& 0 <= faller.position.x <= width - faller.size
    &&& faller.position.y == -faller.size
    &&& ramp.velocity_min <= faller.velocity <= ramp.velocity_max
    &&& !faller.is_dead
}

/// The bounds that are handed to one draw: the value comes from `low` up to
/// but not including `high`.
#[derive(Clone, Copy, Debug, PartialEq, Eq, Structural)]
pub struct DrawRange {
    pub low: i128,
    pub high: i128,
}

/// The bounds of the roll that is held against the spawn chance: every
/// chance from nothing up to but not including certainty.
pub fn roll_range() -> (range: DrawRange)
    ensures
        range.low == 0,
        range.high == FULL_CHANCE,
{
    DrawRange { low: 0, high: FULL_CHANCE as i128 }
}

/// Whether a roll lets a faller come: it does when it is below the chance.
pub fn spawn_due(chance: i64, roll: i64) -> (due: bool)
    ensures
        due == (roll < chance),
{
    roll < chance
}

/// The bounds of the draw of a side: the size range of the ramp, both ends
/// included, moved up by the offset.
pub fn size_range(ramp: Ramp, offset: i64) -> (range: DrawRange)
    ensures
        range.low == ramp.size_min + offset,
        range.high == ramp.size_max + offset + 1,
{
    DrawRange {
        low: ramp.size_min as i128 + offset as i128,
        high: ramp.size_max as i128 + offset as i128 + 1,
    }
}

/// Whether a faller of the drawn side can be placed: it can when it is
/// narrower than the playfield.
pub fn side_fits(size: i128, width: i64) -> (fits: bool)
    ensures
        fits == (size < width),
{
    size < width as i128
}

/// The bounds of the draw of a place: every left edge that keeps a faller
/// of the given side between the walls, both walls included.
pub fn place_range(size: i64, width: i64) -> (range: DrawRange)
    ensures
        range.low == 0,
        range.high == width - size + 1,
{
    DrawRange { low: 0, high: width as i128 - size as i128 + 1 }
}

/// The bounds of the draw of a velocity: the velocity range of the ramp,
/// both ends included.
pub fn velocity_range(ramp: Ramp) -> (range: DrawRange)
    ensures
        range.low == ramp.velocity_min,
        range.high == ramp.velocity_max + 1,
{
    DrawRange { low: ramp.velocity_min as i128, high: ramp.velocity_max as i128 + 1 }
}

impl SessionView {
    /// The session at the start of a game.
    pub open spec fn initial(config: Config) -> SessionView {
        SessionView {
            config,
            player: Player::initial(config.playfield, config.player),
            fallers: Seq::empty(),
            spawn_percent_chance: config.ramp.chance,
            size_offset: 0,
            pattern: None,
            elapsed: 0,
            state: State::Playing,
        }
    }

    /// The session after random spawning has raised its ramps by one step
    /// each.
    pub open spec fn ramped(self) -> SessionView {
        SessionView {
            spawn_percent_chance: capped_sum(
                self.spawn_percent_chance as int,
                self.config.ramp.chance_step as int,
            ) as i64,
            size_offset: capped_sum(
                self.size_offset as int,
                self.config.ramp.offset_step as int,
            ) as i64,
            ..self
        }
    }

    /// What random spawning puts into the game once the roll is known: no
    /// faller when the roll is not below the chance or no size of the range
    /// leaves room, one faller when the roll is below the chance and every
    /// size of the range leaves room, and never a faller that the ramp does
    /// not allow.
    pub open spec fn rolled_spawn(self, roll: int, spawned: Seq<Faller>) -> bool {
        let ramp = self.config.ramp;
        let width = self.config.playfield.width as int;
        &&& spawned.len() <= 1
        &&& roll >= self.spawn_percent_chance ==> spawned.len() == 0
        &&& ramp.size_min + self.size_offset >= width ==> spawned.len() == 0
        &&& roll < self.spawn_percent_chance && ramp.size_max + self.size_offset < width
            ==> spawned.len() == 1
        &&& forall|i: int|
            0 <= i < spawned.len() ==> random_faller(
                ramp,
                self.size_offset as int,
                width,
                #[trigger] spawned[i],
            )
    }

    /// What random spawning may put into the game in one tick: what some
    /// roll from nothing up to but not including certainty asks for.
    pub open spec fn random_spawn(self, spawned: Seq<Faller>) -> bool {
        exists|roll: int| 0 <= roll < FULL_CHANCE && #[trigger] self.rolled_spawn(roll, spawned)
    }

    /// What the script puts into the game in one tick: the fallers of the
    /// next step of the active pattern, and nothing when no pattern is
    /// active or none of its steps is left.
    pub open spec fn scripted_spawn(self) -> Seq<Faller> {
        match self.pattern {
            Some(steps) => if steps.len() > 0 {
                steps[0].fallers()
            } else {
                Seq::empty()
            },
            None => Seq::empty(),
        }
    }

    /// The session after the script has moved on by one tick: an active
    /// pattern loses its next step, a pattern without steps is dropped, and
    /// without a pattern the wave of the configuration becomes the active
    /// one.
    pub open spec fn pattern_advanced(self) -> SessionView {
        SessionView {
            pattern: match self.pattern {
                Some(steps) => if steps.len() > 0 {
                    Some(steps.skip(1))
                } else {
                    None
                },
                None => Some(wave_steps(self.config.wave, self.config.playfield.width as int)),
            },
            ..self
        }
    }

    /// The session after a key event: the reset key starts a game that is
    /// over anew, and every event then goes to the player.
    pub open spec fn after_button(self, key: Key, transition: Transition) -> SessionView {
        let base = if self.state is GameOver && key is Reset {
            SessionView::initial(self.config)
        } else {
            self
        };
        SessionView { player: base.player.after_button(key, transition), ..base }
    }

    /// The session after the part of a tick that follows spawning, with
    /// `spawned` as the fallers that spawning put into the game: the player
    /// moves, every faller falls, fallers that collide with the player die
    /// and kill it, dead fallers leave, and the clock runs on unless the
    /// player died. A session whose game is over stays as it is.
    pub open spec fn stepped(self, dt: int, spawned: Seq<Faller>) -> SessionView {
        if self.state is GameOver {
            self
        } else {
            let field = self.config.playfield;
            let player = self.player.advanced(dt, field.width as int);
            let all = self.fallers + spawned;
            let hit = any_hit(all, all.len() as int, player, dt, field.height as int);
            let dead = player.is_dead || hit;
            SessionView {
                player: if hit {
                    player.collided()
                } else {
                    player
                },
                fallers: resolve_all(all, player, dt, field.height as int).filter(is_live()),
                elapsed: if dead {
                    self.elapsed
                } else {
                    capped_sum(self.elapsed as int, elapsed_part(dt)) as i64
                },
                state: if dead {
                    State::GameOver
                } else {
                    State::Playing
                },
                ..self
            }
        }
    }

    /// The rules that every session keeps: its configuration is valid, the
    /// player stands between the walls, the live fallers are well-formed
    /// and alive, ramps and clock are not negative, the game is over
    /// exactly when the player is dead, and a pattern is only active with
    /// the scripted spawner.
    pub open spec fn wf(self) -> bool {
        &&& self.config.valid()
        &&& self.player.wf(self.config.playfield.width as int)
        &&& all_wf(self.fallers)
        &&& forall|i: int| 0 <= i < self.fallers.len() ==> !(#[trigger] self.fallers[i]).is_dead
        &&& 0 <= self.spawn_percent_chance
        &&& 0 <= self.size_offset
        &&& 0 <= self.elapsed
        &&& (self.state is GameOver <==> self.player.is_dead)
        &&& match self.pattern {
            Some(steps) => self.config.mode is Scripted && steps_wf(steps),
            None => true,
        }
    }
}

/// Adds two amounts that are not negative and holds the sum at the largest
/// number that fits.
fn capped_add(a: i64, b: i64) -> (sum: i64)
    requires
        0 <= a,
        0 <= b,
    ensures
        sum == capped_sum(a as int, b as int),
        a <= sum,
{
    if a > i64::MAX - b {
        i64::MAX
    } else {
        a + b
    }
}

/// Keeps the fallers that are not dead, in their order.
fn retain_live(fallers: &Vec<Faller>) -> (kept: Vec<Faller>)
    ensures
        kept@ == fallers@.filter(is_live()),
        forall|k: int|
            0 <= k < kept@.len() ==> !(#[trigger] kept@[k]).is_dead && fallers@.contains(kept@[k]),
{
    let mut kept: Vec<Faller> = Vec::new();
    let mut index: usize = 0;
    proof {
        reveal(Seq::filter);
        assert(fallers@.take(0) =~= Seq::<Faller>::empty());
    }
    while index < fallers.len()
        invariant
            index <= fallers.len(),
            kept@ == fallers@.take(index as int).filter(is_live()),
            forall|k: int|
                0 <= k < kept@.len() ==> !(#[trigger] kept@[k]).is_dead && fallers@.contains(
                    kept@[k],
                ),
        decreases fallers.len() - index,
    {
        let faller = fallers[index];
        proof {
            reveal(Seq::filter);
            assert(fallers@.take(index + 1).drop_last() =~= fallers@.take(index as int));
            assert(fallers@.take(index + 1).last() == faller);
        }
        if !faller.is_dead {
            kept.push(faller);
        }
        index = index + 1;
    }
    assert(fallers@.take(index as int) =~= fallers@);
    kept
}

/// Every faller of a wave with a positive size and a velocity that is not
/// negative is well-formed.
proof fn wave_is_wf(wave: Wave, width: int)
    requires
        0 < wave.size,
        0 <= wave.velocity,
    ensures
        steps_wf(wave_steps(wave, width)),
{
    let steps = wave_steps(wave, width);
    assert forall|k: int| 0 <= k < steps.len() implies all_wf((#[trigger] steps[k]).fallers()) by {
        if k % 2 == 0 {
            assert(steps[k].fallers() == column_pair(wave, k / 2));
        }
    }
}

/// A running game ends in exactly those ticks in which a faller collides
/// with the player. In such a tick the player dies and the clock stands
/// still; in any other tick the game goes on and the clock runs by the part
/// of `dt` that counts. Either way every faller that is left afterwards is
/// alive and clear of the player.
pub proof fn game_ends_exactly_on_collision(session: SessionView, dt: int, spawned: Seq<Faller>)
    requires
        session.wf(),
        session.state is Playing,
    ensures
        ({
            let field = session.config.playfield;
            let player = session.player.advanced(dt, field.width as int);
            let all = session.fallers + spawned;
            let hit = any_hit(all, all.len() as int, player, dt, field.height as int);
            let after = session.stepped(dt, spawned);
            &&& after.state is GameOver <==> hit
            &&& after.player.is_dead <==> hit
            &&& hit ==> after.elapsed == session.elapsed
            &&& !hit ==> after.elapsed == capped_sum(session.elapsed as int, elapsed_part(dt))
            &&& forall|k: int|
                0 <= k < after.fallers.len() ==> !(#[trigger] after.fallers[k]).is_dead && !hits(
                    after.player,
                    after.fallers[k],
                )
        }),
{
    let field = session.config.playfield;
    let player = session.player.advanced(dt, field.width as int);
    let all = session.fallers + spawned;
    let settled = resolve_all(all, player, dt, field.height as int);
    let after = session.stepped(dt, spawned);
    assert forall|k: int| 0 <= k < after.fallers.len() implies !(#[trigger] after.fallers[k]).is_dead
        && !hits(after.player, after.fallers[k]) by {
        settled.lemma_filter_pred(is_live(), k);
        assert(settled.filter(is_live()).contains(after.fallers[k]));
        settled.lemma_filter_contains_rev(is_live(), after.fallers[k]);
        let origin = choose|i: int| 0 <= i < settled.len() && settled[i] == after.fallers[k];
        assert(settled[origin] == resolved(all[origin], player, dt, field.height as int));
    }
}

/// Where the roll decides nothing: random spawning never brings more than
/// one faller, brings none without a chance, brings one for sure when the
/// chance is full and every size of the range leaves room, and only brings
/// fallers that the ramp allows.
pub proof fn random_spawn_without_the_roll(session: SessionView, spawned: Seq<Faller>)
    requires
        session.random_spawn(spawned),
    ensures
        spawned.len() <= 1,
        session.spawn_percent_chance <= 0 ==> spawned.len() == 0,
        session.spawn_percent_chance >= FULL_CHANCE && session.config.ramp.size_max
            + session.size_offset < session.config.playfield.width ==> spawned.len() == 1,
        forall|i: int|
            0 <= i < spawned.len() ==> random_faller(
                session.config.ramp,
                session.size_offset as int,
                session.config.playfield.width as int,
                #[trigger] spawned[i],
            ),
{
}

/// The ramps of random spawning never fall while a game runs, the script
/// leaves them alone, and a new game starts from the first chance of the
/// configuration and no offset.
pub proof fn ramps_never_fall(session: SessionView, dt: int, spawned: Seq<Faller>)
    requires
        session.wf(),
    ensures
        session.ramped().stepped(dt, spawned).spawn_percent_chance >= session.spawn_percent_chance,
        session.ramped().stepped(dt, spawned).size_offset >= session.size_offset,
        session.pattern_advanced().stepped(dt, spawned).spawn_percent_chance
            == session.spawn_percent_chance,
        session.pattern_advanced().stepped(dt, spawned).size_offset == session.size_offset,
        SessionView::initial(session.config).spawn_percent_chance == session.config.ramp.chance,
        SessionView::initial(session.config).size_offset == 0,
{
}

impl View for Session {
    type V = SessionView;

    closed spec fn view(&self) -> SessionView {
        SessionView {
            config: self.config,
            player: self.player,
            fallers: self.fallers@,
            spawn_percent_chance: self.spawn_percent_chance,
            size_offset: self.size_offset,
            pattern: match self.pattern {
                Some(pattern) => Some(pattern@),
                None => None,
            },
            elapsed: self.elapsed,
            state: self.state,
        }
    }
}

impl Session {
    /// The session keeps its rules: see `SessionView::wf`.
    pub open spec fn wf(&self) -> bool {
        self@.wf()
    }

    /// Starts a game from a configuration, with a random source built from
    /// `seed`. A configuration that breaks a rule is refused with the first
    /// rule it breaks.
    pub fn new(config: Config, seed: u64) -> (outcome: Result<Session, ConfigError>)
        ensures
            match outcome {
                Ok(session) => config.valid() && session.wf() && session@ == SessionView::initial(
                    config,
                ),
                Err(error) => config.defect() == Some(error),
            },
    {
        match config.validate() {
            Err(error) => Err(error),
            Ok(()) => {
                let session = Session {
                    config,
                    player: Player::new(config.playfield, config.player),
                    fallers: Vec::new(),
                    spawn_percent_chance: config.ramp.chance,
                    size_offset: 0,
                    rng: seeded(seed),
                    pattern: None,
                    elapsed: 0,
                    state: State::Playing,
                };
                assert(session@ =~= SessionView::initial(config));
                Ok(session)
            },
        }
    }

    /// Starts the game over: the player is back at its first place, no
    /// faller and no pattern is left, the ramps and the clock are back at
    /// their starting values. The random source goes on where it was.
    pub fn reset(&mut self)
        requires
            old(self).wf(),
        ensures
            final(self)@ == SessionView::initial(old(self)@.config),
            final(self).wf(),
    {
        self.player = Player::new(self.config.playfield, self.config.player);
        self.fallers = Vec::new();
        self.spawn_percent_chance = self.config.ramp.chance;
        self.size_offset = 0;
        self.pattern = None;
        self.elapsed = 0;
        self.state = State::Playing;
        assert(self@ =~= SessionView::initial(old(self)@.config));
    }

    /// Runs one tick of `dt` time units: the spawner puts its fallers into
    /// the game, then everything moves as in `advance_with`. Does nothing
    /// once the game is over.
    ///
    /// With the scripted spawner the outcome is fixed by the session and
    /// `dt`. With the random spawner it is fixed but for the faller that may
    /// be spawned, of which `SessionView::random_spawn` says all that holds.
    pub fn tick(&mut self, dt: i64)
        requires
            old(self).wf(),
        ensures
            final(self).wf(),
            old(self)@.state is GameOver ==> final(self)@ == old(self)@,
            old(self)@.state is Playing && old(self)@.config.mode is Scripted ==> final(self)@
                == old(self)@.pattern_advanced().stepped(dt as int, old(self)@.scripted_spawn()),
            old(self)@.state is Playing && old(self)@.config.mode is Stochastic ==> exists|
                spawned: Seq<Faller>,
            |
                #[trigger] old(self)@.random_spawn(spawned) && final(self)@
                    == old(self)@.ramped().stepped(dt as int, spawned),
            final(self)@.spawn_percent_chance >= old(self)@.spawn_percent_chance,
            final(self)@.size_offset >= old(self)@.size_offset,
    {
        if self.is_game_over() {
            return ;
        }
        match self.config.mode {
            SpawnMode::Stochastic => {
                let spawned = self.spawn_random();
                self.ramp_up();
                self.advance_with(dt, spawned);
                assert(old(self)@.random_spawn(spawned@));
            },
            SpawnMode::Scripted => {
                let spawned = self.spawn_scripted();
                self.advance_with(dt, spawned);
            },
        }
    }

    /// Random spawning: rolls against the spawn chance and spawns what the
    /// roll asks for.
    fn spawn_random(&mut self) -> (spawned: Vec<Faller>)
        requires
            old(self).wf(),
        ensures
            final(self)@ == old(self)@,
            old(self)@.random_spawn(spawned@),
            all_wf(spawned@),
    {
        let range = roll_range();
        let roll = draw_below(&mut self.rng, range.low, range.high);
        let spawned = self.spawn_for_roll(roll as i64);
        assert(old(self)@.rolled_spawn(roll as int, spawned@));
        spawned
    }

    /// Random spawning once the roll is known. A roll below the spawn
    /// chance lets a faller come: its side is drawn, and if a faller of
    /// that side can be placed, its place and its velocity are drawn and it
    /// is spawned just above the playfield. Any other roll spawns nothing.
    pub fn spawn_for_roll(&mut self, roll: i64) -> (spawned: Vec<Faller>)
        requires
            old(self).wf(),
        ensures
            final(self)@ == old(self)@,
            old(self)@.rolled_spawn(roll as int, spawned@),
            all_wf(spawned@),
    {
        let ramp = self.config.ramp;
        let width = self.config.playfield.width;
        let mut spawned: Vec<Faller> = Vec::new();
        if spawn_due(self.spawn_percent_chance, roll) {
            let sizes = size_range(ramp, self.size_offset);
            let size = draw_below(&mut self.rng, sizes.low, sizes.high);
            if side_fits(size, width) {
                spawned.push(self.spawn_of_side(size as i64));
            }
        }
        assert(self@ =~= old(self)@);
        spawned
    }

    /// Spawns a faller of a side that fits: its left edge is drawn so that
    /// it lies between the walls, its velocity is drawn from the velocity
    /// range, and it stands just above the playfield.
    pub fn spawn_of_side(&mut self, size: i64) -> (faller: Faller)
        requires
            old(self).wf(),
            0 <= size < old(self)@.config.playfield.width,
        ensures
            final(self)@ == old(self)@,
            faller.size == size,
            0 <= faller.position.x <= old(self)@.config.playfield.width - size,
            faller.position.y == -size,
            old(self)@.config.ramp.velocity_min <= faller.velocity
                <= old(self)@.config.ramp.velocity_max,
            !faller.is_dead,
    {
        let places = place_range(size, self.config.playfield.width);
        let x = draw_below(&mut self.rng, places.low, places.high);
        let velocities = velocity_range(self.config.ramp);
        let velocity = draw_below(&mut self.rng, velocities.low, velocities.high);
        assert(self@ =~= old(self)@);
        Faller::entering(x as i64, size, velocity as i64)
    }

    /// Raises the spawn chance and the size offset by one step each.
    fn ramp_up(&mut self)
        requires
            old(self).wf(),
        ensures
            final(self)@ == old(self)@.ramped(),
            final(self).wf(),
    {
        self.spawn_percent_chance = capped_add(
            self.spawn_percent_chance,
            self.config.ramp.chance_step,
        );
        self.size_offset = capped_add(self.size_offset, self.config.ramp.offset_step);
        assert(self@ =~= old(self)@.ramped());
    }

    /// Scripted spawning: takes the next step of the active pattern, drops
    /// a pattern that has no step left, and builds the wave anew when none
    /// is active.
    fn spawn_scripted(&mut self) -> (spawned: Vec<Faller>)
        requires
            old(self).wf(),
            old(self)@.config.mode is Scripted,
        ensures
            final(self)@ == old(self)@.pattern_advanced(),
            spawned@ == old(self)@.scripted_spawn(),
            all_wf(spawned@),
            final(self).wf(),
    {
        let mut spawned: Vec<Faller> = Vec::new();
        match self.pattern.take() {
            None => {
                proof {
                    wave_is_wf(self.config.wave, self.config.playfield.width as int);
                }
                self.pattern = Some(Pattern::generate(self.config.wave, self.config.playfield));
            },
            Some(pattern) => {
                let mut pattern = pattern;
                match pattern.next_step() {
                    Some(Step::Spawn(fallers)) => {
                        spawned = fallers;
                        self.pattern = Some(pattern);
                    },
                    Some(Step::Wait) => {
                        self.pattern = Some(pattern);
                    },
                    None => {},
                }
            },
        }
        assert(self@ =~= old(self)@.pattern_advanced());
        assert(spawned@ =~= old(self)@.scripted_spawn());
        spawned
    }

    /// Applies a key event. While the game is over the reset key starts it
    /// anew; the movement keys steer the player; other keys do nothing.
    pub fn handle_button(&mut self, key: Key, transition: Transition)
        requires
            old(self).wf(),
        ensures
            final(self)@ == old(self)@.after_button(key, transition),
            final(self).wf(),
    {
        if self.is_game_over() {
            match key {
                Key::Reset => self.reset(),
                _ => {},
            }
        }
        proof {
            button_keeps_wf(self.player, key, transition, self.config.playfield.width as int);
        }
        self.player.handle_button(key, transition);
        assert(self@ =~= old(self)@.after_button(key, transition));
    }

    /// Runs the part of a tick that follows spawning: puts `spawned` into
    /// the game, moves the player and the fallers, settles collisions,
    /// removes dead fallers, ends the game if the player died and lets the
    /// clock run on if it did not. Does nothing once the game is over.
    pub fn advance_with(&mut self, dt: i64, spawned: Vec<Faller>)
        requires
            old(self).wf(),
            all_wf(spawned@),
        ensures
            final(self)@ == old(self)@.stepped(dt as int, spawned@),
            final(self).wf(),
    {
        if self.is_game_over() {
            return ;
        }
        let ghost injected = spawned@;
        let mut spawned = spawned;
        self.fallers.append(&mut spawned);
        self.player.advance(dt, self.config.playfield.width);
        self.update_fallers(dt);
        if self.player.is_dead {
            self.state = State::GameOver;
        } else {
            self.elapsed = capped_add(self.elapsed, if dt > 0 {
                dt
            } else {
                0
            });
        }
        assert(self@ =~= old(self)@.stepped(dt as int, injected));
    }

    fn update_fallers(&mut self, dt: i64)
        requires
            all_wf(old(self).fallers@),
        ensures
            final(self).fallers@ == resolve_all(
                old(self).fallers@,
                old(self).player,
                dt as int,
                old(self).config.playfield.height as int,
            ).filter(is_live()),
            final(self).player == if any_hit(
                old(self).fallers@,
                old(self).fallers@.len() as int,
                old(self).player,
                dt as int,
                old(self).config.playfield.height as int,
            ) {
                old(self).player.collided()
            } else {
                old(self).player
            },
            all_wf(final(self).fallers@),
            forall|i: int|
                0 <= i < final(self).fallers@.len() ==> !(#[trigger] final(self).fallers@[i]).is_dead,
            final(self).config == old(self).config,
            final(self).spawn_percent_chance == old(self).spawn_percent_chance,
            final(self).size_offset == old(self).size_offset,
            final(self).pattern == old(self).pattern,
            final(self).elapsed == old(self).elapsed,
            final(self).state == old(self).state,
    {
        let height = self.config.playfield.height;
        let ghost before = self.fallers@;
        let ghost player = self.player;
        let count = self.fallers.len();
        let mut index: usize = 0;
        while index < count
            invariant
                index <= count,
                count == before.len(),
                self.fallers@.len() == count,
                all_wf(before),
                height == self.config.playfield.height,
                forall|k: int|
                    0 <= k < index ==> #[trigger] self.fallers@[k] == resolved(
                        before[k],
                        player,
                        dt as int,
                        height as int,
                    ),
                forall|k: int| index <= k < count ==> #[trigger] self.fallers@[k] == before[k],
                self.player == if any_hit(before, index as int, player, dt as int, height as int) {
                    player.collided()
                } else {
                    player
                },
                self.config == old(self).config,
                self.spawn_percent_chance == old(self).spawn_percent_chance,
                self.size_offset == old(self).size_offset,
                self.pattern == old(self).pattern,
                self.elapsed == old(self).elapsed,
                self.state == old(self).state,
            decreases count - index,
        {
            let mut faller = self.fallers[index];
            faller.advance(dt, height);
            if collides(self.player.position, self.player.size, faller.position, faller.size) {
                faller.is_dead = true;
                self.player.mark_collided();
            }
            self.fallers.set(index, faller);
            index = index + 1;
        }
        assert(self.fallers@ =~= resolve_all(before, player, dt as int, height as int));
        self.fallers = retain_live(&self.fallers);
    }

    /// The configuration the session was built from.
    pub fn config(&self) -> (config: Config)
        ensures
            config == self@.config,
    {
        self.config
    }

    /// Whether the game is running or over.
    pub fn state(&self) -> (state: State)
        ensures
            state == self@.state,
    {
        self.state
    }

    /// The game has ended.
    pub fn is_game_over(&self) -> (over: bool)
        ensures
            over == (self@.state is GameOver),
    {
        match self.state {
            State::GameOver => true,
            State::Playing => false,
        }
    }

    /// The player as it stands now.
    pub fn player(&self) -> (player: Player)
        ensures
            player == self@.player,
    {
        self.player
    }

    /// The live fallers, oldest first.
    pub fn fallers(&self) -> (fallers: &Vec<Faller>)
        ensures
            fallers@ == self@.fallers,
    {
        &self.fallers
    }

    /// The current spawn chance, in thousandths of a percent.
    pub fn spawn_percent_chance(&self) -> (chance: i64)
        ensures
            chance == self@.spawn_percent_chance,
    {
        self.spawn_percent_chance
    }

    /// The current offset of the size range of random fallers.
    pub fn size_offset(&self) -> (offset: i64)
        ensures
            offset == self@.size_offset,
    {
        self.size_offset
    }

    /// Number of steps left of the active pattern, if one is active.
    pub fn pattern_remaining(&self) -> (left: Option<usize>)
        ensures
            match left {
                Some(count) => self@.pattern is Some && count == self@.pattern->0.len(),
                None => self@.pattern is None,
            },
    {
        match &self.pattern {
            Some(pattern) => Some(pattern.remaining()),
            None => None,
        }
    }

    /// Time played so far, in time units.
    pub fn elapsed(&self) -> (elapsed: i64)
        ensures
            elapsed == self@.elapsed,
    {
        self.elapsed
    }

    /// Time played so far in whole seconds, rounded to the nearest second,
    /// half a second upwards.
    pub fn elapsed_seconds(&self) -> (seconds: u64)
        requires
            self.wf(),
        ensures
            seconds == (self@.elapsed + TIME_UNITS_PER_SECOND / 2) / (TIME_UNITS_PER_SECOND as int),
    {
        ((self.elapsed as i128 + (TIME_UNITS_PER_SECOND / 2) as i128) / (
        TIME_UNITS_PER_SECOND as i128)) as u64
    }
}

} // verus!
