//! Game configuration, the authoritative game state, and the tick engine.
//!
//! `GameStates::tick` advances one fixed simulation step: hero motion and
//! animation, shooting cadence, bullet motion, score-driven enemy spawning,
//! enemy ticks with collision resolution, bullet retirement, and enemy
//! retirement with scoring.  The only nondeterminism is the random tier draw
//! and the random spawn abscissas; the tick contract pins the result down
//! exactly as a function of those draws.

use vstd::prelude::*;

use crate::entity::bullet::Bullet;
use crate::entity::enemy::{
    is_fresh_enemy1, is_fresh_enemy2, is_fresh_enemy3, Enemy, Enemy1, Enemy2, Enemy3,
};
use crate::entity::hero::{is_fresh_hero, Hero};
use crate::entity::{
    boxes_overlap, collisioned, CollisionBox, EntityState, MotionState, Vec2,
};
use crate::input::{UserInputEvent, UserInputEventReciever};
use crate::render::{Primitive, Render};

verus! {

/// Immutable arena dimensions, in pixels, supplied by the host at
/// construction.
#[derive(Clone, Copy, PartialEq, Eq, Structural, Debug)]
pub struct GameSettings {
    pub width: u16,
    pub height: u16,
}

impl GameSettings {
    pub fn new(width: u16, height: u16) -> (r: Self)
        ensures
            r == (GameSettings { width, height }),
    {
        Self { width, height }
    }

    /// Horizontal arena bound in deci-pixels.
    pub open spec fn bound_x(self) -> int {
        self.width * 10
    }

    /// Vertical arena bound in deci-pixels.
    pub open spec fn bound_y(self) -> int {
        self.height * 10
    }
}

/// At most this many enemies spawn on one tick.
pub const MAX_ENEMY_SPAWN_PER_TICK: u32 = 3;

/// Ticks between two spawn batches.
pub const SPAWN_COOLDOWN: u32 = 10;

/// Ticks between two hero bullets while the fire key is held.
pub const SHOOT_COOLDOWN: u16 = 10;

/// A hero bullet's upward speed, in deci-pixels per tick.
pub const BULLET_SPEED: i64 = 80;

/// Caps of the per-tier counters in the difficulty curve.
pub const MAX_SMALL_ENEMY: u32 = 5;

pub const MAX_MIDDLE_ENEMY: u32 = 3;

pub const MAX_BIG_ENEMY: u32 = 2;

/// Relies on `rand::random`: a value drawn from the thread-local generator.
/// Nothing is promised of the result; every caller handles every value.
pub assume_specification<T>[ rand::random::<T> ]() -> (r: T)
    where
        rand::distributions::Standard: rand::distributions::Distribution<T>,
;

/// How many enemies may exist at once: `score / 3`, at least 1, at most 10.
pub open spec fn spec_total_cnt_by_score(score: u32) -> int {
    let q = score as int / 3;
    if q < 1 {
        1
    } else if q > 10 {
        10
    } else {
        q
    }
}

/// The score-driven tier mix: the counters of the light, medium and heavy
/// tiers by nested integer division of `score / 3`, and their total floored
/// at 1.  A single draw below `small` (out of `total`) selects the light
/// tier, below `small + middle` the medium one, below `small + middle + big`
/// the heavy one.
pub open spec fn spec_gen_counts_by_score(score: u32) -> (int, int, int, int) {
    let small0 = score as int / 3;
    let middle0 = small0 / (MAX_SMALL_ENEMY + 1);
    let small = small0 % (MAX_SMALL_ENEMY + 1);
    let big0 = middle0 / (MAX_MIDDLE_ENEMY + 1);
    let middle = middle0 % (MAX_MIDDLE_ENEMY + 1);
    let big = if big0 > MAX_BIG_ENEMY { MAX_BIG_ENEMY as int } else { big0 };
    let total = if small + middle + big < 1 { 1 } else { small + middle + big };
    (small, middle, big, total)
}

/// Difficulty: the enemy-count cap for the current score.
pub fn get_total_cnt_by_score(score: u32) -> (r: u32)
    ensures
        r as int == spec_total_cnt_by_score(score),
        1 <= r <= 10,
{
    let q = score / 3;
    if q < 1 {
        1
    } else if q > 10 {
        10
    } else {
        q
    }
}

/// Difficulty: the `(small, middle, big, total)` tier counters for the
/// current score.
pub fn get_gen_counts_by_score(score: u32) -> (r: (u32, u32, u32, u32))
    ensures
        r.0 as int == spec_gen_counts_by_score(score).0,
        r.1 as int == spec_gen_counts_by_score(score).1,
        r.2 as int == spec_gen_counts_by_score(score).2,
        r.3 as int == spec_gen_counts_by_score(score).3,
        r.0 <= MAX_SMALL_ENEMY,
        r.1 <= MAX_MIDDLE_ENEMY,
        r.2 <= MAX_BIG_ENEMY,
        1 <= r.3 <= 10,
{
    let small0 = score / 3;
    let middle0 = small0 / (MAX_SMALL_ENEMY + 1);
    let small = small0 % (MAX_SMALL_ENEMY + 1);
    let big0 = middle0 / (MAX_MIDDLE_ENEMY + 1);
    let middle = middle0 % (MAX_MIDDLE_ENEMY + 1);
    let big = if big0 > MAX_BIG_ENEMY {
        MAX_BIG_ENEMY
    } else {
        big0
    };
    let total = small + middle + big;
    let total = if total < 1 {
        1
    } else {
        total
    };
    (small, middle, big, total)
}

/// A freshly spawned enemy of the tier that `draw` selects from the
/// cumulative tier counters, at `(x, y)`.  A draw beyond every counter (all
/// counters zero) falls back to the light tier.
pub open spec fn is_fresh_spawn_of_tier(e: Enemy, score: u32, draw: int, x: int, y: int) -> bool {
    let c = spec_gen_counts_by_score(score);
    if draw < c.0 {
        e matches Enemy::MiddleCup(i) && is_fresh_enemy1(i, x, y)
    } else if draw < c.0 + c.1 {
        e matches Enemy::BigCup(i) && is_fresh_enemy2(i, x, y)
    } else if draw < c.0 + c.1 + c.2 {
        e matches Enemy::SuperBigCup(i) && is_fresh_enemy3(i, x, y)
    } else {
        e matches Enemy::MiddleCup(i) && is_fresh_enemy1(i, x, y)
    }
}

/// How many enemies a firing spawn batch creates: up to the per-tick cap,
/// never beyond the enemy-count cap.
pub open spec fn spawn_count(score: u32, cur: int) -> int {
    let maxc = spec_total_cnt_by_score(score);
    if cur >= maxc {
        0
    } else if maxc - cur < MAX_ENEMY_SPAWN_PER_TICK {
        maxc - cur
    } else {
        MAX_ENEMY_SPAWN_PER_TICK as int
    }
}

/// The shooting cadence: the cooldown decrements toward zero every tick (even
/// while not shooting); when the hero intends to shoot and the cooldown has
/// reached zero, a bullet spawns at the hero's position with fixed upward
/// speed and the cooldown resets — one bullet every `SHOOT_COOLDOWN` ticks.
pub open spec fn shoot_step(hero: Hero, bullets: Seq<Bullet>) -> (Hero, Seq<Bullet>) {
    let cd = if hero.shooting_cooldown > 0 {
        (hero.shooting_cooldown - 1) as u16
    } else {
        0u16
    };
    if hero.shooting && cd == 0 {
        (
            Hero { shooting_cooldown: SHOOT_COOLDOWN, ..hero },
            bullets.push(
                Bullet {
                    motion_state: (MotionState {
                        pos: hero.motion_state.pos,
                        speed: (Vec2 { x: 0, y: BULLET_SPEED }),
                        acc: (Vec2 { x: 0, y: 0 }),
                        acc_val: 0,
                        friction: 0,
                    }),
                },
            ),
        )
    } else {
        (Hero { shooting_cooldown: cd, ..hero }, bullets)
    }
}

/// Every bullet integrates its motion each tick.
pub open spec fn bullets_moved(bullets: Seq<Bullet>, settings: GameSettings) -> Seq<Bullet> {
    bullets.map_values(|b: Bullet| Bullet { motion_state: b.motion_state.ticked(settings) })
}

pub open spec fn enemy_overlaps_hero(e: Enemy, h: Hero) -> bool {
    boxes_overlap(e.spec_bounding_box(), h.spec_bounding_box())
}

/// The per-enemy step, in collection order: an enemy out of health enters
/// DieAnimating; an enemy overlapping a Normal hero makes the hero enter
/// DieAnimating; then the enemy ticks.
pub open spec fn enemy_phase(hero: Hero, enemies: Seq<Enemy>, settings: GameSettings) -> (
    Hero,
    Seq<Enemy>,
)
    decreases enemies.len(),
{
    if enemies.len() == 0 {
        (hero, Seq::empty())
    } else {
        let e1 = enemies[0].die_flagged();
        let hero1 = if enemy_overlaps_hero(e1, hero) && hero.state == EntityState::Normal {
            Hero { state: EntityState::DieAnimating, ..hero }
        } else {
            hero
        };
        let e2 = e1.ticked(settings);
        let rest = enemy_phase(hero1, enemies.drop_first(), settings);
        (rest.0, seq![e2] + rest.1)
    }
}

/// Only a Normal hero can be killed by contact: the per-enemy pass leaves a
/// dying or dead hero untouched.
pub proof fn lemma_enemy_phase_keeps_non_normal_hero(
    hero: Hero,
    enemies: Seq<Enemy>,
    settings: GameSettings,
)
    requires
        hero.state != EntityState::Normal,
    ensures
        enemy_phase(hero, enemies, settings).0 == hero,
    decreases enemies.len(),
{
    if enemies.len() > 0 {
        lemma_enemy_phase_keeps_non_normal_hero(hero, enemies.drop_first(), settings);
    }
}

/// The per-enemy pass can change nothing of the hero but its lifecycle
/// state: position, speed, health, intent and animations pass through.
pub proof fn lemma_enemy_phase_hero_frame(hero: Hero, enemies: Seq<Enemy>, settings: GameSettings)
    ensures
        enemy_phase(hero, enemies, settings).0 == (Hero {
            state: enemy_phase(hero, enemies, settings).0.state,
            ..hero
        }),
    decreases enemies.len(),
{
    if enemies.len() > 0 {
        let e1 = enemies[0].die_flagged();
        let hero1 = if enemy_overlaps_hero(e1, hero) && hero.state == EntityState::Normal {
            Hero { state: EntityState::DieAnimating, ..hero }
        } else {
            hero
        };
        lemma_enemy_phase_hero_frame(hero1, enemies.drop_first(), settings);
    }
}

/// Contact kills: if the hero is Normal and any enemy of the pass overlaps
/// its bounding box (once that enemy's death flag is applied), the pass ends
/// with the hero in DieAnimating — on that very tick.
pub proof fn lemma_enemy_phase_contact_kills(
    hero: Hero,
    enemies: Seq<Enemy>,
    settings: GameSettings,
    i: int,
)
    requires
        hero.state == EntityState::Normal,
        0 <= i < enemies.len(),
        enemy_overlaps_hero(enemies[i].die_flagged(), hero),
    ensures
        enemy_phase(hero, enemies, settings).0.state == EntityState::DieAnimating,
    decreases enemies.len(),
{
    let e1 = enemies[0].die_flagged();
    if enemy_overlaps_hero(e1, hero) {
        let hero1 = Hero { state: EntityState::DieAnimating, ..hero };
        lemma_enemy_phase_keeps_non_normal_hero(hero1, enemies.drop_first(), settings);
    } else {
        assert(enemies.drop_first()[i - 1] == enemies[i]);
        lemma_enemy_phase_contact_kills(hero, enemies.drop_first(), settings, i - 1);
    }
}

/// The first enemy, from `from` on, that a bullet hits: a live (not dying,
/// not dead) enemy whose box overlaps the bullet's.  `enemies.len()` means no
/// hit.
pub open spec fn find_hit(b: Bullet, enemies: Seq<Enemy>, from: int) -> int
    decreases enemies.len() - from when 0 <= from <= enemies.len()
{
    if from >= enemies.len() {
        enemies.len() as int
    } else if enemies[from].hittable() && boxes_overlap(
        b.spec_bounding_box(),
        enemies[from].spec_bounding_box(),
    ) {
        from
    } else {
        find_hit(b, enemies, from + 1)
    }
}

/// Bullet retirement, in order: each bullet damages the first live enemy it
/// overlaps and disappears; a bullet that hits nothing is kept only while
/// strictly inside the vertical bounds.
pub open spec fn bullets_retired(
    bullets: Seq<Bullet>,
    enemies: Seq<Enemy>,
    settings: GameSettings,
) -> (Seq<Bullet>, Seq<Enemy>)
    decreases bullets.len(),
{
    if bullets.len() == 0 {
        (Seq::empty(), enemies)
    } else {
        let b = bullets[0];
        let j = find_hit(b, enemies, 0);
        if j < enemies.len() {
            bullets_retired(bullets.drop_first(), enemies.update(j, enemies[j].hit_applied()), settings)
        } else {
            let rest = bullets_retired(bullets.drop_first(), enemies, settings);
            if 0 < b.motion_state.pos.y < settings.bound_y() {
                (seq![b] + rest.0, rest.1)
            } else {
                rest
            }
        }
    }
}

/// Enemy retirement, in order: a dead enemy is removed and scores its tier's
/// points; an enemy scrolled to or past the bottom is removed without score;
/// the rest stay.  Returns the kept enemies and the score delta.
pub open spec fn enemies_retired(enemies: Seq<Enemy>) -> (Seq<Enemy>, int)
    decreases enemies.len(),
{
    if enemies.len() == 0 {
        (Seq::empty(), 0)
    } else {
        let e = enemies[0];
        let rest = enemies_retired(enemies.drop_first());
        if e.health() == 0 && e.state() == EntityState::Died {
            (rest.0, rest.1 + e.score_value())
        } else if e.motion().pos.y <= 0 {
            rest
        } else {
            (seq![e] + rest.0, rest.1)
        }
    }
}

/// The score after adding `delta` points, saturating at the counter's top.
pub open spec fn score_saturated(score: u32, delta: int) -> u32 {
    if score + delta > u32::MAX {
        u32::MAX
    } else {
        (score + delta) as u32
    }
}

/// The enemy collection and spawn cooldown after the spawn phase, given the
/// tier draw and the spawn abscissas: the cooldown decrements toward zero
/// every tick; when it fires, it resets and a batch of fresh enemies of the
/// drawn tier appends to the collection.
pub open spec fn spawn_rel(
    pre_enemies: Seq<Enemy>,
    score: u32,
    settings: GameSettings,
    pre_cd: u32,
    post_cd: u32,
    draw: int,
    xs: Seq<int>,
    post_enemies: Seq<Enemy>,
) -> bool {
    let cd = if pre_cd > 0 {
        (pre_cd - 1) as u32
    } else {
        0u32
    };
    if cd == 0 {
        let k = spawn_count(score, pre_enemies.len() as int);
        &&& post_cd == SPAWN_COOLDOWN
        &&& 0 <= draw < spec_gen_counts_by_score(score).3
        &&& xs.len() == k
        &&& post_enemies.len() == pre_enemies.len() + k
        &&& (forall|i: int| 0 <= i < pre_enemies.len() ==> post_enemies[i] == pre_enemies[i])
        &&& (forall|i: int|
            0 <= i < k ==> 0 <= #[trigger] xs[i] && (xs[i] < settings.bound_x() || xs[i] == 0))
        &&& (forall|i: int|
            0 <= i < k ==> is_fresh_spawn_of_tier(
                #[trigger] post_enemies[pre_enemies.len() + i],
                score,
                draw,
                xs[i],
                settings.bound_y(),
            ))
    } else {
        &&& post_cd == cd
        &&& post_enemies == pre_enemies
        &&& draw == 0
        &&& xs.len() == 0
    }
}

/// One full simulation step, as a relation between the state before and
/// after, parameterized by the random tier draw, the random spawn abscissas,
/// and the enemy collection right after the spawn phase.  Opaque: proofs
/// that need the definition reveal it.
#[verifier::opaque]
pub open spec fn tick_rel(
    pre: GameStates,
    post: GameStates,
    settings: GameSettings,
    draw: int,
    xs: Seq<int>,
    spawned_enemies: Seq<Enemy>,
) -> bool {
    let hero1 = pre.hero.ticked(settings);
    let sh = shoot_step(hero1, pre.hero_bullets@);
    let bullets2 = bullets_moved(sh.1, settings);
    let ep = enemy_phase(sh.0, spawned_enemies, settings);
    let br = bullets_retired(bullets2, ep.1, settings);
    let er = enemies_retired(br.1);
    &&& spawn_rel(
        pre.enemies@,
        pre.score,
        settings,
        pre.spawn_cooldown,
        post.spawn_cooldown,
        draw,
        xs,
        spawned_enemies,
    )
    &&& post.hero == ep.0
    &&& post.hero_bullets@ == br.0
    &&& post.enemies@ == er.0
    &&& post.score == score_saturated(pre.score, er.1)
    &&& post.enemy_bullets@ == pre.enemy_bullets@
}

/// The hero's shooting cooldown before the `t`-th tick of an uninterrupted
/// burst that began ready (cooldown 0): zero at the start, reset to
/// `SHOOT_COOLDOWN` by each shot, counting down in between, back at 1 just
/// before the next shot fires.
pub open spec fn burst_cooldown(t: nat) -> u16 {
    let r = t % (SHOOT_COOLDOWN as nat);
    if t == 0 {
        0u16
    } else if r == 0 {
        1u16
    } else {
        (SHOOT_COOLDOWN + 1 - r) as u16
    }
}

/// Whether the cadence fires at position `t` of a burst: with the cooldown
/// in the burst pattern and the intent on, the shooting step appends one
/// bullet exactly when `t` is a multiple of `SHOOT_COOLDOWN`.
pub proof fn lemma_burst_fire_condition(
    h: Hero,
    bullets: Seq<Bullet>,
    settings: GameSettings,
    t: nat,
)
    requires
        h.shooting,
        h.shooting_cooldown == burst_cooldown(t),
    ensures
        shoot_step(h.ticked(settings), bullets).1.len() == bullets.len() + (if t % (
        SHOOT_COOLDOWN as nat) == 0 {
            1int
        } else {
            0int
        }),
{
    assert(h.ticked(settings).shooting == h.shooting);
    assert(h.ticked(settings).shooting_cooldown == h.shooting_cooldown);
    if t == 0 {
        assert(0nat % (SHOOT_COOLDOWN as nat) == 0) by (nonlinear_arith);
    }
}

/// One tick of an uninterrupted burst: with the cooldown in the burst
/// pattern at `t`, the tick leaves it in the pattern at `t + 1`, keeps the
/// shooting intent, and the cadence fires a bullet exactly when `t` is a
/// multiple of `SHOOT_COOLDOWN`.
pub proof fn lemma_burst_cadence_step(
    pre: GameStates,
    post: GameStates,
    settings: GameSettings,
    draw: int,
    xs: Seq<int>,
    spawned: Seq<Enemy>,
    t: nat,
)
    requires
        tick_rel(pre, post, settings, draw, xs, spawned),
        pre.hero.shooting,
        pre.hero.shooting_cooldown == burst_cooldown(t),
    ensures
        post.hero.shooting,
        post.hero.shooting_cooldown == burst_cooldown(t + 1),
        shoot_step(pre.hero.ticked(settings), pre.hero_bullets@).1.len() == pre.hero_bullets@.len()
            + (if t % (SHOOT_COOLDOWN as nat) == 0 {
            1int
        } else {
            0int
        }),
{
    reveal(tick_rel);
    let cd10 = SHOOT_COOLDOWN as nat;
    let r = t % cd10;
    let q = t as int / cd10 as int;
    vstd::arithmetic::div_mod::lemma_fundamental_div_mod(t as int, cd10 as int);
    vstd::arithmetic::div_mod::lemma_mod_division_less_than_divisor(t as int, cd10 as int);
    assert(q * (cd10 as int) == (cd10 as int) * q) by (nonlinear_arith);
    if r + 1 < cd10 {
        vstd::arithmetic::div_mod::lemma_fundamental_div_mod_converse(
            t as int + 1,
            cd10 as int,
            q,
            r as int + 1,
        );
    } else {
        assert((q + 1) * (cd10 as int) == q * (cd10 as int) + cd10) by (nonlinear_arith);
        vstd::arithmetic::div_mod::lemma_fundamental_div_mod_converse(
            t as int + 1,
            cd10 as int,
            q + 1,
            0,
        );
    }
    let sh = shoot_step(pre.hero.ticked(settings), pre.hero_bullets@);
    lemma_enemy_phase_hero_frame(sh.0, spawned, settings);
    lemma_burst_fire_condition(pre.hero, pre.hero_bullets@, settings, t);
}

/// A chain of states linked tick to tick: each consecutive pair satisfies
/// `tick_rel` for some random draws.
pub open spec fn tick_chain(states: Seq<GameStates>, settings: GameSettings) -> bool {
    forall|k: int| #![trigger states[k]]
        0 <= k < states.len() - 1 ==> exists|draw: int, xs: Seq<int>, spawned: Seq<Enemy>|
            #[trigger] tick_rel(states[k], states[k + 1], settings, draw, xs, spawned)
}

/// Shooting cadence of a whole burst: along any chain of states linked by
/// `tick_rel` whose first state is ready to fire (cooldown 0, intent on — as
/// one tick after pressing fire on a fresh game), the `t`-th tick appends a
/// bullet exactly when `t` is a multiple of `SHOOT_COOLDOWN`: at ticks 0,
/// `SHOOT_COOLDOWN`, 2 x `SHOOT_COOLDOWN`, ... and never in between.
pub proof fn lemma_burst_cadence(states: Seq<GameStates>, settings: GameSettings, t: nat)
    requires
        states.len() >= 1,
        states[0].hero.shooting,
        states[0].hero.shooting_cooldown == 0,
        tick_chain(states, settings),
        t < states.len(),
    ensures
        states[t as int].hero.shooting,
        states[t as int].hero.shooting_cooldown == burst_cooldown(t),
        shoot_step(states[t as int].hero.ticked(settings), states[t as int].hero_bullets@).1.len()
            == states[t as int].hero_bullets@.len() + (if t % (SHOOT_COOLDOWN as nat) == 0 {
            1int
        } else {
            0int
        }),
    decreases t,
{
    if t == 0 {
        lemma_burst_fire_condition(states[0].hero, states[0].hero_bullets@, settings, 0);
    } else {
        lemma_burst_cadence(states, settings, (t - 1) as nat);
        let k = t as int - 1;
        assert(exists|draw: int, xs: Seq<int>, spawned: Seq<Enemy>|
            #[trigger] tick_rel(states[k], states[k + 1], settings, draw, xs, spawned));
        let (draw, xs, spawned) = choose|draw: int, xs: Seq<int>, spawned: Seq<Enemy>|
            #[trigger] tick_rel(states[k], states[k + 1], settings, draw, xs, spawned);
        lemma_burst_cadence_step(
            states[k],
            states[k + 1],
            settings,
            draw,
            xs,
            spawned,
            (t - 1) as nat,
        );
        lemma_burst_fire_condition(
            states[t as int].hero,
            states[t as int].hero_bullets@,
            settings,
            t,
        );
    }
}

/// The authoritative game state: score, hero, bullet and enemy collections,
/// and the spawn cooldown.  Entities are owned exclusively by these
/// collections; removal happens by the retirement passes of `tick`.
pub struct GameStates {
    pub score: u32,
    pub hero: Hero,
    pub hero_bullets: Vec<Bullet>,
    pub enemies: Vec<Enemy>,
    pub enemy_bullets: Vec<Bullet>,
    pub spawn_cooldown: u32,
}

impl GameStates {
    pub open spec fn wf(self) -> bool {
        &&& self.hero.wf()
        &&& (forall|i: int|
            0 <= i < self.hero_bullets@.len() ==> (#[trigger] self.hero_bullets@[i]).wf())
        &&& (forall|i: int| 0 <= i < self.enemies@.len() ==> (#[trigger] self.enemies@[i]).wf())
        &&& (forall|i: int|
            0 <= i < self.enemy_bullets@.len() ==> (#[trigger] self.enemy_bullets@[i]).wf())
    }

    pub fn new() -> (r: Self)
        ensures
            r.score == 0,
            is_fresh_hero(r.hero, 0, 0),
            r.hero_bullets@.len() == 0,
            r.enemies@.len() == 0,
            r.enemy_bullets@.len() == 0,
            r.spawn_cooldown == 0,
            r.wf(),
    {
        Self {
            score: 0,
            hero: Hero::new(0, 0),
            hero_bullets: Vec::new(),
            enemies: Vec::new(),
            enemy_bullets: Vec::new(),
            spawn_cooldown: 0,
        }
    }

    /// Apply one input event: it only mutates the hero's intent (acceleration
    /// components, shooting flag).
    pub fn update(&mut self, user_input_event: &UserInputEvent)
        requires
            old(self).wf(),
        ensures
            *final(self) == (GameStates {
                hero: old(self).hero.spec_updated(
                    user_input_event.key@,
                    user_input_event.pressed,
                ),
                ..*old(self)
            }),
            final(self).wf(),
    {
        self.hero.update(user_input_event);
    }

    /// Integrate every hero bullet's motion.
    fn move_bullets(&mut self, settings: &GameSettings)
        requires
            old(self).wf(),
        ensures
            *final(self) == (GameStates { hero_bullets: final(self).hero_bullets, ..*old(self) }),
            final(self).hero_bullets@ == bullets_moved(old(self).hero_bullets@, *settings),
            final(self).wf(),
    {
        let ghost orig = self.hero_bullets@;
        let n = self.hero_bullets.len();
        let mut i: usize = 0;
        while i < n
            invariant
                i <= n,
                self.hero_bullets@.len() == n,
                orig.len() == n,
                forall|j: int| 0 <= j < n ==> (#[trigger] orig[j]).wf(),
                forall|j: int| i <= j < n ==> self.hero_bullets@[j] == orig[j],
                forall|j: int|
                    0 <= j < i ==> #[trigger] self.hero_bullets@[j] == (Bullet {
                        motion_state: orig[j].motion_state.ticked(*settings),
                    }),
                forall|j: int| 0 <= j < i ==> (#[trigger] self.hero_bullets@[j]).wf(),
                *self == (GameStates { hero_bullets: self.hero_bullets, ..*old(self) }),
            decreases n - i,
        {
            let mut b = self.hero_bullets[i];
            proof {
                assert(b == orig[i as int]);
                assert(orig[i as int].wf());
            }
            b.motion_state.tick(settings);
            self.hero_bullets[i] = b;
            i = i + 1;
        }
        proof {
            assert(self.hero_bullets@ =~= bullets_moved(orig, *settings));
        }
    }

    /// The spawn phase: the cooldown decrements toward zero; when it reaches
    /// zero it resets and a batch of enemies spawns, the tier chosen by one
    /// random draw for the whole batch, each enemy at a random abscissa on
    /// the top edge.  Returns the draw and the abscissas, so that the tick
    /// contract can speak of them.
    fn spawn_phase(&mut self, settings: &GameSettings) -> (r: Ghost<(int, Seq<int>)>)
        requires
            old(self).wf(),
        ensures
            *final(self) == (GameStates {
                enemies: final(self).enemies,
                spawn_cooldown: final(self).spawn_cooldown,
                ..*old(self)
            }),
            spawn_rel(
                old(self).enemies@,
                old(self).score,
                *settings,
                old(self).spawn_cooldown,
                final(self).spawn_cooldown,
                r@.0,
                r@.1,
                final(self).enemies@,
            ),
            final(self).wf(),
    {
        if self.spawn_cooldown > 0 {
            self.spawn_cooldown = self.spawn_cooldown - 1;
        }
        if self.spawn_cooldown == 0 {
            self.spawn_cooldown = SPAWN_COOLDOWN;
            let max_enemy_cnt = get_total_cnt_by_score(self.score);
            let counts = get_gen_counts_by_score(self.score);
            let r0 = rand::random::<u32>();
            let draw = r0 % counts.3;
            let ghost draw_g = draw as int;
            let ghost mut xs: Seq<int> = Seq::empty();
            let ghost len0 = self.enemies@.len() as int;
            let by = (settings.height as i64) * 10;
            let w10: u32 = (settings.width as u32) * 10;
            let mut spawn_cnt: u32 = 0;
            while self.enemies.len() < max_enemy_cnt as usize && spawn_cnt
                < MAX_ENEMY_SPAWN_PER_TICK
                invariant
                    old(self).wf(),
                    0 <= len0,
                    self.enemies@.len() == len0 + spawn_cnt,
                    0 <= spawn_cnt <= MAX_ENEMY_SPAWN_PER_TICK,
                    len0 < spec_total_cnt_by_score(old(self).score) ==> spawn_cnt
                        <= spec_total_cnt_by_score(old(self).score) - len0,
                    len0 >= spec_total_cnt_by_score(old(self).score) ==> spawn_cnt == 0,
                    max_enemy_cnt as int == spec_total_cnt_by_score(old(self).score),
                    counts.0 as int == spec_gen_counts_by_score(old(self).score).0,
                    counts.1 as int == spec_gen_counts_by_score(old(self).score).1,
                    counts.2 as int == spec_gen_counts_by_score(old(self).score).2,
                    counts.3 as int == spec_gen_counts_by_score(old(self).score).3,
                    counts.0 <= MAX_SMALL_ENEMY,
                    counts.1 <= MAX_MIDDLE_ENEMY,
                    counts.2 <= MAX_BIG_ENEMY,
                    1 <= counts.3,
                    draw < counts.3,
                    draw_g == draw as int,
                    by == settings.bound_y(),
                    w10 as int == settings.bound_x(),
                    xs.len() == spawn_cnt,
                    forall|j: int| 0 <= j < len0 ==> self.enemies@[j] == old(self).enemies@[j],
                    forall|j: int|
                        0 <= j < spawn_cnt ==> 0 <= #[trigger] xs[j] && (xs[j]
                            < settings.bound_x() || xs[j] == 0),
                    forall|j: int|
                        0 <= j < spawn_cnt ==> is_fresh_spawn_of_tier(
                            #[trigger] self.enemies@[len0 + j],
                            old(self).score,
                            draw_g,
                            xs[j],
                            settings.bound_y(),
                        ),
                    forall|j: int|
                        0 <= j < self.enemies@.len() ==> (#[trigger] self.enemies@[j]).wf(),
                    *self == (GameStates {
                        enemies: self.enemies,
                        spawn_cooldown: self.spawn_cooldown,
                        ..*old(self)
                    }),
                    self.spawn_cooldown == SPAWN_COOLDOWN,
                decreases MAX_ENEMY_SPAWN_PER_TICK - spawn_cnt,
            {
                let rx = rand::random::<u32>();
                let x: u32 = if w10 > 0 {
                    rx % w10
                } else {
                    0
                };
                let xi: i64 = x as i64;
                let enemy: Enemy = if draw < counts.0 {
                    Enemy::MiddleCup(Enemy1::new(xi, by))
                } else if draw < counts.0 + counts.1 {
                    Enemy::BigCup(Enemy2::new(xi, by))
                } else if draw < counts.0 + counts.1 + counts.2 {
                    Enemy::SuperBigCup(Enemy3::new(xi, by))
                } else {
                    Enemy::MiddleCup(Enemy1::new(xi, by))
                };
                let ghost prev = self.enemies@;
                proof {
                    assert(is_fresh_spawn_of_tier(
                        enemy,
                        old(self).score,
                        draw_g,
                        x as int,
                        settings.bound_y(),
                    ));
                }
                self.enemies.push(enemy);
                spawn_cnt = spawn_cnt + 1;
                proof {
                    let xs_prev = xs;
                    let cnt_prev = (spawn_cnt - 1) as int;
                    xs = xs.push(x as int);
                    assert(forall|j: int| 0 <= j < xs_prev.len() ==> xs[j] == xs_prev[j]);
                    assert(xs[xs_prev.len() as int] == x as int);
                    assert(forall|j: int| 0 <= j < prev.len() ==> self.enemies@[j] == prev[j]);
                    assert(self.enemies@[prev.len() as int] == enemy);
                    assert forall|j: int| 0 <= j < spawn_cnt implies is_fresh_spawn_of_tier(
                        #[trigger] self.enemies@[len0 + j],
                        old(self).score,
                        draw_g,
                        xs[j],
                        settings.bound_y(),
                    ) by {
                        if j < cnt_prev {
                            assert(self.enemies@[len0 + j] == prev[len0 + j]);
                            assert(xs[j] == xs_prev[j]);
                            assert(is_fresh_spawn_of_tier(
                                prev[len0 + j],
                                old(self).score,
                                draw_g,
                                xs_prev[j],
                                settings.bound_y(),
                            ));
                        } else {
                            assert(len0 + j == prev.len());
                            assert(self.enemies@[len0 + j] == enemy);
                            assert(xs[j] == x as int);
                        }
                    }
                }
            }
            Ghost((draw_g, xs))
        } else {
            Ghost((0int, Seq::empty()))
        }
    }

    /// The per-enemy pass: flag out-of-health enemies as dying, kill a Normal
    /// hero that an enemy touches, and tick every enemy.
    fn enemy_collision_phase(&mut self, settings: &GameSettings)
        requires
            old(self).wf(),
        ensures
            *final(self) == (GameStates {
                hero: final(self).hero,
                enemies: final(self).enemies,
                ..*old(self)
            }),
            (final(self).hero, final(self).enemies@) == enemy_phase(
                old(self).hero,
                old(self).enemies@,
                *settings,
            ),
            final(self).wf(),
    {
        let ghost orig = self.enemies@;
        let ghost hero0 = self.hero;
        let n = self.enemies.len();
        proof {
            assert(orig.skip(0) =~= orig);
            assert(self.enemies@.take(0) + enemy_phase(hero0, orig, *settings).1 =~= enemy_phase(
                hero0,
                orig,
                *settings,
            ).1);
        }
        let mut i: usize = 0;
        while i < n
            invariant
                i <= n,
                self.enemies@.len() == n,
                orig.len() == n,
                self.hero.wf(),
                forall|j: int| i <= j < n ==> self.enemies@[j] == orig[j],
                forall|j: int| 0 <= j < n ==> (#[trigger] orig[j]).wf(),
                forall|j: int| 0 <= j < n ==> (#[trigger] self.enemies@[j]).wf(),
                enemy_phase(hero0, orig, *settings) == ({
                    let rest = enemy_phase(self.hero, orig.skip(i as int), *settings);
                    (rest.0, self.enemies@.take(i as int) + rest.1)
                }),
                *self == (GameStates { hero: self.hero, enemies: self.enemies, ..*old(self) }),
            decreases n - i,
        {
            let ghost iold = i as int;
            let ghost prev = self.enemies@;
            let ghost hero_before = self.hero;
            proof {
                assert(self.enemies@[iold] == orig[iold]);
                assert(orig[iold].wf());
            }
            let hit_hero: bool;
            {
                let e = &mut self.enemies[i];
                e.die_flag();
                hit_hero = collisioned(e, &self.hero);
                if hit_hero && self.hero.state == EntityState::Normal {
                    self.hero.state = EntityState::DieAnimating;
                }
                e.tick(settings);
            }
            proof {
                let e1 = orig[iold].die_flagged();
                let e2 = e1.ticked(*settings);
                assert(self.enemies@ == prev.update(iold, e2));
                assert(orig.skip(iold)[0] == orig[iold]);
                assert(orig.skip(iold).drop_first() =~= orig.skip(iold + 1));
                let rest_new = enemy_phase(self.hero, orig.skip(iold + 1), *settings);
                assert(enemy_phase(hero_before, orig.skip(iold), *settings) == (
                    rest_new.0,
                    seq![e2] + rest_new.1,
                ));
                assert(self.enemies@.take(iold + 1) =~= prev.take(iold) + seq![e2]);
                assert(prev.take(iold) =~= self.enemies@.take(iold));
                assert((prev.take(iold) + seq![e2]) + rest_new.1 =~= prev.take(iold) + (seq![e2]
                    + rest_new.1));
            }
            i = i + 1;
        }
        proof {
            assert(orig.skip(n as int) =~= Seq::<Enemy>::empty());
            assert(enemy_phase(self.hero, orig.skip(n as int), *settings) == (
                self.hero,
                Seq::<Enemy>::empty(),
            ));
            assert(self.enemies@.take(n as int) + Seq::<Enemy>::empty() =~= self.enemies@);
        }
    }

    /// The bullet retirement pass: each bullet, in order, damages the first
    /// live enemy it overlaps and disappears; a bullet that hits nothing is
    /// kept only while strictly inside the vertical bounds.
    fn retire_bullets_phase(&mut self, settings: &GameSettings)
        requires
            old(self).wf(),
        ensures
            *final(self) == (GameStates {
                hero_bullets: final(self).hero_bullets,
                enemies: final(self).enemies,
                ..*old(self)
            }),
            (final(self).hero_bullets@, final(self).enemies@) == bullets_retired(
                old(self).hero_bullets@,
                old(self).enemies@,
                *settings,
            ),
            final(self).wf(),
    {
        let ghost bullets0 = self.hero_bullets@;
        let ghost enemies0 = self.enemies@;
        let mut kept: Vec<Bullet> = Vec::new();
        let n = self.hero_bullets.len();
        let by = (settings.height as i64) * 10;
        proof {
            assert(bullets0.skip(0) =~= bullets0);
            assert(kept@ + bullets_retired(bullets0, enemies0, *settings).0 =~= bullets_retired(
                bullets0,
                enemies0,
                *settings,
            ).0);
        }
        let mut bi: usize = 0;
        while bi < n
            invariant
                bi <= n,
                self.hero_bullets@ == bullets0,
                bullets0.len() == n,
                forall|j: int| 0 <= j < n ==> (#[trigger] bullets0[j]).wf(),
                forall|j: int| 0 <= j < self.enemies@.len() ==> (#[trigger] self.enemies@[j]).wf(),
                forall|j: int| 0 <= j < kept@.len() ==> (#[trigger] kept@[j]).wf(),
                bullets_retired(bullets0, enemies0, *settings) == ({
                    let rest = bullets_retired(bullets0.skip(bi as int), self.enemies@, *settings);
                    (kept@ + rest.0, rest.1)
                }),
                by == settings.bound_y(),
                *self == (GameStates {
                    hero_bullets: self.hero_bullets,
                    enemies: self.enemies,
                    ..*old(self)
                }),
            decreases n - bi,
        {
            let ghost prev_enemies = self.enemies@;
            let ghost prev_kept = kept@;
            let b = self.hero_bullets[bi];
            proof {
                assert(b == bullets0[bi as int]);
                assert(bullets0[bi as int].wf());
            }
            let m = self.enemies.len();
            let mut j: usize = 0;
            let mut found: bool = false;
            while j < m && !found
                invariant
                    j <= m,
                    m == self.enemies@.len(),
                    self.enemies@ == prev_enemies,
                    b.wf(),
                    forall|k: int|
                        0 <= k < self.enemies@.len() ==> (#[trigger] self.enemies@[k]).wf(),
                    !found ==> find_hit(b, self.enemies@, 0) == find_hit(
                        b,
                        self.enemies@,
                        j as int,
                    ),
                    found ==> j < m && find_hit(b, self.enemies@, 0) == j as int,
                decreases m - j + (if found { 0int } else { 1int }),
            {
                let hittable = self.enemies[j].is_hittable();
                let overlap = collisioned(&b, &self.enemies[j]);
                if hittable && overlap {
                    found = true;
                } else {
                    j = j + 1;
                    proof {
                        assert(find_hit(b, self.enemies@, (j - 1) as int) == find_hit(
                            b,
                            self.enemies@,
                            j as int,
                        ));
                    }
                }
            }
            proof {
                assert(bullets0.skip(bi as int)[0] == bullets0[bi as int]);
                assert(bullets0.skip(bi as int).drop_first() =~= bullets0.skip(bi as int + 1));
                if !found {
                    assert(find_hit(b, self.enemies@, m as int) == m as int);
                }
            }
            if found {
                let e = &mut self.enemies[j];
                e.apply_hit();
                proof {
                    assert(self.enemies@ == prev_enemies.update(
                        j as int,
                        prev_enemies[j as int].hit_applied(),
                    ));
                }
            } else {
                if b.motion_state.pos.y > 0 && b.motion_state.pos.y < by {
                    kept.push(b);
                    proof {
                        let rest = bullets_retired(
                            bullets0.skip(bi as int + 1),
                            self.enemies@,
                            *settings,
                        );
                        assert(prev_kept + (seq![b] + rest.0) =~= kept@ + rest.0);
                    }
                }
            }
            bi = bi + 1;
        }
        self.hero_bullets = kept;
        proof {
            assert(bullets0.skip(n as int) =~= Seq::<Bullet>::empty());
            assert(self.hero_bullets@ + Seq::<Bullet>::empty() =~= self.hero_bullets@);
        }
    }

    /// The enemy retirement pass: a dead enemy is removed and scores its
    /// tier's points (the score saturates and never decreases); an enemy
    /// scrolled to or past the bottom is removed without score.  No enemy
    /// that survives this pass is Died.
    fn retire_enemies_phase(&mut self)
        requires
            old(self).wf(),
        ensures
            *final(self) == (GameStates {
                enemies: final(self).enemies,
                score: final(self).score,
                ..*old(self)
            }),
            final(self).enemies@ == enemies_retired(old(self).enemies@).0,
            final(self).score == score_saturated(
                old(self).score,
                enemies_retired(old(self).enemies@).1,
            ),
            final(self).score >= old(self).score,
            forall|i: int|
                0 <= i < final(self).enemies@.len() ==> (#[trigger] final(self).enemies@[i]).state()
                    != EntityState::Died,
            final(self).wf(),
    {
        let ghost enemies0 = self.enemies@;
        let ghost score0 = self.score;
        let ghost mut d: int = 0;
        let mut retained: Vec<Enemy> = Vec::new();
        proof {
            assert(retained@ + enemies_retired(enemies0).0 =~= enemies_retired(enemies0).0);
        }
        while self.enemies.len() > 0
            invariant
                forall|k: int| 0 <= k < self.enemies@.len() ==> (#[trigger] self.enemies@[k]).wf(),
                forall|k: int| 0 <= k < retained@.len() ==> (#[trigger] retained@[k]).wf(),
                forall|k: int|
                    0 <= k < retained@.len() ==> (#[trigger] retained@[k]).state()
                        != EntityState::Died,
                enemies_retired(enemies0) == ({
                    let rest = enemies_retired(self.enemies@);
                    (retained@ + rest.0, d + rest.1)
                }),
                d >= 0,
                self.score == score_saturated(score0, d),
                *self == (GameStates {
                    enemies: self.enemies,
                    score: self.score,
                    ..*old(self)
                }),
                score0 == old(self).score,
            decreases self.enemies@.len(),
        {
            let ghost cur = self.enemies@;
            let e = self.enemies.remove(0);
            proof {
                assert(e == cur[0]);
                assert(cur[0].wf());
                assert(self.enemies@ =~= cur.drop_first());
            }
            if e.health_of() == 0 && e.state_of() == EntityState::Died {
                let pts = e.score_points();
                self.score = if self.score > u32::MAX - pts {
                    u32::MAX
                } else {
                    self.score + pts
                };
                proof {
                    d = d + pts;
                }
            } else if e.pos_y_of() > 0 {
                let ghost prev_retained = retained@;
                retained.push(e);
                proof {
                    let rest = enemies_retired(self.enemies@);
                    assert(prev_retained + (seq![e] + rest.0) =~= retained@ + rest.0);
                }
            }
        }
        proof {
            assert(self.enemies@ =~= Seq::<Enemy>::empty());
            assert(enemies_retired(self.enemies@) == (Seq::<Enemy>::empty(), 0int));
            assert(retained@ + Seq::<Enemy>::empty() =~= retained@);
        }
        self.enemies = retained;
    }

    /// One fixed simulation step, in order: hero motion and animation,
    /// shooting cadence, bullet motion, enemy spawning, enemy ticks with
    /// collision resolution, bullet retirement, and enemy retirement with
    /// scoring.
    ///
    /// The last clause pins the new state down exactly: it is `tick_rel` of
    /// the old state for some value of the random tier draw and the random
    /// spawn abscissas.  The other clauses state directly that the score
    /// never decreases and that no enemy survives the tick in the Died state:
    /// a dead enemy is retired, and scored, in the very tick its death
    /// animation completes.
    pub fn tick(&mut self, settings: &GameSettings)
        requires
            old(self).wf(),
        ensures
            final(self).wf(),
            final(self).score >= old(self).score,
            forall|i: int|
                0 <= i < final(self).enemies@.len() ==> (#[trigger] final(self).enemies@[i]).state()
                    != EntityState::Died,
            old(self).hero.state == EntityState::Died ==> final(self).hero == (Hero {
                shooting_cooldown: final(self).hero.shooting_cooldown,
                ..old(self).hero
            }),
            exists|draw: int, xs: Seq<int>, spawned: Seq<Enemy>|
                tick_rel(*old(self), *final(self), *settings, draw, xs, spawned),
    {
        // hero motion and animation
        self.hero.tick(settings);
        // shooting cadence: the cooldown decrements toward zero, then fires
        if self.hero.shooting_cooldown > 0 {
            self.hero.shooting_cooldown = self.hero.shooting_cooldown - 1;
        }
        if self.hero.shooting && self.hero.shooting_cooldown == 0 {
            let b = Bullet::new(
                self.hero.motion_state.pos.x,
                self.hero.motion_state.pos.y,
                0,
                BULLET_SPEED,
            );
            self.hero_bullets.push(b);
            self.hero.shooting_cooldown = SHOOT_COOLDOWN;
        }
        proof {
            let sh = shoot_step(old(self).hero.ticked(*settings), old(self).hero_bullets@);
            assert(self.hero == sh.0);
            assert(self.hero_bullets@ =~= sh.1);
        }
        // bullet motion
        self.move_bullets(settings);
        // enemy spawning
        let spawn_info = self.spawn_phase(settings);
        let ghost spawned_enemies = self.enemies@;
        // enemy ticks and collision resolution
        proof {
            if old(self).hero.state == EntityState::Died {
                lemma_enemy_phase_keeps_non_normal_hero(self.hero, self.enemies@, *settings);
            }
        }
        self.enemy_collision_phase(settings);
        // bullet retirement
        self.retire_bullets_phase(settings);
        // enemy retirement and scoring
        self.retire_enemies_phase();
        proof {
            reveal(tick_rel);
            assert(tick_rel(
                *old(self),
                *self,
                *settings,
                spawn_info@.0,
                spawn_info@.1,
                spawned_enemies,
            ));
        }
    }

    /// Whether the game is over: the hero's death animation has completed.
    pub fn end(&self) -> (r: bool)
        ensures
            r == (self.hero.state == EntityState::Died),
    {
        self.hero.state == EntityState::Died
    }

    pub fn score(&self) -> (r: u32)
        ensures
            r == self.score,
    {
        self.score
    }

    /// Build the drawable snapshot for the current frame, `ms_delta`
    /// milliseconds after the last simulation tick: every entity at its
    /// extrapolated position, in the fixed order hero, hero bullets, enemies,
    /// enemy bullets — a z-order contract.  Simulation state is not mutated.
    pub fn render_primitives(&self, ms_delta: u32) -> (r: Vec<Primitive>)
        requires
            self.wf(),
        ensures
            r@ == render_seq(*self, ms_delta as int),
    {
        let ghost ms = ms_delta as int;
        let mut r: Vec<Primitive> = Vec::new();
        r.push(self.hero.render(ms_delta));
        let nb = self.hero_bullets.len();
        let mut i: usize = 0;
        while i < nb
            invariant
                self.wf(),
                ms == ms_delta as int,
                i <= nb,
                nb == self.hero_bullets@.len(),
                r@.len() == 1 + i,
                r@[0] == self.hero.rendered(ms),
                forall|j: int| 0 <= j < i ==> r@[1 + j] == self.hero_bullets@[j].rendered(ms),
            decreases nb - i,
        {
            let ghost prev = r@;
            r.push(self.hero_bullets[i].render(ms_delta));
            proof {
                assert(forall|j: int| 0 <= j < prev.len() ==> r@[j] == prev[j]);
                assert(r@[prev.len() as int] == self.hero_bullets@[i as int].rendered(ms));
            }
            i = i + 1;
        }
        let ne = self.enemies.len();
        let mut i: usize = 0;
        while i < ne
            invariant
                self.wf(),
                ms == ms_delta as int,
                i <= ne,
                nb == self.hero_bullets@.len(),
                ne == self.enemies@.len(),
                r@.len() == 1 + nb + i,
                r@[0] == self.hero.rendered(ms),
                forall|j: int| 0 <= j < nb ==> r@[1 + j] == self.hero_bullets@[j].rendered(ms),
                forall|j: int| 0 <= j < i ==> r@[1 + nb + j] == self.enemies@[j].rendered(ms),
            decreases ne - i,
        {
            let ghost prev = r@;
            r.push(self.enemies[i].render(ms_delta));
            proof {
                assert(forall|j: int| 0 <= j < prev.len() ==> r@[j] == prev[j]);
                assert(r@[prev.len() as int] == self.enemies@[i as int].rendered(ms));
            }
            i = i + 1;
        }
        let neb = self.enemy_bullets.len();
        let mut i: usize = 0;
        while i < neb
            invariant
                self.wf(),
                ms == ms_delta as int,
                i <= neb,
                nb == self.hero_bullets@.len(),
                ne == self.enemies@.len(),
                neb == self.enemy_bullets@.len(),
                r@.len() == 1 + nb + ne + i,
                r@[0] == self.hero.rendered(ms),
                forall|j: int| 0 <= j < nb ==> r@[1 + j] == self.hero_bullets@[j].rendered(ms),
                forall|j: int| 0 <= j < ne ==> r@[1 + nb + j] == self.enemies@[j].rendered(ms),
                forall|j: int|
                    0 <= j < i ==> r@[1 + nb + ne + j] == self.enemy_bullets@[j].rendered(ms),
            decreases neb - i,
        {
            let ghost prev = r@;
            r.push(self.enemy_bullets[i].render(ms_delta));
            proof {
                assert(forall|j: int| 0 <= j < prev.len() ==> r@[j] == prev[j]);
                assert(r@[prev.len() as int] == self.enemy_bullets@[i as int].rendered(ms));
            }
            i = i + 1;
        }
        proof {
            assert(r@ =~= render_seq(*self, ms));
        }
        r
    }
}

/// The render snapshot: one primitive per entity, hero first, then hero
/// bullets, enemies, and enemy bullets, each extrapolated `ms_delta`
/// milliseconds past its simulated position.
pub open spec fn render_seq(g: GameStates, ms_delta: int) -> Seq<Primitive> {
    seq![g.hero.rendered(ms_delta)] + g.hero_bullets@.map_values(|b: Bullet| b.rendered(ms_delta))
        + g.enemies@.map_values(|e: Enemy| e.rendered(ms_delta)) + g.enemy_bullets@.map_values(
        |b: Bullet| b.rendered(ms_delta),
    )
}

} // verus!
