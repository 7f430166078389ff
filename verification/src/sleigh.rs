//! The sleigh: how it is steered, what befalls it, and what it carries.
use vstd::prelude::*;
use crate::asset::{AssetLibrary, Image, Point, Sound, SoundName, Sprite};
use crate::font::Font;
use crate::game::{GameDifficulty, GameMode};
use crate::gift::{draw_gifts, gifts_sprites, Chimney, Gift, GiftMode};
use crate::level::{lemma_visible_tiles, Landscape, Level};
use crate::random::random_between;
use crate::star::{draw_stars, stars_sprites, Star};
use crate::ui::{number_text, number_to_text, Alignment, Score};
use crate::units::{
    add_saturating,
    add_scaled,
    add_scaled_u64,
    clamp_between,
    clamp_i64,
    clamp_u64,
    elapsed,
    elapsed_spec,
    instant_after,
    pixels,
    pixels_spec,
    saturate_i64,
    sub_saturating,
    UNITS_PER_FRAME,
};

verus! {

/// Number of stars that trail behind the sleigh.
pub const NUMBER_OF_SLEIGH_STARS: usize = 67;

/// Damage points for flying into the terrain.
pub const LEVEL_COLLISION_DAMAGE_POINTS: i64 = 50;

/// Height of the opening of a chimney, in position units.
pub const CHIMNEY_HEIGHT: i64 = 20_000_000;

/// Greatest speed, in velocity units, that a sleigh can be given.
pub const VELOCITY_LIMIT: i64 = 0x7fff_ffff;

/// The velocity at `instant` on the ramp from `from` at `start` to `to` at
/// `end`: `to` from `end` on, `from` up to `start`, and in between the share
/// of the way that belongs to the share of the time, rounded toward `from`.
pub open spec fn ramp(from: i64, to: i64, start: u64, end: u64, instant: u64) -> int {
    if instant >= end {
        to as int
    } else if instant <= start {
        from as int
    } else if to >= from {
        from + ((to - from) * (instant - start)) / (end - start)
    } else {
        from - ((from - to) * (instant - start)) / (end - start)
    }
}

/// The milliseconds that a ramp over `way` velocity units takes at an
/// acceleration: the quotient, rounded up to whole milliseconds.
pub open spec fn ramp_duration(way: int, acceleration: int) -> int {
    (way + acceleration - 1) / acceleration
}

/// The milliseconds that a ramp over `way` velocity units takes.
fn ramp_length(way: i64, acceleration: i64) -> (r: u64)
    requires
        0 <= way,
        acceleration > 0,
    ensures
        r == ramp_duration(way as int, acceleration as int),
        way > 0 ==> r >= 1,
{
    let sum: i128 = way as i128 + acceleration as i128 - 1;
    assert(0 <= sum / (acceleration as i128) <= sum && (way > 0 ==> sum / (acceleration as i128)
        >= 1)) by (nonlinear_arith)
        requires
            acceleration >= 1,
            sum == way + acceleration - 1,
            way >= 0,
    ;
    (sum / (acceleration as i128)) as u64
}

/// On a ramp the velocity stays between its two ends.
pub proof fn lemma_ramp_between(from: i64, to: i64, start: u64, end: u64, instant: u64)
    ensures
        from <= to ==> from <= ramp(from, to, start, end, instant) <= to,
        to <= from ==> to <= ramp(from, to, start, end, instant) <= from,
{
    if start < instant < end {
        let span = (end - start) as int;
        let passed = (instant - start) as int;
        let way = if to >= from {
            to - from
        } else {
            from - to
        };
        assert(0 <= way * passed <= way * span) by (nonlinear_arith)
            requires
                0 <= way,
                0 <= passed <= span,
        ;
        vstd::arithmetic::div_mod::lemma_div_is_ordered(0, way * passed, span);
        vstd::arithmetic::div_mod::lemma_div_is_ordered(way * passed, way * span, span);
        vstd::arithmetic::div_mod::lemma_div_by_multiple(way, span);
    }
}

/// Velocity ramp convergence: at the end of the ramp, and ever after, the
/// velocity is the target; and up to there it never moves away from the
/// target, so it rises, or falls, all the way.
pub proof fn lemma_ramp_converges(
    from: i64,
    to: i64,
    start: u64,
    end: u64,
    earlier: u64,
    later: u64,
)
    requires
        earlier <= later,
    ensures
        ramp(from, to, start, end, end) == to,
        later >= end ==> ramp(from, to, start, end, later) == to,
        from <= to ==> ramp(from, to, start, end, earlier) <= ramp(from, to, start, end, later),
        to <= from ==> ramp(from, to, start, end, earlier) >= ramp(from, to, start, end, later),
{
    lemma_ramp_between(from, to, start, end, earlier);
    lemma_ramp_between(from, to, start, end, later);
    if start < earlier && later < end {
        let span = (end - start) as int;
        let way = if to >= from {
            to - from
        } else {
            from - to
        };
        assert(way * (earlier - start) <= way * (later - start)) by (nonlinear_arith)
            requires
                0 <= way,
                earlier <= later,
        ;
        vstd::arithmetic::div_mod::lemma_div_is_ordered(
            way * (earlier - start),
            way * (later - start),
            span,
        );
    }
}

/// A ramp between different velocities takes at least a millisecond.
proof fn lemma_ramp_begins(from: int, to: int, acceleration: int)
    requires
        acceleration > 0,
    ensures
        from < to ==> ramp_duration(to - from, acceleration) >= 1,
        to < from ==> ramp_duration(from - to, acceleration) >= 1,
        ramp_duration(0, acceleration) == 0,
{
    assert(from < to ==> (to - from + acceleration - 1) / acceleration >= 1) by (nonlinear_arith)
        requires
            acceleration > 0,
    ;
    assert(to < from ==> (from - to + acceleration - 1) / acceleration >= 1) by (nonlinear_arith)
        requires
            acceleration > 0,
    ;
    assert((0 + acceleration - 1) / acceleration == 0) by (nonlinear_arith)
        requires
            acceleration > 0,
    ;
}

/// Terrain crash: a sleigh that the terrain can harm and that touches the
/// terrain is thrown back, in a run and in the menu alike. It is then
/// invincible and stunned and
/// rises at full speed; the damage points have grown by the fixed penalty,
/// once, however many tiles it touches, and the gift points are what they
/// were; the level and the landscape stop scrolling while it is stunned; one
/// of the two sounds of a crash is heard. And while it stays invincible no
/// later tick lets it crash again, whatever it touches.
pub proof fn lemma_crash_counts_once(
    sleigh: Sleigh,
    after: Sleigh,
    score: Score,
    score_after: Score,
    landscape: Landscape,
    landscape_after: Landscape,
    level: Level,
    level_after: Level,
    sound: Option<Sound>,
    now: u64,
    menu_position: Point,
    later: u64,
    later_level: Level,
)
    requires
        sleigh.wf(),
        sleigh.crashes(&level),
        sleigh.responds_to_level(
            after,
            score,
            score_after,
            landscape,
            landscape_after,
            level,
            level_after,
            sound,
            now,
        ),
    ensures
        after.invincible && after.immobile,
        after.velocity == (Point { x: 0, y: (-sleigh.max_velocity.y) as i64 }),
        score_after.damage_points == crate::ui::floored_sum(
            score.damage_points,
            LEVEL_COLLISION_DAMAGE_POINTS,
        ),
        score_after.gift_points == score.gift_points,
        level_after.scrolling_resume_instant == clamp_u64(now + sleigh.immobile_duration),
        landscape_after.scrolling_resume_instant == clamp_u64(now + sleigh.immobile_duration),
        sound matches Some(heard) && (heard.name == SoundName::SleighCollidedWithLevel1
            || heard.name == SoundName::SleighCollidedWithLevel2),
        !after.crashes(&later_level),
        later < after.invincible_reset_instant ==> !after.moved(menu_position, later).crashes(
            &later_level,
        ),
{
}

/// Steering converges: after the keys have set a target velocity at `now`,
/// the velocity that the steering asks for is at `now` what it was, is the
/// target at the end of the ramp and ever after, and from `now` on never
/// moves away from the target. The same holds along the vertical axis.
pub proof fn lemma_steering_converges(sleigh: Sleigh, sign: i64, now: u64, earlier: u64, later: u64)
    requires
        sleigh.wf(),
        -1 <= sign <= 1,
        now <= earlier <= later,
    ensures
        ({
            let steered = sleigh.steered_x(sign, now);
            let target = sign * sleigh.max_velocity.x;
            &&& now < u64::MAX ==> steered.velocity_x_at(now) == sleigh.velocity_x_at(now)
            &&& steered.velocity_x_at(steered.velocity_x_instant2) == target
            &&& later >= steered.velocity_x_instant2 ==> steered.velocity_x_at(later) == target
            &&& steered.velocity_x_at(earlier) <= target ==> steered.velocity_x_at(earlier)
                <= steered.velocity_x_at(later) <= target
            &&& steered.velocity_x_at(earlier) >= target ==> steered.velocity_x_at(earlier)
                >= steered.velocity_x_at(later) >= target
        }),
        ({
            let steered = sleigh.steered_y(sign, now);
            let target = sign * sleigh.max_velocity.y;
            &&& now < u64::MAX ==> steered.velocity_y_at(now) == sleigh.velocity_y_at(now)
            &&& steered.velocity_y_at(steered.velocity_y_instant2) == target
            &&& later >= steered.velocity_y_instant2 ==> steered.velocity_y_at(later) == target
            &&& steered.velocity_y_at(earlier) <= target ==> steered.velocity_y_at(earlier)
                <= steered.velocity_y_at(later) <= target
            &&& steered.velocity_y_at(earlier) >= target ==> steered.velocity_y_at(earlier)
                >= steered.velocity_y_at(later) >= target
        }),
{
    lemma_ramp_between(
        sleigh.velocity_point1.x,
        sleigh.velocity_point2.x,
        sleigh.velocity_x_instant1,
        sleigh.velocity_x_instant2,
        now,
    );
    lemma_ramp_between(
        sleigh.velocity_point1.y,
        sleigh.velocity_point2.y,
        sleigh.velocity_y_instant1,
        sleigh.velocity_y_instant2,
        now,
    );
    assert(-sleigh.max_velocity.x <= sign * sleigh.max_velocity.x <= sleigh.max_velocity.x)
        by (nonlinear_arith)
        requires
            -1 <= sign <= 1,
            0 <= sleigh.max_velocity.x,
    ;
    assert(-sleigh.max_velocity.y <= sign * sleigh.max_velocity.y <= sleigh.max_velocity.y)
        by (nonlinear_arith)
        requires
            -1 <= sign <= 1,
            0 <= sleigh.max_velocity.y,
    ;
    lemma_ramp_begins(
        sleigh.velocity_x_at(now),
        sign * sleigh.max_velocity.x,
        sleigh.max_acceleration.x as int,
    );
    lemma_ramp_begins(
        sleigh.velocity_y_at(now),
        sign * sleigh.max_velocity.y,
        sleigh.max_acceleration.y as int,
    );
    let x = sleigh.steered_x(sign, now);
    lemma_ramp_converges(
        x.velocity_point1.x,
        x.velocity_point2.x,
        x.velocity_x_instant1,
        x.velocity_x_instant2,
        earlier,
        later,
    );
    lemma_ramp_between(
        x.velocity_point1.x,
        x.velocity_point2.x,
        x.velocity_x_instant1,
        x.velocity_x_instant2,
        earlier,
    );
    lemma_ramp_between(
        x.velocity_point1.x,
        x.velocity_point2.x,
        x.velocity_x_instant1,
        x.velocity_x_instant2,
        later,
    );
    let y = sleigh.steered_y(sign, now);
    lemma_ramp_converges(
        y.velocity_point1.y,
        y.velocity_point2.y,
        y.velocity_y_instant1,
        y.velocity_y_instant2,
        earlier,
        later,
    );
    lemma_ramp_between(
        y.velocity_point1.y,
        y.velocity_point2.y,
        y.velocity_y_instant1,
        y.velocity_y_instant2,
        earlier,
    );
    lemma_ramp_between(
        y.velocity_point1.y,
        y.velocity_point2.y,
        y.velocity_y_instant1,
        y.velocity_y_instant2,
        later,
    );
}

/// The velocity on a ramp between two velocities within the limit.
fn velocity_on_ramp(from: i64, to: i64, start: u64, end: u64, instant: u64) -> (r: i64)
    requires
        -VELOCITY_LIMIT <= from <= VELOCITY_LIMIT,
        -VELOCITY_LIMIT <= to <= VELOCITY_LIMIT,
    ensures
        r == ramp(from, to, start, end, instant),
        -VELOCITY_LIMIT <= r <= VELOCITY_LIMIT,
{
    proof {
        lemma_ramp_between(from, to, start, end, instant);
    }
    if instant >= end {
        to
    } else if instant <= start {
        from
    } else {
        let span: i128 = (end - start) as i128;
        let passed: i128 = (instant - start) as i128;
        let way: i128 = if to >= from {
            to as i128 - from as i128
        } else {
            from as i128 - to as i128
        };
        assert(0 <= way * passed <= 0x1_0000_0000 * 0xffff_ffff_ffff_ffff) by (nonlinear_arith)
            requires
                0 <= way <= 0x1_0000_0000,
                0 <= passed <= 0xffff_ffff_ffff_ffff,
        ;
        let part: i128 = (way * passed) / span;
        if to >= from {
            (from as i128 + part) as i64
        } else {
            (from as i128 - part) as i64
        }
    }
}

/// The outcome of the ticks of the first `n` gifts, with `bonus` telling
/// whether the sleigh holds the bonus at this tick: the gifts that stay, in
/// their order, the score, and the sounds, in the order of the gifts.
pub open spec fn gifts_outcome<'a>(
    gifts: Seq<Gift<'a>>,
    score: Score,
    level: &Level,
    chimneys: Seq<Chimney>,
    bonus: bool,
    now: u64,
    n: int,
) -> (Seq<Gift<'a>>, Score, Seq<Sound>)
    decreases n,
{
    if n <= 0 {
        (Seq::empty(), score, Seq::empty())
    } else {
        let before = gifts_outcome(gifts, score, level, chimneys, bonus, now, n - 1);
        let gift = gifts[n - 1];
        let ticked = gift.tick(level, chimneys, bonus, now);
        (
            if ticked.mode == GiftMode::CanBeDeleted {
                before.0
            } else {
                before.0.push(ticked)
            },
            gift.tick_score(before.1, level, chimneys, bonus, now),
            match gift.tick_sound(level, chimneys, now) {
                Some(sound) => before.2.push(sound),
                None => before.2,
            },
        )
    }
}

/// The sleigh with its reindeer.
pub struct Sleigh<'a> {
    pub sleigh_image: &'a Image,
    pub reindeer_image: &'a Image,
    pub electrocuted_sleigh_image: &'a Image,
    pub electrocuted_reindeer_image: &'a Image,
    pub shield_image: &'a Image,
    pub canvas_size: Point,
    pub game_mode: GameMode,
    pub size: Point,
    pub position: Point,
    pub velocity: Point,
    pub velocity_point1: Point,
    pub velocity_point2: Point,
    pub velocity_x_instant1: u64,
    pub velocity_x_instant2: u64,
    pub velocity_y_instant1: u64,
    pub velocity_y_instant2: u64,
    pub sleigh_frame: u64,
    pub reindeer_frame: u64,
    pub shield_frame: u64,
    pub counting_down: bool,
    pub bonus: bool,
    pub shield: bool,
    pub drunk: bool,
    pub invincible: bool,
    pub immobile: bool,
    pub electrocuted: bool,
    pub countdown_counter: i32,
    pub invincible_blink: bool,
    pub game_start_instant: u64,
    pub last_gift_instant: u64,
    pub bonus_reset_instant: u64,
    pub shield_reset_instant: u64,
    pub drunk_reset_instant: u64,
    pub invincible_reset_instant: u64,
    pub immobile_reset_instant: u64,
    pub electrocuted_reset_instant: u64,
    pub menu_start_instant: u64,
    pub last_update_instant: u64,
    pub chimneys: Vec<Chimney>,
    pub gifts: Vec<Gift<'a>>,
    pub stars: Vec<Star<'a>>,
    pub max_velocity: Point,
    pub max_acceleration: Point,
    pub reindeer_offset: Point,
    pub electrocuted_offset: Point,
    pub shield_offset: Point,
    pub countdown_counter_offset_x: i64,
    pub frame_speed: u64,
    pub shield_frame_speed: u64,
    pub new_gift_wait_duration: u64,
    pub bonus_duration: u64,
    pub shield_duration: u64,
    pub drunk_duration: u64,
    pub invincible_duration: u64,
    pub immobile_duration: u64,
    pub electrocuted_duration: u64,
    pub invincible_blink_period_duration: u64,
    pub menu_min_position: Point,
    pub menu_max_position: Point,
    pub game_start_position: Point,
}

/// The whole seconds, rounded up, in `milliseconds`.
pub open spec fn seconds_rounded_up(milliseconds: u64) -> i32 {
    if (milliseconds + 999) / 1000 > i32::MAX {
        i32::MAX
    } else {
        ((milliseconds + 999) / 1000) as i32
    }
}

/// Whether a sleigh that stays invincible for another `remaining`
/// milliseconds is hidden: in the second half of each blink period.
pub open spec fn blinks(remaining: u64, period: u64) -> bool {
    (remaining % period) * 2 >= period
}

impl<'a> Sleigh<'a> {
    /// The images, gifts and stars are well formed, the canvas is wider than
    /// the sleigh, accelerations and the blink period are positive, and the
    /// velocities of the ramps lie within the greatest velocity.
    pub open spec fn wf(&self) -> bool {
        &&& self.sleigh_image.wf()
        &&& self.reindeer_image.wf()
        &&& self.electrocuted_sleigh_image.wf()
        &&& self.electrocuted_reindeer_image.wf()
        &&& self.shield_image.wf()
        &&& self.size.x >= 0
        &&& self.size.y >= 0
        &&& self.canvas_size.x > self.size.x
        &&& self.canvas_size.y >= self.size.y
        &&& 0 <= self.max_velocity.x <= VELOCITY_LIMIT
        &&& 0 <= self.max_velocity.y <= VELOCITY_LIMIT
        &&& self.max_acceleration.x > 0
        &&& self.max_acceleration.y > 0
        &&& -self.max_velocity.x <= self.velocity_point1.x <= self.max_velocity.x
        &&& -self.max_velocity.x <= self.velocity_point2.x <= self.max_velocity.x
        &&& -self.max_velocity.y <= self.velocity_point1.y <= self.max_velocity.y
        &&& -self.max_velocity.y <= self.velocity_point2.y <= self.max_velocity.y
        &&& self.invincible_blink_period_duration > 0
        &&& forall|i: int| 0 <= i < self.gifts@.len() ==> (#[trigger] self.gifts@[i]).wf()
        &&& forall|i: int| 0 <= i < self.stars@.len() ==> (#[trigger] self.stars@[i]).wf()
    }

    /// The horizontal velocity that the steering asks for at `instant`.
    pub open spec fn velocity_x_at(&self, instant: u64) -> int {
        ramp(
            self.velocity_point1.x,
            self.velocity_point2.x,
            self.velocity_x_instant1,
            self.velocity_x_instant2,
            instant,
        )
    }

    /// The vertical velocity that the steering asks for at `instant`.
    pub open spec fn velocity_y_at(&self, instant: u64) -> int {
        ramp(
            self.velocity_point1.y,
            self.velocity_point2.y,
            self.velocity_y_instant1,
            self.velocity_y_instant2,
            instant,
        )
    }

    /// The sleigh with a new horizontal target: `sign` times the greatest
    /// velocity, reached from the velocity at `now` at the greatest acceleration.
    pub open spec fn steered_x(self, sign: i64, now: u64) -> Sleigh<'a> {
        let velocity = self.velocity_x_at(now) as i64;
        let target = (sign * self.max_velocity.x) as i64;
        let way = if target >= velocity {
            target - velocity
        } else {
            velocity - target
        };
        Sleigh {
            velocity_x_instant1: now,
            velocity_x_instant2: clamp_u64(now + ramp_duration(way, self.max_acceleration.x as int)),
            velocity_point1: Point { x: velocity, y: self.velocity_point1.y },
            velocity_point2: Point { x: target, y: self.velocity_point2.y },
            ..self
        }
    }

    /// The sleigh with a new vertical target.
    pub open spec fn steered_y(self, sign: i64, now: u64) -> Sleigh<'a> {
        let velocity = self.velocity_y_at(now) as i64;
        let target = (sign * self.max_velocity.y) as i64;
        let way = if target >= velocity {
            target - velocity
        } else {
            velocity - target
        };
        Sleigh {
            velocity_y_instant1: now,
            velocity_y_instant2: clamp_u64(now + ramp_duration(way, self.max_acceleration.y as int)),
            velocity_point1: Point { x: self.velocity_point1.x, y: velocity },
            velocity_point2: Point { x: self.velocity_point2.x, y: target },
            ..self
        }
    }

    /// The direction along one axis that the keys ask for: the key toward the
    /// origin wins; a drunk driver steers the other way.
    pub open spec fn direction(&self, toward_origin: bool, away_from_origin: bool) -> i64 {
        let factor: i64 = if self.drunk {
            -1i64
        } else {
            1i64
        };
        if toward_origin {
            (-factor) as i64
        } else if away_from_origin {
            factor
        } else {
            0i64
        }
    }

    /// Whether the keys steer the sleigh: in a run, once the countdown is
    /// over, and while the sleigh is not stunned.
    pub open spec fn is_steerable(&self) -> bool {
        self.game_mode != GameMode::Menu && !self.immobile && !self.counting_down
    }

    /// The sleigh after the keys were read at `now`.
    pub open spec fn after_keys(self, left: bool, right: bool, up: bool, down: bool, now: u64) -> Sleigh<
        'a,
    > {
        if self.is_steerable() {
            self.steered_x(self.direction(left, right), now).steered_y(
                self.direction(up, down),
                now,
            )
        } else {
            self
        }
    }

    /// The sleigh with every state dropped whose time is over at `now`.
    pub open spec fn expired(self, now: u64) -> Sleigh<'a> {
        Sleigh {
            counting_down: self.counting_down && now < self.game_start_instant,
            bonus: self.bonus && now < self.bonus_reset_instant,
            shield: self.shield && now < self.shield_reset_instant,
            drunk: self.drunk && now < self.drunk_reset_instant,
            invincible: self.invincible && now < self.invincible_reset_instant,
            immobile: self.immobile && now < self.immobile_reset_instant,
            electrocuted: self.electrocuted && now < self.electrocuted_reset_instant,
            ..self
        }
    }

    /// The velocity along one axis as it is used to move: zero where the
    /// sleigh is at an edge of the playfield and would leave it.
    pub open spec fn held_at_edge(velocity: i64, position: i64, limit: i64) -> i64 {
        if (velocity < 0 && position <= 0) || (velocity > 0 && position >= limit) {
            0
        } else {
            velocity
        }
    }

    /// The position along one axis after `dt` milliseconds at `velocity`,
    /// kept on the playfield.
    pub open spec fn moved_along(position: i64, velocity: i64, dt: u64, limit: i64) -> i64 {
        clamp_between(clamp_i64(position + velocity * dt) as int, 0, limit as int) as i64
    }

    /// The sleigh moved by the steering over the `dt` milliseconds up to `now`.
    pub open spec fn flown(self, dt: u64, now: u64) -> Sleigh<'a> {
        let limit_x = clamp_i64(self.canvas_size.x - self.size.x);
        let limit_y = clamp_i64(self.canvas_size.y - self.size.y);
        let velocity = Point {
            x: Self::held_at_edge(self.velocity_x_at(now) as i64, self.position.x, limit_x),
            y: Self::held_at_edge(self.velocity_y_at(now) as i64, self.position.y, limit_y),
        };
        Sleigh {
            velocity,
            position: Point {
                x: Self::moved_along(self.position.x, velocity.x, dt, limit_x),
                y: Self::moved_along(self.position.y, velocity.y, dt, limit_y),
            },
            ..self
        }
    }

    /// The sleigh at its place at `now`, `dt` milliseconds after the last
    /// tick: in the menu at `menu_position`, during the countdown where it
    /// is, else where the steering moves it.
    pub open spec fn placed(self, menu_position: Point, dt: u64, now: u64) -> Sleigh<'a> {
        if self.game_mode == GameMode::Menu {
            Sleigh { position: menu_position, ..self }
        } else if self.counting_down {
            self
        } else {
            self.flown(dt, now)
        }
    }

    /// The sleigh with its animations, its countdown and its blinking
    /// brought up to `now`, `dt` milliseconds after the last tick.
    pub open spec fn animated(self, dt: u64, now: u64) -> Sleigh<'a> {
        let sleigh_frame = if self.immobile {
            self.sleigh_frame
        } else {
            clamp_u64(self.sleigh_frame + self.frame_speed * dt)
        };
        Sleigh {
            sleigh_frame,
            reindeer_frame: if self.immobile {
                self.reindeer_frame
            } else {
                clamp_u64(sleigh_frame + self.reindeer_image.frame_count() * UNITS_PER_FRAME / 2)
            },
            shield_frame: if self.shield {
                clamp_u64(self.shield_frame + self.frame_speed * dt)
            } else {
                self.shield_frame
            },
            countdown_counter: if self.counting_down && now < self.game_start_instant {
                seconds_rounded_up((self.game_start_instant - now) as u64)
            } else {
                self.countdown_counter
            },
            invincible_blink: if self.invincible && now < self.invincible_reset_instant {
                blinks(
                    (self.invincible_reset_instant - now) as u64,
                    self.invincible_blink_period_duration,
                )
            } else {
                self.invincible_blink
            },
            last_update_instant: now,
            ..self
        }
    }

    /// The sleigh after a tick at `now`, but for its gifts and stars: the
    /// states whose time is over have ended, the sleigh has taken its place,
    /// and its animations have gone on.
    pub open spec fn moved(self, menu_position: Point, now: u64) -> Sleigh<'a> {
        let dt = elapsed_spec(self.last_update_instant, now);
        self.expired(now).placed(menu_position, dt, now).animated(dt, now)
    }

    /// The place of the reindeer for a sleigh at `position`.
    pub open spec fn reindeer_position_spec(&self) -> Point {
        Point {
            x: clamp_i64(
                clamp_i64(self.position.x + pixels_spec(self.sleigh_image.frame_width()))
                    + self.reindeer_offset.x,
            ),
            y: clamp_i64(self.position.y + self.reindeer_offset.y),
        }
    }

    /// Whether the sleigh or its reindeer share an opaque pixel with an image
    /// at a place on the canvas.
    pub open spec fn collides_with_image_spec(&self, image: &Image, position: Point, frame: u64) -> bool {
        ||| self.sleigh_image.collides_spec(self.position, self.sleigh_frame, image, position, frame)
        ||| self.reindeer_image.collides_spec(
            self.reindeer_position_spec(),
            self.sleigh_frame,
            image,
            position,
            frame,
        )
    }

    /// The place on the canvas of a tile of the level.
    pub open spec fn tile_on_canvas(level: &Level, tile: (usize, usize)) -> Point {
        Point {
            x: clamp_i64(level.tile_position_spec(tile).x - level.offset_x),
            y: level.tile_position_spec(tile).y,
        }
    }

    /// Whether the sleigh shares an opaque pixel with the terrain on a tile.
    pub open spec fn collides_with_tile(&self, level: &Level, tile: (usize, usize)) -> bool {
        &&& level.tile_spec(tile.0 as int, tile.1 as int) >= 0
        &&& self.collides_with_image_spec(
            level.image,
            Self::tile_on_canvas(level, tile),
            clamp_u64(level.tile_spec(tile.0 as int, tile.1 as int) * UNITS_PER_FRAME),
        )
    }

    /// Whether the sleigh shares an opaque pixel with the terrain on a visible tile.
    pub open spec fn collides_with_level_spec(&self, level: &Level) -> bool {
        exists|tile: (usize, usize)|
            level.is_visible(tile) && #[trigger] self.collides_with_tile(level, tile)
    }

    /// Whether the terrain can harm the sleigh: while it is neither
    /// invincible nor stunned and no countdown runs.
    pub open spec fn is_vulnerable_to_level(&self) -> bool {
        &&& !self.invincible
        &&& !self.immobile
        &&& !self.counting_down
    }

    /// The sleigh thrown back by a crash at `now`: invincible and stunned,
    /// rising at full speed.
    pub open spec fn crashed(self, now: u64) -> Sleigh<'a> {
        let velocity = Point { x: 0, y: (-self.max_velocity.y) as i64 };
        Sleigh {
            invincible: true,
            immobile: true,
            invincible_reset_instant: clamp_u64(
                clamp_u64(now + self.immobile_duration) + self.invincible_duration,
            ),
            immobile_reset_instant: clamp_u64(now + self.immobile_duration),
            velocity,
            velocity_point1: velocity,
            velocity_point2: velocity,
            ..self
        }
    }

    /// The chimney openings from a table of four numbers each: column and
    /// row of the opening on its tile and its width, in pixels, and the marker
    /// of the tile.
    pub fn load_chimneys(data: &Vec<i64>) -> (chimneys: Vec<Chimney>)
        requires
            data@.len() % 4 == 0,
        ensures
            chimneys@.len() == data@.len() / 4,
            forall|i: int|
                0 <= i < chimneys@.len() ==> (#[trigger] chimneys@[i]) == (Chimney {
                    position: Point {
                        x: pixels_spec(data@[4 * i] as int),
                        y: pixels_spec(data@[4 * i + 1] as int),
                    },
                    size: Point { x: pixels_spec(data@[4 * i + 2] as int), y: CHIMNEY_HEIGHT },
                    frame: data@[4 * i + 3],
                }),
    {
        let mut chimneys: Vec<Chimney> = Vec::new();
        let mut i: usize = 0;
        while i < data.len() / 4
            invariant
                data@.len() % 4 == 0,
                i <= data@.len() / 4,
                chimneys@.len() == i,
                forall|k: int|
                    0 <= k < i ==> (#[trigger] chimneys@[k]) == (Chimney {
                        position: Point {
                            x: pixels_spec(data@[4 * k] as int),
                            y: pixels_spec(data@[4 * k + 1] as int),
                        },
                        size: Point { x: pixels_spec(data@[4 * k + 2] as int), y: CHIMNEY_HEIGHT },
                        frame: data@[4 * k + 3],
                    }),
            decreases data@.len() / 4 - i,
        {
            chimneys.push(
                Chimney::new(
                    Point::new(pixels(data[4 * i]), pixels(data[4 * i + 1])),
                    Point::new(pixels(data[4 * i + 2]), CHIMNEY_HEIGHT),
                    data[4 * i + 3],
                ),
            );
            i += 1;
        }
        chimneys
    }

    /// Whether in `after` every star of the sleigh is marked as not placed,
    /// and nothing else about the stars has changed.
    pub open spec fn stars_cleared_in(&self, after: &Sleigh<'a>) -> bool {
        &&& after.stars@.len() == self.stars@.len()
        &&& forall|i: int|
            0 <= i < self.stars@.len() ==> (#[trigger] after.stars@[i]) == (Star {
                fresh: true,
                ..self.stars@[i]
            })
    }

    /// Whether `after` is the sleigh at the start of a run that begins at
    /// `game_start_instant`: it waits at its starting place, sober and
    /// unharmed, and its stars are to be placed anew.
    pub open spec fn starts_game_to(self, after: Sleigh<'a>, game_start_instant: u64) -> bool {
        &&& self.stars_cleared_in(&after)
        &&& after == (Sleigh {
            game_mode: GameMode::Running,
            position: self.game_start_position,
            counting_down: true,
            drunk: false,
            invincible: false,
            immobile: false,
            game_start_instant,
            stars: after.stars,
            ..self
        })
    }

    /// Whether `after` is the sleigh back in the menu at `now`: sober and
    /// unharmed, with no countdown, without gifts, and with its stars to be
    /// placed anew.
    pub open spec fn starts_menu_to(self, after: Sleigh<'a>, now: u64) -> bool {
        &&& self.stars_cleared_in(&after)
        &&& after.gifts@.len() == 0
        &&& after == (Sleigh {
            game_mode: GameMode::Menu,
            counting_down: false,
            drunk: false,
            invincible: false,
            immobile: false,
            menu_start_instant: now,
            gifts: after.gifts,
            stars: after.stars,
            ..self
        })
    }

    /// Starts a run: the sleigh waits at its starting place until
    /// `game_start_instant`, sober and unharmed, and its stars are placed anew.
    pub fn start_game(&mut self, game_start_instant: u64)
        requires
            old(self).wf(),
        ensures
            final(self).wf(),
            old(self).starts_game_to(*final(self), game_start_instant),
    {
        self.game_mode = GameMode::Running;
        self.position = self.game_start_position;
        self.counting_down = true;
        self.drunk = false;
        self.invincible = false;
        self.immobile = false;
        self.game_start_instant = game_start_instant;
        self.clear_stars();
    }

    /// Returns to the menu at `now`: sober and unharmed, with no countdown,
    /// without gifts, and with the stars to be placed anew.
    pub fn start_menu(&mut self, now: u64)
        requires
            old(self).wf(),
        ensures
            final(self).wf(),
            old(self).starts_menu_to(*final(self), now),
    {
        self.gifts = Vec::new();
        self.game_mode = GameMode::Menu;
        self.counting_down = false;
        self.drunk = false;
        self.invincible = false;
        self.immobile = false;
        self.menu_start_instant = now;
        self.clear_stars();
    }

    /// Marks every star as not placed.
    fn clear_stars(&mut self)
        requires
            old(self).wf(),
        ensures
            final(self).wf(),
            old(self).stars_cleared_in(final(self)),
            *final(self) == (Sleigh { stars: final(self).stars, ..*old(self) }),
    {
        let mut i: usize = 0;
        while i < self.stars.len()
            invariant
                self.wf(),
                i <= self.stars@.len(),
                self.stars@.len() == old(self).stars@.len(),
                *self == (Sleigh { stars: self.stars, ..*old(self) }),
                forall|k: int|
                    0 <= k < i ==> (#[trigger] self.stars@[k]) == (Star {
                        fresh: true,
                        ..old(self).stars@[k]
                    }),
                forall|k: int| i <= k < self.stars@.len() ==> self.stars@[k] == old(self).stars@[k],
            decreases self.stars@.len() - i,
        {
            let mut star = self.stars[i];
            star.clear();
            self.stars.set(i, star);
            i += 1;
        }
    }

    /// Reads the keys at `now` and sets the targets of the steering: left or
    /// up beats right or down, no key lets the sleigh come to rest. Nothing
    /// happens in the menu, during the countdown, or while the sleigh is stunned.
    pub fn check_keyboard_state(&mut self, left: bool, right: bool, up: bool, down: bool, now: u64)
        requires
            old(self).wf(),
        ensures
            final(self).wf(),
            *final(self) == old(self).after_keys(left, right, up, down, now),
    {
        if self.game_mode == GameMode::Menu || self.immobile || self.counting_down {
            return ;
        }
        let drunk_factor: i64 = if self.drunk { -1 } else { 1 };
        if left {
            self.update_velocity_x(-drunk_factor, now);
        } else if right {
            self.update_velocity_x(drunk_factor, now);
        } else {
            self.update_velocity_x(0, now);
        }
        if up {
            self.update_velocity_y(-drunk_factor, now);
        } else if down {
            self.update_velocity_y(drunk_factor, now);
        } else {
            self.update_velocity_y(0, now);
        }
    }

    /// Sets a new horizontal target.
    fn update_velocity_x(&mut self, sign: i64, now: u64)
        requires
            old(self).wf(),
            -1 <= sign <= 1,
        ensures
            final(self).wf(),
            *final(self) == old(self).steered_x(sign, now),
    {
        let velocity_x = self.get_velocity_x(now);
        self.velocity_x_instant1 = now;
        self.velocity_point1.x = velocity_x;
        assert(-self.max_velocity.x <= sign * self.max_velocity.x <= self.max_velocity.x)
            by (nonlinear_arith)
            requires
                -1 <= sign <= 1,
                0 <= self.max_velocity.x,
        ;
        let target_velocity_x: i64 = sign * self.max_velocity.x;
        let way: i64 = if target_velocity_x >= velocity_x {
            target_velocity_x - velocity_x
        } else {
            velocity_x - target_velocity_x
        };
        self.velocity_x_instant2 = instant_after(now, ramp_length(way, self.max_acceleration.x));
        self.velocity_point2.x = target_velocity_x;
    }

    /// Sets a new vertical target.
    fn update_velocity_y(&mut self, sign: i64, now: u64)
        requires
            old(self).wf(),
            -1 <= sign <= 1,
        ensures
            final(self).wf(),
            *final(self) == old(self).steered_y(sign, now),
    {
        let velocity_y = self.get_velocity_y(now);
        self.velocity_y_instant1 = now;
        self.velocity_point1.y = velocity_y;
        assert(-self.max_velocity.y <= sign * self.max_velocity.y <= self.max_velocity.y)
            by (nonlinear_arith)
            requires
                -1 <= sign <= 1,
                0 <= self.max_velocity.y,
        ;
        let target_velocity_y: i64 = sign * self.max_velocity.y;
        let way: i64 = if target_velocity_y >= velocity_y {
            target_velocity_y - velocity_y
        } else {
            velocity_y - target_velocity_y
        };
        self.velocity_y_instant2 = instant_after(now, ramp_length(way, self.max_acceleration.y));
        self.velocity_point2.y = target_velocity_y;
    }

    /// The horizontal velocity that the steering asks for at `instant`.
    pub fn get_velocity_x(&self, instant: u64) -> (r: i64)
        requires
            self.wf(),
        ensures
            r == self.velocity_x_at(instant),
            -self.max_velocity.x <= r <= self.max_velocity.x,
    {
        proof {
            lemma_ramp_between(
                self.velocity_point1.x,
                self.velocity_point2.x,
                self.velocity_x_instant1,
                self.velocity_x_instant2,
                instant,
            );
        }
        velocity_on_ramp(
            self.velocity_point1.x,
            self.velocity_point2.x,
            self.velocity_x_instant1,
            self.velocity_x_instant2,
            instant,
        )
    }

    /// The vertical velocity that the steering asks for at `instant`.
    pub fn get_velocity_y(&self, instant: u64) -> (r: i64)
        requires
            self.wf(),
        ensures
            r == self.velocity_y_at(instant),
            -self.max_velocity.y <= r <= self.max_velocity.y,
    {
        proof {
            lemma_ramp_between(
                self.velocity_point1.y,
                self.velocity_point2.y,
                self.velocity_y_instant1,
                self.velocity_y_instant2,
                instant,
            );
        }
        velocity_on_ramp(
            self.velocity_point1.y,
            self.velocity_point2.y,
            self.velocity_y_instant1,
            self.velocity_y_instant2,
            instant,
        )
    }

    /// Doubles the points of gifts for a while from `now`.
    pub fn start_bonus(&mut self, now: u64)
        ensures
            *final(self) == (Sleigh {
                bonus: true,
                bonus_reset_instant: clamp_u64(now + old(self).bonus_duration),
                ..*old(self)
            }),
    {
        self.bonus = true;
        self.bonus_reset_instant = instant_after(now, self.bonus_duration);
    }

    /// Shields the sleigh for a while from `now`.
    pub fn start_shield(&mut self, now: u64)
        ensures
            *final(self) == (Sleigh {
                shield: true,
                shield_reset_instant: clamp_u64(now + old(self).shield_duration),
                shield_frame: 0,
                ..*old(self)
            }),
    {
        self.shield = true;
        self.shield_reset_instant = instant_after(now, self.shield_duration);
        self.shield_frame = 0;
    }

    /// Makes the driver drunk for a while from `now`.
    pub fn start_drunk(&mut self, now: u64)
        ensures
            *final(self) == (Sleigh {
                drunk: true,
                drunk_reset_instant: clamp_u64(now + old(self).drunk_duration),
                ..*old(self)
            }),
    {
        self.drunk = true;
        self.drunk_reset_instant = instant_after(now, self.drunk_duration);
    }

    /// Makes the sleigh invincible for a while from `now`.
    pub fn start_invincible(&mut self, now: u64)
        ensures
            *final(self) == (Sleigh {
                invincible: true,
                invincible_reset_instant: clamp_u64(now + old(self).invincible_duration),
                ..*old(self)
            }),
    {
        self.invincible = true;
        self.invincible_reset_instant = instant_after(now, self.invincible_duration);
    }

    /// Shows the sleigh electrocuted for a while from `now`.
    pub fn start_electrocuted(&mut self, now: u64)
        ensures
            *final(self) == (Sleigh {
                electrocuted: true,
                electrocuted_reset_instant: clamp_u64(now + old(self).electrocuted_duration),
                ..*old(self)
            }),
    {
        self.electrocuted = true;
        self.electrocuted_reset_instant = instant_after(now, self.electrocuted_duration);
    }

    /// Throws the sleigh back at `now`: it is stunned for a while and stays
    /// invincible for a while longer, and it rises at full speed.
    pub fn start_invincible_and_immobile(&mut self, now: u64)
        requires
            old(self).wf(),
        ensures
            final(self).wf(),
            *final(self) == old(self).crashed(now),
    {
        self.invincible = true;
        self.immobile = true;
        let immobile_reset_instant = instant_after(now, self.immobile_duration);
        self.invincible_reset_instant = instant_after(
            immobile_reset_instant,
            self.invincible_duration,
        );
        self.immobile_reset_instant = immobile_reset_instant;
        self.velocity = Point::new(0, -self.max_velocity.y);
        self.velocity_point1 = self.velocity;
        self.velocity_point2 = self.velocity;
    }

    /// The place of the reindeer.
    pub fn reindeer_position(&self) -> (r: Point)
        requires
            self.wf(),
        ensures
            r == self.reindeer_position_spec(),
    {
        Point {
            x: add_saturating(
                add_saturating(self.position.x, pixels(self.sleigh_image.width() as i64)),
                self.reindeer_offset.x,
            ),
            y: add_saturating(self.position.y, self.reindeer_offset.y),
        }
    }

    /// Whether the sleigh or its reindeer share an opaque pixel with an image
    /// at a place on the canvas.
    pub fn collides_with_image(&self, image: &Image, position: Point, frame: u64) -> (r: bool)
        requires
            self.wf(),
            image.wf(),
        ensures
            r == self.collides_with_image_spec(image, position, frame),
    {
        self.sleigh_image.collides(self.position, self.sleigh_frame, image, position, frame)
            || self.reindeer_image.collides(
            self.reindeer_position(),
            self.sleigh_frame,
            image,
            position,
            frame,
        )
    }

    /// Whether the sleigh shares an opaque pixel with the terrain on a visible tile.
    pub fn collides_with_level(&self, level: &Level) -> (r: bool)
        requires
            self.wf(),
            level.wf(),
        ensures
            r == self.collides_with_level_spec(level),
    {
        let tiles = level.visible_tiles();
        let mut t: usize = 0;
        while t < tiles.len()
            invariant
                self.wf(),
                level.wf(),
                t <= tiles@.len(),
                tiles@ == level.visible_tiles_spec(),
                forall|k: int|
                    0 <= k < t ==> !#[trigger] self.collides_with_tile(level, tiles@[k]),
            decreases tiles@.len() - t,
        {
            let tile = tiles[t];
            proof {
                lemma_visible_tiles(*level, tile);
                assert(tiles@.contains(tile));
            }
            let tile_frame = level.tile(tile.0, tile.1);
            if tile_frame >= 0 {
                let tile_position = level.tile_position(tile);
                let on_canvas = Point {
                    x: sub_saturating(tile_position.x, level.offset_x),
                    y: tile_position.y,
                };
                let frame: u64 = if tile_frame as u128 * 1000 > u64::MAX as u128 {
                    u64::MAX
                } else {
                    tile_frame as u64 * 1000
                };
                if self.collides_with_image(level.image, on_canvas, frame) {
                    assert(self.collides_with_tile(level, tile));
                    return true;
                }
            }
            t += 1;
        }
        assert forall|tile: (usize, usize)| level.is_visible(tile) implies !#[trigger] self.collides_with_tile(
            level,
            tile,
        ) by {
            lemma_visible_tiles(*level, tile);
            let k = choose|k: int| 0 <= k < tiles@.len() && tiles@[k] == tile;
            assert(!self.collides_with_tile(level, tiles@[k]));
        }
        false
    }

    /// Whether the library holds what a sleigh needs: its five images, what
    /// its stars need, and the table of chimneys with four numbers for each.
    pub open spec fn has_assets(asset_library: &AssetLibrary) -> bool {
        &&& asset_library.has_image("sleigh"@)
        &&& asset_library.has_image("reindeer"@)
        &&& asset_library.has_image("electrocutedSleigh"@)
        &&& asset_library.has_image("electrocutedReindeer"@)
        &&& asset_library.has_image("shield"@)
        &&& Star::has_assets(asset_library)
        &&& asset_library.has_data("chimneys"@)
        &&& asset_library.data("chimneys"@)@.len() % 4 == 0
    }

    /// The size of the sleigh with its reindeer: both heights and the gap
    /// between them for the width, the height of the sleigh for the height.
    pub open spec fn size_for(asset_library: &AssetLibrary) -> Point {
        Point {
            x: pixels_spec(
                asset_library.image("sleigh"@).frame_height() + asset_library.image(
                    "reindeer"@,
                ).frame_height() + 10,
            ),
            y: pixels_spec(asset_library.image("sleigh"@).frame_height()),
        }
    }

    /// The sleigh as it is made at `now`, with the given chimneys and stars:
    /// in the menu, at rest at the origin, in no special state.
    pub open spec fn initial(
        asset_library: &'a AssetLibrary,
        canvas_size: Point,
        now: u64,
        chimneys: Vec<Chimney>,
        gifts: Vec<Gift<'a>>,
        stars: Vec<Star<'a>>,
    ) -> Sleigh<'a> {
        Sleigh {
            sleigh_image: &asset_library.image("sleigh"@),
            reindeer_image: &asset_library.image("reindeer"@),
            electrocuted_sleigh_image: &asset_library.image("electrocutedSleigh"@),
            electrocuted_reindeer_image: &asset_library.image("electrocutedReindeer"@),
            shield_image: &asset_library.image("shield"@),
            canvas_size,
            game_mode: GameMode::Menu,
            size: Sleigh::size_for(asset_library),
            position: Point { x: 0, y: 0 },
            velocity: Point { x: 0, y: 0 },
            velocity_point1: Point { x: 0, y: 0 },
            velocity_point2: Point { x: 0, y: 0 },
            velocity_x_instant1: now,
            velocity_x_instant2: now,
            velocity_y_instant1: now,
            velocity_y_instant2: now,
            sleigh_frame: 0,
            reindeer_frame: 0,
            shield_frame: 0,
            counting_down: false,
            bonus: false,
            shield: false,
            drunk: false,
            invincible: false,
            immobile: false,
            electrocuted: false,
            countdown_counter: 0,
            invincible_blink: false,
            game_start_instant: now,
            last_gift_instant: now,
            bonus_reset_instant: now,
            shield_reset_instant: now,
            drunk_reset_instant: now,
            invincible_reset_instant: now,
            immobile_reset_instant: now,
            electrocuted_reset_instant: now,
            menu_start_instant: now,
            last_update_instant: now,
            chimneys,
            gifts,
            stars,
            max_velocity: Point { x: 200_000, y: 200_000 },
            max_acceleration: Point { x: 1000, y: 1000 },
            reindeer_offset: Point { x: 10_000_000, y: 3_000_000 },
            electrocuted_offset: Point { x: -3_000_000i64, y: -2_000_000i64 },
            shield_offset: Point { x: -12_000_000i64, y: -17_000_000i64 },
            countdown_counter_offset_x: -10_000_000i64,
            frame_speed: 14,
            shield_frame_speed: 8,
            new_gift_wait_duration: 250,
            bonus_duration: 15000,
            shield_duration: 15000,
            drunk_duration: 15000,
            invincible_duration: 3000,
            immobile_duration: 5000,
            electrocuted_duration: 1000,
            invincible_blink_period_duration: 500,
            menu_min_position: Point { x: 50_000_000, y: 50_000_000 },
            menu_max_position: Point { x: 450_000_000, y: 200_000_000 },
            game_start_position: Point { x: 50_000_000, y: 100_000_000 },
        }
    }

    /// A sleigh in the menu, made at `now`, with its stars and the chimneys
    /// of the level, and without gifts.
    pub fn new(asset_library: &'a AssetLibrary, canvas_size: Point, now: u64) -> (r: Sleigh<'a>)
        requires
            asset_library.wf(),
            Sleigh::has_assets(asset_library),
            canvas_size.x > Sleigh::size_for(asset_library).x,
            canvas_size.y >= Sleigh::size_for(asset_library).y,
        ensures
            r.wf(),
            r == Sleigh::initial(asset_library, canvas_size, now, r.chimneys, r.gifts, r.stars),
            r.gifts@.len() == 0,
            r.stars@.len() == NUMBER_OF_SLEIGH_STARS,
            forall|i: int|
                0 <= i < r.stars@.len() ==> (#[trigger] r.stars@[i]) == Star::initial(asset_library),
            r.chimneys@.len() == asset_library.data("chimneys"@)@.len() / 4,
            forall|i: int|
                0 <= i < r.chimneys@.len() ==> (#[trigger] r.chimneys@[i]) == (Chimney {
                    position: Point {
                        x: pixels_spec(asset_library.data("chimneys"@)@[4 * i] as int),
                        y: pixels_spec(asset_library.data("chimneys"@)@[4 * i + 1] as int),
                    },
                    size: Point {
                        x: pixels_spec(asset_library.data("chimneys"@)@[4 * i + 2] as int),
                        y: CHIMNEY_HEIGHT,
                    },
                    frame: asset_library.data("chimneys"@)@[4 * i + 3],
                }),
    {
        let sleigh_image = asset_library.get_image("sleigh");
        let reindeer_image = asset_library.get_image("reindeer");
        let reindeer_offset = Point::new(10_000_000, 3_000_000);
        let size = Point::new(
            pixels(sleigh_image.height() as i64 + reindeer_image.height() as i64 + 10),
            pixels(sleigh_image.height() as i64),
        );
        let mut stars: Vec<Star<'a>> = Vec::new();
        let mut i: usize = 0;
        while i < NUMBER_OF_SLEIGH_STARS
            invariant
                asset_library.wf(),
                Star::has_assets(asset_library),
                i <= NUMBER_OF_SLEIGH_STARS,
                stars@.len() == i,
                forall|k: int| 0 <= k < i ==> (#[trigger] stars@[k]).wf(),
                forall|k: int| 0 <= k < i ==> (#[trigger] stars@[k]) == Star::initial(asset_library),
            decreases NUMBER_OF_SLEIGH_STARS - i,
        {
            stars.push(Star::new(asset_library));
            i += 1;
        }
        Sleigh {
            sleigh_image,
            reindeer_image,
            electrocuted_sleigh_image: asset_library.get_image("electrocutedSleigh"),
            electrocuted_reindeer_image: asset_library.get_image("electrocutedReindeer"),
            shield_image: asset_library.get_image("shield"),
            canvas_size,
            game_mode: GameMode::Menu,
            size,
            position: Point::zero(),
            velocity: Point::zero(),
            velocity_point1: Point::zero(),
            velocity_point2: Point::zero(),
            velocity_x_instant1: now,
            velocity_x_instant2: now,
            velocity_y_instant1: now,
            velocity_y_instant2: now,
            sleigh_frame: 0,
            reindeer_frame: 0,
            shield_frame: 0,
            counting_down: false,
            bonus: false,
            shield: false,
            drunk: false,
            invincible: false,
            immobile: false,
            electrocuted: false,
            countdown_counter: 0,
            invincible_blink: false,
            game_start_instant: now,
            last_gift_instant: now,
            bonus_reset_instant: now,
            shield_reset_instant: now,
            drunk_reset_instant: now,
            invincible_reset_instant: now,
            immobile_reset_instant: now,
            electrocuted_reset_instant: now,
            menu_start_instant: now,
            last_update_instant: now,
            chimneys: Sleigh::load_chimneys(asset_library.get_data("chimneys")),
            gifts: Vec::new(),
            stars,
            max_velocity: Point::new(200_000, 200_000),
            max_acceleration: Point::new(1000, 1000),
            reindeer_offset,
            electrocuted_offset: Point::new(-3_000_000, -2_000_000),
            shield_offset: Point::new(-12_000_000, -17_000_000),
            countdown_counter_offset_x: -10_000_000,
            frame_speed: 14,
            shield_frame_speed: 8,
            new_gift_wait_duration: 250,
            bonus_duration: 15000,
            shield_duration: 15000,
            drunk_duration: 15000,
            invincible_duration: 3000,
            immobile_duration: 5000,
            electrocuted_duration: 1000,
            invincible_blink_period_duration: 500,
            menu_min_position: Point::new(50_000_000, 50_000_000),
            menu_max_position: Point::new(450_000_000, 200_000_000),
            game_start_position: Point::new(50_000_000, 100_000_000),
        }
    }

    /// Whether `after` is the sleigh after it was asked to drop a gift at
    /// `now`: nothing has changed if the last gift was dropped less than the
    /// waiting time ago; else a gift as the sleigh drops it has joined the
    /// other gifts, as the last.
    pub open spec fn drops_gift_to(
        self,
        after: Sleigh<'a>,
        asset_library: &'a AssetLibrary,
        level: &Level,
        game_difficulty: GameDifficulty,
        now: u64,
    ) -> bool {
        if elapsed_spec(self.last_gift_instant, now) < self.new_gift_wait_duration {
            after == self
        } else {
            &&& after.gifts@.len() == self.gifts@.len() + 1
            &&& after.gifts@.drop_last() == self.gifts@
            &&& after.gifts@.last().is_dropped_by(
                asset_library,
                level,
                &self,
                self.canvas_size,
                game_difficulty,
                now,
            )
            &&& after == (Sleigh { gifts: after.gifts, last_gift_instant: now, ..self })
        }
    }

    /// Drops a gift at `now`, unless the last one was dropped less than the
    /// waiting time ago; chance decides the kind of the gift and the frame at
    /// which its animation starts.
    pub fn drop_gift(
        &mut self,
        asset_library: &'a AssetLibrary,
        level: &Level,
        game_difficulty: GameDifficulty,
        now: u64,
    )
        requires
            old(self).wf(),
            asset_library.wf(),
            Gift::has_assets(asset_library),
        ensures
            final(self).wf(),
            old(self).drops_gift_to(*final(self), asset_library, level, game_difficulty, now),
    {
        if elapsed(self.last_gift_instant, now) < self.new_gift_wait_duration {
            return ;
        }
        let gift = Gift::new(asset_library, level, self, self.canvas_size, game_difficulty, now);
        self.gifts.push(gift);
        self.last_gift_instant = now;
        assert(self.gifts@.drop_last() =~= old(self).gifts@);
    }

    /// Whether the values after are those of a tick of the sleigh at `now`:
    /// the sleigh itself has moved; its gifts have ticked, one after the
    /// other, with the bonus that the sleigh holds at `now`, and those that
    /// can be deleted have left; its stars have ticked, as chance decided.
    pub open spec fn does_logic_to(
        self,
        after: Sleigh<'a>,
        score: Score,
        score_after: Score,
        level: &Level,
        sounds: Seq<Sound>,
        menu_position: Point,
        now: u64,
    ) -> bool {
        &&& after == (Sleigh {
            gifts: after.gifts,
            stars: after.stars,
            ..self.moved(menu_position, now)
        })
        &&& (after.gifts@, score_after, sounds) == gifts_outcome(
            self.gifts@,
            score,
            level,
            self.chimneys@,
            self.bonus && now < self.bonus_reset_instant,
            now,
            self.gifts@.len() as int,
        )
        &&& after.stars@.len() == self.stars@.len()
        &&& forall|i: int|
            0 <= i < self.stars@.len() ==> (#[trigger] self.stars@[i]).ticks_to(
                after.stars@[i],
                after.position,
                after.size,
                after.drunk,
                now,
            )
    }

    /// Lets the sleigh live up to `now`.
    ///
    /// First every state whose time is over ends. Then the sleigh takes its
    /// place: in the menu at `menu_position`, during the countdown where it
    /// is, else where the steering moves it, kept on the playfield. The
    /// animations, the countdown and the blinking go on. Then every gift
    /// ticks, and those that can be deleted leave; then every star ticks.
    /// Returns the sounds of the gifts.
    pub fn do_logic(&mut self, score: &mut Score, level: &Level, menu_position: Point, now: u64) -> (sounds:
        Vec<Sound>)
        requires
            old(self).wf(),
            level.wf(),
        ensures
            final(self).wf(),
            old(score).wf() ==> final(score).wf(),
            old(self).does_logic_to(
                *final(self),
                *old(score),
                *final(score),
                level,
                sounds@,
                menu_position,
                now,
            ),
            final(self).size == old(self).size,
    {
        let seconds_since_last_update = elapsed(self.last_update_instant, now);
        self.expire(now);
        self.take_place(menu_position, seconds_since_last_update, now);
        self.animate(seconds_since_last_update, now);
        let sounds = self.tick_gifts(score, level, now);
        self.tick_stars(now);
        sounds
    }

    /// Ends every state whose time is over at `now`.
    fn expire(&mut self, now: u64)
        requires
            old(self).wf(),
        ensures
            final(self).wf(),
            *final(self) == old(self).expired(now),
    {
        self.counting_down = self.counting_down && now < self.game_start_instant;
        self.bonus = self.bonus && now < self.bonus_reset_instant;
        self.shield = self.shield && now < self.shield_reset_instant;
        self.drunk = self.drunk && now < self.drunk_reset_instant;
        self.invincible = self.invincible && now < self.invincible_reset_instant;
        self.immobile = self.immobile && now < self.immobile_reset_instant;
        self.electrocuted = self.electrocuted && now < self.electrocuted_reset_instant;
    }

    /// Puts the sleigh at its place at `now`.
    fn take_place(&mut self, menu_position: Point, dt: u64, now: u64)
        requires
            old(self).wf(),
        ensures
            final(self).wf(),
            *final(self) == old(self).placed(menu_position, dt, now),
    {
        if self.game_mode == GameMode::Menu {
            self.position = menu_position;
        } else if !self.counting_down {
            let limit_x = sub_saturating(self.canvas_size.x, self.size.x);
            let limit_y = sub_saturating(self.canvas_size.y, self.size.y);
            let velocity = Point {
                x: Sleigh::hold_at_edge(self.get_velocity_x(now), self.position.x, limit_x),
                y: Sleigh::hold_at_edge(self.get_velocity_y(now), self.position.y, limit_y),
            };
            let position = Point {
                x: Sleigh::move_along(self.position.x, velocity.x, dt, limit_x),
                y: Sleigh::move_along(self.position.y, velocity.y, dt, limit_y),
            };
            self.velocity = velocity;
            self.position = position;
        }
    }

    /// The velocity along one axis as it is used to move.
    fn hold_at_edge(velocity: i64, position: i64, limit: i64) -> (r: i64)
        ensures
            r == Self::held_at_edge(velocity, position, limit),
    {
        if (velocity < 0 && position <= 0) || (velocity > 0 && position >= limit) {
            0
        } else {
            velocity
        }
    }

    /// The position along one axis after `dt` milliseconds at `velocity`.
    fn move_along(position: i64, velocity: i64, dt: u64, limit: i64) -> (r: i64)
        ensures
            r == Self::moved_along(position, velocity, dt, limit),
    {
        let moved = add_scaled(position, velocity, dt);
        let raised = if moved < 0 { 0 } else { moved };
        if raised > limit {
            limit
        } else {
            raised
        }
    }

    /// Brings the animations, the countdown and the blinking up to `now`.
    fn animate(&mut self, dt: u64, now: u64)
        requires
            old(self).wf(),
        ensures
            final(self).wf(),
            *final(self) == old(self).animated(dt, now),
    {
        if !self.immobile {
            let sleigh_frame = add_scaled_u64(self.sleigh_frame, self.frame_speed, dt);
            let half: u64 = (self.reindeer_image.total_number_of_frames() as u64) * 1000 / 2;
            self.sleigh_frame = sleigh_frame;
            self.reindeer_frame = add_scaled_u64(sleigh_frame, half, 1);
        }
        let shield_frame = if self.shield {
            add_scaled_u64(self.shield_frame, self.frame_speed, dt)
        } else {
            self.shield_frame
        };
        let countdown_counter = if self.counting_down && now < self.game_start_instant {
            Sleigh::round_up_to_seconds(self.game_start_instant - now)
        } else {
            self.countdown_counter
        };
        let invincible_blink = if self.invincible && now < self.invincible_reset_instant {
            Sleigh::is_blinking(
                self.invincible_reset_instant - now,
                self.invincible_blink_period_duration,
            )
        } else {
            self.invincible_blink
        };
        self.shield_frame = shield_frame;
        self.countdown_counter = countdown_counter;
        self.invincible_blink = invincible_blink;
        self.last_update_instant = now;
    }

    /// The whole seconds, rounded up, in `milliseconds`.
    fn round_up_to_seconds(milliseconds: u64) -> (r: i32)
        ensures
            r == seconds_rounded_up(milliseconds),
    {
        let seconds: u128 = (milliseconds as u128 + 999) / 1000;
        if seconds > i32::MAX as u128 {
            i32::MAX
        } else {
            seconds as i32
        }
    }

    /// Whether a sleigh that stays invincible for another `remaining`
    /// milliseconds is hidden.
    fn is_blinking(remaining: u64, period: u64) -> (r: bool)
        requires
            period > 0,
        ensures
            r == blinks(remaining, period),
    {
        (remaining % period) as u128 * 2 >= period as u128
    }

    /// Lets every gift tick at `now` and keeps those that cannot be deleted.
    fn tick_gifts(&mut self, score: &mut Score, level: &Level, now: u64) -> (sounds: Vec<Sound>)
        requires
            old(self).wf(),
            level.wf(),
        ensures
            final(self).wf(),
            *final(self) == (Sleigh { gifts: final(self).gifts, ..*old(self) }),
            (final(self).gifts@, *final(score), sounds@) == gifts_outcome(
                old(self).gifts@,
                *old(score),
                level,
                old(self).chimneys@,
                old(self).bonus,
                now,
                old(self).gifts@.len() as int,
            ),
            old(score).wf() ==> final(score).wf(),
    {
        let mut remaining_gifts: Vec<Gift<'a>> = Vec::new();
        let mut sounds: Vec<Sound> = Vec::new();
        let mut i: usize = 0;
        while i < self.gifts.len()
            invariant
                level.wf(),
                i <= self.gifts@.len(),
                *self == *old(self),
                forall|k: int| 0 <= k < self.gifts@.len() ==> (#[trigger] self.gifts@[k]).wf(),
                forall|k: int|
                    0 <= k < remaining_gifts@.len() ==> (#[trigger] remaining_gifts@[k]).wf(),
                old(score).wf() ==> score.wf(),
                (remaining_gifts@, *score, sounds@) == gifts_outcome(
                    old(self).gifts@,
                    *old(score),
                    level,
                    old(self).chimneys@,
                    old(self).bonus,
                    now,
                    i as int,
                ),
            decreases self.gifts@.len() - i,
        {
            let mut gift = self.gifts[i];
            let sound = gift.do_logic(score, level, &self.chimneys, self.bonus, now);
            if gift.mode() != GiftMode::CanBeDeleted {
                remaining_gifts.push(gift);
            }
            match sound {
                Some(sound) => {
                    sounds.push(sound);
                },
                None => {},
            }
            i += 1;
        }
        self.gifts = remaining_gifts;
        sounds
    }

    /// Lets every star tick at `now`.
    fn tick_stars(&mut self, now: u64)
        requires
            old(self).wf(),
        ensures
            final(self).wf(),
            *final(self) == (Sleigh { stars: final(self).stars, ..*old(self) }),
            final(self).stars@.len() == old(self).stars@.len(),
            forall|i: int|
                0 <= i < old(self).stars@.len() ==> (#[trigger] old(self).stars@[i]).ticks_to(
                    final(self).stars@[i],
                    old(self).position,
                    old(self).size,
                    old(self).drunk,
                    now,
                ),
    {
        let mut j: usize = 0;
        while j < self.stars.len()
            invariant
                self.wf(),
                j <= self.stars@.len(),
                self.stars@.len() == old(self).stars@.len(),
                *self == (Sleigh { stars: self.stars, ..*old(self) }),
                forall|k: int|
                    0 <= k < j ==> (#[trigger] old(self).stars@[k]).ticks_to(
                        self.stars@[k],
                        self.position,
                        self.size,
                        self.drunk,
                        now,
                    ),
                forall|k: int| j <= k < self.stars@.len() ==> self.stars@[k] == old(self).stars@[k],
            decreases self.stars@.len() - j,
        {
            let mut star = self.stars[j];
            star.do_logic(self.position, self.size, self.drunk, now);
            self.stars.set(j, star);
            j += 1;
        }
    }

    /// Whether the sleigh crashes into the terrain: the terrain can harm it,
    /// and it touches the terrain on a visible tile.
    pub open spec fn crashes(&self, level: &Level) -> bool {
        self.is_vulnerable_to_level() && self.collides_with_level_spec(level)
    }

    /// Tests the sleigh against the terrain at `now`, with the draw that
    /// decides between the two sounds of a crash (zero for the first).
    ///
    /// A sleigh that the terrain can harm and that touches the terrain on a
    /// visible tile is thrown back: it becomes invincible and stunned, rises at
    /// full speed, and takes damage; the landscape and the level stop
    /// scrolling while it is stunned. Else nothing changes.
    pub fn respond_to_level(
        &mut self,
        score: &mut Score,
        landscape: &mut Landscape,
        level: &mut Level,
        sound_draw: i64,
        now: u64,
    ) -> (sound: Option<Sound>)
        requires
            old(self).wf(),
            old(level).wf(),
        ensures
            final(self).wf(),
            final(level).wf(),
            old(score).wf() ==> final(score).wf(),
            old(landscape).wf() ==> final(landscape).wf(),
            old(self).crashes(old(level)) ==> {
                &&& *final(self) == old(self).crashed(now)
                &&& *final(score) == old(score).with_damage_points(LEVEL_COLLISION_DAMAGE_POINTS)
                &&& *final(landscape) == (Landscape {
                    scrolling_resume_instant: clamp_u64(now + old(self).immobile_duration),
                    ..*old(landscape)
                })
                &&& *final(level) == (Level {
                    scrolling_resume_instant: clamp_u64(now + old(self).immobile_duration),
                    ..*old(level)
                })
                &&& sound == Some(
                    Sound::at(
                        if sound_draw == 0 {
                            SoundName::SleighCollidedWithLevel1
                        } else {
                            SoundName::SleighCollidedWithLevel2
                        },
                        1000,
                        crate::asset::pan_at(old(self).canvas_size.x, old(self).position.x),
                    ),
                )
            },
            !old(self).crashes(old(level)) ==> {
                &&& *final(self) == *old(self)
                &&& *final(score) == *old(score)
                &&& *final(landscape) == *old(landscape)
                &&& *final(level) == *old(level)
                &&& sound.is_none()
            },
    {
        if self.invincible || self.immobile || self.counting_down {
            return None;
        }
        if !self.collides_with_level(level) {
            return None;
        }
        let name = if sound_draw == 0 {
            SoundName::SleighCollidedWithLevel1
        } else {
            SoundName::SleighCollidedWithLevel2
        };
        let sound = Sound::play_with_position(name, self.canvas_size, self.position.x);
        self.start_invincible_and_immobile(now);
        score.add_damage_points(LEVEL_COLLISION_DAMAGE_POINTS);
        let resume_instant = instant_after(now, self.immobile_duration);
        landscape.pause_scrolling(resume_instant);
        level.pause_scrolling(resume_instant);
        Some(sound)
    }

    /// Whether the values after are those of a test of the sleigh against
    /// the terrain at `now`, with either of the two sounds of a crash.
    pub open spec fn responds_to_level(
        self,
        after: Sleigh<'a>,
        score: Score,
        score_after: Score,
        landscape: Landscape,
        landscape_after: Landscape,
        level: Level,
        level_after: Level,
        sound: Option<Sound>,
        now: u64,
    ) -> bool {
        if self.crashes(&level) {
            &&& after == self.crashed(now)
            &&& score_after == score.with_damage_points(LEVEL_COLLISION_DAMAGE_POINTS)
            &&& landscape_after == (Landscape {
                scrolling_resume_instant: clamp_u64(now + self.immobile_duration),
                ..landscape
            })
            &&& level_after == (Level {
                scrolling_resume_instant: clamp_u64(now + self.immobile_duration),
                ..level
            })
            &&& sound == Some(
                Sound::at(
                    SoundName::SleighCollidedWithLevel1,
                    1000,
                    crate::asset::pan_at(self.canvas_size.x, self.position.x),
                ),
            ) || sound == Some(
                Sound::at(
                    SoundName::SleighCollidedWithLevel2,
                    1000,
                    crate::asset::pan_at(self.canvas_size.x, self.position.x),
                ),
            )
        } else {
            &&& after == self
            &&& score_after == score
            &&& landscape_after == landscape
            &&& level_after == level
            &&& sound.is_none()
        }
    }

    /// Tests the sleigh against the terrain at `now`; chance decides between
    /// the two sounds of a crash.
    pub fn check_collision_with_level(
        &mut self,
        score: &mut Score,
        landscape: &mut Landscape,
        level: &mut Level,
        now: u64,
    ) -> (sound: Option<Sound>)
        requires
            old(self).wf(),
            old(level).wf(),
        ensures
            final(self).wf(),
            final(level).wf(),
            old(score).wf() ==> final(score).wf(),
            old(landscape).wf() ==> final(landscape).wf(),
            old(self).responds_to_level(
                *final(self),
                *old(score),
                *final(score),
                *old(landscape),
                *final(landscape),
                *old(level),
                *final(level),
                sound,
                now,
            ),
    {
        let sound_draw = random_between(0, 2);
        self.respond_to_level(score, landscape, level, sound_draw, now)
    }

    /// A sprite of the sleigh: an image at an offset from the place of the
    /// sleigh, and half of `lack` pixels, in each direction, further up and to
    /// the left.
    pub open spec fn part(
        &self,
        image: &'a Image,
        offset: Point,
        lack_x: int,
        lack_y: int,
        frame: u64,
    ) -> Sprite<'a> {
        Sprite {
            image,
            position: Point {
                x: clamp_i64(self.position.x + offset.x - lack_x * (crate::units::UNITS_PER_PIXEL / 2)),
                y: clamp_i64(self.position.y + offset.y - lack_y * (crate::units::UNITS_PER_PIXEL / 2)),
            },
            frame,
        }
    }

    /// The offset of the first reindeer from the sleigh.
    pub open spec fn first_reindeer_offset(&self) -> Point {
        Point {
            x: clamp_i64(pixels_spec(self.sleigh_image.frame_width()) + self.reindeer_offset.x),
            y: self.reindeer_offset.y,
        }
    }

    /// The offset of the second reindeer from the sleigh.
    pub open spec fn second_reindeer_offset(&self) -> Point {
        Point { x: pixels_spec(self.sleigh_image.frame_width()), y: self.reindeer_offset.y }
    }

    /// What is drawn of an electrocuted sleigh behind the sleigh itself:
    /// the glowing sleigh and the two glowing reindeer, each around the
    /// middle of what it glows behind, moved by the offset of the glow.
    pub open spec fn electrocuted_sprites(&self) -> Seq<Sprite<'a>> {
        let glow = self.electrocuted_offset;
        let lack_x = self.electrocuted_reindeer_image.frame_width()
            - self.reindeer_image.frame_width();
        let lack_y = self.electrocuted_reindeer_image.frame_height()
            - self.reindeer_image.frame_height();
        seq![
            self.part(
                self.electrocuted_sleigh_image,
                glow,
                self.electrocuted_sleigh_image.frame_width() - self.sleigh_image.frame_width(),
                self.electrocuted_sleigh_image.frame_height() - self.sleigh_image.frame_height(),
                self.sleigh_frame,
            ),
            self.part(
                self.electrocuted_reindeer_image,
                Point {
                    x: clamp_i64(self.first_reindeer_offset().x + glow.x),
                    y: clamp_i64(self.first_reindeer_offset().y + glow.y),
                },
                lack_x,
                lack_y,
                self.reindeer_frame,
            ),
            self.part(
                self.electrocuted_reindeer_image,
                Point {
                    x: clamp_i64(self.second_reindeer_offset().x + glow.x),
                    y: clamp_i64(self.second_reindeer_offset().y + glow.y),
                },
                lack_x,
                lack_y,
                self.reindeer_frame,
            ),
        ]
    }

    /// What is drawn of the sleigh itself: the sleigh and its two reindeer.
    pub open spec fn body_sprites(&self) -> Seq<Sprite<'a>> {
        seq![
            self.part(self.sleigh_image, Point { x: 0, y: 0 }, 0, 0, self.sleigh_frame),
            self.part(self.reindeer_image, self.first_reindeer_offset(), 0, 0, self.reindeer_frame),
            self.part(self.reindeer_image, self.second_reindeer_offset(), 0, 0, self.reindeer_frame),
        ]
    }

    /// What is drawn of the sleigh and of what belongs to it, on a canvas
    /// that shows the level from `level_offset_x` on, from the back to the
    /// front: the glow of an electrocuted sleigh, the sleigh and its
    /// reindeer, the gifts, the stars, and the shield. Nothing at all is
    /// drawn while an invincible sleigh blinks.
    pub open spec fn sprites(&self, level_offset_x: i64) -> Seq<Sprite<'a>> {
        if self.invincible_blink {
            Seq::empty()
        } else {
            (if self.electrocuted {
                self.electrocuted_sprites()
            } else {
                Seq::empty()
            }) + self.body_sprites() + gifts_sprites(
                self.gifts@,
                level_offset_x,
                self.gifts@.len() as int,
            ) + stars_sprites(self.stars@, 0, self.stars@.len() as int) + (if self.shield {
                seq![self.part(self.shield_image, self.shield_offset, 0, 0, self.shield_frame)]
            } else {
                Seq::empty()
            })
        }
    }

    /// Where the number of the countdown is written, with its right edge
    /// and its middle there, and the number: during the countdown, and
    /// unless an invincible sleigh blinks.
    pub open spec fn countdown_label_spec(&self) -> Option<(Point, i32)> {
        if self.counting_down && !self.invincible_blink {
            Some(
                (
                    Point {
                        x: clamp_i64(self.position.x + self.countdown_counter_offset_x),
                        y: clamp_i64(self.position.y + crate::units::quotient(self.size.y as int, 2)),
                    },
                    self.countdown_counter,
                ),
            )
        } else {
            None
        }
    }

    fn draw_part(&self, image: &'a Image, offset: Point, lack_x: i64, lack_y: i64, frame: u64) -> (r:
        Sprite<'a>)
        requires
            -0x1_0000_0000 <= lack_x <= 0x1_0000_0000,
            -0x1_0000_0000 <= lack_y <= 0x1_0000_0000,
        ensures
            r == self.part(image, offset, lack_x as int, lack_y as int, frame),
    {
        Sprite {
            image,
            position: Point::new(
                saturate_i64(
                    self.position.x as i128 + offset.x as i128 - (lack_x as i128) * 500_000,
                ),
                saturate_i64(
                    self.position.y as i128 + offset.y as i128 - (lack_y as i128) * 500_000,
                ),
            ),
            frame,
        }
    }

    /// What is drawn of the sleigh and of what belongs to it, from the back
    /// to the front.
    pub fn draw(&self, level_offset_x: i64) -> (sprites: Vec<Sprite<'a>>)
        requires
            self.wf(),
        ensures
            sprites@ == self.sprites(level_offset_x),
    {
        if self.invincible_blink {
            return Vec::new();
        }
        let sleigh_width: i64 = pixels(self.sleigh_image.width() as i64);
        let first = Point::new(
            add_saturating(sleigh_width, self.reindeer_offset.x),
            self.reindeer_offset.y,
        );
        let second = Point::new(sleigh_width, self.reindeer_offset.y);
        let mut sprites: Vec<Sprite<'a>> = Vec::new();
        if self.electrocuted {
            let glow = self.electrocuted_offset;
            let lack_x: i64 = self.electrocuted_reindeer_image.width() as i64
                - self.reindeer_image.width() as i64;
            let lack_y: i64 = self.electrocuted_reindeer_image.height() as i64
                - self.reindeer_image.height() as i64;
            sprites.push(
                self.draw_part(
                    self.electrocuted_sleigh_image,
                    glow,
                    self.electrocuted_sleigh_image.width() as i64 - self.sleigh_image.width() as i64,
                    self.electrocuted_sleigh_image.height() as i64
                        - self.sleigh_image.height() as i64,
                    self.sleigh_frame,
                ),
            );
            sprites.push(
                self.draw_part(
                    self.electrocuted_reindeer_image,
                    Point::new(add_saturating(first.x, glow.x), add_saturating(first.y, glow.y)),
                    lack_x,
                    lack_y,
                    self.reindeer_frame,
                ),
            );
            sprites.push(
                self.draw_part(
                    self.electrocuted_reindeer_image,
                    Point::new(add_saturating(second.x, glow.x), add_saturating(second.y, glow.y)),
                    lack_x,
                    lack_y,
                    self.reindeer_frame,
                ),
            );
            assert(sprites@ =~= self.electrocuted_sprites());
        }
        let ghost glow_sprites = sprites@;
        sprites.push(self.draw_part(self.sleigh_image, Point::zero(), 0, 0, self.sleigh_frame));
        sprites.push(self.draw_part(self.reindeer_image, first, 0, 0, self.reindeer_frame));
        sprites.push(self.draw_part(self.reindeer_image, second, 0, 0, self.reindeer_frame));
        assert(sprites@ =~= glow_sprites + self.body_sprites());
        let mut gifts = draw_gifts(&self.gifts, level_offset_x);
        sprites.append(&mut gifts);
        let mut stars = draw_stars(&self.stars, 0);
        sprites.append(&mut stars);
        if self.shield {
            sprites.push(self.draw_part(self.shield_image, self.shield_offset, 0, 0, self.shield_frame));
        }
        assert(sprites@ =~= self.sprites(level_offset_x));
        sprites
    }

    /// Where the number of the countdown is written, and the number.
    pub fn countdown_label(&self) -> (r: Option<(Point, i32)>)
        ensures
            r == self.countdown_label_spec(),
    {
        if self.counting_down && !self.invincible_blink {
            Some(
                (
                    Point::new(
                        add_saturating(self.position.x, self.countdown_counter_offset_x),
                        add_saturating(self.position.y, self.size.y / 2),
                    ),
                    self.countdown_counter,
                ),
            )
        } else {
            None
        }
    }

    /// What is drawn of the countdown: its number, written before the
    /// sleigh with its right edge and its middle at the place of the label.
    pub open spec fn countdown_sprites(&self, font: &Font<'a>) -> Seq<Sprite<'a>> {
        match self.countdown_label_spec() {
            Some((point, counter)) => font.glyphs(
                number_text(counter as int),
                false,
                font.start_of(point, number_text(counter as int), Alignment::CenterRight, false),
                number_text(counter as int).len() as int,
            ),
            None => Seq::empty(),
        }
    }

    /// What is drawn of the countdown.
    pub fn draw_countdown(&self, font: &Font<'a>) -> (sprites: Vec<Sprite<'a>>)
        requires
            font.can_draw(),
        ensures
            sprites@ == self.countdown_sprites(font),
    {
        match self.countdown_label() {
            Some((point, counter)) => font.draw(
                point,
                &number_to_text(counter as i64),
                Alignment::CenterRight,
            ),
            None => Vec::new(),
        }
    }

    /// Size of the sleigh with its reindeer.
    pub fn size(&self) -> (r: Point)
        ensures
            r == self.size,
    {
        self.size
    }

    /// Place of the sleigh on the canvas.
    pub fn position(&self) -> (r: Point)
        ensures
            r == self.position,
    {
        self.position
    }

    /// Velocity of the sleigh.
    pub fn velocity(&self) -> (r: Point)
        ensures
            r == self.velocity,
    {
        self.velocity
    }

    /// Whether the countdown runs.
    pub fn counting_down(&self) -> (r: bool)
        ensures
            r == self.counting_down,
    {
        self.counting_down
    }

    /// Whether gifts win twice their points.
    pub fn bonus(&self) -> (r: bool)
        ensures
            r == self.bonus,
    {
        self.bonus
    }

    /// Whether the sleigh is shielded.
    pub fn shield(&self) -> (r: bool)
        ensures
            r == self.shield,
    {
        self.shield
    }

    /// Whether nothing can harm the sleigh.
    pub fn invincible(&self) -> (r: bool)
        ensures
            r == self.invincible,
    {
        self.invincible
    }

    /// Whether the sleigh is stunned.
    pub fn immobile(&self) -> (r: bool)
        ensures
            r == self.immobile,
    {
        self.immobile
    }

    /// How long a crash stuns the sleigh, in milliseconds.
    pub fn immobile_duration(&self) -> (r: u64)
        ensures
            r == self.immobile_duration,
    {
        self.immobile_duration
    }
}

} // verus!
