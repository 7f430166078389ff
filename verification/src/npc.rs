//! The characters that live on tiles of the level.
use vstd::prelude::*;
use crate::asset::{pan_at, AssetLibrary, Image, Point, Sound, SoundName, Sprite};
use crate::level::Level;
use crate::sleigh::Sleigh;
use crate::star::{draw_stars, stars_sprites, Star};
use crate::ui::Score;
use crate::units::{
    add_saturating,
    add_scaled,
    add_scaled_u64,
    clamp_i64,
    clamp_u64,
    elapsed,
    elapsed_spec,
    instant_after,
    quotient,
    saturate_i64,
    sub_saturating,
    UNITS_PER_FRAME,
};

verus! {

/// What every character has: the tile it lives on, where it is, how it
/// moves, and the frame of its animation.
#[derive(Clone, Copy)]
pub struct NpcBase<'a> {
    pub image: &'a Image,
    pub canvas_size: Point,
    pub level_tile_size: Point,
    pub tile: (usize, usize),
    pub size: Point,
    pub position: Point,
    pub velocity: Point,
    pub acceleration: Point,
    pub frame: u64,
    pub last_update_instant: u64,
    pub frame_speed: u64,
}

/// The five kinds of balloon, by what they carry.
#[derive(Clone, Copy, PartialEq, Eq, Debug, Structural)]
pub enum BalloonType {
    Cash,
    Gift,
    Heart,
    Shield,
    Wine,
}

/// An angel: it only hovers, and harms a sleigh that flies into it.
#[derive(Clone, Copy)]
pub struct Angel<'a> {
    pub npc_base: NpcBase<'a>,
    pub damage_points: i64,
}

/// A balloon: it waits until the canvas reaches its tile, then rises; a
/// sleigh that takes it gets what it carries.
#[derive(Clone, Copy)]
pub struct Balloon<'a> {
    pub npc_base: NpcBase<'a>,
    pub balloon_type: BalloonType,
    pub frame_increasing: bool,
    pub visible: bool,
    pub launch_velocity: Point,
    pub cash_balloon_damage_points: i64,
    pub heart_balloon_gift_points: i64,
}

/// A thundercloud: it harms and electrocutes a sleigh that flies into it.
#[derive(Clone, Copy)]
pub struct Cloud<'a> {
    pub npc_base: NpcBase<'a>,
    pub damage_points: i64,
}

/// The finish: the run is won when the sleigh has passed it.
#[derive(Clone, Copy)]
pub struct Finish<'a> {
    pub npc_base: NpcBase<'a>,
}

/// A goblin: it throws a snowball at fixed intervals, and it and its
/// snowballs harm a sleigh that flies into them.
pub struct Goblin<'a> {
    pub npc_base: NpcBase<'a>,
    pub snowball_image: &'a Image,
    pub snowballs: Vec<NpcBase<'a>>,
    pub next_throw_snowball_instant: u64,
    pub snowball_velocity: Point,
    pub snowball_acceleration: Point,
    pub damage_points: i64,
    pub throw_snowball_period_duration: u64,
}

/// A snowman: it waits until the sleigh comes so near that it would meet
/// it, then takes off toward it, trailing stars.
pub struct Snowman<'a> {
    pub npc_base: NpcBase<'a>,
    pub launched: bool,
    pub stars: Vec<Star<'a>>,
    pub launch_velocity: Point,
    pub launch_frame_speed: u64,
    pub damage_points: i64,
}

/// A character of one of the six kinds.
pub enum Npc<'a> {
    Angel(Angel<'a>),
    Balloon(Balloon<'a>),
    Cloud(Cloud<'a>),
    Finish(Finish<'a>),
    Goblin(Goblin<'a>),
    Snowman(Snowman<'a>),
}

/// Number of stars that trail behind a snowman.
pub const NUMBER_OF_SNOWMAN_STARS: usize = 20;

/// The coordinate at which something `length` long lies in the middle of the
/// tile with the index `tile_index`, where tiles are `tile_length` long.
pub open spec fn centered(tile_index: usize, tile_length: i64, length: i64) -> i64 {
    clamp_i64(
        tile_index * tile_length + quotient(tile_length as int, 2) - quotient(length as int, 2),
    )
}

/// A frame that left the stretch from zero to `frames` brought back into it:
/// it turns around at each end, and with each turn the direction changes.
pub open spec fn bounced(frame: int, frames: int, increasing: bool) -> (int, bool)
    decreases
            (if frame < 0 {
                2 * (-frame) + 1
            } else if frame > frames {
                2 * frame
            } else {
                0
            }),
{
    if frames <= 0 {
        (frame, increasing)
    } else if frame < 0 {
        bounced(-frame, frames, !increasing)
    } else if frame > frames {
        bounced(2 * frames - frame, frames, !increasing)
    } else {
        (frame, increasing)
    }
}

/// The sound of a character as heard from where the sleigh is.
pub open spec fn sound_at_sleigh(name: SoundName, canvas_size: Point, sleigh: &Sleigh) -> Sound {
    Sound::at(name, 1000, pan_at(canvas_size.x, sleigh.position.x))
}

/// The sleigh harmed: invincible for a while from `now`.
pub open spec fn hurt_sleigh<'a>(sleigh: Sleigh<'a>, now: u64) -> Sleigh<'a> {
    Sleigh {
        invincible: true,
        invincible_reset_instant: clamp_u64(now + sleigh.invincible_duration),
        ..sleigh
    }
}

impl<'a> NpcBase<'a> {
    /// The image is well formed and the canvas has a width.
    pub open spec fn wf(&self) -> bool {
        &&& self.image.wf()
        &&& self.canvas_size.x > 0
    }

    /// A character at rest in the middle of its tile.
    pub open spec fn initial(
        image: &'a Image,
        canvas_size: Point,
        level_tile_size: Point,
        tile: (usize, usize),
        frame_speed: u64,
        now: u64,
    ) -> NpcBase<'a> {
        NpcBase {
            image,
            canvas_size,
            level_tile_size,
            tile,
            size: image.size_spec(),
            position: Point {
                x: centered(tile.0, level_tile_size.x, image.size_spec().x),
                y: centered(tile.1, level_tile_size.y, image.size_spec().y),
            },
            velocity: Point { x: 0, y: 0 },
            acceleration: Point { x: 0, y: 0 },
            frame: 0,
            last_update_instant: now,
            frame_speed,
        }
    }

    /// The character moved on to `now`: the velocity grows by the
    /// acceleration, the position by the new velocity, and the frame by the
    /// frame speed, each times the milliseconds since the last tick.
    pub open spec fn advanced(self, now: u64) -> NpcBase<'a> {
        let dt = elapsed_spec(self.last_update_instant, now);
        let velocity = Point {
            x: clamp_i64(self.velocity.x + self.acceleration.x * dt),
            y: clamp_i64(self.velocity.y + self.acceleration.y * dt),
        };
        NpcBase {
            velocity,
            position: Point {
                x: clamp_i64(self.position.x + velocity.x * dt),
                y: clamp_i64(self.position.y + velocity.y * dt),
            },
            frame: clamp_u64(self.frame + self.frame_speed * dt),
            last_update_instant: now,
            ..self
        }
    }

    /// Where the character is on the canvas.
    pub open spec fn position_on_canvas(&self, level_offset_x: i64) -> Point {
        Point { x: clamp_i64(self.position.x - level_offset_x), y: self.position.y }
    }

    /// Whether the sleigh or its reindeer share an opaque pixel with the character.
    pub open spec fn collides_with_sleigh_spec(&self, level_offset_x: i64, sleigh: &Sleigh) -> bool {
        sleigh.collides_with_image_spec(
            self.image,
            self.position_on_canvas(level_offset_x),
            self.frame,
        )
    }

    /// What is drawn of the character on a canvas that shows the level
    /// from `level_offset_x` on.
    pub open spec fn sprite(&self, level_offset_x: i64) -> Sprite<'a> {
        Sprite {
            image: self.image,
            position: self.position_on_canvas(level_offset_x),
            frame: self.frame,
        }
    }

    /// What is drawn of the character.
    pub fn draw(&self, level_offset_x: i64) -> (r: Sprite<'a>)
        ensures
            r == self.sprite(level_offset_x),
    {
        Sprite {
            image: self.image,
            position: Point::new(sub_saturating(self.position.x, level_offset_x), self.position.y),
            frame: self.frame,
        }
    }

    /// Whether the character harms the sleigh: the sleigh is neither
    /// invincible nor shielded and touches it.
    pub open spec fn harms(&self, level_offset_x: i64, sleigh: &Sleigh) -> bool {
        &&& !sleigh.invincible
        &&& !sleigh.shield
        &&& self.collides_with_sleigh_spec(level_offset_x, sleigh)
    }

    /// The score, the sleigh and the sound after a character that costs
    /// `damage_points` was tested against the sleigh at `now`: a sleigh that
    /// it harms takes the damage and becomes invincible for a while.
    pub open spec fn harmed(
        &self,
        name: SoundName,
        damage_points: i64,
        score: Score,
        level_offset_x: i64,
        sleigh: Sleigh<'a>,
        now: u64,
    ) -> (Score, Sleigh<'a>, Option<Sound>) {
        if self.harms(level_offset_x, &sleigh) {
            (
                score.with_damage_points(damage_points),
                hurt_sleigh(sleigh, now),
                Some(sound_at_sleigh(name, self.canvas_size, &sleigh)),
            )
        } else {
            (score, sleigh, None)
        }
    }

    fn center(tile_index: usize, tile_length: i64, length: i64) -> (r: i64)
        ensures
            r == centered(tile_index, tile_length, length),
    {
        assert(-0xffff_ffff_ffff_ffff * 0x8000_0000_0000_0000 <= tile_index * tile_length
            <= 0xffff_ffff_ffff_ffff * 0x8000_0000_0000_0000) by (nonlinear_arith)
            requires
                0 <= tile_index <= 0xffff_ffff_ffff_ffff,
                -0x8000_0000_0000_0000 <= tile_length <= 0x7fff_ffff_ffff_ffff,
        ;
        saturate_i64(
            (tile_index as i128) * (tile_length as i128) + (tile_length / 2) as i128 - (length
                / 2) as i128,
        )
    }

    /// A character at rest in the middle of its tile.
    pub fn new(
        image: &'a Image,
        canvas_size: Point,
        level_tile_size: Point,
        tile: (usize, usize),
        frame_speed: u64,
        now: u64,
    ) -> (r: NpcBase<'a>)
        requires
            image.wf(),
            canvas_size.x > 0,
        ensures
            r.wf(),
            r == NpcBase::initial(image, canvas_size, level_tile_size, tile, frame_speed, now),
    {
        let size = image.size();
        NpcBase {
            image,
            canvas_size,
            level_tile_size,
            tile,
            size,
            position: Point::new(
                NpcBase::center(tile.0, level_tile_size.x, size.x),
                NpcBase::center(tile.1, level_tile_size.y, size.y),
            ),
            velocity: Point::zero(),
            acceleration: Point::zero(),
            frame: 0,
            last_update_instant: now,
            frame_speed,
        }
    }

    /// Moves the character on to `now`.
    pub fn do_logic(&mut self, now: u64)
        ensures
            *final(self) == old(self).advanced(now),
            old(self).wf() ==> final(self).wf(),
    {
        let seconds_since_last_update = elapsed(self.last_update_instant, now);
        let velocity = Point {
            x: add_scaled(self.velocity.x, self.acceleration.x, seconds_since_last_update),
            y: add_scaled(self.velocity.y, self.acceleration.y, seconds_since_last_update),
        };
        let position = Point {
            x: add_scaled(self.position.x, velocity.x, seconds_since_last_update),
            y: add_scaled(self.position.y, velocity.y, seconds_since_last_update),
        };
        self.velocity = velocity;
        self.position = position;
        self.frame = add_scaled_u64(self.frame, self.frame_speed, seconds_since_last_update);
        self.last_update_instant = now;
    }

    /// Whether the sleigh or its reindeer share an opaque pixel with the character.
    pub fn collides_with_sleigh(&self, level_offset_x: i64, sleigh: &Sleigh) -> (r: bool)
        requires
            self.wf(),
            sleigh.wf(),
        ensures
            r == self.collides_with_sleigh_spec(level_offset_x, sleigh),
    {
        sleigh.collides_with_image(
            self.image,
            Point::new(sub_saturating(self.position.x, level_offset_x), self.position.y),
            self.frame,
        )
    }

    /// Harms the sleigh at `now` if the character harms it: the score takes
    /// `damage_points`, the sleigh becomes invincible for a while, and the
    /// sound `name` is heard from where the sleigh is.
    fn harm(
        &self,
        name: SoundName,
        damage_points: i64,
        score: &mut Score,
        level_offset_x: i64,
        sleigh: &mut Sleigh<'a>,
        now: u64,
    ) -> (sound: Option<Sound>)
        requires
            self.wf(),
            old(sleigh).wf(),
        ensures
            final(sleigh).wf(),
            old(score).wf() ==> final(score).wf(),
            (*final(score), *final(sleigh), sound) == self.harmed(
                name,
                damage_points,
                *old(score),
                level_offset_x,
                *old(sleigh),
                now,
            ),
    {
        if !sleigh.invincible() && !sleigh.shield() && self.collides_with_sleigh(
            level_offset_x,
            sleigh,
        ) {
            let sound = Sound::play_with_position(name, self.canvas_size, sleigh.position().x);
            score.add_damage_points(damage_points);
            sleigh.start_invincible(now);
            Some(sound)
        } else {
            None
        }
    }
}

impl<'a> Angel<'a> {
    /// The character is well formed.
    pub open spec fn wf(&self) -> bool {
        self.npc_base.wf()
    }

    /// An angel on a tile: 13 frames per second, 20 damage points.
    pub open spec fn initial(
        asset_library: &'a AssetLibrary,
        canvas_size: Point,
        level_tile_size: Point,
        tile: (usize, usize),
        now: u64,
    ) -> Angel<'a> {
        Angel {
            npc_base: NpcBase::initial(
                &asset_library.image("angel"@),
                canvas_size,
                level_tile_size,
                tile,
                13,
                now,
            ),
            damage_points: 20,
        }
    }

    /// The score, the sleigh and the sound after the angel was tested
    /// against the sleigh at `now`.
    pub open spec fn collided(
        &self,
        score: Score,
        level_offset_x: i64,
        sleigh: Sleigh<'a>,
        now: u64,
    ) -> (Score, Sleigh<'a>, Option<Sound>) {
        self.npc_base.harmed(
            SoundName::SleighCollidedWithNpc,
            self.damage_points,
            score,
            level_offset_x,
            sleigh,
            now,
        )
    }

    /// An angel on a tile of the level.
    pub fn new(asset_library: &'a AssetLibrary, level: &Level, tile: (usize, usize), now: u64) -> (r:
        Angel<'a>)
        requires
            asset_library.wf(),
            asset_library.has_image("angel"@),
            level.canvas_size.x > 0,
        ensures
            r.wf(),
            r == Angel::initial(asset_library, level.canvas_size, level.tile_size, tile, now),
    {
        Angel {
            npc_base: NpcBase::new(
                asset_library.get_image("angel"),
                level.canvas_size(),
                level.tile_size(),
                tile,
                13,
                now,
            ),
            damage_points: 20,
        }
    }

    /// Lets the angel hover on to `now`.
    pub fn do_logic(&mut self, now: u64)
        ensures
            *final(self) == (Angel { npc_base: old(self).npc_base.advanced(now), ..*old(self) }),
            old(self).wf() ==> final(self).wf(),
    {
        self.npc_base.do_logic(now);
    }

    /// Harms a sleigh that is neither invincible nor shielded and touches
    /// the angel: it takes damage and becomes invincible for a while.
    pub fn check_collision_with_sleigh(
        &mut self,
        score: &mut Score,
        level_offset_x: i64,
        sleigh: &mut Sleigh<'a>,
        now: u64,
    ) -> (sound: Option<Sound>)
        requires
            old(self).wf(),
            old(sleigh).wf(),
        ensures
            *final(self) == *old(self),
            final(sleigh).wf(),
            old(score).wf() ==> final(score).wf(),
            (*final(score), *final(sleigh), sound) == old(self).collided(
                *old(score),
                level_offset_x,
                *old(sleigh),
                now,
            ),
    {
        self.npc_base.harm(
            SoundName::SleighCollidedWithNpc,
            self.damage_points,
            score,
            level_offset_x,
            sleigh,
            now,
        )
    }

    /// The tile on which the angel lives.
    pub fn tile(&self) -> (r: (usize, usize))
        ensures
            r == self.npc_base.tile,
    {
        self.npc_base.tile
    }

    /// The layer in which the angel is drawn.
    pub fn z_order(&self) -> (r: i32)
        ensures
            r == 0,
    {
        0
    }

    /// Whether the angel is tested against the sleigh in the menu too.
    pub fn check_collision_with_sleigh_in_menu_mode(&self) -> (r: bool)
        ensures
            !r,
    {
        false
    }
}

impl<'a> Cloud<'a> {
    /// The character is well formed.
    pub open spec fn wf(&self) -> bool {
        self.npc_base.wf()
    }

    /// A cloud on a tile: not animated, 20 damage points.
    pub open spec fn initial(
        asset_library: &'a AssetLibrary,
        canvas_size: Point,
        level_tile_size: Point,
        tile: (usize, usize),
        now: u64,
    ) -> Cloud<'a> {
        Cloud {
            npc_base: NpcBase::initial(
                &asset_library.image("cloud"@),
                canvas_size,
                level_tile_size,
                tile,
                0,
                now,
            ),
            damage_points: 20,
        }
    }

    /// The score, the sleigh and the sound after the cloud was tested
    /// against the sleigh at `now`: a sleigh that it harms is also shown
    /// electrocuted for a while.
    pub open spec fn collided(
        &self,
        score: Score,
        level_offset_x: i64,
        sleigh: Sleigh<'a>,
        now: u64,
    ) -> (Score, Sleigh<'a>, Option<Sound>) {
        let harmed = self.npc_base.harmed(
            SoundName::SleighCollidedWithCloud,
            self.damage_points,
            score,
            level_offset_x,
            sleigh,
            now,
        );
        if harmed.2.is_some() {
            (
                harmed.0,
                Sleigh {
                    electrocuted: true,
                    electrocuted_reset_instant: clamp_u64(now + sleigh.electrocuted_duration),
                    ..harmed.1
                },
                harmed.2,
            )
        } else {
            harmed
        }
    }

    /// A cloud on a tile of the level.
    pub fn new(asset_library: &'a AssetLibrary, level: &Level, tile: (usize, usize), now: u64) -> (r:
        Cloud<'a>)
        requires
            asset_library.wf(),
            asset_library.has_image("cloud"@),
            level.canvas_size.x > 0,
        ensures
            r.wf(),
            r == Cloud::initial(asset_library, level.canvas_size, level.tile_size, tile, now),
    {
        Cloud {
            npc_base: NpcBase::new(
                asset_library.get_image("cloud"),
                level.canvas_size(),
                level.tile_size(),
                tile,
                0,
                now,
            ),
            damage_points: 20,
        }
    }

    /// Lets the cloud live on to `now`.
    pub fn do_logic(&mut self, now: u64)
        ensures
            *final(self) == (Cloud { npc_base: old(self).npc_base.advanced(now), ..*old(self) }),
            old(self).wf() ==> final(self).wf(),
    {
        self.npc_base.do_logic(now);
    }

    /// Harms a sleigh that is neither invincible nor shielded and touches
    /// the cloud: it takes damage, becomes invincible for a while, and is
    /// shown electrocuted for a while.
    pub fn check_collision_with_sleigh(
        &mut self,
        score: &mut Score,
        level_offset_x: i64,
        sleigh: &mut Sleigh<'a>,
        now: u64,
    ) -> (sound: Option<Sound>)
        requires
            old(self).wf(),
            old(sleigh).wf(),
        ensures
            *final(self) == *old(self),
            final(sleigh).wf(),
            old(score).wf() ==> final(score).wf(),
            (*final(score), *final(sleigh), sound) == old(self).collided(
                *old(score),
                level_offset_x,
                *old(sleigh),
                now,
            ),
    {
        let sound = self.npc_base.harm(
            SoundName::SleighCollidedWithCloud,
            self.damage_points,
            score,
            level_offset_x,
            sleigh,
            now,
        );
        if sound.is_some() {
            sleigh.start_electrocuted(now);
        }
        sound
    }

    /// The tile on which the cloud lives.
    pub fn tile(&self) -> (r: (usize, usize))
        ensures
            r == self.npc_base.tile,
    {
        self.npc_base.tile
    }

    /// The layer in which the cloud is drawn: in front of the others.
    pub fn z_order(&self) -> (r: i32)
        ensures
            r == 1,
    {
        1
    }

    /// Whether the cloud is tested against the sleigh in the menu too.
    pub fn check_collision_with_sleigh_in_menu_mode(&self) -> (r: bool)
        ensures
            !r,
    {
        false
    }
}

impl<'a> Finish<'a> {
    /// The character is well formed.
    pub open spec fn wf(&self) -> bool {
        self.npc_base.wf()
    }

    /// The finish on a tile: not animated.
    pub open spec fn initial(
        asset_library: &'a AssetLibrary,
        canvas_size: Point,
        level_tile_size: Point,
        tile: (usize, usize),
        now: u64,
    ) -> Finish<'a> {
        Finish {
            npc_base: NpcBase::initial(
                &asset_library.image("finish"@),
                canvas_size,
                level_tile_size,
                tile,
                0,
                now,
            ),
        }
    }

    /// Whether the front of the sleigh has reached the middle of the finish.
    pub open spec fn is_reached(&self, level_offset_x: i64, sleigh: &Sleigh) -> bool {
        clamp_i64(clamp_i64(level_offset_x + sleigh.position.x) + sleigh.size.x) >= clamp_i64(
            self.npc_base.position.x + quotient(self.npc_base.size.x as int, 2),
        )
    }

    /// The score after the finish was tested against the sleigh: won, once
    /// the front of the sleigh has reached the middle of the finish.
    pub open spec fn collided(&self, score: Score, level_offset_x: i64, sleigh: &Sleigh) -> Score {
        if self.is_reached(level_offset_x, sleigh) {
            Score { won: true, ..score }
        } else {
            score
        }
    }

    /// The finish on a tile of the level.
    pub fn new(asset_library: &'a AssetLibrary, level: &Level, tile: (usize, usize), now: u64) -> (r:
        Finish<'a>)
        requires
            asset_library.wf(),
            asset_library.has_image("finish"@),
            level.canvas_size.x > 0,
        ensures
            r.wf(),
            r == Finish::initial(asset_library, level.canvas_size, level.tile_size, tile, now),
    {
        Finish {
            npc_base: NpcBase::new(
                asset_library.get_image("finish"),
                level.canvas_size(),
                level.tile_size(),
                tile,
                0,
                now,
            ),
        }
    }

    /// Lets the finish live on to `now`.
    pub fn do_logic(&mut self, now: u64)
        ensures
            *final(self) == (Finish { npc_base: old(self).npc_base.advanced(now) }),
            old(self).wf() ==> final(self).wf(),
    {
        self.npc_base.do_logic(now);
    }

    /// Records the run as won once the front of the sleigh has reached the
    /// middle of the finish.
    pub fn check_collision_with_sleigh(
        &mut self,
        score: &mut Score,
        level_offset_x: i64,
        sleigh: &mut Sleigh<'a>,
    )
        ensures
            *final(self) == *old(self),
            *final(sleigh) == *old(sleigh),
            *final(score) == old(self).collided(*old(score), level_offset_x, old(sleigh)),
            old(score).wf() ==> final(score).wf(),
    {
        if add_saturating(add_saturating(level_offset_x, sleigh.position().x), sleigh.size().x)
            >= add_saturating(self.npc_base.position.x, self.npc_base.size.x / 2) {
            score.set_won(true);
        }
    }

    /// The tile on which the finish lives.
    pub fn tile(&self) -> (r: (usize, usize))
        ensures
            r == self.npc_base.tile,
    {
        self.npc_base.tile
    }

    /// The layer in which the finish is drawn.
    pub fn z_order(&self) -> (r: i32)
        ensures
            r == 0,
    {
        0
    }

    /// Whether the finish is tested against the sleigh in the menu too.
    pub fn check_collision_with_sleigh_in_menu_mode(&self) -> (r: bool)
        ensures
            r,
    {
        true
    }
}

impl BalloonType {
    /// The name of the image of a balloon of this kind.
    pub open spec fn image_name(self) -> Seq<char> {
        match self {
            BalloonType::Cash => "cashBalloon"@,
            BalloonType::Gift => "giftBalloon"@,
            BalloonType::Heart => "heartBalloon"@,
            BalloonType::Shield => "shieldBalloon"@,
            BalloonType::Wine => "wineBalloon"@,
        }
    }

    /// The sound of a balloon of this kind when the sleigh takes it.
    pub fn sound(self) -> (r: SoundName)
        ensures
            r == self.sound_name(),
    {
        match self {
            BalloonType::Cash => SoundName::CashBalloon,
            BalloonType::Gift => SoundName::GiftBalloon,
            BalloonType::Heart => SoundName::GiftCollidedWithChimney,
            BalloonType::Shield => SoundName::ShieldBalloon,
            BalloonType::Wine => SoundName::WineBalloon,
        }
    }

    /// The sound of a balloon of this kind when the sleigh takes it.
    pub open spec fn sound_name(self) -> SoundName {
        match self {
            BalloonType::Cash => SoundName::CashBalloon,
            BalloonType::Gift => SoundName::GiftBalloon,
            BalloonType::Heart => SoundName::GiftCollidedWithChimney,
            BalloonType::Shield => SoundName::ShieldBalloon,
            BalloonType::Wine => SoundName::WineBalloon,
        }
    }
}

impl<'a> Balloon<'a> {
    /// The character is well formed.
    pub open spec fn wf(&self) -> bool {
        self.npc_base.wf()
    }

    /// Whether the library holds the images of all balloons.
    pub open spec fn has_assets(asset_library: &AssetLibrary) -> bool {
        &&& asset_library.has_image("cashBalloon"@)
        &&& asset_library.has_image("giftBalloon"@)
        &&& asset_library.has_image("heartBalloon"@)
        &&& asset_library.has_image("shieldBalloon"@)
        &&& asset_library.has_image("wineBalloon"@)
    }

    /// A balloon on a tile: 10 frames per second, not launched, to be seen;
    /// it will rise at 50 pixels per second. Cash takes 50 damage points
    /// off, a heart brings 20 gift points.
    pub open spec fn initial(
        asset_library: &'a AssetLibrary,
        canvas_size: Point,
        level_tile_size: Point,
        tile: (usize, usize),
        balloon_type: BalloonType,
        now: u64,
    ) -> Balloon<'a> {
        Balloon {
            npc_base: NpcBase::initial(
                &asset_library.image(balloon_type.image_name()),
                canvas_size,
                level_tile_size,
                tile,
                10,
                now,
            ),
            balloon_type,
            frame_increasing: true,
            visible: true,
            launch_velocity: Point { x: 0, y: -50_000i64 },
            cash_balloon_damage_points: -50i64,
            heart_balloon_gift_points: 20,
        }
    }

    /// Whether the right edge of the canvas has reached the tile of the balloon.
    pub open spec fn is_reached(&self, level_offset_x: i64) -> bool {
        clamp_i64(level_offset_x + self.npc_base.canvas_size.x) >= self.npc_base.tile.0
            * self.npc_base.level_tile_size.x
    }

    /// The balloon after a tick at `now`: once the canvas has reached its
    /// tile it rises; its frame runs to and fro between the first frame and
    /// the end of the animation.
    pub open spec fn ticked(self, level_offset_x: i64, now: u64) -> Balloon<'a> {
        let dt = elapsed_spec(self.npc_base.last_update_instant, now);
        let launched = if self.is_reached(level_offset_x) {
            NpcBase { velocity: self.launch_velocity, ..self.npc_base }
        } else {
            self.npc_base
        };
        let step = clamp_u64(self.npc_base.frame_speed * dt);
        let frames = self.npc_base.image.frame_count() * UNITS_PER_FRAME;
        let turned = bounced(
            if self.frame_increasing {
                self.npc_base.frame + step
            } else {
                self.npc_base.frame - step
            },
            frames,
            self.frame_increasing,
        );
        Balloon {
            npc_base: NpcBase { frame: clamp_u64(turned.0), ..launched.advanced(now) },
            frame_increasing: turned.1,
            ..self
        }
    }

    /// The score after the sleigh has taken the balloon.
    pub open spec fn taken_score(&self, score: Score) -> Score {
        match self.balloon_type {
            BalloonType::Cash => score.with_damage_points(self.cash_balloon_damage_points),
            BalloonType::Heart => score.with_gift_points(self.heart_balloon_gift_points),
            _ => score,
        }
    }

    /// The sleigh after it has taken the balloon at `now`.
    pub open spec fn taken_sleigh(&self, sleigh: Sleigh<'a>, now: u64) -> Sleigh<'a> {
        match self.balloon_type {
            BalloonType::Gift => Sleigh {
                bonus: true,
                bonus_reset_instant: clamp_u64(now + sleigh.bonus_duration),
                ..sleigh
            },
            BalloonType::Shield => Sleigh {
                shield: true,
                shield_reset_instant: clamp_u64(now + sleigh.shield_duration),
                shield_frame: 0,
                ..sleigh
            },
            BalloonType::Wine => Sleigh {
                drunk: true,
                drunk_reset_instant: clamp_u64(now + sleigh.drunk_duration),
                ..sleigh
            },
            _ => sleigh,
        }
    }

    /// Whether the sleigh takes the balloon: the balloon is to be seen and
    /// the sleigh touches it.
    pub open spec fn is_taken(&self, level_offset_x: i64, sleigh: &Sleigh) -> bool {
        self.visible && self.npc_base.collides_with_sleigh_spec(level_offset_x, sleigh)
    }

    /// The balloon, the score, the sleigh and the sound after the balloon
    /// was tested against the sleigh at `now`: a balloon that the sleigh
    /// takes vanishes, and the sleigh or the score gets what it carried.
    pub open spec fn collided(
        self,
        score: Score,
        level_offset_x: i64,
        sleigh: Sleigh<'a>,
        now: u64,
    ) -> (Balloon<'a>, Score, Sleigh<'a>, Option<Sound>) {
        if self.is_taken(level_offset_x, &sleigh) {
            (
                Balloon { visible: false, ..self },
                self.taken_score(score),
                self.taken_sleigh(sleigh, now),
                Some(
                    sound_at_sleigh(
                        self.balloon_type.sound_name(),
                        self.npc_base.canvas_size,
                        &sleigh,
                    ),
                ),
            )
        } else {
            (self, score, sleigh, None)
        }
    }

    /// A balloon of a kind on a tile of the level.
    pub fn new(
        asset_library: &'a AssetLibrary,
        level: &Level,
        tile: (usize, usize),
        balloon_type: BalloonType,
        now: u64,
    ) -> (r: Balloon<'a>)
        requires
            asset_library.wf(),
            Balloon::has_assets(asset_library),
            level.canvas_size.x > 0,
        ensures
            r.wf(),
            r == Balloon::initial(
                asset_library,
                level.canvas_size,
                level.tile_size,
                tile,
                balloon_type,
                now,
            ),
    {
        let image = match balloon_type {
            BalloonType::Cash => asset_library.get_image("cashBalloon"),
            BalloonType::Gift => asset_library.get_image("giftBalloon"),
            BalloonType::Heart => asset_library.get_image("heartBalloon"),
            BalloonType::Shield => asset_library.get_image("shieldBalloon"),
            BalloonType::Wine => asset_library.get_image("wineBalloon"),
        };
        Balloon {
            npc_base: NpcBase::new(image, level.canvas_size(), level.tile_size(), tile, 10, now),
            balloon_type,
            frame_increasing: true,
            visible: true,
            launch_velocity: Point::new(0, -50_000),
            cash_balloon_damage_points: -50,
            heart_balloon_gift_points: 20,
        }
    }

    /// Brings a frame that left the stretch from zero to `frames` back into it.
    fn bounce(frame: i128, frames: i128, increasing: bool) -> (r: (i128, bool))
        requires
            frames > 0,
            -0x1_0000_0000_0000_0000 <= frame <= 0x2_0000_0000_0000_0000,
            frames <= 0x1_0000_0000_0000,
        ensures
            (r.0 as int, r.1) == bounced(frame as int, frames as int, increasing),
            0 <= r.0 <= frames,
    {
        let mut current = frame;
        let mut rising = increasing;
        while current < 0 || current > frames
            invariant
                frames > 0,
                frames <= 0x1_0000_0000_0000,
                -0x2_0000_0000_0000_0000 <= current <= 0x2_0000_0000_0000_0000,
                bounced(current as int, frames as int, rising) == bounced(
                    frame as int,
                    frames as int,
                    increasing,
                ),
            decreases
                    (if current < 0 {
                        2 * (-current) + 1
                    } else if current > frames {
                        2 * current
                    } else {
                        0
                    }),
        {
            current = if current < 0 { -current } else { 2 * frames - current };
            rising = !rising;
        }
        (current, rising)
    }

    /// Lets the balloon live up to `now`.
    pub fn do_logic(&mut self, level_offset_x: i64, now: u64)
        requires
            old(self).wf(),
        ensures
            final(self).wf(),
            *final(self) == old(self).ticked(level_offset_x, now),
    {
        let seconds_since_last_update = elapsed(self.npc_base.last_update_instant, now);
        assert(-0xffff_ffff_ffff_ffff * 0x8000_0000_0000_0000 <= self.npc_base.tile.0
            * self.npc_base.level_tile_size.x <= 0xffff_ffff_ffff_ffff * 0x8000_0000_0000_0000)
            by (nonlinear_arith)
            requires
                0 <= self.npc_base.tile.0 <= 0xffff_ffff_ffff_ffff,
                -0x8000_0000_0000_0000 <= self.npc_base.level_tile_size.x <= 0x7fff_ffff_ffff_ffff,
        ;
        if add_saturating(level_offset_x, self.npc_base.canvas_size.x) as i128 >= (
        self.npc_base.tile.0 as i128) * (self.npc_base.level_tile_size.x as i128) {
            self.npc_base.velocity = self.launch_velocity;
        }
        let frame = self.npc_base.frame;
        let step = add_scaled_u64(0, self.npc_base.frame_speed, seconds_since_last_update);
        self.npc_base.do_logic(now);
        let number_of_frames: i128 = (self.npc_base.image.total_number_of_frames() as i128) * 1000;
        let turned = Balloon::bounce(
            if self.frame_increasing {
                frame as i128 + step as i128
            } else {
                frame as i128 - step as i128
            },
            number_of_frames,
            self.frame_increasing,
        );
        self.npc_base.frame = turned.0 as u64;
        self.frame_increasing = turned.1;
    }

    /// Lets the sleigh take the balloon at `now` if it is to be seen and the
    /// sleigh touches it: the balloon vanishes, and the sleigh or the score
    /// gets what it carried.
    pub fn check_collision_with_sleigh(
        &mut self,
        score: &mut Score,
        level_offset_x: i64,
        sleigh: &mut Sleigh<'a>,
        now: u64,
    ) -> (sound: Option<Sound>)
        requires
            old(self).wf(),
            old(sleigh).wf(),
        ensures
            final(self).wf(),
            final(sleigh).wf(),
            old(score).wf() ==> final(score).wf(),
            (*final(self), *final(score), *final(sleigh), sound) == old(self).collided(
                *old(score),
                level_offset_x,
                *old(sleigh),
                now,
            ),
    {
        if self.visible && self.npc_base.collides_with_sleigh(level_offset_x, sleigh) {
            let sound = Sound::play_with_position(
                self.balloon_type.sound(),
                self.npc_base.canvas_size,
                sleigh.position().x,
            );
            self.visible = false;
            self.give_to_score(score);
            self.give_to_sleigh(sleigh, now);
            Some(sound)
        } else {
            None
        }
    }

    /// Gives the score what the balloon carries for it.
    fn give_to_score(&self, score: &mut Score)
        ensures
            *final(score) == self.taken_score(*old(score)),
            old(score).wf() ==> final(score).wf(),
    {
        match self.balloon_type {
            BalloonType::Cash => {
                score.add_damage_points(self.cash_balloon_damage_points);
            },
            BalloonType::Heart => {
                score.add_gift_points(self.heart_balloon_gift_points);
            },
            _ => {},
        }
    }

    /// Gives the sleigh what the balloon carries for it.
    fn give_to_sleigh(&self, sleigh: &mut Sleigh<'a>, now: u64)
        requires
            old(sleigh).wf(),
        ensures
            final(sleigh).wf(),
            *final(sleigh) == self.taken_sleigh(*old(sleigh), now),
    {
        match self.balloon_type {
            BalloonType::Gift => {
                sleigh.start_bonus(now);
            },
            BalloonType::Shield => {
                sleigh.start_shield(now);
            },
            BalloonType::Wine => {
                sleigh.start_drunk(now);
            },
            _ => {},
        }
    }

    /// The tile on which the balloon lives.
    pub fn tile(&self) -> (r: (usize, usize))
        ensures
            r == self.npc_base.tile,
    {
        self.npc_base.tile
    }

    /// The layer in which the balloon is drawn: behind the others.
    pub fn z_order(&self) -> (r: i32)
        ensures
            r == -1,
    {
        -1
    }

    /// Whether the balloon is tested against the sleigh in the menu too.
    pub fn check_collision_with_sleigh_in_menu_mode(&self) -> (r: bool)
        ensures
            !r,
    {
        false
    }
}

impl<'a> Goblin<'a> {
    /// The goblin, its snowballs and their image are well formed, and the
    /// goblin does throw from time to time.
    pub open spec fn wf(&self) -> bool {
        &&& self.npc_base.wf()
        &&& self.snowball_image.wf()
        &&& self.throw_snowball_period_duration > 0
        &&& forall|i: int| 0 <= i < self.snowballs@.len() ==> (#[trigger] self.snowballs@[i]).wf()
    }

    /// Whether the library holds the images of the goblin and of its snowballs.
    pub open spec fn has_assets(asset_library: &AssetLibrary) -> bool {
        &&& asset_library.has_image("goblin"@)
        &&& asset_library.has_image("goblinSnowball"@)
    }

    /// A goblin on a tile, with the given snowballs: 12 frames per second; it
    /// throws for the first time at its frame 13, and then once in each round
    /// of its animation; a snowball leaves at 200 pixels per second to the
    /// left and 250 up and is pulled down with 80 pixels per second squared;
    /// 20 damage points.
    pub open spec fn initial(
        asset_library: &'a AssetLibrary,
        canvas_size: Point,
        level_tile_size: Point,
        tile: (usize, usize),
        now: u64,
        snowballs: Vec<NpcBase<'a>>,
    ) -> Goblin<'a> {
        Goblin {
            npc_base: NpcBase::initial(
                &asset_library.image("goblin"@),
                canvas_size,
                level_tile_size,
                tile,
                12,
                now,
            ),
            snowball_image: &asset_library.image("goblinSnowball"@),
            snowballs,
            next_throw_snowball_instant: clamp_u64(now + 13_000int / 12),
            snowball_velocity: Point { x: -200_000i64, y: -250_000i64 },
            snowball_acceleration: Point { x: 0, y: 80 },
            damage_points: 20,
            throw_snowball_period_duration: (asset_library.image("goblin"@).frame_count() * 1000
                / 12) as u64,
        }
    }

    /// Whether the goblin throws at a tick at `now`.
    pub open spec fn throws(&self, now: u64) -> bool {
        now >= self.next_throw_snowball_instant
    }

    /// The snowball that the goblin throws at `now`: it starts where the goblin is.
    pub open spec fn new_snowball(&self, now: u64) -> NpcBase<'a> {
        NpcBase {
            position: self.npc_base.position,
            velocity: self.snowball_velocity,
            acceleration: self.snowball_acceleration,
            ..NpcBase::initial(
                self.snowball_image,
                self.npc_base.canvas_size,
                self.npc_base.level_tile_size,
                self.npc_base.tile,
                0,
                now,
            )
        }
    }

    /// The instant of the next throw after a tick at `now`: the first instant
    /// after `now` that lies a whole number of periods after the last one.
    pub open spec fn next_throw_after(&self, now: u64) -> u64 {
        if self.throws(now) {
            clamp_u64(
                self.next_throw_snowball_instant + ((now - self.next_throw_snowball_instant)
                    / self.throw_snowball_period_duration as int + 1)
                    * self.throw_snowball_period_duration,
            )
        } else {
            self.next_throw_snowball_instant
        }
    }

    /// The snowballs after a tick at `now`: the new one, if the goblin
    /// throws, comes last, and all have moved on.
    pub open spec fn snowballs_after(&self, now: u64) -> Seq<NpcBase<'a>> {
        let thrown = if self.throws(now) {
            self.snowballs@.push(self.new_snowball(now))
        } else {
            self.snowballs@
        };
        thrown.map_values(|snowball: NpcBase<'a>| snowball.advanced(now))
    }

    /// Whether `after` is the goblin after a tick at `now`.
    pub open spec fn ticks_to(self, after: Goblin<'a>, now: u64) -> bool {
        &&& after == (Goblin {
            npc_base: self.npc_base.advanced(now),
            snowballs: after.snowballs,
            next_throw_snowball_instant: self.next_throw_after(now),
            ..self
        })
        &&& after.snowballs@ == self.snowballs_after(now)
    }

    /// The sound of a tick at `now`: that of a throw, heard from where the goblin is.
    pub open spec fn tick_sound(&self, level_offset_x: i64, now: u64) -> Option<Sound> {
        if self.throws(now) {
            Some(
                Sound::at(
                    SoundName::GoblinThrowSnowball,
                    1000,
                    pan_at(
                        self.npc_base.canvas_size.x,
                        clamp_i64(self.npc_base.position.x - level_offset_x),
                    ),
                ),
            )
        } else {
            None
        }
    }

    /// Whether the sleigh touches the snowball at position `k`.
    pub open spec fn snowball_hits(&self, k: int, level_offset_x: i64, sleigh: &Sleigh) -> bool {
        0 <= k < self.snowballs@.len() && self.snowballs@[k].collides_with_sleigh_spec(
            level_offset_x,
            sleigh,
        )
    }

    /// Whether the goblin or one of its snowballs harms the sleigh.
    pub open spec fn harms(&self, level_offset_x: i64, sleigh: &Sleigh) -> bool {
        &&& !sleigh.invincible
        &&& !sleigh.shield
        &&& (self.npc_base.collides_with_sleigh_spec(level_offset_x, sleigh) || exists|k: int| #[trigger]
            self.snowball_hits(k, level_offset_x, sleigh))
    }

    /// The score, the sleigh and the sound after the goblin was tested
    /// against the sleigh at `now`: a sleigh that the goblin or a snowball
    /// harms takes the damage once and becomes invincible for a while.
    pub open spec fn collided(
        &self,
        score: Score,
        level_offset_x: i64,
        sleigh: Sleigh<'a>,
        now: u64,
    ) -> (Score, Sleigh<'a>, Option<Sound>) {
        if self.harms(level_offset_x, &sleigh) {
            (
                score.with_damage_points(self.damage_points),
                hurt_sleigh(sleigh, now),
                Some(
                    sound_at_sleigh(
                        SoundName::SleighCollidedWithNpc,
                        self.npc_base.canvas_size,
                        &sleigh,
                    ),
                ),
            )
        } else {
            (score, sleigh, None)
        }
    }

    /// A goblin on a tile of the level.
    pub fn new(asset_library: &'a AssetLibrary, level: &Level, tile: (usize, usize), now: u64) -> (r:
        Goblin<'a>)
        requires
            asset_library.wf(),
            Goblin::has_assets(asset_library),
            level.canvas_size.x > 0,
        ensures
            r.wf(),
            r.snowballs@.len() == 0,
            r == Goblin::initial(
                asset_library,
                level.canvas_size,
                level.tile_size,
                tile,
                now,
                r.snowballs,
            ),
    {
        let image = asset_library.get_image("goblin");
        let frame_speed: u64 = 12;
        let throw_snowball_frame: u64 = 13;
        Goblin {
            npc_base: NpcBase::new(
                image,
                level.canvas_size(),
                level.tile_size(),
                tile,
                frame_speed,
                now,
            ),
            snowball_image: asset_library.get_image("goblinSnowball"),
            snowballs: Vec::new(),
            next_throw_snowball_instant: instant_after(
                now,
                throw_snowball_frame * 1000 / frame_speed,
            ),
            snowball_velocity: Point::new(-200_000, -250_000),
            snowball_acceleration: Point::new(0, 80),
            damage_points: 20,
            throw_snowball_period_duration: (image.total_number_of_frames() as u64) * 1000
                / frame_speed,
        }
    }

    /// Lets the goblin live up to `now`: if the time of a throw has come, a
    /// snowball starts where the goblin is, and the next throw is set to the
    /// first instant after `now` that lies a whole number of periods after the
    /// last; then the snowballs and the goblin move on. Returns the sound of
    /// the throw.
    pub fn do_logic(&mut self, level_offset_x: i64, now: u64) -> (sound: Option<Sound>)
        requires
            old(self).wf(),
        ensures
            final(self).wf(),
            old(self).ticks_to(*final(self), now),
            sound == old(self).tick_sound(level_offset_x, now),
    {
        let mut sound: Option<Sound> = None;
        if now >= self.next_throw_snowball_instant {
            sound = Some(
                Sound::play_with_level_position(
                    SoundName::GoblinThrowSnowball,
                    self.npc_base.canvas_size,
                    level_offset_x,
                    self.npc_base.position.x,
                ),
            );
            let mut snowball = NpcBase::new(
                self.snowball_image,
                self.npc_base.canvas_size,
                self.npc_base.level_tile_size,
                self.npc_base.tile,
                0,
                now,
            );
            snowball.position = self.npc_base.position;
            snowball.velocity = self.snowball_velocity;
            snowball.acceleration = self.snowball_acceleration;
            self.snowballs.push(snowball);
            let periods: u64 = (now - self.next_throw_snowball_instant)
                / self.throw_snowball_period_duration;
            assert((periods + 1) * self.throw_snowball_period_duration <= 0x1_0000_0000_0000_0000
                * 0xffff_ffff_ffff_ffff) by (nonlinear_arith)
                requires
                    0 <= periods <= 0xffff_ffff_ffff_ffff,
                    0 <= self.throw_snowball_period_duration <= 0xffff_ffff_ffff_ffff,
            ;
            let ahead: u128 = (periods as u128 + 1) * (self.throw_snowball_period_duration as u128);
            let next: u128 = self.next_throw_snowball_instant as u128 + ahead;
            self.next_throw_snowball_instant = if next > u64::MAX as u128 {
                u64::MAX
            } else {
                next as u64
            };
        }
        let ghost thrown = self.snowballs@;
        let mut i: usize = 0;
        while i < self.snowballs.len()
            invariant
                i <= self.snowballs@.len(),
                self.snowballs@.len() == thrown.len(),
                self.npc_base == old(self).npc_base,
                self.snowball_image == old(self).snowball_image,
                self.next_throw_snowball_instant == old(self).next_throw_after(now),
                self.snowball_velocity == old(self).snowball_velocity,
                self.snowball_acceleration == old(self).snowball_acceleration,
                self.damage_points == old(self).damage_points,
                self.throw_snowball_period_duration == old(self).throw_snowball_period_duration,
                forall|k: int| 0 <= k < thrown.len() ==> (#[trigger] thrown[k]).wf(),
                forall|k: int| 0 <= k < i ==> (#[trigger] self.snowballs@[k]) == thrown[k].advanced(now),
                forall|k: int| i <= k < thrown.len() ==> (#[trigger] self.snowballs@[k]) == thrown[k],
            decreases self.snowballs@.len() - i,
        {
            let mut snowball = self.snowballs[i];
            snowball.do_logic(now);
            self.snowballs.set(i, snowball);
            i += 1;
        }
        self.npc_base.do_logic(now);
        assert(self.snowballs@ =~= old(self).snowballs_after(now));
        sound
    }

    /// Harms a sleigh that is neither invincible nor shielded and touches
    /// the goblin or one of its snowballs: it takes the damage once and
    /// becomes invincible for a while.
    pub fn check_collision_with_sleigh(
        &mut self,
        score: &mut Score,
        level_offset_x: i64,
        sleigh: &mut Sleigh<'a>,
        now: u64,
    ) -> (sound: Option<Sound>)
        requires
            old(self).wf(),
            old(sleigh).wf(),
        ensures
            *final(self) == *old(self),
            final(sleigh).wf(),
            old(score).wf() ==> final(score).wf(),
            (*final(score), *final(sleigh), sound) == old(self).collided(
                *old(score),
                level_offset_x,
                *old(sleigh),
                now,
            ),
    {
        if sleigh.invincible() || sleigh.shield() {
            return None;
        }
        let mut collides = self.npc_base.collides_with_sleigh(level_offset_x, sleigh);
        if !collides {
            let mut i: usize = 0;
            while i < self.snowballs.len()
                invariant_except_break
                    !collides,
                    forall|k: int| 0 <= k < i ==> !#[trigger] self.snowball_hits(k, level_offset_x, sleigh),
                invariant
                    i <= self.snowballs@.len(),
                    self.wf(),
                    sleigh.wf(),
                ensures
                    collides <==> exists|k: int| #[trigger]
                        self.snowball_hits(k, level_offset_x, sleigh),
                decreases self.snowballs@.len() - i,
            {
                if self.snowballs[i].collides_with_sleigh(level_offset_x, sleigh) {
                    collides = true;
                    assert(self.snowball_hits(i as int, level_offset_x, sleigh));
                    break ;
                }
                i += 1;
            }
        }
        if collides {
            let sound = Sound::play_with_position(
                SoundName::SleighCollidedWithNpc,
                self.npc_base.canvas_size,
                sleigh.position().x,
            );
            score.add_damage_points(self.damage_points);
            sleigh.start_invincible(now);
            Some(sound)
        } else {
            None
        }
    }

    /// What is drawn of the goblin: the goblin itself, then its snowballs.
    pub open spec fn sprites(&self, level_offset_x: i64) -> Seq<Sprite<'a>> {
        seq![self.npc_base.sprite(level_offset_x)] + self.snowballs@.map_values(
            |snowball: NpcBase<'a>| snowball.sprite(level_offset_x),
        )
    }

    /// What is drawn of the goblin, from the back to the front.
    pub fn draw(&self, level_offset_x: i64) -> (sprites: Vec<Sprite<'a>>)
        ensures
            sprites@ == self.sprites(level_offset_x),
    {
        let mut sprites: Vec<Sprite<'a>> = Vec::new();
        sprites.push(self.npc_base.draw(level_offset_x));
        let mut i: usize = 0;
        while i < self.snowballs.len()
            invariant
                i <= self.snowballs@.len(),
                sprites@.len() == i + 1,
                sprites@[0] == self.npc_base.sprite(level_offset_x),
                forall|k: int|
                    0 <= k < i ==> (#[trigger] sprites@[k + 1]) == self.snowballs@[k].sprite(
                        level_offset_x,
                    ),
            decreases self.snowballs@.len() - i,
        {
            sprites.push(self.snowballs[i].draw(level_offset_x));
            i += 1;
        }
        proof {
            let target = self.sprites(level_offset_x);
            let mapped = self.snowballs@.map_values(
                |snowball: NpcBase<'a>| snowball.sprite(level_offset_x),
            );
            assert(target.len() == sprites@.len());
            assert forall|k: int| 0 <= k < target.len() implies sprites@[k] == target[k] by {
                if k > 0 {
                    assert(sprites@[(k - 1) + 1] == self.snowballs@[k - 1].sprite(level_offset_x));
                    assert(target[k] == mapped[k - 1]);
                }
            }
            assert(sprites@ =~= target);
        }
        sprites
    }

    /// The tile on which the goblin lives.
    pub fn tile(&self) -> (r: (usize, usize))
        ensures
            r == self.npc_base.tile,
    {
        self.npc_base.tile
    }

    /// The layer in which the goblin is drawn.
    pub fn z_order(&self) -> (r: i32)
        ensures
            r == 0,
    {
        0
    }

    /// Whether the goblin is tested against the sleigh in the menu too.
    pub fn check_collision_with_sleigh_in_menu_mode(&self) -> (r: bool)
        ensures
            !r,
    {
        false
    }
}

impl<'a> Snowman<'a> {
    /// The snowman and its stars are well formed.
    pub open spec fn wf(&self) -> bool {
        &&& self.npc_base.wf()
        &&& forall|i: int| 0 <= i < self.stars@.len() ==> (#[trigger] self.stars@[i]).wf()
    }

    /// Whether the library holds the image of the snowman and what its stars need.
    pub open spec fn has_assets(asset_library: &AssetLibrary) -> bool {
        &&& asset_library.has_image("snowman"@)
        &&& Star::has_assets(asset_library)
    }

    /// A star of a snowman: it appears between 12 and 7 pixels behind and
    /// between 32 and 27 pixels above the far corner of the snowman.
    pub open spec fn initial_star(asset_library: &'a AssetLibrary) -> Star<'a> {
        Star {
            small_probability: 500,
            min_offset: Point { x: -12_000_000i64, y: -32_000_000i64 },
            max_offset: Point { x: -7_000_000i64, y: -27_000_000i64 },
            ..Star::initial(asset_library)
        }
    }

    /// A snowman on a tile, with the given stars: at rest and not animated;
    /// it will take off at 100 pixels per second to the left and 150 up, at 8
    /// frames per second; 20 damage points.
    pub open spec fn initial(
        asset_library: &'a AssetLibrary,
        canvas_size: Point,
        level_tile_size: Point,
        tile: (usize, usize),
        now: u64,
        stars: Vec<Star<'a>>,
    ) -> Snowman<'a> {
        Snowman {
            npc_base: NpcBase::initial(
                &asset_library.image("snowman"@),
                canvas_size,
                level_tile_size,
                tile,
                0,
                now,
            ),
            launched: false,
            stars,
            launch_velocity: Point { x: -100_000i64, y: -150_000i64 },
            launch_frame_speed: 8,
            damage_points: 20,
        }
    }

    /// How far the middle of the sleigh is ahead of the middle of the
    /// snowman, along the level.
    pub open spec fn lead_of_sleigh(&self, level_offset_x: i64, sleigh: &Sleigh) -> int {
        clamp_i64(
            clamp_i64(level_offset_x + sleigh.position.x) + quotient(sleigh.size.x as int, 2),
        ) - clamp_i64(self.npc_base.position.x + quotient(self.npc_base.size.x as int, 2))
    }

    /// Whether a snowman that took off now would, when it has risen to the
    /// height of the sleigh, not yet have passed the sleigh, which meanwhile
    /// moves along with the level: with `t` for the time of the rise, the
    /// height between them over the vertical launch velocity, the sleigh is
    /// then at least as far along as the snowman. Both sides are multiplied
    /// by the vertical launch velocity, so that nothing is rounded.
    pub open spec fn should_launch(
        &self,
        level_offset_x: i64,
        level_scroll_speed_x: i64,
        sleigh: &Sleigh,
    ) -> bool {
        let rise = sleigh.position.y - self.npc_base.position.y;
        let lead = self.lead_of_sleigh(level_offset_x, sleigh);
        let closing = clamp_i64(self.launch_velocity.x - level_scroll_speed_x);
        if self.launch_velocity.y < 0 {
            lead * self.launch_velocity.y <= rise * closing
        } else if self.launch_velocity.y > 0 {
            lead * self.launch_velocity.y >= rise * closing
        } else {
            false
        }
    }

    /// Whether the snowman takes off at this tick.
    pub open spec fn launches(
        &self,
        level_offset_x: i64,
        level_scroll_speed_x: i64,
        sleigh: &Sleigh,
    ) -> bool {
        !self.launched && self.should_launch(level_offset_x, level_scroll_speed_x, sleigh)
    }

    /// The last frame of the animation.
    pub open spec fn last_frame(&self) -> int {
        (self.npc_base.image.frame_count() - 1) * UNITS_PER_FRAME
    }

    /// The snowman itself after a tick at `now`: a snowman that takes off
    /// gets its launch velocity and frame speed; then it moves on; its
    /// animation stops at the last frame.
    pub open spec fn base_after(
        &self,
        level_offset_x: i64,
        level_scroll_speed_x: i64,
        sleigh: &Sleigh,
        now: u64,
    ) -> NpcBase<'a> {
        let started = if self.launches(level_offset_x, level_scroll_speed_x, sleigh) {
            NpcBase {
                velocity: self.launch_velocity,
                frame_speed: self.launch_frame_speed,
                ..self.npc_base
            }
        } else {
            self.npc_base
        };
        let moved = started.advanced(now);
        NpcBase {
            frame: if moved.frame > self.last_frame() {
                self.last_frame() as u64
            } else {
                moved.frame
            },
            ..moved
        }
    }

    /// Whether `after` is the snowman after a tick at `now`: the stars of a
    /// snowman in flight tick, as chance decides; a snowman on the ground
    /// takes off if it should.
    pub open spec fn ticks_to(
        self,
        after: Snowman<'a>,
        level_offset_x: i64,
        level_scroll_speed_x: i64,
        sleigh: &Sleigh,
        now: u64,
    ) -> bool {
        &&& after == (Snowman {
            npc_base: self.base_after(level_offset_x, level_scroll_speed_x, sleigh, now),
            launched: self.launched || self.should_launch(
                level_offset_x,
                level_scroll_speed_x,
                sleigh,
            ),
            stars: after.stars,
            ..self
        })
        &&& after.stars@.len() == self.stars@.len()
        &&& forall|i: int|
            0 <= i < self.stars@.len() ==> if self.launched {
                (#[trigger] self.stars@[i]).ticks_to(
                    after.stars@[i],
                    self.npc_base.position,
                    self.npc_base.size,
                    false,
                    now,
                )
            } else {
                after.stars@[i] == self.stars@[i]
            }
    }

    /// The sound of a tick: that of the launch, heard from where the snowman is.
    pub open spec fn tick_sound(
        &self,
        level_offset_x: i64,
        level_scroll_speed_x: i64,
        sleigh: &Sleigh,
    ) -> Option<Sound> {
        if self.launches(level_offset_x, level_scroll_speed_x, sleigh) {
            Some(
                Sound::at(
                    SoundName::SnowmanLaunch,
                    1000,
                    pan_at(
                        self.npc_base.canvas_size.x,
                        clamp_i64(self.npc_base.position.x - level_offset_x),
                    ),
                ),
            )
        } else {
            None
        }
    }

    /// The score, the sleigh and the sound after the snowman was tested
    /// against the sleigh at `now`.
    pub open spec fn collided(
        &self,
        score: Score,
        level_offset_x: i64,
        sleigh: Sleigh<'a>,
        now: u64,
    ) -> (Score, Sleigh<'a>, Option<Sound>) {
        self.npc_base.harmed(
            SoundName::SleighCollidedWithNpc,
            self.damage_points,
            score,
            level_offset_x,
            sleigh,
            now,
        )
    }

    /// A snowman on a tile of the level.
    pub fn new(asset_library: &'a AssetLibrary, level: &Level, tile: (usize, usize), now: u64) -> (r:
        Snowman<'a>)
        requires
            asset_library.wf(),
            Snowman::has_assets(asset_library),
            level.canvas_size.x > 0,
        ensures
            r.wf(),
            r.stars@.len() == NUMBER_OF_SNOWMAN_STARS,
            forall|i: int|
                0 <= i < r.stars@.len() ==> (#[trigger] r.stars@[i]) == Snowman::initial_star(
                    asset_library,
                ),
            r == Snowman::initial(
                asset_library,
                level.canvas_size,
                level.tile_size,
                tile,
                now,
                r.stars,
            ),
    {
        let mut stars: Vec<Star<'a>> = Vec::new();
        let mut i: usize = 0;
        while i < NUMBER_OF_SNOWMAN_STARS
            invariant
                asset_library.wf(),
                Star::has_assets(asset_library),
                i <= NUMBER_OF_SNOWMAN_STARS,
                stars@.len() == i,
                forall|k: int| 0 <= k < i ==> (#[trigger] stars@[k]).wf(),
                forall|k: int|
                    0 <= k < i ==> (#[trigger] stars@[k]) == Snowman::initial_star(asset_library),
            decreases NUMBER_OF_SNOWMAN_STARS - i,
        {
            let mut star = Star::new(asset_library);
            star.set_small_probability(500);
            star.set_min_offset(Point::new(-12_000_000, -32_000_000));
            star.set_max_offset(Point::new(-7_000_000, -27_000_000));
            stars.push(star);
            i += 1;
        }
        Snowman {
            npc_base: NpcBase::new(
                asset_library.get_image("snowman"),
                level.canvas_size(),
                level.tile_size(),
                tile,
                0,
                now,
            ),
            launched: false,
            stars,
            launch_velocity: Point::new(-100_000, -150_000),
            launch_frame_speed: 8,
            damage_points: 20,
        }
    }

    /// Whether a snowman that took off now would not yet have passed the
    /// sleigh when it has risen to its height.
    pub fn is_time_to_launch(
        &self,
        level_offset_x: i64,
        level_scroll_speed_x: i64,
        sleigh: &Sleigh,
    ) -> (r: bool)
        ensures
            r == self.should_launch(level_offset_x, level_scroll_speed_x, sleigh),
    {
        let rise: i128 = sleigh.position().y as i128 - self.npc_base.position.y as i128;
        let lead: i128 = add_saturating(
            add_saturating(level_offset_x, sleigh.position().x),
            sleigh.size().x / 2,
        ) as i128 - add_saturating(self.npc_base.position.x, self.npc_base.size.x / 2) as i128;
        let closing: i128 = sub_saturating(self.launch_velocity.x, level_scroll_speed_x) as i128;
        let vertical: i128 = self.launch_velocity.y as i128;
        assert(-0xffff_ffff_ffff_ffff * 0x8000_0000_0000_0000 <= lead * vertical
            <= 0xffff_ffff_ffff_ffff * 0x8000_0000_0000_0000) by (nonlinear_arith)
            requires
                -0xffff_ffff_ffff_ffff <= lead <= 0xffff_ffff_ffff_ffff,
                -0x8000_0000_0000_0000 <= vertical <= 0x7fff_ffff_ffff_ffff,
        ;
        assert(-0xffff_ffff_ffff_ffff * 0x8000_0000_0000_0000 <= rise * closing
            <= 0xffff_ffff_ffff_ffff * 0x8000_0000_0000_0000) by (nonlinear_arith)
            requires
                -0xffff_ffff_ffff_ffff <= rise <= 0xffff_ffff_ffff_ffff,
                -0x8000_0000_0000_0000 <= closing <= 0x7fff_ffff_ffff_ffff,
        ;
        if vertical < 0 {
            lead * vertical <= rise * closing
        } else if vertical > 0 {
            lead * vertical >= rise * closing
        } else {
            false
        }
    }

    /// Lets the snowman live up to `now`. Returns the sound of the launch.
    pub fn do_logic(
        &mut self,
        level_offset_x: i64,
        level_scroll_speed_x: i64,
        sleigh: &Sleigh,
        now: u64,
    ) -> (sound: Option<Sound>)
        requires
            old(self).wf(),
        ensures
            final(self).wf(),
            old(self).ticks_to(*final(self), level_offset_x, level_scroll_speed_x, sleigh, now),
            sound == old(self).tick_sound(level_offset_x, level_scroll_speed_x, sleigh),
    {
        let mut sound: Option<Sound> = None;
        if self.launched {
            self.tick_stars(now);
        } else if self.is_time_to_launch(level_offset_x, level_scroll_speed_x, sleigh) {
            sound = Some(
                Sound::play_with_level_position(
                    SoundName::SnowmanLaunch,
                    self.npc_base.canvas_size,
                    level_offset_x,
                    self.npc_base.position.x,
                ),
            );
            self.launched = true;
            self.npc_base.velocity = self.launch_velocity;
            self.npc_base.frame_speed = self.launch_frame_speed;
        }
        self.npc_base.do_logic(now);
        let last_frame: u64 = (self.npc_base.image.total_number_of_frames() as u64 - 1) * 1000;
        if self.npc_base.frame > last_frame {
            self.npc_base.frame = last_frame;
        }
        sound
    }

    /// Lets every star tick at `now`.
    fn tick_stars(&mut self, now: u64)
        requires
            old(self).wf(),
        ensures
            final(self).wf(),
            *final(self) == (Snowman { stars: final(self).stars, ..*old(self) }),
            final(self).stars@.len() == old(self).stars@.len(),
            forall|i: int|
                0 <= i < old(self).stars@.len() ==> (#[trigger] old(self).stars@[i]).ticks_to(
                    final(self).stars@[i],
                    old(self).npc_base.position,
                    old(self).npc_base.size,
                    false,
                    now,
                ),
    {
        let mut j: usize = 0;
        while j < self.stars.len()
            invariant
                self.wf(),
                j <= self.stars@.len(),
                self.stars@.len() == old(self).stars@.len(),
                *self == (Snowman { stars: self.stars, ..*old(self) }),
                forall|k: int|
                    0 <= k < j ==> (#[trigger] old(self).stars@[k]).ticks_to(
                        self.stars@[k],
                        self.npc_base.position,
                        self.npc_base.size,
                        false,
                        now,
                    ),
                forall|k: int| j <= k < self.stars@.len() ==> self.stars@[k] == old(self).stars@[k],
            decreases self.stars@.len() - j,
        {
            let mut star = self.stars[j];
            star.do_logic(self.npc_base.position, self.npc_base.size, false, now);
            self.stars.set(j, star);
            j += 1;
        }
    }

    /// Harms a sleigh that is neither invincible nor shielded and touches
    /// the snowman: it takes damage and becomes invincible for a while.
    pub fn check_collision_with_sleigh(
        &mut self,
        score: &mut Score,
        level_offset_x: i64,
        sleigh: &mut Sleigh<'a>,
        now: u64,
    ) -> (sound: Option<Sound>)
        requires
            old(self).wf(),
            old(sleigh).wf(),
        ensures
            *final(self) == *old(self),
            final(sleigh).wf(),
            old(score).wf() ==> final(score).wf(),
            (*final(score), *final(sleigh), sound) == old(self).collided(
                *old(score),
                level_offset_x,
                *old(sleigh),
                now,
            ),
    {
        self.npc_base.harm(
            SoundName::SleighCollidedWithNpc,
            self.damage_points,
            score,
            level_offset_x,
            sleigh,
            now,
        )
    }

    /// What is drawn of the snowman: the stars of a snowman in flight, then
    /// the snowman itself.
    pub open spec fn sprites(&self, level_offset_x: i64) -> Seq<Sprite<'a>> {
        (if self.launched {
            stars_sprites(self.stars@, level_offset_x, self.stars@.len() as int)
        } else {
            Seq::empty()
        }).push(self.npc_base.sprite(level_offset_x))
    }

    /// What is drawn of the snowman, from the back to the front.
    pub fn draw(&self, level_offset_x: i64) -> (sprites: Vec<Sprite<'a>>)
        requires
            self.wf(),
        ensures
            sprites@ == self.sprites(level_offset_x),
    {
        let mut sprites: Vec<Sprite<'a>> = if self.launched {
            draw_stars(&self.stars, level_offset_x)
        } else {
            Vec::new()
        };
        sprites.push(self.npc_base.draw(level_offset_x));
        sprites
    }

    /// The tile on which the snowman lives.
    pub fn tile(&self) -> (r: (usize, usize))
        ensures
            r == self.npc_base.tile,
    {
        self.npc_base.tile
    }

    /// The layer in which the snowman is drawn.
    pub fn z_order(&self) -> (r: i32)
        ensures
            r == 0,
    {
        0
    }

    /// Whether the snowman is tested against the sleigh in the menu too.
    pub fn check_collision_with_sleigh_in_menu_mode(&self) -> (r: bool)
        ensures
            !r,
    {
        false
    }
}

/// The kind of character that a marker in the grid stands for.
#[derive(Clone, Copy, PartialEq, Eq, Debug, Structural)]
pub enum NpcKind {
    Angel,
    Balloon(BalloonType),
    Cloud,
    Finish,
    Goblin,
    Snowman,
}

/// The kind of character that a marker stands for; a marker that stands for
/// none of them gives an angel.
pub open spec fn kind_of_marker(frame: i64) -> NpcKind {
    if frame == 69 {
        NpcKind::Angel
    } else if frame == 70 {
        NpcKind::Balloon(BalloonType::Cash)
    } else if frame == 71 {
        NpcKind::Balloon(BalloonType::Heart)
    } else if frame == 72 {
        NpcKind::Balloon(BalloonType::Wine)
    } else if frame == 73 {
        NpcKind::Balloon(BalloonType::Gift)
    } else if frame == 75 {
        NpcKind::Balloon(BalloonType::Shield)
    } else if frame == 74 {
        NpcKind::Cloud
    } else if frame == 76 {
        NpcKind::Finish
    } else if frame == 68 {
        NpcKind::Goblin
    } else if frame == 29 {
        NpcKind::Snowman
    } else {
        NpcKind::Angel
    }
}

/// The kind of character that a marker stands for.
pub fn npc_kind(frame: i64) -> (r: NpcKind)
    ensures
        r == kind_of_marker(frame),
{
    if frame == 69 {
        NpcKind::Angel
    } else if frame == 70 {
        NpcKind::Balloon(BalloonType::Cash)
    } else if frame == 71 {
        NpcKind::Balloon(BalloonType::Heart)
    } else if frame == 72 {
        NpcKind::Balloon(BalloonType::Wine)
    } else if frame == 73 {
        NpcKind::Balloon(BalloonType::Gift)
    } else if frame == 75 {
        NpcKind::Balloon(BalloonType::Shield)
    } else if frame == 74 {
        NpcKind::Cloud
    } else if frame == 76 {
        NpcKind::Finish
    } else if frame == 68 {
        NpcKind::Goblin
    } else if frame == 29 {
        NpcKind::Snowman
    } else {
        NpcKind::Angel
    }
}

/// Whether the library holds what the characters of all kinds need.
pub open spec fn has_npc_assets(asset_library: &AssetLibrary) -> bool {
    &&& asset_library.has_image("angel"@)
    &&& Balloon::has_assets(asset_library)
    &&& asset_library.has_image("cloud"@)
    &&& asset_library.has_image("finish"@)
    &&& Goblin::has_assets(asset_library)
    &&& Snowman::has_assets(asset_library)
}

/// Whether `npc` is a character as it is made at `now` for a marker on a tile.
pub open spec fn is_new_npc<'a>(
    npc: Npc<'a>,
    asset_library: &'a AssetLibrary,
    canvas_size: Point,
    level_tile_size: Point,
    tile: (usize, usize),
    frame: i64,
    now: u64,
) -> bool {
    match kind_of_marker(frame) {
        NpcKind::Angel => npc == Npc::Angel(
            Angel::initial(asset_library, canvas_size, level_tile_size, tile, now),
        ),
        NpcKind::Balloon(balloon_type) => npc == Npc::Balloon(
            Balloon::initial(asset_library, canvas_size, level_tile_size, tile, balloon_type, now),
        ),
        NpcKind::Cloud => npc == Npc::Cloud(
            Cloud::initial(asset_library, canvas_size, level_tile_size, tile, now),
        ),
        NpcKind::Finish => npc == Npc::Finish(
            Finish::initial(asset_library, canvas_size, level_tile_size, tile, now),
        ),
        NpcKind::Goblin => npc matches Npc::Goblin(goblin) && goblin.snowballs@.len() == 0
            && goblin == Goblin::initial(
            asset_library,
            canvas_size,
            level_tile_size,
            tile,
            now,
            goblin.snowballs,
        ),
        NpcKind::Snowman => npc matches Npc::Snowman(snowman) && snowman.stars@.len()
            == NUMBER_OF_SNOWMAN_STARS && (forall|i: int|
            0 <= i < snowman.stars@.len() ==> (#[trigger] snowman.stars@[i])
                == Snowman::initial_star(asset_library)) && snowman == Snowman::initial(
            asset_library,
            canvas_size,
            level_tile_size,
            tile,
            now,
            snowman.stars,
        ),
    }
}

/// The character for a marker on a tile of the level, made at `now`. A
/// marker that stands for no kind gives an angel.
pub fn new_npc<'a>(
    asset_library: &'a AssetLibrary,
    level: &Level,
    tile: (usize, usize),
    frame: i64,
    now: u64,
) -> (r: Npc<'a>)
    requires
        asset_library.wf(),
        has_npc_assets(asset_library),
        level.canvas_size.x > 0,
    ensures
        r.wf(),
        r.tile_spec() == tile,
        is_new_npc(r, asset_library, level.canvas_size, level.tile_size, tile, frame, now),
{
    match npc_kind(frame) {
        NpcKind::Angel => Npc::Angel(Angel::new(asset_library, level, tile, now)),
        NpcKind::Balloon(balloon_type) => Npc::Balloon(
            Balloon::new(asset_library, level, tile, balloon_type, now),
        ),
        NpcKind::Cloud => Npc::Cloud(Cloud::new(asset_library, level, tile, now)),
        NpcKind::Finish => Npc::Finish(Finish::new(asset_library, level, tile, now)),
        NpcKind::Goblin => Npc::Goblin(Goblin::new(asset_library, level, tile, now)),
        NpcKind::Snowman => Npc::Snowman(Snowman::new(asset_library, level, tile, now)),
    }
}

impl<'a> Npc<'a> {
    /// The character is well formed.
    pub open spec fn wf(&self) -> bool {
        match self {
            Npc::Angel(angel) => angel.wf(),
            Npc::Balloon(balloon) => balloon.wf(),
            Npc::Cloud(cloud) => cloud.wf(),
            Npc::Finish(finish) => finish.wf(),
            Npc::Goblin(goblin) => goblin.wf(),
            Npc::Snowman(snowman) => snowman.wf(),
        }
    }

    /// What every character has.
    pub open spec fn base(&self) -> NpcBase<'a> {
        match self {
            Npc::Angel(angel) => angel.npc_base,
            Npc::Balloon(balloon) => balloon.npc_base,
            Npc::Cloud(cloud) => cloud.npc_base,
            Npc::Finish(finish) => finish.npc_base,
            Npc::Goblin(goblin) => goblin.npc_base,
            Npc::Snowman(snowman) => snowman.npc_base,
        }
    }

    /// The tile on which the character lives.
    pub open spec fn tile_spec(&self) -> (usize, usize) {
        self.base().tile
    }

    /// The layer in which the character is drawn: balloons behind, clouds
    /// in front of the others.
    pub open spec fn z_order_spec(&self) -> i32 {
        match self {
            Npc::Balloon(_) => -1i32,
            Npc::Cloud(_) => 1i32,
            _ => 0i32,
        }
    }

    /// Whether `after` is the character after a tick at `now`.
    pub open spec fn ticks_to(
        self,
        after: Npc<'a>,
        level_offset_x: i64,
        level_scroll_speed_x: i64,
        sleigh: &Sleigh,
        now: u64,
    ) -> bool {
        match self {
            Npc::Angel(angel) => after == Npc::Angel(
                Angel { npc_base: angel.npc_base.advanced(now), ..angel },
            ),
            Npc::Balloon(balloon) => after == Npc::Balloon(balloon.ticked(level_offset_x, now)),
            Npc::Cloud(cloud) => after == Npc::Cloud(
                Cloud { npc_base: cloud.npc_base.advanced(now), ..cloud },
            ),
            Npc::Finish(finish) => after == Npc::Finish(
                Finish { npc_base: finish.npc_base.advanced(now) },
            ),
            Npc::Goblin(goblin) => after matches Npc::Goblin(later) && goblin.ticks_to(later, now),
            Npc::Snowman(snowman) => after matches Npc::Snowman(later) && snowman.ticks_to(
                later,
                level_offset_x,
                level_scroll_speed_x,
                sleigh,
                now,
            ),
        }
    }

    /// The sound of a tick of the character at `now`.
    pub open spec fn tick_sound(
        &self,
        level_offset_x: i64,
        level_scroll_speed_x: i64,
        sleigh: &Sleigh,
        now: u64,
    ) -> Option<Sound> {
        match self {
            Npc::Goblin(goblin) => goblin.tick_sound(level_offset_x, now),
            Npc::Snowman(snowman) => snowman.tick_sound(
                level_offset_x,
                level_scroll_speed_x,
                sleigh,
            ),
            _ => None,
        }
    }

    /// The character, the score, the sleigh and the sound after the
    /// character was tested against the sleigh at `now`.
    pub open spec fn collided(self, score: Score, level_offset_x: i64, sleigh: Sleigh<'a>, now: u64) -> (
        Npc<'a>,
        Score,
        Sleigh<'a>,
        Option<Sound>,
    ) {
        match self {
            Npc::Angel(angel) => {
                let outcome = angel.collided(score, level_offset_x, sleigh, now);
                (self, outcome.0, outcome.1, outcome.2)
            },
            Npc::Balloon(balloon) => {
                let outcome = balloon.collided(score, level_offset_x, sleigh, now);
                (Npc::Balloon(outcome.0), outcome.1, outcome.2, outcome.3)
            },
            Npc::Cloud(cloud) => {
                let outcome = cloud.collided(score, level_offset_x, sleigh, now);
                (self, outcome.0, outcome.1, outcome.2)
            },
            Npc::Finish(finish) => (
                self,
                finish.collided(score, level_offset_x, &sleigh),
                sleigh,
                None,
            ),
            Npc::Goblin(goblin) => {
                let outcome = goblin.collided(score, level_offset_x, sleigh, now);
                (self, outcome.0, outcome.1, outcome.2)
            },
            Npc::Snowman(snowman) => {
                let outcome = snowman.collided(score, level_offset_x, sleigh, now);
                (self, outcome.0, outcome.1, outcome.2)
            },
        }
    }

    /// What is drawn of the character on a canvas that shows the level
    /// from `level_offset_x` on, from the back to the front. A balloon that
    /// was taken is not drawn.
    pub open spec fn sprites(&self, level_offset_x: i64) -> Seq<Sprite<'a>> {
        match self {
            Npc::Angel(angel) => seq![angel.npc_base.sprite(level_offset_x)],
            Npc::Balloon(balloon) => if balloon.visible {
                seq![balloon.npc_base.sprite(level_offset_x)]
            } else {
                Seq::empty()
            },
            Npc::Cloud(cloud) => seq![cloud.npc_base.sprite(level_offset_x)],
            Npc::Finish(finish) => seq![finish.npc_base.sprite(level_offset_x)],
            Npc::Goblin(goblin) => goblin.sprites(level_offset_x),
            Npc::Snowman(snowman) => snowman.sprites(level_offset_x),
        }
    }

    /// What is drawn of the character, from the back to the front.
    pub fn draw(&self, level_offset_x: i64) -> (sprites: Vec<Sprite<'a>>)
        requires
            self.wf(),
        ensures
            sprites@ == self.sprites(level_offset_x),
    {
        match self {
            Npc::Angel(angel) => {
                let sprites = vec![angel.npc_base.draw(level_offset_x)];
                assert(sprites@ =~= seq![angel.npc_base.sprite(level_offset_x)]);
                sprites
            },
            Npc::Balloon(balloon) => {
                if balloon.visible {
                    let sprites = vec![balloon.npc_base.draw(level_offset_x)];
                    assert(sprites@ =~= seq![balloon.npc_base.sprite(level_offset_x)]);
                    sprites
                } else {
                    Vec::new()
                }
            },
            Npc::Cloud(cloud) => {
                let sprites = vec![cloud.npc_base.draw(level_offset_x)];
                assert(sprites@ =~= seq![cloud.npc_base.sprite(level_offset_x)]);
                sprites
            },
            Npc::Finish(finish) => {
                let sprites = vec![finish.npc_base.draw(level_offset_x)];
                assert(sprites@ =~= seq![finish.npc_base.sprite(level_offset_x)]);
                sprites
            },
            Npc::Goblin(goblin) => goblin.draw(level_offset_x),
            Npc::Snowman(snowman) => snowman.draw(level_offset_x),
        }
    }

    /// Lets the character live up to `now`. Returns the sound to play.
    pub fn do_logic(
        &mut self,
        level_offset_x: i64,
        level_scroll_speed_x: i64,
        sleigh: &Sleigh,
        now: u64,
    ) -> (sound: Option<Sound>)
        requires
            old(self).wf(),
        ensures
            final(self).wf(),
            final(self).tile_spec() == old(self).tile_spec(),
            final(self).z_order_spec() == old(self).z_order_spec(),
            old(self).ticks_to(*final(self), level_offset_x, level_scroll_speed_x, sleigh, now),
            sound == old(self).tick_sound(level_offset_x, level_scroll_speed_x, sleigh, now),
    {
        match self {
            Npc::Angel(angel) => {
                angel.do_logic(now);
                None
            },
            Npc::Balloon(balloon) => {
                balloon.do_logic(level_offset_x, now);
                None
            },
            Npc::Cloud(cloud) => {
                cloud.do_logic(now);
                None
            },
            Npc::Finish(finish) => {
                finish.do_logic(now);
                None
            },
            Npc::Goblin(goblin) => goblin.do_logic(level_offset_x, now),
            Npc::Snowman(snowman) => snowman.do_logic(
                level_offset_x,
                level_scroll_speed_x,
                sleigh,
                now,
            ),
        }
    }

    /// Tests the character against the sleigh at `now`. Returns the sound to play.
    pub fn check_collision_with_sleigh(
        &mut self,
        score: &mut Score,
        level_offset_x: i64,
        sleigh: &mut Sleigh<'a>,
        now: u64,
    ) -> (sound: Option<Sound>)
        requires
            old(self).wf(),
            old(sleigh).wf(),
        ensures
            final(self).wf(),
            final(sleigh).wf(),
            old(score).wf() ==> final(score).wf(),
            final(self).tile_spec() == old(self).tile_spec(),
            final(self).z_order_spec() == old(self).z_order_spec(),
            final(sleigh).size == old(sleigh).size,
            (*final(self), *final(score), *final(sleigh), sound) == old(self).collided(
                *old(score),
                level_offset_x,
                *old(sleigh),
                now,
            ),
    {
        match self {
            Npc::Angel(angel) => angel.check_collision_with_sleigh(
                score,
                level_offset_x,
                sleigh,
                now,
            ),
            Npc::Balloon(balloon) => balloon.check_collision_with_sleigh(
                score,
                level_offset_x,
                sleigh,
                now,
            ),
            Npc::Cloud(cloud) => cloud.check_collision_with_sleigh(
                score,
                level_offset_x,
                sleigh,
                now,
            ),
            Npc::Finish(finish) => {
                finish.check_collision_with_sleigh(score, level_offset_x, sleigh);
                None
            },
            Npc::Goblin(goblin) => goblin.check_collision_with_sleigh(
                score,
                level_offset_x,
                sleigh,
                now,
            ),
            Npc::Snowman(snowman) => snowman.check_collision_with_sleigh(
                score,
                level_offset_x,
                sleigh,
                now,
            ),
        }
    }

    /// The tile on which the character lives.
    pub fn tile(&self) -> (r: (usize, usize))
        ensures
            r == self.tile_spec(),
    {
        match self {
            Npc::Angel(angel) => angel.tile(),
            Npc::Balloon(balloon) => balloon.tile(),
            Npc::Cloud(cloud) => cloud.tile(),
            Npc::Finish(finish) => finish.tile(),
            Npc::Goblin(goblin) => goblin.tile(),
            Npc::Snowman(snowman) => snowman.tile(),
        }
    }

    /// The layer in which the character is drawn; lower layers lie behind.
    pub fn z_order(&self) -> (r: i32)
        ensures
            r == self.z_order_spec(),
    {
        match self {
            Npc::Angel(angel) => angel.z_order(),
            Npc::Balloon(balloon) => balloon.z_order(),
            Npc::Cloud(cloud) => cloud.z_order(),
            Npc::Finish(finish) => finish.z_order(),
            Npc::Goblin(goblin) => goblin.z_order(),
            Npc::Snowman(snowman) => snowman.z_order(),
        }
    }

    /// Whether the character is tested against the sleigh in the menu too:
    /// only the finish is.
    pub fn check_collision_with_sleigh_in_menu_mode(&self) -> (r: bool)
        ensures
            r == (self is Finish),
    {
        match self {
            Npc::Angel(angel) => angel.check_collision_with_sleigh_in_menu_mode(),
            Npc::Balloon(balloon) => balloon.check_collision_with_sleigh_in_menu_mode(),
            Npc::Cloud(cloud) => cloud.check_collision_with_sleigh_in_menu_mode(),
            Npc::Finish(finish) => finish.check_collision_with_sleigh_in_menu_mode(),
            Npc::Goblin(goblin) => goblin.check_collision_with_sleigh_in_menu_mode(),
            Npc::Snowman(snowman) => snowman.check_collision_with_sleigh_in_menu_mode(),
        }
    }
}

} // verus!
