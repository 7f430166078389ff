//! Gifts that the sleigh drops, and the chimneys that they should hit.
use vstd::prelude::*;
use crate::asset::{optional, AssetLibrary, Image, Point, Sound, SoundName, Sprite};
use crate::game::GameDifficulty;
use crate::random::random_between;
use crate::sleigh::Sleigh;
use crate::level::Level;
use crate::level::lemma_visible_tiles;
use crate::ui::Score;
use crate::units::{
    add_saturating,
    add_scaled,
    add_scaled_u64,
    clamp_i64,
    clamp_u64,
    elapsed,
    elapsed_spec,
    pixels,
    pixels_spec,
    quotient,
    saturate_i64,
    sub_saturating,
    UNITS_PER_FRAME,
};

verus! {

/// The opening of a chimney on the terrain tiles with the marker `frame`:
/// where it lies on the tile, and its size.
#[derive(Clone, Copy, Debug, PartialEq, Eq, Structural)]
pub struct Chimney {
    pub position: Point,
    pub size: Point,
    pub frame: i64,
}

/// What a gift is doing: it falls, then either shows the points it has won
/// and can be deleted when the show is over, or can be deleted at once.
#[derive(Clone, Copy, Debug, PartialEq, Eq, Structural)]
pub enum GiftMode {
    Falling,
    ShowingPoints(i64),
    CanBeDeleted,
}

/// A gift on its way down.
#[derive(Clone, Copy)]
pub struct Gift<'a> {
    pub image: &'a Image,
    pub star_image: &'a Image,
    pub points10_image: &'a Image,
    pub points15_image: &'a Image,
    pub points20_image: &'a Image,
    pub canvas_size: Point,
    pub mode: GiftMode,
    /// Whether the sleigh held the bonus when the gift was dropped, and, once
    /// the gift shows its points, whether they were won with the bonus.
    pub bonus: bool,
    pub size: Point,
    pub position: Point,
    pub velocity: Point,
    pub acceleration: Point,
    pub frame: u64,
    pub last_update_instant: u64,
    pub star1_offset: Point,
    pub star2_offset: Point,
    pub star3_offset: Point,
    pub points_offset: Point,
    pub bonus_offset: Point,
    pub star1_frame_offset: u64,
    pub star2_frame_offset: u64,
    pub star3_frame_offset: u64,
    pub frame_speed: u64,
    pub showing_points_frame_speed: u64,
    pub damage_points: i64,
}

/// The points for a gift that fell into a chimney in the given row of the level.
pub open spec fn points_for_row(tile_y: usize) -> i64 {
    if tile_y <= 1 {
        10
    } else if tile_y == 2 {
        15
    } else {
        20
    }
}

/// Whether `x` lies in the stretch that starts at `start + offset` and is `length` long.
pub open spec fn within(x: i64, start: i64, offset: i64, length: i64) -> bool {
    clamp_i64(start + offset) <= x <= clamp_i64(clamp_i64(start + offset) + length)
}

impl Chimney {
    /// A chimney opening.
    pub fn new(position: Point, size: Point, frame: i64) -> (r: Chimney)
        ensures
            r == (Chimney { position, size, frame }),
    {
        Chimney { position, size, frame }
    }
}

impl<'a> Gift<'a> {
    /// The images are well formed and the canvas has a width.
    pub open spec fn wf(&self) -> bool {
        &&& self.image.wf()
        &&& self.star_image.wf()
        &&& self.points10_image.wf()
        &&& self.points15_image.wf()
        &&& self.points20_image.wf()
        &&& self.canvas_size.x > 0
    }

    /// The middle of the gift.
    pub open spec fn center_spec(&self) -> Point {
        Point {
            x: clamp_i64(self.position.x + quotient(self.size.x as int, 2)),
            y: clamp_i64(self.position.y + quotient(self.size.y as int, 2)),
        }
    }

    /// Whether the middle of the gift lies in the opening of `chimney` on the tile `tile`.
    pub open spec fn is_in_chimney(&self, level: &Level, chimney: Chimney, tile: (usize, usize)) -> bool {
        let center = self.center_spec();
        let tile_position = level.tile_position_spec(tile);
        &&& chimney.frame == level.tile_spec(tile.0 as int, tile.1 as int)
        &&& within(center.x, tile_position.x, chimney.position.x, chimney.size.x)
        &&& within(center.y, tile_position.y, chimney.position.y, chimney.size.y)
    }

    /// Whether the tile holds terrain and the middle of the gift lies in the
    /// opening of one of the chimneys on it.
    pub open spec fn is_in_chimney_of_tile(
        &self,
        level: &Level,
        chimneys: Seq<Chimney>,
        tile: (usize, usize),
    ) -> bool {
        &&& level.tile_spec(tile.0 as int, tile.1 as int) >= 0
        &&& exists|c: int|
            0 <= c < chimneys.len() && #[trigger] self.is_in_chimney(level, chimneys[c], tile)
    }

    /// The row of the first tile, from position `from` of `tiles` on, in one
    /// of whose chimneys the middle of the gift lies.
    pub open spec fn chimney_row_from(
        &self,
        level: &Level,
        chimneys: Seq<Chimney>,
        tiles: Seq<(usize, usize)>,
        from: int,
    ) -> Option<usize>
        decreases tiles.len() - from,
    {
        if from < 0 || from >= tiles.len() {
            None
        } else if self.is_in_chimney_of_tile(level, chimneys, tiles[from]) {
            Some(tiles[from].1)
        } else {
            self.chimney_row_from(level, chimneys, tiles, from + 1)
        }
    }

    /// The row of the first visible tile in one of whose chimneys the middle
    /// of the gift lies.
    pub open spec fn chimney_row(&self, level: &Level, chimneys: Seq<Chimney>) -> Option<usize> {
        self.chimney_row_from(level, chimneys, level.visible_tiles_spec(), 0)
    }

    /// Whether the gift has reached the ground.
    pub open spec fn is_on_ground(&self) -> bool {
        self.position.y >= self.canvas_size.y
    }

    /// The gift moved on by `dt` milliseconds: the velocity grows by the
    /// acceleration, the position by the new velocity, the frame by the frame speed.
    pub open spec fn advanced(self, dt: u64) -> Gift<'a> {
        let velocity = Point {
            x: clamp_i64(self.velocity.x + self.acceleration.x * dt),
            y: clamp_i64(self.velocity.y + self.acceleration.y * dt),
        };
        Gift {
            velocity,
            position: Point {
                x: clamp_i64(self.position.x + velocity.x * dt),
                y: clamp_i64(self.position.y + velocity.y * dt),
            },
            frame: clamp_u64(self.frame + self.frame_speed * dt),
            ..self
        }
    }

    /// The frame at which the show of the points is over.
    pub open spec fn end_of_show(&self) -> int {
        self.star3_frame_offset + self.star_image.frame_count() * UNITS_PER_FRAME
    }

    /// The gift after a tick at `now`, with `bonus` telling whether the
    /// sleigh holds the bonus at that tick. A gift that falls into a chimney
    /// keeps in mind whether its points were won with the bonus.
    pub open spec fn tick(
        self,
        level: &Level,
        chimneys: Seq<Chimney>,
        bonus: bool,
        now: u64,
    ) -> Gift<'a> {
        let dt = elapsed_spec(self.last_update_instant, now);
        match self.mode {
            GiftMode::Falling => {
                let moved = self.advanced(dt);
                match moved.chimney_row(level, chimneys) {
                    Some(tile_y) => Gift {
                        mode: GiftMode::ShowingPoints(points_for_row(tile_y)),
                        bonus,
                        frame: 0,
                        last_update_instant: now,
                        ..moved
                    },
                    None => Gift {
                        mode: if moved.is_on_ground() {
                            GiftMode::CanBeDeleted
                        } else {
                            GiftMode::Falling
                        },
                        last_update_instant: now,
                        ..moved
                    },
                }
            },
            GiftMode::ShowingPoints(points) => {
                let frame = clamp_u64(self.frame + self.showing_points_frame_speed * dt);
                Gift {
                    frame,
                    mode: if frame >= self.end_of_show() {
                        GiftMode::CanBeDeleted
                    } else {
                        GiftMode::ShowingPoints(points)
                    },
                    last_update_instant: now,
                    ..self
                }
            },
            GiftMode::CanBeDeleted => Gift { last_update_instant: now, ..self },
        }
    }

    /// The score after a tick of the gift at `now`: a gift that falls into a
    /// chimney wins the points of the row, twice where the sleigh holds the
    /// bonus at that tick; one that reaches the ground costs damage points.
    pub open spec fn tick_score(
        self,
        score: Score,
        level: &Level,
        chimneys: Seq<Chimney>,
        bonus: bool,
        now: u64,
    ) -> Score {
        let moved = self.advanced(elapsed_spec(self.last_update_instant, now));
        if self.mode != GiftMode::Falling {
            score
        } else {
            match moved.chimney_row(level, chimneys) {
                Some(tile_y) => score.with_gift_points(
                    if bonus {
                        (2 * points_for_row(tile_y)) as i64
                    } else {
                        points_for_row(tile_y)
                    },
                ),
                None => if moved.is_on_ground() {
                    score.with_damage_points(self.damage_points)
                } else {
                    score
                },
            }
        }
    }

    /// The sound of a tick of the gift at `now`.
    pub open spec fn tick_sound(self, level: &Level, chimneys: Seq<Chimney>, now: u64) -> Option<
        Sound,
    > {
        let moved = self.advanced(elapsed_spec(self.last_update_instant, now));
        if self.mode != GiftMode::Falling {
            None
        } else if moved.chimney_row(level, chimneys).is_some() {
            Some(moved.sound_spec(SoundName::GiftCollidedWithChimney, level))
        } else if moved.is_on_ground() {
            Some(moved.sound_spec(SoundName::GiftCollidedWithGround, level))
        } else {
            None
        }
    }

    /// A sound as heard from where the gift is.
    pub open spec fn sound_spec(&self, name: SoundName, level: &Level) -> Sound {
        Sound::at(
            name,
            1000,
            crate::asset::pan_at(self.canvas_size.x, clamp_i64(self.position.x - level.offset_x)),
        )
    }

    /// Whether the library holds what a gift needs: the three images of
    /// gifts, the star and the three images of points.
    pub open spec fn has_assets(asset_library: &AssetLibrary) -> bool {
        &&& asset_library.has_image("gift1"@)
        &&& asset_library.has_image("gift2"@)
        &&& asset_library.has_image("gift3"@)
        &&& asset_library.has_image("bigStar"@)
        &&& asset_library.has_image("points10"@)
        &&& asset_library.has_image("points15"@)
        &&& asset_library.has_image("points20"@)
    }

    /// Where a gift starts that the sleigh drops: in the level, under the
    /// near corner of the sleigh.
    pub open spec fn start_position(level: &Level, sleigh: &Sleigh) -> Point {
        Point {
            x: clamp_i64(sleigh.position.x + level.offset_x),
            y: clamp_i64(sleigh.position.y + sleigh.size.y),
        }
    }

    /// How a gift starts to move that the sleigh drops: down at 50 pixels
    /// per second and along with the level; on `Hard` the velocity of the
    /// sleigh is added.
    pub open spec fn start_velocity(
        level: &Level,
        sleigh: &Sleigh,
        difficulty: GameDifficulty,
    ) -> Point {
        match difficulty {
            GameDifficulty::Easy => Point { x: level.scroll_speed_x, y: 50_000 },
            GameDifficulty::Hard => Point {
                x: clamp_i64(sleigh.velocity.x + level.scroll_speed_x),
                y: clamp_i64(50_000 + sleigh.velocity.y),
            },
        }
    }

    /// Whether this is a gift as the sleigh drops it at `now`: one of the
    /// three kinds, at a whole frame of its animation, both as chance
    /// decided, and for the rest as the place and the motion of the sleigh
    /// and the level determine.
    pub open spec fn is_dropped_by(
        self,
        asset_library: &'a AssetLibrary,
        level: &Level,
        sleigh: &Sleigh,
        canvas_size: Point,
        difficulty: GameDifficulty,
        now: u64,
    ) -> bool {
        &&& *self.image == asset_library.image("gift1"@) || *self.image == asset_library.image(
            "gift2"@,
        ) || *self.image == asset_library.image("gift3"@)
        &&& self.frame % UNITS_PER_FRAME == 0
        &&& self.frame / UNITS_PER_FRAME < self.image.frame_count()
        &&& self == Gift::dropped_spec(
            self.image,
            &asset_library.image("bigStar"@),
            &asset_library.image("points10"@),
            &asset_library.image("points15"@),
            &asset_library.image("points20"@),
            canvas_size,
            sleigh.bonus,
            Gift::start_position(level, sleigh),
            Gift::start_velocity(level, sleigh, difficulty),
            self.frame,
            now,
        )
    }

    /// A gift that the sleigh drops at `now`; chance decides its kind and
    /// the frame at which its animation starts.
    pub fn new(
        asset_library: &'a AssetLibrary,
        level: &Level,
        sleigh: &Sleigh,
        canvas_size: Point,
        difficulty: GameDifficulty,
        now: u64,
    ) -> (r: Gift<'a>)
        requires
            asset_library.wf(),
            Gift::has_assets(asset_library),
            canvas_size.x > 0,
        ensures
            r.wf(),
            r.is_dropped_by(asset_library, level, sleigh, canvas_size, difficulty, now),
    {
        let number_of_gift_types: i64 = 4;
        let gift_type = random_between(1, number_of_gift_types);
        let image = if gift_type == 1 {
            asset_library.get_image("gift1")
        } else if gift_type == 2 {
            asset_library.get_image("gift2")
        } else {
            asset_library.get_image("gift3")
        };
        let velocity_y: i64 = 50_000;
        let velocity = match difficulty {
            GameDifficulty::Easy => Point::new(level.scroll_speed_x(), velocity_y),
            GameDifficulty::Hard => Point::new(
                add_saturating(sleigh.velocity().x, level.scroll_speed_x()),
                add_saturating(velocity_y, sleigh.velocity().y),
            ),
        };
        let position = Point::new(
            add_saturating(sleigh.position().x, level.offset_x()),
            add_saturating(sleigh.position().y, sleigh.size().y),
        );
        let frame = random_between(0, image.total_number_of_frames() as i64);
        Gift::dropped(
            image,
            asset_library.get_image("bigStar"),
            asset_library.get_image("points10"),
            asset_library.get_image("points15"),
            asset_library.get_image("points20"),
            canvas_size,
            sleigh.bonus(),
            position,
            velocity,
            (frame * 1000) as u64,
            now,
        )
    }

    /// A falling gift with the given images, place and motion.
    pub fn dropped(
        image: &'a Image,
        star_image: &'a Image,
        points10_image: &'a Image,
        points15_image: &'a Image,
        points20_image: &'a Image,
        canvas_size: Point,
        bonus: bool,
        position: Point,
        velocity: Point,
        frame: u64,
        now: u64,
    ) -> (r: Gift<'a>)
        requires
            image.wf(),
            star_image.wf(),
            points10_image.wf(),
            points15_image.wf(),
            points20_image.wf(),
            canvas_size.x > 0,
        ensures
            r.wf(),
            r == Gift::dropped_spec(
                image,
                star_image,
                points10_image,
                points15_image,
                points20_image,
                canvas_size,
                bonus,
                position,
                velocity,
                frame,
                now,
            ),
    {
        Gift {
            image,
            star_image,
            points10_image,
            points15_image,
            points20_image,
            canvas_size,
            mode: GiftMode::Falling,
            bonus,
            size: image.size(),
            position,
            velocity,
            acceleration: Point::new(0, 200),
            frame,
            last_update_instant: now,
            star1_offset: Point::new(10_000_000, 10_000_000),
            star2_offset: Point::new(25_000_000, 15_000_000),
            star3_offset: Point::new(15_000_000, 25_000_000),
            points_offset: Point::new(10_000_000, 10_000_000),
            bonus_offset: Point::new(10_000_000, 10_000_000),
            star1_frame_offset: 0,
            star2_frame_offset: 2_000,
            star3_frame_offset: 4_000,
            frame_speed: 15,
            showing_points_frame_speed: 15,
            damage_points: 15,
        }
    }

    /// A falling gift with the given images, place and motion: it is pulled
    /// down with 200 pixels per second squared, its animation runs at 15
    /// frames per second, and it costs 15 damage points on the ground.
    pub open spec fn dropped_spec(
        image: &'a Image,
        star_image: &'a Image,
        points10_image: &'a Image,
        points15_image: &'a Image,
        points20_image: &'a Image,
        canvas_size: Point,
        bonus: bool,
        position: Point,
        velocity: Point,
        frame: u64,
        now: u64,
    ) -> Gift<'a> {
        Gift {
            image,
            star_image,
            points10_image,
            points15_image,
            points20_image,
            canvas_size,
            mode: GiftMode::Falling,
            bonus,
            size: image.size_spec(),
            position,
            velocity,
            acceleration: Point { x: 0, y: 200 },
            frame,
            last_update_instant: now,
            star1_offset: Point { x: 10_000_000, y: 10_000_000 },
            star2_offset: Point { x: 25_000_000, y: 15_000_000 },
            star3_offset: Point { x: 15_000_000, y: 25_000_000 },
            points_offset: Point { x: 10_000_000, y: 10_000_000 },
            bonus_offset: Point { x: 10_000_000, y: 10_000_000 },
            star1_frame_offset: 0,
            star2_frame_offset: 2_000,
            star3_frame_offset: 4_000,
            frame_speed: 15,
            showing_points_frame_speed: 15,
            damage_points: 15,
        }
    }

    /// Moves the gift on by `dt` milliseconds.
    fn advance(&mut self, dt: u64)
        ensures
            *final(self) == old(self).advanced(dt),
    {
        self.velocity.x = add_scaled(self.velocity.x, self.acceleration.x, dt);
        self.velocity.y = add_scaled(self.velocity.y, self.acceleration.y, dt);
        self.position.x = add_scaled(self.position.x, self.velocity.x, dt);
        self.position.y = add_scaled(self.position.y, self.velocity.y, dt);
        self.frame = add_scaled_u64(self.frame, self.frame_speed, dt);
    }

    /// Lets the gift live up to `now`.
    ///
    /// A falling gift moves; if its middle then lies in a chimney of a visible
    /// terrain tile, it wins the points of the row of the first such tile,
    /// twice where `bonus` says that the sleigh holds the bonus now, and
    /// begins to show them; else, if it has reached the ground, it costs
    /// damage points and can be deleted. A gift that shows its points goes on
    /// with the show and can be deleted when it is over. A gift that can be
    /// deleted stays so. Returns the sound to play.
    pub fn do_logic(
        &mut self,
        score: &mut Score,
        level: &Level,
        chimneys: &Vec<Chimney>,
        bonus: bool,
        now: u64,
    ) -> (sound: Option<Sound>)
        requires
            old(self).wf(),
            level.wf(),
        ensures
            final(self).wf(),
            *final(self) == old(self).tick(level, chimneys@, bonus, now),
            *final(score) == old(self).tick_score(*old(score), level, chimneys@, bonus, now),
            sound == old(self).tick_sound(level, chimneys@, now),
            old(score).wf() ==> final(score).wf(),
    {
        let seconds_since_last_update = elapsed(self.last_update_instant, now);
        let mut sound: Option<Sound> = None;
        match self.mode {
            GiftMode::Falling => {
                self.advance(seconds_since_last_update);
                match self.has_collided_with_chimney(level, chimneys) {
                    Some(chimney_tile_y) => {
                        let gift_points: i64 = if chimney_tile_y <= 1 {
                            10
                        } else if chimney_tile_y == 2 {
                            15
                        } else {
                            20
                        };
                        self.mode = GiftMode::ShowingPoints(gift_points);
                        self.bonus = bonus;
                        self.frame = 0;
                        sound = Some(
                            Sound::play_with_level_position(
                                SoundName::GiftCollidedWithChimney,
                                self.canvas_size,
                                level.offset_x(),
                                self.position.x,
                            ),
                        );
                        score.add_gift_points(if bonus { 2 * gift_points } else { gift_points });
                    },
                    None => {
                        if self.has_collided_with_ground() {
                            self.mode = GiftMode::CanBeDeleted;
                            sound = Some(
                                Sound::play_with_level_position(
                                    SoundName::GiftCollidedWithGround,
                                    self.canvas_size,
                                    level.offset_x(),
                                    self.position.x,
                                ),
                            );
                            score.add_damage_points(self.damage_points);
                        }
                    },
                }
            },
            GiftMode::ShowingPoints(_) => {
                self.frame = add_scaled_u64(
                    self.frame,
                    self.showing_points_frame_speed,
                    seconds_since_last_update,
                );
                let star_frames: u64 = self.star_image.total_number_of_frames() as u64;
                if self.frame as u128 >= self.star3_frame_offset as u128 + (star_frames as u128)
                    * 1000 {
                    self.mode = GiftMode::CanBeDeleted;
                }
            },
            GiftMode::CanBeDeleted => {},
        }
        self.last_update_instant = now;
        sound
    }

    /// The middle of the gift.
    fn center(&self) -> (r: Point)
        ensures
            r == self.center_spec(),
    {
        Point {
            x: add_saturating(self.position.x, self.size.x / 2),
            y: add_saturating(self.position.y, self.size.y / 2),
        }
    }

    /// Whether `x` lies in the stretch that starts at `start + offset` and is `length` long.
    fn is_within(x: i64, start: i64, offset: i64, length: i64) -> (r: bool)
        ensures
            r == within(x, start, offset, length),
    {
        let low = add_saturating(start, offset);
        low <= x && x <= add_saturating(low, length)
    }

    /// The row of the first visible terrain tile in one of whose chimneys
    /// the middle of the gift lies.
    fn has_collided_with_chimney(&self, level: &Level, chimneys: &Vec<Chimney>) -> (r: Option<usize>)
        requires
            level.wf(),
        ensures
            r == self.chimney_row(level, chimneys@),
    {
        let center_position = self.center();
        let tiles = level.visible_tiles();
        let mut t: usize = 0;
        while t < tiles.len()
            invariant
                level.wf(),
                t <= tiles@.len(),
                tiles@ == level.visible_tiles_spec(),
                center_position == self.center_spec(),
                self.chimney_row(level, chimneys@) == self.chimney_row_from(
                    level,
                    chimneys@,
                    tiles@,
                    t as int,
                ),
            decreases tiles@.len() - t,
        {
            let tile = tiles[t];
            proof {
                lemma_visible_tiles(*level, tile);
                assert(tiles@.contains(tile));
            }
            let frame = level.tile(tile.0, tile.1);
            if frame >= 0 {
                let tile_position = level.tile_position(tile);
                let mut c: usize = 0;
                while c < chimneys.len()
                    invariant
                        c <= chimneys@.len(),
                        t < tiles@.len(),
                        tile == tiles@[t as int],
                        frame >= 0,
                        self.chimney_row(level, chimneys@) == self.chimney_row_from(
                            level,
                            chimneys@,
                            tiles@,
                            t as int,
                        ),
                        frame == level.tile_spec(tile.0 as int, tile.1 as int),
                        tile_position == level.tile_position_spec(tile),
                        center_position == self.center_spec(),
                        forall|k: int|
                            0 <= k < c ==> !#[trigger] self.is_in_chimney(level, chimneys@[k], tile),
                    decreases chimneys@.len() - c,
                {
                    let chimney = &chimneys[c];
                    if chimney.frame == frame && Gift::is_within(
                        center_position.x,
                        tile_position.x,
                        chimney.position.x,
                        chimney.size.x,
                    ) && Gift::is_within(
                        center_position.y,
                        tile_position.y,
                        chimney.position.y,
                        chimney.size.y,
                    ) {
                        assert(self.is_in_chimney(level, chimneys@[c as int], tile));
                        assert(self.is_in_chimney_of_tile(level, chimneys@, tile));
                        return Some(tile.1);
                    }
                    c += 1;
                }
            }
            assert(!self.is_in_chimney_of_tile(level, chimneys@, tile));
            t += 1;
        }
        None
    }

    /// Whether the gift has reached the ground.
    fn has_collided_with_ground(&self) -> (r: bool)
        ensures
            r == self.is_on_ground(),
    {
        self.position.y >= self.canvas_size.y
    }

    /// What is drawn of one of the three stars of the show, for a show at
    /// `position`: the star appears `star_offset` from there once the frame
    /// of the gift has reached `frame_offset`, and is gone when its
    /// animation is over.
    pub open spec fn star_sprite(&self, position: Point, star_offset: Point, frame_offset: u64) -> Option<
        Sprite<'a>,
    > {
        if self.frame >= frame_offset && self.frame < frame_offset + self.star_image.frame_count()
            * UNITS_PER_FRAME {
            Some(
                Sprite {
                    image: self.star_image,
                    position: Point {
                        x: clamp_i64(position.x + star_offset.x),
                        y: clamp_i64(position.y + star_offset.y),
                    },
                    frame: (self.frame - frame_offset) as u64,
                },
            )
        } else {
            None
        }
    }

    /// What is drawn of the stars of a show at `position`.
    pub open spec fn star_sprites(&self, position: Point) -> Seq<Sprite<'a>> {
        optional(self.star_sprite(position, self.star1_offset, self.star1_frame_offset)) + optional(
            self.star_sprite(position, self.star2_offset, self.star2_frame_offset),
        ) + optional(self.star_sprite(position, self.star3_offset, self.star3_frame_offset))
    }

    /// The image that shows points; points that have no image of their own
    /// are shown as ten.
    pub open spec fn points_image(&self, gift_points: i64) -> &'a Image {
        if gift_points == 15 {
            self.points15_image
        } else if gift_points == 20 {
            self.points20_image
        } else {
            self.points10_image
        }
    }

    /// What is drawn of the points of a show at `position`: their image
    /// below the stars.
    pub open spec fn points_sprite(&self, position: Point, gift_points: i64) -> Sprite<'a> {
        Sprite {
            image: self.points_image(gift_points),
            position: Point {
                x: clamp_i64(
                    position.x + self.points_offset.x + quotient(
                        pixels_spec(self.star_image.frame_width()) as int,
                        2,
                    ),
                ),
                y: clamp_i64(
                    position.y + self.points_offset.y + pixels_spec(self.star_image.frame_height()),
                ),
            },
            frame: 0,
        }
    }

    /// Where a show is drawn on a canvas that shows the level from
    /// `level_offset_x` on: half a star up and to the left of the gift.
    pub open spec fn show_position(&self, level_offset_x: i64) -> Point {
        Point {
            x: clamp_i64(
                self.position.x - level_offset_x - quotient(
                    pixels_spec(self.star_image.frame_width()) as int,
                    2,
                ),
            ),
            y: clamp_i64(
                self.position.y - quotient(pixels_spec(self.star_image.frame_height()) as int, 2),
            ),
        }
    }

    /// Where the second show of a gift with the bonus is drawn.
    pub open spec fn bonus_position(&self, level_offset_x: i64) -> Point {
        Point {
            x: clamp_i64(self.show_position(level_offset_x).x + self.bonus_offset.x),
            y: clamp_i64(self.show_position(level_offset_x).y + self.bonus_offset.y),
        }
    }

    /// What is drawn of the gift on a canvas that shows the level from
    /// `level_offset_x` on: a falling gift itself; of a gift that shows its
    /// points the stars and then the points, each a second time, a little
    /// further on, for a gift with the bonus; nothing of a gift that can be
    /// deleted.
    pub open spec fn sprites(&self, level_offset_x: i64) -> Seq<Sprite<'a>> {
        match self.mode {
            GiftMode::Falling => seq![
                Sprite {
                    image: self.image,
                    position: Point {
                        x: clamp_i64(self.position.x - level_offset_x),
                        y: self.position.y,
                    },
                    frame: self.frame,
                },
            ],
            GiftMode::ShowingPoints(gift_points) => {
                let position = self.show_position(level_offset_x);
                let bonus_position = self.bonus_position(level_offset_x);
                self.star_sprites(position) + (if self.bonus {
                    self.star_sprites(bonus_position)
                } else {
                    Seq::empty()
                }) + seq![self.points_sprite(position, gift_points)] + (if self.bonus {
                    seq![self.points_sprite(bonus_position, gift_points)]
                } else {
                    Seq::empty()
                })
            },
            GiftMode::CanBeDeleted => Seq::empty(),
        }
    }

    /// What is drawn of the gift, from the back to the front.
    pub fn draw(&self, level_offset_x: i64) -> (sprites: Vec<Sprite<'a>>)
        requires
            self.wf(),
        ensures
            sprites@ == self.sprites(level_offset_x),
    {
        match self.mode {
            GiftMode::Falling => {
                let sprites = vec![
                    Sprite {
                        image: self.image,
                        position: Point::new(
                            sub_saturating(self.position.x, level_offset_x),
                            self.position.y,
                        ),
                        frame: self.frame,
                    },
                ];
                assert(sprites@ =~= self.sprites(level_offset_x));
                sprites
            },
            GiftMode::ShowingPoints(gift_points) => {
                let half_width: i64 = pixels(self.star_image.width() as i64) / 2;
                let half_height: i64 = pixels(self.star_image.height() as i64) / 2;
                let position = Point::new(
                    saturate_i64(
                        self.position.x as i128 - level_offset_x as i128 - half_width as i128,
                    ),
                    sub_saturating(self.position.y, half_height),
                );
                let bonus_position = Point::new(
                    add_saturating(position.x, self.bonus_offset.x),
                    add_saturating(position.y, self.bonus_offset.y),
                );
                let mut sprites = self.draw_star(position);
                if self.bonus {
                    let mut more = self.draw_star(bonus_position);
                    sprites.append(&mut more);
                }
                sprites.push(self.draw_points(position, gift_points));
                if self.bonus {
                    sprites.push(self.draw_points(bonus_position, gift_points));
                }
                assert(sprites@ =~= self.sprites(level_offset_x));
                sprites
            },
            GiftMode::CanBeDeleted => Vec::new(),
        }
    }

    /// What is drawn of the stars of a show at `position`.
    pub fn draw_star(&self, position: Point) -> (sprites: Vec<Sprite<'a>>)
        requires
            self.wf(),
        ensures
            sprites@ == self.star_sprites(position),
    {
        let mut sprites: Vec<Sprite<'a>> = Vec::new();
        let number_of_star_frames: u128 = (self.star_image.total_number_of_frames() as u128) * 1000;
        if self.frame >= self.star1_frame_offset && (self.frame as u128)
            < self.star1_frame_offset as u128 + number_of_star_frames {
            sprites.push(
                Sprite {
                    image: self.star_image,
                    position: Point::new(
                        add_saturating(position.x, self.star1_offset.x),
                        add_saturating(position.y, self.star1_offset.y),
                    ),
                    frame: self.frame - self.star1_frame_offset,
                },
            );
        }
        if self.frame >= self.star2_frame_offset && (self.frame as u128)
            < self.star2_frame_offset as u128 + number_of_star_frames {
            sprites.push(
                Sprite {
                    image: self.star_image,
                    position: Point::new(
                        add_saturating(position.x, self.star2_offset.x),
                        add_saturating(position.y, self.star2_offset.y),
                    ),
                    frame: self.frame - self.star2_frame_offset,
                },
            );
        }
        if self.frame >= self.star3_frame_offset && (self.frame as u128)
            < self.star3_frame_offset as u128 + number_of_star_frames {
            sprites.push(
                Sprite {
                    image: self.star_image,
                    position: Point::new(
                        add_saturating(position.x, self.star3_offset.x),
                        add_saturating(position.y, self.star3_offset.y),
                    ),
                    frame: self.frame - self.star3_frame_offset,
                },
            );
        }
        assert(sprites@ =~= self.star_sprites(position));
        sprites
    }

    /// What is drawn of the points of a show at `position`.
    pub fn draw_points(&self, position: Point, gift_points: i64) -> (sprite: Sprite<'a>)
        requires
            self.wf(),
        ensures
            sprite == self.points_sprite(position, gift_points),
    {
        let points_image = if gift_points == 15 {
            self.points15_image
        } else if gift_points == 20 {
            self.points20_image
        } else {
            self.points10_image
        };
        let half_width: i64 = pixels(self.star_image.width() as i64) / 2;
        let height: i64 = pixels(self.star_image.height() as i64);
        Sprite {
            image: points_image,
            position: Point::new(
                saturate_i64(
                    position.x as i128 + self.points_offset.x as i128 + half_width as i128,
                ),
                saturate_i64(position.y as i128 + self.points_offset.y as i128 + height as i128),
            ),
            frame: 0,
        }
    }

    /// What the gift is doing.
    pub fn mode(&self) -> (r: GiftMode)
        ensures
            r == self.mode,
    {
        self.mode
    }
}

/// What is drawn of the first `n` gifts, in their order.
pub open spec fn gifts_sprites<'a>(gifts: Seq<Gift<'a>>, level_offset_x: i64, n: int) -> Seq<
    Sprite<'a>,
>
    decreases n,
{
    if n <= 0 {
        Seq::empty()
    } else {
        gifts_sprites(gifts, level_offset_x, n - 1) + gifts[n - 1].sprites(level_offset_x)
    }
}

/// What is drawn of gifts, in their order.
pub fn draw_gifts<'a>(gifts: &Vec<Gift<'a>>, level_offset_x: i64) -> (sprites: Vec<Sprite<'a>>)
    requires
        forall|i: int| 0 <= i < gifts@.len() ==> (#[trigger] gifts@[i]).wf(),
    ensures
        sprites@ == gifts_sprites(gifts@, level_offset_x, gifts@.len() as int),
{
    let mut sprites: Vec<Sprite<'a>> = Vec::new();
    let mut i: usize = 0;
    while i < gifts.len()
        invariant
            i <= gifts@.len(),
            forall|k: int| 0 <= k < gifts@.len() ==> (#[trigger] gifts@[k]).wf(),
            sprites@ == gifts_sprites(gifts@, level_offset_x, i as int),
        decreases gifts@.len() - i,
    {
        let mut more = gifts[i].draw(level_offset_x);
        sprites.append(&mut more);
        i += 1;
    }
    sprites
}

/// Gift lifecycle: a gift that can be deleted stays so at every later tick,
/// and no tick leads back to falling from the show of the points.
pub proof fn lemma_gift_lifecycle(
    gift: Gift,
    score: Score,
    level: &Level,
    chimneys: Seq<Chimney>,
    bonus: bool,
    now: u64,
)
    ensures
        gift.mode == GiftMode::CanBeDeleted ==> gift.tick(level, chimneys, bonus, now).mode
            == GiftMode::CanBeDeleted,
        gift.mode is ShowingPoints ==> gift.tick(level, chimneys, bonus, now).mode
            != GiftMode::Falling,
        gift.mode != GiftMode::Falling ==> gift.tick_score(score, level, chimneys, bonus, now)
            == score,
        gift.mode != GiftMode::Falling ==> gift.tick_sound(level, chimneys, now).is_none(),
{
}

} // verus!
