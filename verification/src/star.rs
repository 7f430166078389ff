//! The stars that trail behind the sleigh and behind a flying snowman.
use vstd::prelude::*;
use crate::asset::{AssetLibrary, Image, Point, Sprite};
use crate::random::random_between;
use crate::units::{
    add_saturating,
    sub_saturating,
    add_scaled_u64,
    clamp_i64,
    clamp_u64,
    elapsed,
    elapsed_spec,
    UNITS_PER_FRAME,
};

verus! {

/// A star that twinkles once near its owner and then starts again at a new place.
#[derive(Clone, Copy)]
pub struct Star<'a> {
    pub image: &'a Image,
    pub small_image: &'a Image,
    pub drunk_image: &'a Image,
    pub small_drunk_image: &'a Image,
    pub position: Point,
    /// Whether the star has not been placed yet.
    pub fresh: bool,
    pub frame: u64,
    pub max_frame: u64,
    pub small: bool,
    pub drunk: bool,
    /// Chance of a small star, in thousandths.
    pub small_probability: i64,
    pub last_update_instant: u64,
    pub min_offset: Point,
    pub max_offset: Point,
    pub frame_speed: u64,
    pub max_max_frame: u64,
}

/// What chance decides when a star starts again.
#[derive(Clone, Copy, Debug)]
pub struct StarDraw {
    /// Where the star appears, relative to the far corner of its owner.
    pub offset: Point,
    /// The frame at which the star starts again.
    pub max_frame: u64,
    /// The draw, in thousandths, that is held against the chance of a small star.
    pub size_draw: i64,
    /// The frame at which a star that is placed for the first time begins.
    pub first_frame: u64,
}

/// Whether `x` is a possible draw from `low` up to `high`, or `low` itself
/// where there is nothing in between.
pub open spec fn is_draw(x: i64, low: i64, high: i64) -> bool {
    if low < high {
        low <= x < high
    } else {
        x == low
    }
}

impl<'a> Star<'a> {
    /// The images are well formed and the animation is shorter than the
    /// longest life of a star.
    pub open spec fn wf(&self) -> bool {
        &&& self.image.wf()
        &&& self.small_image.wf()
        &&& self.drunk_image.wf()
        &&& self.small_drunk_image.wf()
        &&& self.image.frame_count() * UNITS_PER_FRAME < self.max_max_frame <= i64::MAX
    }

    /// Whether chance may decide so for this star.
    pub open spec fn allows(&self, draw: StarDraw) -> bool {
        &&& is_draw(draw.offset.x, self.min_offset.x, self.max_offset.x)
        &&& is_draw(draw.offset.y, self.min_offset.y, self.max_offset.y)
        &&& self.image.frame_count() * UNITS_PER_FRAME <= draw.max_frame < self.max_max_frame
        &&& 0 <= draw.size_draw < 1000
        &&& draw.first_frame < self.max_max_frame
    }

    /// The star started again behind an owner at `owner_position` of size
    /// `owner_size`, as chance decided.
    pub open spec fn restarted(
        self,
        owner_position: Point,
        owner_size: Point,
        drunk: bool,
        draw: StarDraw,
        now: u64,
    ) -> Star<'a> {
        Star {
            position: Point {
                x: clamp_i64(clamp_i64(owner_position.x + owner_size.x) + draw.offset.x),
                y: clamp_i64(clamp_i64(owner_position.y + owner_size.y) + draw.offset.y),
            },
            fresh: false,
            frame: 0,
            max_frame: draw.max_frame,
            small: draw.size_draw < self.small_probability,
            drunk,
            last_update_instant: now,
            ..self
        }
    }

    /// The star placed for the first time: started again, but at a frame
    /// somewhere in its life.
    pub open spec fn placed(
        self,
        owner_position: Point,
        owner_size: Point,
        drunk: bool,
        draw: StarDraw,
        now: u64,
    ) -> Star<'a> {
        Star {
            frame: draw.first_frame,
            ..self.restarted(owner_position, owner_size, drunk, draw, now)
        }
    }

    /// The star after a tick at `now`, with `first` deciding the placing of a
    /// fresh star and `second` a start at the end of its life.
    pub open spec fn tick(
        self,
        owner_position: Point,
        owner_size: Point,
        drunk: bool,
        first: StarDraw,
        second: StarDraw,
        now: u64,
    ) -> Star<'a> {
        let start = if self.fresh {
            self.placed(owner_position, owner_size, drunk, first, now)
        } else {
            self
        };
        let frame = clamp_u64(
            start.frame + start.frame_speed * elapsed_spec(start.last_update_instant, now),
        );
        let moved = Star { frame, ..start };
        if frame >= start.max_frame {
            moved.restarted(owner_position, owner_size, drunk, second, now)
        } else {
            Star { last_update_instant: now, ..moved }
        }
    }

    /// Whether `after` is this star after a tick at `now`, for some decisions of chance.
    pub open spec fn ticks_to(
        self,
        after: Star<'a>,
        owner_position: Point,
        owner_size: Point,
        drunk: bool,
        now: u64,
    ) -> bool {
        exists|first: StarDraw, second: StarDraw|
            self.allows(first) && self.allows(second) && after == #[trigger] self.tick(
                owner_position,
                owner_size,
                drunk,
                first,
                second,
                now,
            )
    }

    /// A star that has not been placed yet: half of the stars are small, a
    /// star appears up to 150 pixels behind and 10 pixels above the far corner
    /// of its owner, and lives for at most 30 frames at 34 frames per second.
    pub open spec fn initial(asset_library: &'a AssetLibrary) -> Star<'a> {
        Star {
            image: &asset_library.image("star"@),
            small_image: &asset_library.image("smallStar"@),
            drunk_image: &asset_library.image("drunkStar"@),
            small_drunk_image: &asset_library.image("smallDrunkStar"@),
            position: Point { x: 0, y: 0 },
            fresh: true,
            frame: 0,
            max_frame: 0,
            small: false,
            drunk: false,
            small_probability: 500,
            last_update_instant: 0,
            min_offset: Point { x: -150_000_000i64, y: -10_000_000i64 },
            max_offset: Point { x: -10_000_000i64, y: 0 },
            frame_speed: 34,
            max_max_frame: 30_000,
        }
    }

    /// Whether the library holds what a star needs: its four images, with an
    /// animation of fewer than 30 frames.
    pub open spec fn has_assets(asset_library: &AssetLibrary) -> bool {
        &&& asset_library.has_image("star"@)
        &&& asset_library.has_image("smallStar"@)
        &&& asset_library.has_image("drunkStar"@)
        &&& asset_library.has_image("smallDrunkStar"@)
        &&& asset_library.image("star"@).frame_count() < 30
    }

    /// A star that has not been placed yet.
    pub fn new(asset_library: &'a AssetLibrary) -> (r: Star<'a>)
        requires
            asset_library.wf(),
            Star::has_assets(asset_library),
        ensures
            r.wf(),
            r == Star::initial(asset_library),
    {
        Star {
            image: asset_library.get_image("star"),
            small_image: asset_library.get_image("smallStar"),
            drunk_image: asset_library.get_image("drunkStar"),
            small_drunk_image: asset_library.get_image("smallDrunkStar"),
            position: Point::zero(),
            fresh: true,
            frame: 0,
            max_frame: 0,
            small: false,
            drunk: false,
            small_probability: 500,
            last_update_instant: 0,
            min_offset: Point::new(-150_000_000, -10_000_000),
            max_offset: Point::new(-10_000_000, 0),
            frame_speed: 34,
            max_max_frame: 30_000,
        }
    }

    /// Marks the star as not placed, so that the next tick places it anew.
    pub fn clear(&mut self)
        ensures
            *final(self) == (Star { fresh: true, ..*old(self) }),
    {
        self.fresh = true;
    }

    /// Lets chance decide how the star starts again.
    fn roll(&self) -> (r: StarDraw)
        requires
            self.wf(),
        ensures
            self.allows(r),
    {
        let offset_x = if self.min_offset.x < self.max_offset.x {
            random_between(self.min_offset.x, self.max_offset.x)
        } else {
            self.min_offset.x
        };
        let offset_y = if self.min_offset.y < self.max_offset.y {
            random_between(self.min_offset.y, self.max_offset.y)
        } else {
            self.min_offset.y
        };
        let frames: i64 = self.image.total_number_of_frames() as i64 * 1000;
        let max_frame = random_between(frames, self.max_max_frame as i64);
        let size_draw = random_between(0, 1000);
        let first_frame = random_between(0, self.max_max_frame as i64);
        StarDraw {
            offset: Point { x: offset_x, y: offset_y },
            max_frame: max_frame as u64,
            size_draw,
            first_frame: first_frame as u64,
        }
    }

    /// Starts the star again behind its owner, as `draw` says.
    pub fn reset_from_beginning(
        &mut self,
        owner_position: Point,
        owner_size: Point,
        drunk: bool,
        draw: &StarDraw,
        now: u64,
    )
        ensures
            *final(self) == old(self).restarted(owner_position, owner_size, drunk, *draw, now),
    {
        self.position = Point {
            x: add_saturating(add_saturating(owner_position.x, owner_size.x), draw.offset.x),
            y: add_saturating(add_saturating(owner_position.y, owner_size.y), draw.offset.y),
        };
        self.fresh = false;
        self.frame = 0;
        self.max_frame = draw.max_frame;
        self.small = draw.size_draw < self.small_probability;
        self.drunk = drunk;
        self.last_update_instant = now;
    }

    /// Places the star for the first time, as `draw` says: it starts again,
    /// but at a frame somewhere in its life.
    pub fn reset_in_between(
        &mut self,
        owner_position: Point,
        owner_size: Point,
        drunk: bool,
        draw: &StarDraw,
        now: u64,
    )
        ensures
            *final(self) == old(self).placed(owner_position, owner_size, drunk, *draw, now),
    {
        self.reset_from_beginning(owner_position, owner_size, drunk, draw, now);
        self.frame = draw.first_frame;
    }

    /// Lets the star live up to `now`, with the decisions of chance given:
    /// a fresh star is placed as `first` says; the frame goes on; a star at
    /// the end of its life starts again as `second` says.
    pub fn step(
        &mut self,
        owner_position: Point,
        owner_size: Point,
        drunk: bool,
        first: &StarDraw,
        second: &StarDraw,
        now: u64,
    )
        ensures
            *final(self) == old(self).tick(owner_position, owner_size, drunk, *first, *second, now),
    {
        if self.fresh {
            self.reset_in_between(owner_position, owner_size, drunk, first, now);
        }
        let seconds_since_last_update = elapsed(self.last_update_instant, now);
        self.frame = add_scaled_u64(self.frame, self.frame_speed, seconds_since_last_update);
        if self.frame >= self.max_frame {
            self.reset_from_beginning(owner_position, owner_size, drunk, second, now);
        }
        self.last_update_instant = now;
    }

    /// Lets the star live up to `now`; chance decides where and how it starts again.
    pub fn do_logic(&mut self, owner_position: Point, owner_size: Point, drunk: bool, now: u64)
        requires
            old(self).wf(),
        ensures
            final(self).wf(),
            old(self).ticks_to(*final(self), owner_position, owner_size, drunk, now),
    {
        let first = self.roll();
        let second = self.roll();
        self.step(owner_position, owner_size, drunk, &first, &second, now);
    }

    /// Whether the star is to be drawn: it is placed and its animation is not over.
    pub fn is_visible(&self) -> (r: bool)
        requires
            self.wf(),
        ensures
            r == (!self.fresh && self.frame < self.image.frame_count() * UNITS_PER_FRAME),
    {
        !self.fresh && self.frame < (self.image.total_number_of_frames() as u64) * 1000
    }

    /// The image that shows the star: the small one for a small star, the
    /// drunk one for a star of a drunk owner.
    pub open spec fn current_image_spec(&self) -> &'a Image {
        if self.small {
            if self.drunk {
                self.small_drunk_image
            } else {
                self.small_image
            }
        } else {
            if self.drunk {
                self.drunk_image
            } else {
                self.image
            }
        }
    }

    /// What is drawn of the star on a canvas that shows the level from
    /// `level_offset_x` on: nothing before it is placed and after its
    /// animation is over.
    pub open spec fn sprite(&self, level_offset_x: i64) -> Option<Sprite<'a>> {
        if !self.fresh && self.frame < self.image.frame_count() * UNITS_PER_FRAME {
            Some(
                Sprite {
                    image: self.current_image_spec(),
                    position: Point {
                        x: clamp_i64(self.position.x - level_offset_x),
                        y: self.position.y,
                    },
                    frame: self.frame,
                },
            )
        } else {
            None
        }
    }

    /// What is drawn of the star.
    pub fn draw(&self, level_offset_x: i64) -> (r: Option<Sprite<'a>>)
        requires
            self.wf(),
        ensures
            r == self.sprite(level_offset_x),
    {
        if self.is_visible() {
            Some(
                Sprite {
                    image: self.current_image(),
                    position: Point::new(
                        sub_saturating(self.position.x, level_offset_x),
                        self.position.y,
                    ),
                    frame: self.frame,
                },
            )
        } else {
            None
        }
    }

    /// The image that shows the star: the small one for a small star, the
    /// drunk one for a star of a drunk owner.
    pub fn current_image(&self) -> (r: &'a Image)
        ensures
            r == self.current_image_spec(),
    {
        if self.small {
            if self.drunk {
                self.small_drunk_image
            } else {
                self.small_image
            }
        } else {
            if self.drunk {
                self.drunk_image
            } else {
                self.image
            }
        }
    }

    /// Chance of a small star, in thousandths.
    pub fn small_probability(&self) -> (r: i64)
        ensures
            r == self.small_probability,
    {
        self.small_probability
    }

    /// Sets the chance of a small star, in thousandths.
    pub fn set_small_probability(&mut self, small_probability: i64)
        ensures
            *final(self) == (Star { small_probability, ..*old(self) }),
    {
        self.small_probability = small_probability;
    }

    /// The least offset from the far corner of the owner.
    pub fn min_offset(&self) -> (r: Point)
        ensures
            r == self.min_offset,
    {
        self.min_offset
    }

    /// Sets the least offset from the far corner of the owner.
    pub fn set_min_offset(&mut self, min_offset: Point)
        ensures
            *final(self) == (Star { min_offset, ..*old(self) }),
    {
        self.min_offset = min_offset;
    }

    /// The offset from the far corner of the owner that is not reached.
    pub fn max_offset(&self) -> (r: Point)
        ensures
            r == self.max_offset,
    {
        self.max_offset
    }

    /// Sets the offset from the far corner of the owner that is not reached.
    pub fn set_max_offset(&mut self, max_offset: Point)
        ensures
            *final(self) == (Star { max_offset, ..*old(self) }),
    {
        self.max_offset = max_offset;
    }
}

/// What is drawn of the first `n` stars, in their order.
pub open spec fn stars_sprites<'a>(stars: Seq<Star<'a>>, level_offset_x: i64, n: int) -> Seq<
    Sprite<'a>,
>
    decreases n,
{
    if n <= 0 {
        Seq::empty()
    } else {
        match stars[n - 1].sprite(level_offset_x) {
            Some(sprite) => stars_sprites(stars, level_offset_x, n - 1).push(sprite),
            None => stars_sprites(stars, level_offset_x, n - 1),
        }
    }
}

/// What is drawn of stars, in their order.
pub fn draw_stars<'a>(stars: &Vec<Star<'a>>, level_offset_x: i64) -> (sprites: Vec<Sprite<'a>>)
    requires
        forall|i: int| 0 <= i < stars@.len() ==> (#[trigger] stars@[i]).wf(),
    ensures
        sprites@ == stars_sprites(stars@, level_offset_x, stars@.len() as int),
{
    let mut sprites: Vec<Sprite<'a>> = Vec::new();
    let mut i: usize = 0;
    while i < stars.len()
        invariant
            i <= stars@.len(),
            forall|k: int| 0 <= k < stars@.len() ==> (#[trigger] stars@[k]).wf(),
            sprites@ == stars_sprites(stars@, level_offset_x, i as int),
        decreases stars@.len() - i,
    {
        match stars[i].draw(level_offset_x) {
            Some(sprite) => {
                sprites.push(sprite);
            },
            None => {},
        }
        i += 1;
    }
    sprites
}

} // verus!
