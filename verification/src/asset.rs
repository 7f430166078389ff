//! Points, sprites with their opacity masks, and the pixel-exact collision test.
use vstd::prelude::*;
use crate::units::{
    clamp_i64,
    lemma_div_mod_shift,
    mul_div,
    pixels,
    pixels_spec,
    quotient,
    sub_saturating,
    UNITS_PER_FRAME,
    UNITS_PER_PIXEL,
};

verus! {

/// A pair of fixed-point numbers: a position or a size in position units, a
/// velocity in velocity units, or an acceleration in pixels per second squared.
#[derive(Clone, Copy, Debug, PartialEq, Eq, Structural)]
pub struct Point {
    pub x: i64,
    pub y: i64,
}

impl Point {
    /// The point with the given coordinates.
    pub fn new(x: i64, y: i64) -> (r: Point)
        ensures
            r == (Point { x, y }),
    {
        Point { x, y }
    }

    /// The origin.
    pub fn zero() -> (r: Point)
        ensures
            r == (Point { x: 0, y: 0 }),
    {
        Point { x: 0, y: 0 }
    }

    /// The position of a pixel given by its column and row.
    pub fn from_u32_tuple(point: (u32, u32)) -> (r: Point)
        ensures
            r.x == point.0 * UNITS_PER_PIXEL,
            r.y == point.1 * UNITS_PER_PIXEL,
    {
        Point { x: pixels(point.0 as i64), y: pixels(point.1 as i64) }
    }
}

/// An animated image: a surface cut into a grid of equally sized frames, with
/// one opacity bit for each pixel of the surface, row by row.
pub struct Image {
    pub name: String,
    pub surface_width: u32,
    pub surface_height: u32,
    pub number_of_frames: (i32, i32),
    pub mask: Vec<bool>,
}

/// An image to be drawn: which one, where on the canvas, and at which frame.
#[derive(Clone, Copy)]
pub struct Sprite<'a> {
    pub image: &'a Image,
    pub position: Point,
    pub frame: u64,
}

/// The pixel column or row that holds a coordinate, rounding down.
pub open spec fn pixel_floor(coordinate: i64) -> int {
    coordinate as int / UNITS_PER_PIXEL as int
}

/// The pixel column or row that holds a coordinate, rounding down.
pub fn floor_to_pixel(coordinate: i64) -> (r: i64)
    ensures
        r == pixel_floor(coordinate),
{
    let quotient = coordinate / UNITS_PER_PIXEL;
    if coordinate % UNITS_PER_PIXEL < 0 {
        quotient - 1
    } else {
        quotient
    }
}

/// The opacity setting, from 0 to 255, for an opacity in thousandths.
pub open spec fn alpha_level(alpha: i64) -> u8 {
    if alpha <= 0 {
        0
    } else if alpha * 255 / 1000 >= 255 {
        255
    } else {
        (alpha * 255 / 1000) as u8
    }
}

/// The opacity setting, from 0 to 255, for an opacity in thousandths.
pub fn alpha_mod(alpha: i64) -> (r: u8)
    ensures
        r == alpha_level(alpha),
{
    if alpha <= 0 {
        0
    } else if (alpha as i128) * 255 / 1000 >= 255 {
        255
    } else {
        ((alpha as i128) * 255 / 1000) as u8
    }
}

/// The sequence of the sprite that there is, if there is one.
pub open spec fn optional<'a>(sprite: Option<Sprite<'a>>) -> Seq<Sprite<'a>> {
    match sprite {
        Some(sprite) => seq![sprite],
        None => Seq::empty(),
    }
}

impl<'a> Sprite<'a> {
    /// The part of the surface of the image that is drawn, as left, top,
    /// width and height in pixels: the frame that the frame value selects.
    pub open spec fn source_spec(&self) -> (int, int, int, int) {
        (
            self.image.frame_column(self.frame) * self.image.frame_width(),
            self.image.frame_row(self.frame) * self.image.frame_height(),
            self.image.frame_width(),
            self.image.frame_height(),
        )
    }

    /// The part of the surface of the image that is drawn, as left, top,
    /// width and height in pixels.
    pub fn source(&self) -> (r: (u32, u32, u32, u32))
        requires
            self.image.wf(),
        ensures
            (r.0 as int, r.1 as int, r.2 as int, r.3 as int) == self.source_spec(),
    {
        let origin = self.image.frame_origin(self.frame);
        (origin.0, origin.1, self.image.width(), self.image.height())
    }

    /// The pixel of the canvas at which the left upper corner of the frame
    /// is put: the position, rounded down.
    pub fn destination(&self) -> (r: (i64, i64))
        ensures
            r.0 == pixel_floor(self.position.x),
            r.1 == pixel_floor(self.position.y),
    {
        (floor_to_pixel(self.position.x), floor_to_pixel(self.position.y))
    }
}

/// Whether the screen pixel `(x, y)` is an opaque pixel of both sprites.
pub open spec fn both_opaque(
    a: &Image,
    a_point: Point,
    a_frame: u64,
    b: &Image,
    b_point: Point,
    b_frame: u64,
    x: int,
    y: int,
) -> bool {
    &&& a.opaque_at(a_frame, x - pixel_floor(a_point.x), y - pixel_floor(a_point.y))
    &&& b.opaque_at(b_frame, x - pixel_floor(b_point.x), y - pixel_floor(b_point.y))
}

/// Whether the bounding boxes of two sprites at their positions lie apart:
/// one ends, along one of the two axes, where the other begins or before.
pub open spec fn boxes_apart(a: &Image, a_point: Point, b: &Image, b_point: Point) -> bool {
    ||| a_point.x + a.frame_width() * UNITS_PER_PIXEL <= b_point.x
    ||| b_point.x + b.frame_width() * UNITS_PER_PIXEL <= a_point.x
    ||| a_point.y + a.frame_height() * UNITS_PER_PIXEL <= b_point.y
    ||| b_point.y + b.frame_height() * UNITS_PER_PIXEL <= a_point.y
}

/// Whether the bounding boxes of two sprites, each put at the pixel that
/// holds its position, share at least one pixel.
pub open spec fn boxes_overlap(a: &Image, a_point: Point, b: &Image, b_point: Point) -> bool {
    &&& pixel_floor(a_point.x) < pixel_floor(b_point.x) + b.frame_width()
    &&& pixel_floor(b_point.x) < pixel_floor(a_point.x) + a.frame_width()
    &&& pixel_floor(a_point.y) < pixel_floor(b_point.y) + b.frame_height()
    &&& pixel_floor(b_point.y) < pixel_floor(a_point.y) + a.frame_height()
}

impl Image {
    /// The frame grid is not empty, the frame count fits, and the mask has one
    /// entry per surface pixel.
    pub open spec fn wf(&self) -> bool {
        &&& self.number_of_frames.0 > 0
        &&& self.number_of_frames.1 > 0
        &&& self.number_of_frames.0 * self.number_of_frames.1 <= i32::MAX
        &&& self.mask@.len() == self.surface_width * self.surface_height
    }

    /// Width of one frame in pixels.
    pub open spec fn frame_width(&self) -> int {
        self.surface_width as int / self.number_of_frames.0 as int
    }

    /// Height of one frame in pixels.
    pub open spec fn frame_height(&self) -> int {
        self.surface_height as int / self.number_of_frames.1 as int
    }

    /// Number of frames in the grid.
    pub open spec fn frame_count(&self) -> int {
        self.number_of_frames.0 * self.number_of_frames.1
    }

    /// The grid column that a frame value selects.
    pub open spec fn frame_column(&self, frame: u64) -> int {
        (frame as int / UNITS_PER_FRAME as int) % self.number_of_frames.0 as int
    }

    /// The grid row that a frame value selects.
    pub open spec fn frame_row(&self, frame: u64) -> int {
        ((frame as int / UNITS_PER_FRAME as int) / self.number_of_frames.0 as int)
            % self.number_of_frames.1 as int
    }

    /// The position in the mask of the pixel `(x, y)` of the selected frame.
    pub open spec fn mask_index(&self, frame: u64, x: int, y: int) -> int {
        (x + self.frame_column(frame) * self.frame_width()) + (y + self.frame_row(frame)
            * self.frame_height()) * self.surface_width
    }

    /// Whether `(x, y)` lies inside a frame and the selected frame is opaque there.
    pub open spec fn opaque_at(&self, frame: u64, x: int, y: int) -> bool {
        &&& 0 <= x < self.frame_width()
        &&& 0 <= y < self.frame_height()
        &&& self.mask@[self.mask_index(frame, x, y)]
    }

    /// Two positioned sprites collide where some screen pixel is opaque in both.
    pub open spec fn collides_spec(
        &self,
        point: Point,
        frame: u64,
        other: &Image,
        other_point: Point,
        other_frame: u64,
    ) -> bool {
        exists|x: int, y: int| #[trigger]
            both_opaque(self, point, frame, other, other_point, other_frame, x, y)
    }

    /// An image from its parts.
    pub fn new(
        name: String,
        surface_width: u32,
        surface_height: u32,
        number_of_frames: (i32, i32),
        mask: Vec<bool>,
    ) -> (r: Image)
        requires
            number_of_frames.0 > 0,
            number_of_frames.1 > 0,
            number_of_frames.0 * number_of_frames.1 <= i32::MAX,
            mask@.len() == surface_width * surface_height,
        ensures
            r.wf(),
            r.name == name,
            r.surface_width == surface_width,
            r.surface_height == surface_height,
            r.number_of_frames == number_of_frames,
            r.mask == mask,
    {
        Image { name, surface_width, surface_height, number_of_frames, mask }
    }

    /// The opacity mask of a surface from the alpha value of each pixel: a
    /// pixel is opaque where its alpha is not zero.
    pub fn mask_from_alpha(alpha: &Vec<u8>) -> (mask: Vec<bool>)
        ensures
            mask@.len() == alpha@.len(),
            forall|i: int| 0 <= i < alpha@.len() ==> mask@[i] == (alpha@[i] > 0),
    {
        let mut mask: Vec<bool> = Vec::new();
        let mut i: usize = 0;
        while i < alpha.len()
            invariant
                i <= alpha@.len(),
                mask@.len() == i,
                forall|j: int| 0 <= j < i ==> mask@[j] == (alpha@[j] > 0),
            decreases alpha@.len() - i,
        {
            mask.push(alpha[i] > 0);
            i += 1;
        }
        mask
    }

    /// Width of one frame in pixels.
    pub fn width(&self) -> (r: u32)
        requires
            self.wf(),
        ensures
            r == self.frame_width(),
    {
        self.surface_width / (self.number_of_frames.0 as u32)
    }

    /// Height of one frame in pixels.
    pub fn height(&self) -> (r: u32)
        requires
            self.wf(),
        ensures
            r == self.frame_height(),
    {
        self.surface_height / (self.number_of_frames.1 as u32)
    }

    /// Size of one frame in position units.
    pub fn size(&self) -> (r: Point)
        requires
            self.wf(),
        ensures
            r == self.size_spec(),
    {
        Point { x: pixels(self.width() as i64), y: pixels(self.height() as i64) }
    }

    /// Size of one frame in position units.
    pub open spec fn size_spec(&self) -> Point {
        Point { x: pixels_spec(self.frame_width()), y: pixels_spec(self.frame_height()) }
    }

    /// Number of frames in the grid.
    pub fn total_number_of_frames(&self) -> (r: i32)
        requires
            self.wf(),
        ensures
            r == self.frame_count(),
            r > 0,
    {
        assert(self.number_of_frames.0 * self.number_of_frames.1 > 0) by (nonlinear_arith)
            requires
                self.number_of_frames.0 > 0,
                self.number_of_frames.1 > 0,
        ;
        self.number_of_frames.0 * self.number_of_frames.1
    }

    /// The opacity mask.
    pub fn mask(&self) -> (r: &Vec<bool>)
        ensures
            r == self.mask,
    {
        &self.mask
    }

    /// The name under which the image was loaded.
    pub fn name(&self) -> (r: &String)
        ensures
            r == self.name,
    {
        &self.name
    }

    /// The part of the surface that is drawn and the place on the canvas
    /// where it is put, each as left, top, width and height in pixels: the
    /// part `src_rect` of the selected frame, at the pixel that holds
    /// `dst_point`, rounded down.
    pub open spec fn blit_spec(
        &self,
        src_rect: (u32, u32, u32, u32),
        dst_point: Point,
        frame: u64,
    ) -> ((int, int, int, int), (int, int, int, int)) {
        (
            (
                src_rect.0 + self.frame_column(frame) * self.frame_width(),
                src_rect.1 + self.frame_row(frame) * self.frame_height(),
                src_rect.2 as int,
                src_rect.3 as int,
            ),
            (
                pixel_floor(dst_point.x),
                pixel_floor(dst_point.y),
                src_rect.2 as int,
                src_rect.3 as int,
            ),
        )
    }

    /// The part of the surface that is drawn and the place on the canvas
    /// where it is put, for a part of the selected frame.
    pub fn draw_blit(&self, src_rect: (u32, u32, u32, u32), dst_point: Point, frame: u64) -> (r: (
        (u64, u64, u32, u32),
        (i64, i64, u32, u32),
    ))
        requires
            self.wf(),
        ensures
            (
                (r.0.0 as int, r.0.1 as int, r.0.2 as int, r.0.3 as int),
                (r.1.0 as int, r.1.1 as int, r.1.2 as int, r.1.3 as int),
            ) == self.blit_spec(src_rect, dst_point, frame),
    {
        let origin = self.frame_origin(frame);
        (
            (src_rect.0 as u64 + origin.0 as u64, src_rect.1 as u64 + origin.1 as u64, src_rect.2, src_rect.3),
            (floor_to_pixel(dst_point.x), floor_to_pixel(dst_point.y), src_rect.2, src_rect.3),
        )
    }

    /// The part of the surface that is drawn and the place on the canvas
    /// where it is put, for the whole of the selected frame.
    pub fn draw(&self, dst_point: Point, frame: u64) -> (r: (
        (u64, u64, u32, u32),
        (i64, i64, u32, u32),
    ))
        requires
            self.wf(),
        ensures
            (
                (r.0.0 as int, r.0.1 as int, r.0.2 as int, r.0.3 as int),
                (r.1.0 as int, r.1.1 as int, r.1.2 as int, r.1.3 as int),
            ) == self.blit_spec(
                (0, 0, self.frame_width() as u32, self.frame_height() as u32),
                dst_point,
                frame,
            ),
    {
        self.draw_blit((0, 0, self.width(), self.height()), dst_point, frame)
    }

    /// The surface pixel at which the selected frame starts.
    pub fn frame_origin(&self, frame: u64) -> (r: (u32, u32))
        requires
            self.wf(),
        ensures
            r.0 == self.frame_column(frame) * self.frame_width(),
            r.1 == self.frame_row(frame) * self.frame_height(),
    {
        let columns: u64 = self.number_of_frames.0 as u64;
        let rows: u64 = self.number_of_frames.1 as u64;
        let index: u64 = frame / UNITS_PER_FRAME;
        let column: u64 = index % columns;
        let row: u64 = (index / columns) % rows;
        let width: u64 = self.width() as u64;
        let height: u64 = self.height() as u64;
        proof {
            self.lemma_frame_inside(frame);
            assert(column == self.frame_column(frame));
            assert(row == self.frame_row(frame));
            assert(column * width <= (column + 1) * width) by (nonlinear_arith)
                requires
                    0 <= width,
            ;
            assert(row * height <= (row + 1) * height) by (nonlinear_arith)
                requires
                    0 <= height,
            ;
        }
        ((column * width) as u32, (row * height) as u32)
    }

    /// The selected frame lies inside the surface.
    pub proof fn lemma_frame_inside(&self, frame: u64)
        requires
            self.wf(),
        ensures
            0 <= self.frame_column(frame) < self.number_of_frames.0,
            0 <= self.frame_row(frame) < self.number_of_frames.1,
            0 <= self.frame_width(),
            0 <= self.frame_height(),
            0 <= self.frame_column(frame) * self.frame_width(),
            0 <= self.frame_row(frame) * self.frame_height(),
            (self.frame_column(frame) + 1) * self.frame_width() <= self.surface_width,
            (self.frame_row(frame) + 1) * self.frame_height() <= self.surface_height,
    {
        let columns = self.number_of_frames.0 as int;
        let rows = self.number_of_frames.1 as int;
        let column = self.frame_column(frame);
        let row = self.frame_row(frame);
        let fw = self.frame_width();
        let fh = self.frame_height();
        let sw = self.surface_width as int;
        let sh = self.surface_height as int;
        assert(0 <= fw && fw * columns <= sw) by (nonlinear_arith)
            requires
                fw == sw / columns,
                columns > 0,
                sw >= 0,
        ;
        assert(0 <= fh && fh * rows <= sh) by (nonlinear_arith)
            requires
                fh == sh / rows,
                rows > 0,
                sh >= 0,
        ;
        assert(0 <= column * fw && (column + 1) * fw <= fw * columns) by (nonlinear_arith)
            requires
                0 <= column < columns,
                0 <= fw,
        ;
        assert(0 <= row * fh && (row + 1) * fh <= fh * rows) by (nonlinear_arith)
            requires
                0 <= row < rows,
                0 <= fh,
        ;
    }

    /// Every pixel of a frame has its entry in the mask.
    pub proof fn lemma_mask_index_inside(&self, frame: u64, x: int, y: int)
        requires
            self.wf(),
            0 <= x < self.frame_width(),
            0 <= y < self.frame_height(),
        ensures
            0 <= self.mask_index(frame, x, y) < self.mask@.len(),
            0 <= x + self.frame_column(frame) * self.frame_width() < self.surface_width,
            0 <= y + self.frame_row(frame) * self.frame_height() < self.surface_height,
    {
        self.lemma_frame_inside(frame);
        let column_start = self.frame_column(frame) * self.frame_width();
        let row_start = self.frame_row(frame) * self.frame_height();
        let fw = self.frame_width();
        let fh = self.frame_height();
        let sw = self.surface_width as int;
        let sh = self.surface_height as int;
        assert((self.frame_column(frame) + 1) * fw == column_start + fw) by (nonlinear_arith)
            requires
                column_start == self.frame_column(frame) * fw,
        ;
        assert((self.frame_row(frame) + 1) * fh == row_start + fh) by (nonlinear_arith)
            requires
                row_start == self.frame_row(frame) * fh,
        ;
        let px = x + column_start;
        let py = y + row_start;
        assert(0 <= px + py * sw < sw * sh) by (nonlinear_arith)
            requires
                0 <= px < sw,
                0 <= py < sh,
        ;
    }

    /// Whether the selected frame is opaque at the pixel `(x, y)` of the frame.
    fn opaque(&self, frame: u64, x: i64, y: i64) -> (r: bool)
        requires
            self.wf(),
            0 <= x < self.frame_width(),
            0 <= y < self.frame_height(),
        ensures
            r == self.opaque_at(frame, x as int, y as int),
    {
        proof {
            self.lemma_mask_index_inside(frame, x as int, y as int);
        }
        let origin = self.frame_origin(frame);
        let column: u64 = x as u64 + origin.0 as u64;
        let row: u64 = y as u64 + origin.1 as u64;
        assert(column + row * self.surface_width == self.mask_index(frame, x as int, y as int));
        assert(row * self.surface_width <= 0xffff_ffff * 0xffff_ffff) by (nonlinear_arith)
            requires
                0 <= row <= 0xffff_ffff,
                0 <= self.surface_width <= 0xffff_ffff,
        ;
        let index: u64 = column + row * (self.surface_width as u64);
        assert(index == self.mask_index(frame, x as int, y as int));
        let length: usize = self.mask.len();
        assert(index < length);
        self.mask[index as usize]
    }

    /// Whether two positioned sprites share an opaque pixel.
    ///
    /// The bounding boxes are compared first; only the pixels of their
    /// intersection are looked up in the masks.
    pub fn collides(
        &self,
        point: Point,
        frame: u64,
        other: &Image,
        other_point: Point,
        other_frame: u64,
    ) -> (r: bool)
        requires
            self.wf(),
            other.wf(),
        ensures
            r == self.collides_spec(point, frame, other, other_point, other_frame),
    {
        let point_x = floor_to_pixel(point.x);
        let point_y = floor_to_pixel(point.y);
        let other_point_x = floor_to_pixel(other_point.x);
        let other_point_y = floor_to_pixel(other_point.y);
        let width = self.width() as i64;
        let height = self.height() as i64;
        let other_width = other.width() as i64;
        let other_height = other.height() as i64;

        let left = if point_x < other_point_x { other_point_x } else { point_x };
        let top = if point_y < other_point_y { other_point_y } else { point_y };
        let right = if point_x + width < other_point_x + other_width {
            point_x + width
        } else {
            other_point_x + other_width
        };
        let bottom = if point_y + height < other_point_y + other_height {
            point_y + height
        } else {
            other_point_y + other_height
        };

        let mut clip_y = top;
        while clip_y < bottom
            invariant
                self.wf(),
                other.wf(),
                top <= clip_y,
                point_x == pixel_floor(point.x),
                point_y == pixel_floor(point.y),
                other_point_x == pixel_floor(other_point.x),
                other_point_y == pixel_floor(other_point.y),
                width == self.frame_width(),
                height == self.frame_height(),
                other_width == other.frame_width(),
                other_height == other.frame_height(),
                point_x <= left,
                other_point_x <= left,
                point_y <= top,
                other_point_y <= top,
                right <= point_x + width,
                right <= other_point_x + other_width,
                bottom <= point_y + height,
                bottom <= other_point_y + other_height,
                forall|x: int, y: int|
                    left <= x < right && top <= y < clip_y ==> !#[trigger] both_opaque(
                        self,
                        point,
                        frame,
                        other,
                        other_point,
                        other_frame,
                        x,
                        y,
                    ),
            decreases bottom - clip_y,
        {
            let mut clip_x = left;
            while clip_x < right
                invariant
                    self.wf(),
                    other.wf(),
                    left <= clip_x,
                    top <= clip_y < bottom,
                    point_x == pixel_floor(point.x),
                    point_y == pixel_floor(point.y),
                    other_point_x == pixel_floor(other_point.x),
                    other_point_y == pixel_floor(other_point.y),
                    width == self.frame_width(),
                    height == self.frame_height(),
                    other_width == other.frame_width(),
                    other_height == other.frame_height(),
                    point_x <= left,
                    other_point_x <= left,
                    point_y <= top,
                    other_point_y <= top,
                    right <= point_x + width,
                    right <= other_point_x + other_width,
                    bottom <= point_y + height,
                    bottom <= other_point_y + other_height,
                    forall|x: int, y: int|
                        left <= x < right && top <= y < clip_y ==> !#[trigger] both_opaque(
                            self,
                            point,
                            frame,
                            other,
                            other_point,
                            other_frame,
                            x,
                            y,
                        ),
                    forall|x: int|
                        left <= x < clip_x ==> !#[trigger] both_opaque(
                            self,
                            point,
                            frame,
                            other,
                            other_point,
                            other_frame,
                            x,
                            clip_y as int,
                        ),
                decreases right - clip_x,
            {
                if self.opaque(frame, clip_x - point_x, clip_y - point_y) && other.opaque(
                    other_frame,
                    clip_x - other_point_x,
                    clip_y - other_point_y,
                ) {
                    assert(both_opaque(
                        self,
                        point,
                        frame,
                        other,
                        other_point,
                        other_frame,
                        clip_x as int,
                        clip_y as int,
                    ));
                    return true;
                }
                clip_x += 1;
            }
            clip_y += 1;
        }
        assert forall|x: int, y: int| !#[trigger] both_opaque(
            self,
            point,
            frame,
            other,
            other_point,
            other_frame,
            x,
            y,
        ) by {
            if !(left <= x < right && top <= y < bottom) {
                assert(!(0 <= x - point_x < width && 0 <= y - point_y < height && 0 <= x
                    - other_point_x < other_width && 0 <= y - other_point_y < other_height));
            }
        }
        false
    }
}

/// Assets of one type, each under its name.
pub struct SingleTypeAssetLibrary<AssetType> {
    pub names: Vec<String>,
    pub assets: Vec<AssetType>,
}

impl<AssetType> SingleTypeAssetLibrary<AssetType> {
    /// Every asset has its name and no name occurs twice.
    pub open spec fn wf(&self) -> bool {
        &&& self.names@.len() == self.assets@.len()
        &&& forall|i: int, j: int|
            0 <= i < j < self.names@.len() ==> self.names@[i]@ != self.names@[j]@
    }

    /// Whether the asset at position `i` has the name `name`.
    pub open spec fn named(&self, i: int, name: Seq<char>) -> bool {
        0 <= i < self.names@.len() && self.names@[i]@ == name
    }

    /// Whether an asset is held under `name`.
    pub open spec fn contains(&self, name: Seq<char>) -> bool {
        exists|i: int| #[trigger] self.named(i, name)
    }

    /// The asset held under `name`.
    pub open spec fn asset(&self, name: Seq<char>) -> AssetType {
        self.assets@[choose|i: int| #[trigger] self.named(i, name)]
    }

    /// A library that holds nothing.
    pub fn new() -> (r: SingleTypeAssetLibrary<AssetType>)
        ensures
            r.wf(),
            r.names@.len() == 0,
            r.assets@.len() == 0,
            forall|name: Seq<char>| !r.contains(name),
    {
        let r = SingleTypeAssetLibrary { names: Vec::new(), assets: Vec::new() };
        assert forall|name: Seq<char>| !r.contains(name) by {
            assert(forall|i: int| !r.named(i, name));
        }
        r
    }

    /// The position of the asset held under `name`.
    fn position(&self, name: &String) -> (r: Option<usize>)
        requires
            self.wf(),
        ensures
            match r {
                Some(i) => self.named(i as int, name@),
                None => !self.contains(name@),
            },
    {
        let mut i: usize = 0;
        while i < self.names.len()
            invariant
                i <= self.names@.len(),
                forall|j: int| 0 <= j < i ==> !self.named(j, name@),
            decreases self.names@.len() - i,
        {
            if self.names[i] == *name {
                return Some(i);
            }
            i += 1;
        }
        assert(forall|j: int| !self.named(j, name@));
        None
    }

    /// Whether an asset is held under `name`.
    pub fn has_asset(&self, name: &str) -> (r: bool)
        requires
            self.wf(),
        ensures
            r == self.contains(name@),
    {
        let owned = name.to_owned();
        let found = self.position(&owned);
        found.is_some()
    }

    /// The asset held under `name`, if there is one.
    pub fn get_asset(&self, name: &str) -> (r: Option<&AssetType>)
        requires
            self.wf(),
        ensures
            match r {
                Some(asset) => self.contains(name@) && *asset == self.asset(name@),
                None => !self.contains(name@),
            },
    {
        let owned = name.to_owned();
        match self.position(&owned) {
            Some(i) => {
                proof {
                    let chosen = choose|j: int| #[trigger] self.named(j, name@);
                    assert(self.named(i as int, name@));
                    assert(chosen == i);
                }
                Some(&self.assets[i])
            },
            None => None,
        }
    }

    /// Puts an asset under a name; an asset that was held under the same name
    /// gives way to it.
    pub fn insert(&mut self, name: String, asset: AssetType)
        requires
            old(self).wf(),
        ensures
            final(self).wf(),
            final(self).contains(name@),
            final(self).asset(name@) == asset,
            forall|other: Seq<char>|
                other != name@ ==> final(self).contains(other) == old(self).contains(other),
            forall|other: Seq<char>|
                other != name@ && old(self).contains(other) ==> final(self).asset(other) == old(
                    self,
                ).asset(other),
    {
        let found = self.position(&name);
        let ghost before = *self;
        let ghost key = name@;
        match found {
            Some(i) => {
                self.assets.set(i, asset);
                proof {
                    assert(self.names@ == before.names@);
                    assert(self.named(i as int, key));
                    assert forall|other: Seq<char>| other != key implies self.contains(other)
                        == before.contains(other) by {
                        if before.contains(other) {
                            let j = choose|j: int| #[trigger] before.named(j, other);
                            assert(self.named(j, other));
                        }
                        if self.contains(other) {
                            let j = choose|j: int| #[trigger] self.named(j, other);
                            assert(before.named(j, other));
                        }
                    }
                    assert forall|other: Seq<char>|
                        other != key && before.contains(other) implies self.asset(other)
                        == before.asset(other) by {
                        let j = choose|j: int| #[trigger] before.named(j, other);
                        let k = choose|k: int| #[trigger] self.named(k, other);
                        assert(self.named(j, other));
                        assert(before.named(k, other));
                    }
                    let chosen = choose|j: int| #[trigger] self.named(j, key);
                    assert(chosen == i);
                }
            },
            None => {
                self.names.push(name);
                self.assets.push(asset);
                proof {
                    let last = before.names@.len() as int;
                    assert(forall|j: int| 0 <= j < last ==> self.names@[j] == before.names@[j]);
                    assert forall|i: int, j: int| 0 <= i < j < self.names@.len() implies self.names@[i]@
                        != self.names@[j]@ by {
                        if j == last {
                            assert(!before.named(i, key));
                        }
                    }
                    assert(self.named(last, key));
                    let chosen = choose|j: int| #[trigger] self.named(j, key);
                    assert(chosen == last);
                    assert forall|other: Seq<char>| other != key implies self.contains(other)
                        == before.contains(other) by {
                        if before.contains(other) {
                            let j = choose|j: int| #[trigger] before.named(j, other);
                            assert(self.named(j, other));
                        }
                        if self.contains(other) {
                            let j = choose|j: int| #[trigger] self.named(j, other);
                            assert(before.named(j, other));
                        }
                    }
                    assert forall|other: Seq<char>|
                        other != key && before.contains(other) implies self.asset(other)
                        == before.asset(other) by {
                        let j = choose|j: int| #[trigger] before.named(j, other);
                        let k = choose|k: int| #[trigger] self.named(k, other);
                        assert(self.named(j, other));
                        assert(before.named(k, other));
                    }
                }
            },
        }
    }
}

/// The position of the last of the first `n` entries that has the name `name`.
pub open spec fn last_named<AssetType>(
    entries: Seq<(String, AssetType)>,
    name: Seq<char>,
    n: int,
) -> Option<int>
    decreases n,
{
    if n <= 0 {
        None
    } else if entries[n - 1].0@ == name {
        Some(n - 1)
    } else {
        last_named(entries, name, n - 1)
    }
}

impl<AssetType> SingleTypeAssetLibrary<AssetType> {
    /// Whether `after` is this library after the first `n` of `entries`
    /// were put into it in their order: it holds what it held and what the
    /// entries name, and under each name the last entry of that name, or,
    /// where there is none, what it held.
    pub open spec fn loads_to(
        self,
        after: SingleTypeAssetLibrary<AssetType>,
        entries: Seq<(String, AssetType)>,
        n: int,
    ) -> bool {
        &&& forall|name: Seq<char>| #[trigger]
            after.contains(name) == (self.contains(name) || last_named(entries, name, n).is_some())
        &&& forall|name: Seq<char>|
            after.contains(name) ==> #[trigger] after.asset(name) == match last_named(
                entries,
                name,
                n,
            ) {
                Some(i) => entries[i].1,
                None => self.asset(name),
            }
    }

    /// Puts assets under their names, in the order given; of two with the
    /// same name the later one stays.
    pub fn load_assets(&mut self, entries: Vec<(String, AssetType)>)
        requires
            old(self).wf(),
        ensures
            final(self).wf(),
            old(self).loads_to(*final(self), entries@, entries@.len() as int),
    {
        let mut rest = entries;
        let ghost mut done: int = 0;
        while rest.len() > 0
            invariant
                self.wf(),
                0 <= done <= entries@.len(),
                rest@ == entries@.skip(done),
                old(self).loads_to(*self, entries@, done),
            decreases rest@.len(),
        {
            let ghost before = *self;
            let entry = rest.remove(0);
            proof {
                assert(entry == entries@[done]);
                assert(rest@ =~= entries@.skip(done + 1));
            }
            let ghost key = entry.0@;
            self.insert(entry.0, entry.1);
            proof {
                assert forall|name: Seq<char>| #[trigger]
                    self.contains(name) == (old(self).contains(name) || last_named(
                        entries@,
                        name,
                        done + 1,
                    ).is_some()) by {
                    if name != key {
                        assert(before.contains(name) == (old(self).contains(name) || last_named(
                            entries@,
                            name,
                            done,
                        ).is_some()));
                    }
                }
                assert forall|name: Seq<char>| self.contains(name) implies #[trigger] self.asset(
                    name,
                ) == match last_named(entries@, name, done + 1) {
                    Some(i) => entries@[i].1,
                    None => old(self).asset(name),
                } by {
                    if name != key {
                        assert(before.contains(name));
                        assert(before.asset(name) == match last_named(entries@, name, done) {
                            Some(i) => entries@[i].1,
                            None => old(self).asset(name),
                        });
                    }
                }
                done = done + 1;
            }
        }
    }
}

/// The data tables and the images of the game, each under its name.
pub struct AssetLibrary {
    pub data_library: SingleTypeAssetLibrary<Vec<i64>>,
    pub image_library: SingleTypeAssetLibrary<Image>,
}

/// Conversion of a table of numbers to `i32`, saturating.
pub trait CloneAsI32Vector {
    /// The saturated value of the entry at `i`.
    spec fn as_i32_at(&self, i: int) -> i32;

    /// The number of entries.
    spec fn entries(&self) -> nat;

    /// A copy with each entry brought into the range of `i32`.
    fn clone_as_i32(&self) -> (r: Vec<i32>)
        ensures
            r@.len() == self.entries(),
            forall|i: int| 0 <= i < r@.len() ==> r@[i] == self.as_i32_at(i),
    ;
}

/// The value of `x` brought into the range of `i32`.
pub open spec fn clamp_i32(x: int) -> i32 {
    if x < i32::MIN {
        i32::MIN
    } else if x > i32::MAX {
        i32::MAX
    } else {
        x as i32
    }
}

impl CloneAsI32Vector for Vec<i64> {
    open spec fn as_i32_at(&self, i: int) -> i32 {
        clamp_i32(self@[i] as int)
    }

    open spec fn entries(&self) -> nat {
        self@.len()
    }

    fn clone_as_i32(&self) -> (r: Vec<i32>) {
        let mut r: Vec<i32> = Vec::new();
        let mut i: usize = 0;
        while i < self.len()
            invariant
                i <= self@.len(),
                r@.len() == i,
                forall|j: int| 0 <= j < i ==> r@[j] == clamp_i32(self@[j] as int),
            decreases self@.len() - i,
        {
            let x: i64 = self[i];
            r.push(
                if x < i32::MIN as i64 {
                    i32::MIN
                } else if x > i32::MAX as i64 {
                    i32::MAX
                } else {
                    x as i32
                },
            );
            i += 1;
        }
        r
    }
}

/// The frame grid, as columns and rows, of the image with the given name.
pub open spec fn frame_grid_of(name: Seq<char>) -> (i32, i32) {
    if name == "angel"@ {
        (13, 1)
    } else if name == "bigStar"@ {
        (10, 1)
    } else if name == "cashBalloon"@ || name == "giftBalloon"@ || name == "heartBalloon"@ || name
        == "shieldBalloon"@ || name == "shield"@ || name == "snowman"@ {
        (8, 1)
    } else if name == "drunkStar"@ || name == "smallStar"@ || name == "star"@ {
        (17, 1)
    } else if name == "font"@ {
        (45, 1)
    } else if name == "gift1"@ || name == "gift2"@ || name == "gift3"@ {
        (15, 1)
    } else if name == "goblin"@ {
        (19, 1)
    } else if name == "level"@ {
        (1, 81)
    } else if name == "reindeer"@ || name == "sleigh"@ {
        (14, 1)
    } else if name == "wineBalloon"@ {
        (7, 1)
    } else {
        (1, 1)
    }
}

fn is_name(name: &String, literal: &str) -> (r: bool)
    ensures
        r == (name@ == literal@),
{
    *name == literal.to_owned()
}

/// The frame grid, as columns and rows, of the image with the given name; an
/// image that is not animated has one frame.
pub fn number_of_frames_of(name: &str) -> (r: (i32, i32))
    ensures
        r == frame_grid_of(name@),
{
    let n = name.to_owned();
    if is_name(&n, "angel") {
        (13, 1)
    } else if is_name(&n, "bigStar") {
        (10, 1)
    } else if is_name(&n, "cashBalloon") || is_name(&n, "giftBalloon") || is_name(
        &n,
        "heartBalloon",
    ) || is_name(&n, "shieldBalloon") || is_name(&n, "shield") || is_name(&n, "snowman") {
        (8, 1)
    } else if is_name(&n, "drunkStar") || is_name(&n, "smallStar") || is_name(&n, "star") {
        (17, 1)
    } else if is_name(&n, "font") {
        (45, 1)
    } else if is_name(&n, "gift1") || is_name(&n, "gift2") || is_name(&n, "gift3") {
        (15, 1)
    } else if is_name(&n, "goblin") {
        (19, 1)
    } else if is_name(&n, "level") {
        (1, 81)
    } else if is_name(&n, "reindeer") || is_name(&n, "sleigh") {
        (14, 1)
    } else if is_name(&n, "wineBalloon") {
        (7, 1)
    } else {
        (1, 1)
    }
}

impl AssetLibrary {
    /// Both libraries are well formed and every image is.
    pub open spec fn wf(&self) -> bool {
        &&& self.data_library.wf()
        &&& self.image_library.wf()
        &&& forall|i: int|
            0 <= i < self.image_library.assets@.len() ==> (#[trigger] self.image_library.assets@[i]).wf()
    }

    /// Whether an image is held under `name`.
    pub open spec fn has_image(&self, name: Seq<char>) -> bool {
        self.image_library.contains(name)
    }

    /// The image held under `name`.
    pub open spec fn image(&self, name: Seq<char>) -> Image {
        self.image_library.asset(name)
    }

    /// Whether a data table is held under `name`.
    pub open spec fn has_data(&self, name: Seq<char>) -> bool {
        self.data_library.contains(name)
    }

    /// The data table held under `name`.
    pub open spec fn data(&self, name: Seq<char>) -> Vec<i64> {
        self.data_library.asset(name)
    }

    /// A library that holds nothing.
    pub fn new() -> (r: AssetLibrary)
        ensures
            r.wf(),
            forall|name: Seq<char>| !r.has_image(name) && !r.has_data(name),
    {
        AssetLibrary {
            data_library: SingleTypeAssetLibrary::new(),
            image_library: SingleTypeAssetLibrary::new(),
        }
    }

    /// Puts a data table under a name.
    pub fn add_data(&mut self, name: String, data: Vec<i64>)
        requires
            old(self).wf(),
        ensures
            final(self).wf(),
            final(self).image_library == old(self).image_library,
            final(self).has_data(name@),
            final(self).data(name@) == data,
            forall|other: Seq<char>|
                other != name@ ==> final(self).has_data(other) == old(self).has_data(other),
            forall|other: Seq<char>|
                other != name@ && old(self).has_data(other) ==> final(self).data(other) == old(
                    self,
                ).data(other),
    {
        self.data_library.insert(name, data);
    }

    /// Puts an image under a name.
    pub fn add_image(&mut self, name: String, image: Image)
        requires
            old(self).wf(),
            image.wf(),
        ensures
            final(self).wf(),
            final(self).data_library == old(self).data_library,
            final(self).has_image(name@),
            final(self).image(name@) == image,
            forall|other: Seq<char>|
                other != name@ ==> final(self).has_image(other) == old(self).has_image(other),
            forall|other: Seq<char>|
                other != name@ && old(self).has_image(other) ==> final(self).image(other) == old(
                    self,
                ).image(other),
    {
        let ghost before = *self;
        self.image_library.insert(name, image);
        proof {
            let lib = self.image_library;
            assert forall|i: int| 0 <= i < lib.assets@.len() implies (#[trigger] lib.assets@[i]).wf() by {
                let other = lib.names@[i]@;
                assert(lib.named(i, other));
                let chosen = choose|j: int| #[trigger] lib.named(j, other);
                assert(chosen == i);
                assert(lib.asset(other) == lib.assets@[i]);
                if other != name@ {
                    assert(before.image_library.contains(other));
                    let k = choose|k: int| #[trigger] before.image_library.named(k, other);
                    assert(before.image_library.asset(other) == before.image_library.assets@[k]);
                }
            }
        }
    }

    /// The data table held under `name`.
    pub fn get_data(&self, name: &str) -> (r: &Vec<i64>)
        requires
            self.wf(),
            self.has_data(name@),
        ensures
            *r == self.data(name@),
    {
        self.data_library.get_asset(name).unwrap()
    }

    /// The image held under `name`.
    pub fn get_image(&self, name: &str) -> (r: &Image)
        requires
            self.wf(),
            self.has_image(name@),
        ensures
            *r == self.image(name@),
            r.wf(),
    {
        proof {
            let i = choose|i: int| #[trigger] self.image_library.named(i, name@);
            assert(self.image_library.assets@[i].wf());
        }
        self.image_library.get_asset(name).unwrap()
    }

    /// Whether an image is held under `name`.
    pub fn contains_image(&self, name: &str) -> (r: bool)
        requires
            self.wf(),
        ensures
            r == self.has_image(name@),
    {
        self.image_library.has_asset(name)
    }

    /// Whether a data table is held under `name`.
    pub fn contains_data(&self, name: &str) -> (r: bool)
        requires
            self.wf(),
        ensures
            r == self.has_data(name@),
    {
        self.data_library.has_asset(name)
    }
}

/// The sounds of the game.
#[derive(Clone, Copy, PartialEq, Eq, Debug, Structural)]
pub enum SoundName {
    CashBalloon,
    GiftBalloon,
    GiftCollidedWithChimney,
    GiftCollidedWithGround,
    GoblinThrowSnowball,
    Lost,
    ShieldBalloon,
    SleighCollidedWithCloud,
    SleighCollidedWithLevel1,
    SleighCollidedWithLevel2,
    SleighCollidedWithNpc,
    SnowmanLaunch,
    WineBalloon,
    Won,
}

impl SoundName {
    /// The name of the file that holds the sound, without its ending.
    pub open spec fn asset_name_spec(self) -> Seq<char> {
        match self {
            SoundName::CashBalloon => "cashBalloon"@,
            SoundName::GiftBalloon => "giftBalloon"@,
            SoundName::GiftCollidedWithChimney => "giftCollidedWithChimney"@,
            SoundName::GiftCollidedWithGround => "giftCollidedWithGround"@,
            SoundName::GoblinThrowSnowball => "goblinThrowSnowball"@,
            SoundName::Lost => "lost"@,
            SoundName::ShieldBalloon => "shieldBalloon"@,
            SoundName::SleighCollidedWithCloud => "sleighCollidedWithCloud"@,
            SoundName::SleighCollidedWithLevel1 => "sleighCollidedWithLevel1"@,
            SoundName::SleighCollidedWithLevel2 => "sleighCollidedWithLevel2"@,
            SoundName::SleighCollidedWithNpc => "sleighCollidedWithNpc"@,
            SoundName::SnowmanLaunch => "snowmanLaunch"@,
            SoundName::WineBalloon => "wineBalloon"@,
            SoundName::Won => "won"@,
        }
    }

    /// The name of the file that holds the sound, without its ending.
    pub fn asset_name(self) -> (r: &'static str)
        ensures
            r@ == self.asset_name_spec(),
    {
        match self {
            SoundName::CashBalloon => "cashBalloon",
            SoundName::GiftBalloon => "giftBalloon",
            SoundName::GiftCollidedWithChimney => "giftCollidedWithChimney",
            SoundName::GiftCollidedWithGround => "giftCollidedWithGround",
            SoundName::GoblinThrowSnowball => "goblinThrowSnowball",
            SoundName::Lost => "lost",
            SoundName::ShieldBalloon => "shieldBalloon",
            SoundName::SleighCollidedWithCloud => "sleighCollidedWithCloud",
            SoundName::SleighCollidedWithLevel1 => "sleighCollidedWithLevel1",
            SoundName::SleighCollidedWithLevel2 => "sleighCollidedWithLevel2",
            SoundName::SleighCollidedWithNpc => "sleighCollidedWithNpc",
            SoundName::SnowmanLaunch => "snowmanLaunch",
            SoundName::WineBalloon => "wineBalloon",
            SoundName::Won => "won",
        }
    }
}

/// A sound to be played: which one, how loud (128 is full volume), and how
/// loud on each side (255 is full).
#[derive(Clone, Copy, PartialEq, Eq, Debug, Structural)]
pub struct Sound {
    pub name: SoundName,
    pub volume: i32,
    pub left: u8,
    pub right: u8,
}

/// The level of one side that gets `share` thousandths of the sound: twice
/// the share of 255, between 0 and 255.
pub open spec fn channel_level(share: int) -> u8 {
    if share <= 0 {
        0
    } else if share * 510 / 1000 >= 255 {
        255
    } else {
        (share * 510 / 1000) as u8
    }
}

/// The volume setting for `volume` thousandths of full volume.
pub open spec fn volume_level(volume: i64) -> i32 {
    let level = quotient(128 * volume, 1000);
    if level < i32::MIN {
        i32::MIN
    } else if level > i32::MAX {
        i32::MAX
    } else {
        level as i32
    }
}

/// Where on the canvas `x` lies, in thousandths of the canvas width.
pub open spec fn pan_at(canvas_width: i64, x: i64) -> i64 {
    clamp_i64(quotient(x * 1000, canvas_width as int))
}

fn level_of_share(share: i128) -> (r: u8)
    requires
        -0x1_0000_0000_0000_0000 <= share <= 0x1_0000_0000_0000_0000,
    ensures
        r == channel_level(share as int),
{
    if share <= 0 {
        0
    } else if share * 510 / 1000 >= 255 {
        255
    } else {
        (share * 510 / 1000) as u8
    }
}

impl Sound {
    /// The sound at a volume and a pan, both in thousandths: pan 0 is the
    /// left edge, 1000 the right edge.
    pub open spec fn at(name: SoundName, volume: i64, pan: i64) -> Sound {
        Sound {
            name,
            volume: volume_level(volume),
            left: channel_level(1000 - pan),
            right: channel_level(pan as int),
        }
    }

    /// The sound at a volume and a pan, both in thousandths.
    pub fn play_with_volume_and_pan(name: SoundName, volume: i64, pan: i64) -> (r: Sound)
        ensures
            r == Sound::at(name, volume, pan),
    {
        let level: i128 = (128 * (volume as i128)) / 1000;
        let volume_level: i32 = if level < i32::MIN as i128 {
            i32::MIN
        } else if level > i32::MAX as i128 {
            i32::MAX
        } else {
            level as i32
        };
        Sound {
            name,
            volume: volume_level,
            left: level_of_share(1000 - pan as i128),
            right: level_of_share(pan as i128),
        }
    }

    /// The sound at full volume in the middle.
    pub fn play(name: SoundName) -> (r: Sound)
        ensures
            r == Sound::at(name, 1000, 500),
    {
        Sound::play_with_volume_and_pan(name, 1000, 500)
    }

    /// The sound at full volume at a pan.
    pub fn play_with_pan(name: SoundName, pan: i64) -> (r: Sound)
        ensures
            r == Sound::at(name, 1000, pan),
    {
        Sound::play_with_volume_and_pan(name, 1000, pan)
    }

    /// The sound at a volume in the middle.
    pub fn play_with_volume(name: SoundName, volume: i64) -> (r: Sound)
        ensures
            r == Sound::at(name, volume, 500),
    {
        Sound::play_with_volume_and_pan(name, volume, 500)
    }

    /// The sound as heard from a position on the canvas.
    pub fn play_with_position(name: SoundName, canvas_size: Point, position_x: i64) -> (r: Sound)
        requires
            canvas_size.x > 0,
        ensures
            r == Sound::at(name, 1000, pan_at(canvas_size.x, position_x)),
    {
        Sound::play_with_pan(name, mul_div(position_x, 1000, canvas_size.x))
    }

    /// The sound as heard from a position in the level, of which the canvas
    /// shows the part that starts at `level_offset_x`.
    pub fn play_with_level_position(
        name: SoundName,
        canvas_size: Point,
        level_offset_x: i64,
        position_x: i64,
    ) -> (r: Sound)
        requires
            canvas_size.x > 0,
        ensures
            r == Sound::at(
                name,
                1000,
                pan_at(canvas_size.x, clamp_i64(position_x - level_offset_x)),
            ),
    {
        Sound::play_with_position(name, canvas_size, sub_saturating(position_x, level_offset_x))
    }
}

/// Symmetry of the collision test: exchanging the two sprites does not change
/// the answer.
pub proof fn lemma_collides_symmetric(
    a: &Image,
    a_point: Point,
    a_frame: u64,
    b: &Image,
    b_point: Point,
    b_frame: u64,
)
    ensures
        a.collides_spec(a_point, a_frame, b, b_point, b_frame) == b.collides_spec(
            b_point,
            b_frame,
            a,
            a_point,
            a_frame,
        ),
{
    if a.collides_spec(a_point, a_frame, b, b_point, b_frame) {
        let (x, y) = choose|x: int, y: int| #[trigger]
            both_opaque(a, a_point, a_frame, b, b_point, b_frame, x, y);
        assert(both_opaque(b, b_point, b_frame, a, a_point, a_frame, x, y));
    }
    if b.collides_spec(b_point, b_frame, a, a_point, a_frame) {
        let (x, y) = choose|x: int, y: int| #[trigger]
            both_opaque(b, b_point, b_frame, a, a_point, a_frame, x, y);
        assert(both_opaque(a, a_point, a_frame, b, b_point, b_frame, x, y));
    }
}

/// Something that ends where another thing begins, or before, ends so too
/// when both are put at the pixels that hold their positions.
proof fn lemma_apart_on_the_pixel_grid(start: i64, length: int, other_start: i64)
    requires
        start + length * UNITS_PER_PIXEL <= other_start,
    ensures
        pixel_floor(start) + length <= pixel_floor(other_start),
{
    lemma_div_mod_shift(start as int, length, UNITS_PER_PIXEL as int);
    vstd::arithmetic::div_mod::lemma_div_is_ordered(
        start + length * UNITS_PER_PIXEL,
        other_start as int,
        UNITS_PER_PIXEL as int,
    );
}

/// Bounding-box short-circuit: sprites whose bounding boxes at their
/// positions lie apart do not collide, whatever their masks hold.
pub proof fn lemma_disjoint_boxes_do_not_collide(
    a: &Image,
    a_point: Point,
    a_frame: u64,
    b: &Image,
    b_point: Point,
    b_frame: u64,
)
    requires
        boxes_apart(a, a_point, b, b_point),
    ensures
        !boxes_overlap(a, a_point, b, b_point),
        !a.collides_spec(a_point, a_frame, b, b_point, b_frame),
{
    if a_point.x + a.frame_width() * UNITS_PER_PIXEL <= b_point.x {
        lemma_apart_on_the_pixel_grid(a_point.x, a.frame_width(), b_point.x);
    }
    if b_point.x + b.frame_width() * UNITS_PER_PIXEL <= a_point.x {
        lemma_apart_on_the_pixel_grid(b_point.x, b.frame_width(), a_point.x);
    }
    if a_point.y + a.frame_height() * UNITS_PER_PIXEL <= b_point.y {
        lemma_apart_on_the_pixel_grid(a_point.y, a.frame_height(), b_point.y);
    }
    if b_point.y + b.frame_height() * UNITS_PER_PIXEL <= a_point.y {
        lemma_apart_on_the_pixel_grid(b_point.y, b.frame_height(), a_point.y);
    }
    assert forall|x: int, y: int| !#[trigger] both_opaque(
        a,
        a_point,
        a_frame,
        b,
        b_point,
        b_frame,
        x,
        y,
    ) by {}
}

/// Frame wraparound: a frame value that lies a whole number of rounds through
/// the frame grid above another selects the same frame, so the sprite is drawn
/// from the same part of the surface and is opaque at the same pixels.
pub proof fn lemma_frame_wraparound(image: &Image, frame: u64, rounds: nat, wrapped: u64)
    requires
        image.wf(),
        wrapped == frame + rounds * image.frame_count() * UNITS_PER_FRAME,
    ensures
        image.frame_column(wrapped) == image.frame_column(frame),
        image.frame_row(wrapped) == image.frame_row(frame),
        forall|x: int, y: int| image.opaque_at(wrapped, x, y) == image.opaque_at(frame, x, y),
{
    let columns = image.number_of_frames.0 as int;
    let rows = image.number_of_frames.1 as int;
    let index = frame as int / UNITS_PER_FRAME as int;
    let extra = rounds * image.frame_count();
    assert(extra == (rounds * rows) * columns) by (nonlinear_arith)
        requires
            extra == rounds * (columns * rows),
    ;
    assert(wrapped == frame + extra * 1000) by (nonlinear_arith)
        requires
            wrapped == frame + rounds * image.frame_count() * 1000,
            extra == rounds * image.frame_count(),
    ;
    lemma_div_mod_shift(frame as int, extra, 1000);
    assert(wrapped as int / 1000 == index + (rounds * rows) * columns);
    lemma_div_mod_shift(index, rounds * rows, columns);
    lemma_div_mod_shift(index / columns, rounds as int, rows);
}

/// Frame wraparound of the collision test: a frame value a whole number of
/// rounds above another gives the same answer, for either sprite.
pub proof fn lemma_collides_wraparound(
    a: &Image,
    a_point: Point,
    a_frame: u64,
    a_rounds: nat,
    a_wrapped: u64,
    b: &Image,
    b_point: Point,
    b_frame: u64,
    b_rounds: nat,
    b_wrapped: u64,
)
    requires
        a.wf(),
        b.wf(),
        a_wrapped == a_frame + a_rounds * a.frame_count() * UNITS_PER_FRAME,
        b_wrapped == b_frame + b_rounds * b.frame_count() * UNITS_PER_FRAME,
    ensures
        a.collides_spec(a_point, a_wrapped, b, b_point, b_wrapped) == a.collides_spec(
            a_point,
            a_frame,
            b,
            b_point,
            b_frame,
        ),
{
    lemma_frame_wraparound(a, a_frame, a_rounds, a_wrapped);
    lemma_frame_wraparound(b, b_frame, b_rounds, b_wrapped);
    if a.collides_spec(a_point, a_wrapped, b, b_point, b_wrapped) {
        let (x, y) = choose|x: int, y: int| #[trigger]
            both_opaque(a, a_point, a_wrapped, b, b_point, b_wrapped, x, y);
        assert(both_opaque(a, a_point, a_frame, b, b_point, b_frame, x, y));
    }
    if a.collides_spec(a_point, a_frame, b, b_point, b_frame) {
        let (x, y) = choose|x: int, y: int| #[trigger]
            both_opaque(a, a_point, a_frame, b, b_point, b_frame, x, y);
        assert(both_opaque(a, a_point, a_wrapped, b, b_point, b_wrapped, x, y));
    }
}

} // verus!
