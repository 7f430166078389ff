//! The font of the game and the layout of a line of text.
use vstd::prelude::*;
use vstd::std_specs::iter::IteratorSpec;
use crate::asset::{AssetLibrary, CloneAsI32Vector, Image, Point, Sprite};
use crate::ui::Alignment;
use crate::units::{
    add_scaled_u64,
    clamp_i64,
    clamp_u64,
    saturate_i64,
    UNITS_PER_FRAME,
    UNITS_PER_PIXEL,
};

verus! {

/// Number of characters that the font knows, the blank among them: so many
/// widths a font needs to lay out text.
pub const NUMBER_OF_CHARACTERS: usize = 46;

/// The upper-case form of a character, one to three characters, as
/// `char::to_uppercase` of the standard library yields them.
pub uninterp spec fn uppercase_of(character: char) -> Seq<char>;

/// The characters of an upper-case form, as the standard library hands
/// them out one by one.
#[verifier::external_type_specification]
#[verifier::external_body]
pub struct ExToUppercase(std::char::ToUppercase);

/// The upper-case form of a character, to be read character by character.
///
/// Calls `char::to_uppercase`. The contract gives the characters that the
/// result will yield their name, and says that the result yields them in
/// order and then ends, as the standard library documents of it.
#[verifier::external_body]
fn to_uppercase(character: char) -> (r: std::char::ToUppercase)
    ensures
        r.obeys_prophetic_iter_laws(),
        r.remaining() == uppercase_of(character),
{
    character.to_uppercase()
}

/// The next character of an upper-case form.
///
/// Specifies `Iterator::next` of `std::char::ToUppercase`. Nothing is
/// claimed here beyond what holds of `next` of every iterator that yields
/// its items in order and then ends.
pub assume_specification[ <std::char::ToUppercase as std::iter::Iterator>::next ](
    form: &mut std::char::ToUppercase,
) -> (r: Option<char>)
;

/// The first of some characters, if there is one.
pub open spec fn first_of(characters: Seq<char>) -> Option<char> {
    if characters.len() > 0 {
        Some(characters[0])
    } else {
        None
    }
}

/// The character that stands in for a character that the font does not
/// know: the first of its upper-case form, or a dash where it has none.
pub open spec fn stand_in(capital: Option<char>) -> char {
    match capital {
        Some(capital) => capital,
        None => '-',
    }
}

/// The font: an image with one frame for each character, and the width of
/// each character in pixels.
pub struct Font<'a> {
    pub image: &'a Image,
    pub characters: Vec<char>,
    pub character_widths: Vec<i32>,
    pub max_character_width: i32,
}

/// The position of the first `character` among the first `n` of `characters`.
pub open spec fn position_of(characters: Seq<char>, character: char, n: int) -> Option<int>
    decreases n,
{
    if n <= 0 {
        None
    } else {
        match position_of(characters, character, n - 1) {
            Some(position) => Some(position),
            None => if characters[n - 1] == character {
                Some(n - 1)
            } else {
                None
            },
        }
    }
}

/// Number of bytes of a character in UTF-8.
pub open spec fn utf8_length(character: char) -> int {
    if (character as u32) < 0x80 {
        1
    } else if (character as u32) < 0x800 {
        2
    } else if (character as u32) < 0x10000 {
        3
    } else {
        4
    }
}

/// Number of bytes of the first `n` characters of a text in UTF-8.
pub open spec fn byte_length(text: Seq<char>, n: int) -> int
    decreases n,
{
    if n <= 0 {
        0
    } else {
        byte_length(text, n - 1) + utf8_length(text[n - 1])
    }
}

impl<'a> Font<'a> {
    /// The image is well formed, there are characters and widths, and the
    /// greatest width is not below any width.
    pub open spec fn wf(&self) -> bool {
        &&& self.image.wf()
        &&& self.characters@.len() > 0
        &&& self.character_widths@.len() > 0
        &&& forall|i: int|
            0 <= i < self.character_widths@.len() ==> (#[trigger] self.character_widths@[i])
                <= self.max_character_width
    }

    /// Whether the font can lay out text: it is well formed, and every
    /// character has its width.
    pub open spec fn can_draw(&self) -> bool {
        self.wf() && self.characters@.len() <= self.character_widths@.len()
    }

    /// Whether the library holds what the font needs: its image, and a table
    /// of widths that is not empty.
    pub open spec fn has_assets(asset_library: &AssetLibrary) -> bool {
        &&& asset_library.has_image("font"@)
        &&& asset_library.has_data("fontCharacterWidths"@)
        &&& asset_library.data("fontCharacterWidths"@)@.len() > 0
    }

    /// The characters of the font, in the order of their frames.
    pub open spec fn alphabet() -> Seq<char> {
        seq![
            '-',
            '.',
            '/',
            '0',
            '1',
            '2',
            '3',
            '4',
            '5',
            '6',
            '7',
            '8',
            '9',
            ':',
            '@',
            'A',
            'B',
            'C',
            'D',
            'E',
            'F',
            'G',
            'H',
            'I',
            'J',
            'K',
            'L',
            'M',
            'N',
            'O',
            'P',
            'Q',
            'R',
            'S',
            'T',
            'U',
            'V',
            'W',
            'X',
            'Y',
            'Z',
            '_',
            '\u{00c4}',
            '\u{00d6}',
            '\u{00dc}',
            ' ',
        ]
    }

    /// The frame that shows a character whose upper-case form begins with
    /// `capital`: that of the character itself, else that of the capital,
    /// else the first frame.
    pub open spec fn frame_with_capital(&self, character: char, capital: Option<char>) -> int {
        match position_of(self.characters@, character, self.characters@.len() as int) {
            Some(position) => position,
            None => match position_of(
                self.characters@,
                stand_in(capital),
                self.characters@.len() as int,
            ) {
                Some(position) => position,
                None => 0,
            },
        }
    }

    /// The frame that shows a character: that of the character itself, else
    /// that of its upper-case form, else the first frame.
    pub open spec fn frame_of(&self, character: char) -> int {
        self.frame_with_capital(character, first_of(uppercase_of(character)))
    }

    /// The width of a character in pixels.
    pub open spec fn width_of(&self, character: char) -> int {
        self.character_widths@[self.frame_of(character)] as int
    }

    /// The sum of the widths of the first `n` characters of a text, in pixels.
    pub open spec fn width_of_text(&self, text: Seq<char>, n: int) -> int
        decreases n,
    {
        if n <= 0 {
            0
        } else {
            self.width_of_text(text, n - 1) + self.width_of(text[n - 1])
        }
    }

    /// The width of a whole text in pixels: the sum of the widths of its
    /// characters, or, with every character as wide as the widest, the
    /// greatest width for each byte of the text.
    pub open spec fn text_width(&self, text: Seq<char>, monospace: bool) -> int {
        if monospace {
            byte_length(text, text.len() as int) * self.max_character_width
        } else {
            self.width_of_text(text, text.len() as int)
        }
    }

    /// Half of what a character lacks of the greatest width, in position units.
    pub open spec fn padding_of(&self, character: char) -> int {
        (self.max_character_width - self.width_of(character)) * (UNITS_PER_PIXEL / 2)
    }

    /// By how much the pen moves on over a character, in position units.
    pub open spec fn advance_of(&self, character: char, monospace: bool) -> int {
        if monospace {
            2 * self.padding_of(character)
        } else {
            self.width_of(character) * UNITS_PER_PIXEL
        }
    }

    /// Where the pen is before the `n`-th character of a text that starts at `start`.
    pub open spec fn pen_before(&self, text: Seq<char>, monospace: bool, start: int, n: int) -> int
        decreases n,
    {
        if n <= 0 {
            start
        } else {
            self.pen_before(text, monospace, start, n - 1) + self.advance_of(
                text[n - 1],
                monospace,
            )
        }
    }

    /// Where a text starts that is put at `point` with an alignment: for
    /// each step of the alignment to the right, half of the width of the text
    /// further to the left, and for each step down, half of the height of the
    /// font further up.
    pub open spec fn start_of(
        &self,
        point: Point,
        text: Seq<char>,
        alignment: Alignment,
        monospace: bool,
    ) -> Point {
        Point {
            x: clamp_i64(
                point.x - (alignment.index_spec() % 3) * (self.text_width(text, monospace) / 2)
                    * UNITS_PER_PIXEL,
            ),
            y: clamp_i64(
                point.y - (alignment.index_spec() / 3) * (self.image.frame_height() / 2)
                    * UNITS_PER_PIXEL,
            ),
        }
    }

    /// The image of the `n`-th character of a text that starts at `start`.
    pub open spec fn glyph(&self, text: Seq<char>, monospace: bool, start: Point, n: int) -> Sprite<
        'a,
    > {
        Sprite {
            image: self.image,
            position: Point {
                x: clamp_i64(
                    self.pen_before(text, monospace, start.x as int, n) + if monospace {
                        self.padding_of(text[n])
                    } else {
                        0
                    },
                ),
                y: start.y,
            },
            frame: clamp_u64(self.frame_of(text[n]) * UNITS_PER_FRAME),
        }
    }

    /// The images of the first `n` characters of a text that starts at
    /// `start`; a blank has none.
    pub open spec fn glyphs(&self, text: Seq<char>, monospace: bool, start: Point, n: int) -> Seq<
        Sprite<'a>,
    >
        decreases n,
    {
        if n <= 0 {
            Seq::empty()
        } else if text[n - 1] == ' ' {
            self.glyphs(text, monospace, start, n - 1)
        } else {
            self.glyphs(text, monospace, start, n - 1).push(
                self.glyph(text, monospace, start, n - 1),
            )
        }
    }

    /// The font from its image and the table of the widths of its characters.
    pub fn new(asset_library: &'a AssetLibrary) -> (r: Font<'a>)
        requires
            asset_library.wf(),
            Font::has_assets(asset_library),
        ensures
            r.wf(),
            r.can_draw() == (asset_library.data("fontCharacterWidths"@)@.len()
                >= NUMBER_OF_CHARACTERS),
            *r.image == asset_library.image("font"@),
            r.characters@ == Font::alphabet(),
            r.character_widths@.len() == asset_library.data("fontCharacterWidths"@)@.len(),
            forall|i: int|
                0 <= i < r.character_widths@.len() ==> (#[trigger] r.character_widths@[i])
                    == asset_library.data("fontCharacterWidths"@).as_i32_at(i),
            exists|i: int|
                0 <= i < r.character_widths@.len() && (#[trigger] r.character_widths@[i])
                    == r.max_character_width,
    {
        let character_widths = asset_library.get_data("fontCharacterWidths").clone_as_i32();
        let mut max_character_width: i32 = character_widths[0];
        let mut i: usize = 1;
        while i < character_widths.len()
            invariant
                1 <= i <= character_widths@.len(),
                forall|k: int| 0 <= k < i ==> (#[trigger] character_widths@[k]) <= max_character_width,
                exists|k: int| 0 <= k < i && (#[trigger] character_widths@[k]) == max_character_width,
            decreases character_widths@.len() - i,
        {
            if character_widths[i] > max_character_width {
                max_character_width = character_widths[i];
            }
            i += 1;
        }
        let characters: Vec<char> = vec![
            '-',
            '.',
            '/',
            '0',
            '1',
            '2',
            '3',
            '4',
            '5',
            '6',
            '7',
            '8',
            '9',
            ':',
            '@',
            'A',
            'B',
            'C',
            'D',
            'E',
            'F',
            'G',
            'H',
            'I',
            'J',
            'K',
            'L',
            'M',
            'N',
            'O',
            'P',
            'Q',
            'R',
            'S',
            'T',
            'U',
            'V',
            'W',
            'X',
            'Y',
            'Z',
            '_',
            '\u{00c4}',
            '\u{00d6}',
            '\u{00dc}',
            ' ',
        ];
        assert(characters@ =~= Font::alphabet());
        Font { image: asset_library.get_image("font"), characters, character_widths, max_character_width }
    }

    /// Whether the font can lay out text: whether every character has its width.
    pub fn has_width_of_every_character(&self) -> (r: bool)
        requires
            self.wf(),
        ensures
            r == self.can_draw(),
    {
        self.characters.len() <= self.character_widths.len()
    }

    /// The position of a character among those of the font.
    fn position(&self, character: char) -> (r: Option<usize>)
        ensures
            match r {
                Some(position) => position < self.characters@.len() && position_of(
                    self.characters@,
                    character,
                    self.characters@.len() as int,
                ) == Some(position as int),
                None => position_of(self.characters@, character, self.characters@.len() as int)
                    .is_none(),
            },
    {
        let mut i: usize = 0;
        while i < self.characters.len()
            invariant
                i <= self.characters@.len(),
                position_of(self.characters@, character, i as int).is_none(),
            decreases self.characters@.len() - i,
        {
            if self.characters[i] == character {
                proof {
                    lemma_position_found(self.characters@, character, i as int, self.characters@.len() as int);
                }
                return Some(i);
            }
            i += 1;
        }
        None
    }

    /// The frame that shows a character whose upper-case form begins with
    /// `capital`.
    pub fn frame_for(&self, character: char, capital: Option<char>) -> (r: usize)
        requires
            self.wf(),
        ensures
            r == self.frame_with_capital(character, capital),
            r < self.characters@.len(),
    {
        match self.position(character) {
            Some(position) => position,
            None => {
                let stand_in = match capital {
                    Some(capital) => capital,
                    None => '-',
                };
                match self.position(stand_in) {
                    Some(position) => position,
                    None => 0,
                }
            },
        }
    }

    /// The frame that shows a character.
    pub fn frame(&self, character: char) -> (r: usize)
        requires
            self.wf(),
        ensures
            r == self.frame_of(character),
            r < self.characters@.len(),
    {
        let mut upper_case = to_uppercase(character);
        let capital = upper_case.next();
        self.frame_for(character, capital)
    }

    /// Number of bytes of a character in UTF-8.
    fn bytes_of(character: char) -> (r: usize)
        ensures
            r == utf8_length(character),
    {
        let code = character as u32;
        if code < 0x80 {
            1
        } else if code < 0x800 {
            2
        } else if code < 0x10000 {
            3
        } else {
            4
        }
    }

    /// The width of a whole text in pixels.
    fn measure(&self, text: &Vec<char>, monospace: bool) -> (r: i128)
        requires
            self.can_draw(),
        ensures
            r == self.text_width(text@, monospace),
            -0x8000_0000 * 0x4_0000_0000_0000_0000 <= r <= 0x8000_0000 * 0x4_0000_0000_0000_0000,
    {
        let mut bytes: i128 = 0;
        let mut width: i128 = 0;
        let mut i: usize = 0;
        while i < text.len()
            invariant
                self.can_draw(),
                i <= text@.len(),
                bytes == byte_length(text@, i as int),
                width == self.width_of_text(text@, i as int),
                0 <= bytes <= 4 * i,
                -0x8000_0000 * i <= width <= 0x8000_0000 * i,
            decreases text@.len() - i,
        {
            bytes = bytes + Font::bytes_of(text[i]) as i128;
            width = width + self.character_widths[self.frame(text[i])] as i128;
            i += 1;
        }
        if monospace {
            assert(-0x8000_0000 * 0x4_0000_0000_0000_0000 <= bytes * self.max_character_width
                <= 0x8000_0000 * 0x4_0000_0000_0000_0000) by (nonlinear_arith)
                requires
                    0 <= bytes <= 0x4_0000_0000_0000_0000,
                    -0x8000_0000 <= self.max_character_width <= 0x8000_0000,
            ;
            bytes * (self.max_character_width as i128)
        } else {
            width
        }
    }

    /// Where a text starts that is put at `point` with an alignment.
    fn start(&self, point: Point, text: &Vec<char>, alignment: Alignment, monospace: bool) -> (r:
        Point)
        requires
            self.can_draw(),
        ensures
            r == self.start_of(point, text@, alignment, monospace),
    {
        let text_width = self.measure(text, monospace);
        let text_height: i128 = self.image.height() as i128;
        let steps_right: i128 = (alignment.index() % 3) as i128;
        let steps_down: i128 = (alignment.index() / 3) as i128;
        let half_width: i128 = if text_width >= 0 {
            text_width / 2
        } else {
            -((-text_width + 1) / 2)
        };
        assert(half_width == self.text_width(text@, monospace) / 2);
        assert(steps_right * half_width * 1_000_000 == (alignment.index_spec() % 3) * (
        self.text_width(text@, monospace) / 2) * UNITS_PER_PIXEL) by (nonlinear_arith)
            requires
                steps_right == alignment.index_spec() % 3,
                half_width == self.text_width(text@, monospace) / 2,
        ;
        assert(steps_down * (text_height / 2) * 1_000_000 == (alignment.index_spec() / 3) * (
        self.image.frame_height() / 2) * UNITS_PER_PIXEL) by (nonlinear_arith)
            requires
                steps_down == alignment.index_spec() / 3,
                text_height == self.image.frame_height(),
        ;
        assert(-2 * 0x8000_0000 * 0x4_0000_0000_0000_0000 <= steps_right * half_width <= 2
            * 0x8000_0000 * 0x4_0000_0000_0000_0000) by (nonlinear_arith)
            requires
                0 <= steps_right <= 2,
                -0x8000_0000 * 0x4_0000_0000_0000_0000 <= half_width <= 0x8000_0000
                    * 0x4_0000_0000_0000_0000,
        ;
        assert(0 <= steps_down * (text_height / 2) <= 2 * 0x1_0000_0000) by (nonlinear_arith)
            requires
                0 <= steps_down <= 2,
                0 <= text_height / 2 <= 0x1_0000_0000,
        ;
        Point {
            x: saturate_i64(point.x as i128 - steps_right * half_width * 1_000_000),
            y: saturate_i64(point.y as i128 - steps_down * (text_height / 2) * 1_000_000),
        }
    }

    /// The images that show a text put at `dst_point` with an alignment,
    /// one for each character but the blanks, from left to right. Each
    /// character takes its own width, or, with `monospace`, stands in the
    /// middle of a place of the greatest width.
    pub fn draw_internal(
        &self,
        dst_point: Point,
        text: &Vec<char>,
        alignment: Alignment,
        monospace: bool,
    ) -> (sprites: Vec<Sprite<'a>>)
        requires
            self.can_draw(),
        ensures
            sprites@ == self.glyphs(
                text@,
                monospace,
                self.start_of(dst_point, text@, alignment, monospace),
                text@.len() as int,
            ),
    {
        let start = self.start(dst_point, text, alignment, monospace);
        let mut sprites: Vec<Sprite<'a>> = Vec::new();
        let mut pen: i128 = start.x as i128;
        let mut i: usize = 0;
        while i < text.len()
            invariant
                self.can_draw(),
                i <= text@.len(),
                pen == self.pen_before(text@, monospace, start.x as int, i as int),
                pen >= -0x8000_0000_0000_0000int - 0x20_0000_0000_0000int * (i as int),
                pen <= 0x8000_0000_0000_0000int + 0x20_0000_0000_0000int * (i as int),
                sprites@ == self.glyphs(text@, monospace, start, i as int),
            decreases text@.len() - i,
        {
            let character = text[i];
            let frame = self.frame(character);
            let character_width: i128 = self.character_widths[frame] as i128;
            assert(character_width <= self.max_character_width);
            let monospace_offset_x: i128 = (self.max_character_width as i128 - character_width)
                * 500_000;
            assert(0 <= monospace_offset_x <= 0x1_0000_0000 * 500_000);
            let x: i128 = if monospace { pen + monospace_offset_x } else { pen };
            if character != ' ' {
                sprites.push(
                    Sprite {
                        image: self.image,
                        position: Point { x: saturate_i64(x), y: start.y },
                        frame: add_scaled_u64(0, frame as u64, 1000),
                    },
                );
            }
            pen = if monospace {
                pen + 2 * monospace_offset_x
            } else {
                pen + character_width * 1_000_000
            };
            i += 1;
        }
        sprites
    }

    /// The images that show a text, each character taking its own width.
    pub fn draw(&self, dst_point: Point, text: &Vec<char>, alignment: Alignment) -> (sprites: Vec<
        Sprite<'a>,
    >)
        requires
            self.can_draw(),
        ensures
            sprites@ == self.glyphs(
                text@,
                false,
                self.start_of(dst_point, text@, alignment, false),
                text@.len() as int,
            ),
    {
        self.draw_internal(dst_point, text, alignment, false)
    }

    /// The images that show a text, each character in the middle of a place
    /// of the greatest width.
    pub fn draw_monospace(&self, dst_point: Point, text: &Vec<char>, alignment: Alignment) -> (sprites:
        Vec<Sprite<'a>>)
        requires
            self.can_draw(),
        ensures
            sprites@ == self.glyphs(
                text@,
                true,
                self.start_of(dst_point, text@, alignment, true),
                text@.len() as int,
            ),
    {
        self.draw_internal(dst_point, text, alignment, true)
    }
}

/// A character that stands at position `i`, and at no position before it,
/// is found at `i` among any number of characters beyond `i`.
proof fn lemma_position_found(characters: Seq<char>, character: char, i: int, n: int)
    requires
        0 <= i < n <= characters.len(),
        characters[i] == character,
        position_of(characters, character, i).is_none(),
    ensures
        position_of(characters, character, n) == Some(i),
    decreases n - i,
{
    if n > i + 1 {
        lemma_position_found(characters, character, i, n - 1);
    }
}

} // verus!
