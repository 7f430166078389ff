//! The scrolling level: its two tile grids, the window of visible tiles, and
//! the landscape behind it.
use vstd::prelude::*;
use crate::asset::{AssetLibrary, Image, Point, Sound, Sprite};
use crate::game::GameMode;
use crate::npc::{has_npc_assets, is_new_npc, new_npc, Npc};
use crate::sleigh::Sleigh;
use crate::ui::Score;
use crate::units::{
    add_scaled,
    add_scaled_u64,
    clamp_i64,
    clamp_u64,
    elapsed,
    elapsed_spec,
    mul_div,
    quotient,
    saturate_i64,
    sub_saturating,
    add_saturating,
};

verus! {

/// Number of rows of both tile grids.
pub const NUMBER_OF_MAP_ROWS: usize = 5;

/// Scroll speed with the sleigh at the left edge, in velocity units.
pub const MIN_SCROLL_SPEED_X: i64 = 40_000;

/// Scroll speed with the sleigh at the right edge, in velocity units.
pub const MAX_SCROLL_SPEED_X: i64 = 160_000;

/// Scroll speed behind the menu, in velocity units.
pub const MENU_SCROLL_SPEED_X: i64 = 40_000;

/// Whether numbers can be laid out as a grid: there are some, and they
/// fill every row to the same length.
pub open spec fn is_grid_data(data: Seq<i64>) -> bool {
    data.len() > 0 && data.len() % NUMBER_OF_MAP_ROWS as nat == 0
}

/// Number of columns of a grid that is laid out from `length` numbers.
pub open spec fn columns_for(length: nat) -> nat {
    length / NUMBER_OF_MAP_ROWS as nat
}

/// The marker at column `x` of row `y` of a grid laid out row by row from `data`.
pub open spec fn cell_of(data: Seq<i64>, x: int, y: int) -> i64 {
    data[x + y * columns_for(data.len())]
}

/// Whether `map` is the grid laid out from `data`.
pub open spec fn is_map_of(map: Seq<Vec<i64>>, data: Seq<i64>) -> bool {
    &&& map.len() == NUMBER_OF_MAP_ROWS
    &&& forall|y: int| 0 <= y < map.len() ==> (#[trigger] map[y])@.len() == columns_for(data.len())
    &&& forall|y: int, x: int|
        0 <= y < map.len() && 0 <= x < columns_for(data.len()) ==> (#[trigger] map[y]@[x])
            == cell_of(data, x, y)
}

/// Number of tile columns that are counted as on the canvas: those that fit
/// on it and one more.
pub open spec fn visible_columns_for(canvas_width: i64, tile_width: i64) -> usize {
    let visible = canvas_width as int / tile_width as int + 1;
    if visible > usize::MAX {
        usize::MAX
    } else {
        visible as usize
    }
}

/// Every character is well formed, no two live on the same tile, and they
/// are in the order of their layers, from the back to the front.
pub open spec fn npcs_wf(npcs: Seq<Npc>) -> bool {
    &&& forall|i: int| 0 <= i < npcs.len() ==> (#[trigger] npcs[i]).wf()
    &&& forall|i: int, j: int|
        0 <= i < j < npcs.len() ==> (#[trigger] npcs[i]).tile_spec() != (#[trigger] npcs[j]).tile_spec()
    &&& forall|i: int, j: int|
        0 <= i < j < npcs.len() ==> (#[trigger] npcs[i]).z_order_spec() <= (
        #[trigger] npcs[j]).z_order_spec()
}

/// Whether the characters `after` stand on the same tiles and in the same
/// layers as the characters `before`, place by place.
pub open spec fn same_places(before: Seq<Npc>, after: Seq<Npc>) -> bool {
    &&& after.len() == before.len()
    &&& forall|i: int|
        0 <= i < before.len() ==> (#[trigger] after[i]).tile_spec() == before[i].tile_spec()
            && after[i].z_order_spec() == before[i].z_order_spec()
}

/// The sounds of the ticks of the first `n` characters, in their order.
pub open spec fn npc_tick_sounds(
    npcs: Seq<Npc>,
    level_offset_x: i64,
    level_scroll_speed_x: i64,
    sleigh: &Sleigh,
    now: u64,
    n: int,
) -> Seq<Sound>
    decreases n,
{
    if n <= 0 {
        Seq::empty()
    } else {
        let before = npc_tick_sounds(npcs, level_offset_x, level_scroll_speed_x, sleigh, now, n - 1);
        match npcs[n - 1].tick_sound(level_offset_x, level_scroll_speed_x, sleigh, now) {
            Some(sound) => before.push(sound),
            None => before,
        }
    }
}

/// The outcome of testing the first `n` characters against the sleigh, one
/// after the other: the characters, the score, the sleigh, and the sounds
/// in the order of the characters. Outside a run only the finish is tested.
pub open spec fn npcs_collided<'a>(
    npcs: Seq<Npc<'a>>,
    running: bool,
    score: Score,
    level_offset_x: i64,
    sleigh: Sleigh<'a>,
    now: u64,
    n: int,
) -> (Seq<Npc<'a>>, Score, Sleigh<'a>, Seq<Sound>)
    decreases n,
{
    if n <= 0 {
        (Seq::empty(), score, sleigh, Seq::empty())
    } else {
        let before = npcs_collided(npcs, running, score, level_offset_x, sleigh, now, n - 1);
        let npc = npcs[n - 1];
        if running || npc is Finish {
            let outcome = npc.collided(before.1, level_offset_x, before.2, now);
            (
                before.0.push(outcome.0),
                outcome.1,
                outcome.2,
                match outcome.3 {
                    Some(sound) => before.3.push(sound),
                    None => before.3,
                },
            )
        } else {
            (before.0.push(npc), before.1, before.2, before.3)
        }
    }
}

/// What is drawn of the first `n` characters, in their order.
pub open spec fn npcs_sprites<'a>(npcs: Seq<Npc<'a>>, level_offset_x: i64, n: int) -> Seq<Sprite<'a>>
    decreases n,
{
    if n <= 0 {
        Seq::empty()
    } else {
        npcs_sprites(npcs, level_offset_x, n - 1) + npcs[n - 1].sprites(level_offset_x)
    }
}

/// Whether one of the characters lives on the tile.
pub open spec fn has_npc_on(npcs: Seq<Npc>, tile: (usize, usize)) -> bool {
    exists|i: int| 0 <= i < npcs.len() && (#[trigger] npcs[i]).tile_spec() == tile
}

/// The test whether a character lives on a tile on which one of `npcs` lives.
pub open spec fn lives_among<'a>(npcs: Seq<Npc<'a>>) -> spec_fn(Npc<'a>) -> bool {
    |npc: Npc<'a>| has_npc_on(npcs, npc.tile_spec())
}

/// Whether the tile `a` comes before the tile `b` where tiles are gone
/// through row by row from the top, and in each row from the left.
pub open spec fn comes_before(a: (usize, usize), b: (usize, usize)) -> bool {
    a.1 < b.1 || (a.1 == b.1 && a.0 < b.0)
}

/// Whether the characters that were not among `before` stand in their
/// layers behind those that were, and among themselves in the order of
/// their tiles.
pub open spec fn new_in_order(before: Seq<Npc>, npcs: Seq<Npc>) -> bool {
    forall|i: int, j: int|
        0 <= i < j < npcs.len() && (#[trigger] npcs[i]).z_order_spec() == (
        #[trigger] npcs[j]).z_order_spec() && !has_npc_on(before, npcs[i].tile_spec())
            ==> !has_npc_on(before, npcs[j].tile_spec()) && comes_before(
            npcs[i].tile_spec(),
            npcs[j].tile_spec(),
        )
}

/// Well-formed characters stay well formed when one of them leaves.
pub proof fn lemma_npcs_wf_remove(npcs: Seq<Npc>, i: int)
    requires
        npcs_wf(npcs),
        0 <= i < npcs.len(),
    ensures
        npcs_wf(npcs.remove(i)),
{
    let rest = npcs.remove(i);
    assert forall|k: int| 0 <= k < rest.len() implies (#[trigger] rest[k]).wf() by {
        assert(rest[k] == if k < i { npcs[k] } else { npcs[k + 1] });
    }
    assert forall|a: int, b: int| 0 <= a < b < rest.len() implies (#[trigger] rest[a]).tile_spec() != (
    #[trigger] rest[b]).tile_spec() && rest[a].z_order_spec() <= rest[b].z_order_spec() by {
        let a0 = if a < i { a } else { a + 1 };
        let b0 = if b < i { b } else { b + 1 };
        assert(rest[a] == npcs[a0]);
        assert(rest[b] == npcs[b0]);
    }
}

/// Well-formed characters stay well formed when a well-formed character
/// joins them on a free tile, behind those of higher layers and in front of
/// the others.
pub proof fn lemma_npcs_wf_insert<'a>(npcs: Seq<Npc<'a>>, p: int, npc: Npc<'a>)
    requires
        npcs_wf(npcs),
        npc.wf(),
        0 <= p <= npcs.len(),
        !has_npc_on(npcs, npc.tile_spec()),
        forall|k: int| 0 <= k < p ==> (#[trigger] npcs[k]).z_order_spec() <= npc.z_order_spec(),
        forall|k: int| p <= k < npcs.len() ==> (#[trigger] npcs[k]).z_order_spec() > npc.z_order_spec(),
    ensures
        npcs_wf(npcs.insert(p, npc)),
{
    let more = npcs.insert(p, npc);
    assert forall|k: int| 0 <= k < more.len() implies (#[trigger] more[k]).wf() by {
        if k < p {
            assert(more[k] == npcs[k]);
        } else if k > p {
            assert(more[k] == npcs[k - 1]);
        }
    }
    assert forall|a: int, b: int| 0 <= a < b < more.len() implies (#[trigger] more[a]).tile_spec() != (
    #[trigger] more[b]).tile_spec() && more[a].z_order_spec() <= more[b].z_order_spec() by {
        let a0 = if a < p { a } else { a - 1 };
        let b0 = if b < p { b } else { b - 1 };
        if a != p {
            assert(more[a] == npcs[a0]);
        }
        if b != p {
            assert(more[b] == npcs[b0]);
        }
    }
}

/// A tile on which a character lives stays so when another character joins,
/// and the tile of that character becomes one.
pub proof fn lemma_has_npc_on_insert<'a>(
    npcs: Seq<Npc<'a>>,
    p: int,
    npc: Npc<'a>,
    tile: (usize, usize),
)
    requires
        0 <= p <= npcs.len(),
    ensures
        has_npc_on(npcs, tile) ==> has_npc_on(npcs.insert(p, npc), tile),
        has_npc_on(npcs.insert(p, npc), npc.tile_spec()),
        has_npc_on(npcs.insert(p, npc), tile) ==> has_npc_on(npcs, tile) || tile == npc.tile_spec(),
{
    let more = npcs.insert(p, npc);
    assert(more[p] == npc);
    if has_npc_on(npcs, tile) {
        let i = choose|i: int| 0 <= i < npcs.len() && (#[trigger] npcs[i]).tile_spec() == tile;
        let k = if i < p { i } else { i + 1 };
        assert(more[k] == npcs[i]);
    }
    if has_npc_on(more, tile) {
        let k = choose|k: int| 0 <= k < more.len() && (#[trigger] more[k]).tile_spec() == tile;
        if k != p {
            let i = if k < p { k } else { k - 1 };
            assert(more[k] == npcs[i]);
        }
    }
}

/// A filter keeps a sequence whose items all pass.
pub proof fn lemma_filter_keeps_all<A>(items: Seq<A>, test: spec_fn(A) -> bool)
    requires
        forall|i: int| 0 <= i < items.len() ==> test(#[trigger] items[i]),
    ensures
        items.filter(test) == items,
    decreases items.len(),
{
    reveal(Seq::filter);
    if items.len() > 0 {
        lemma_filter_keeps_all(items.drop_last(), test);
        assert(items.drop_last().push(items.last()) =~= items);
    }
}

/// What passes a filter is the same after an item that does not pass was put in.
pub proof fn lemma_filter_insert<A>(items: Seq<A>, test: spec_fn(A) -> bool, p: int, item: A)
    requires
        0 <= p <= items.len(),
        !test(item),
    ensures
        items.insert(p, item).filter(test) == items.filter(test),
{
    let front = items.take(p);
    let back = items.skip(p);
    assert(items.insert(p, item) =~= front.push(item) + back);
    assert(items =~= front + back);
    Seq::filter_distributes_over_add(front.push(item), back, test);
    Seq::filter_distributes_over_add(front, back, test);
    front.lemma_filter_push(item, test);
}

/// The level: terrain tiles, markers of the characters that live on tiles,
/// and how far and how fast it has scrolled.
pub struct Level<'a> {
    pub image: &'a Image,
    pub background_object_map: Vec<Vec<i64>>,
    pub foreground_object_map: Vec<Vec<i64>>,
    pub npcs: Vec<Npc<'a>>,
    pub game_mode: GameMode,
    pub offset_x: i64,
    pub scroll_speed_x: i64,
    pub last_update_instant: u64,
    pub scrolling_resume_instant: u64,
    pub canvas_size: Point,
    pub tile_size: Point,
    pub number_of_visible_map_columns: usize,
    pub min_scroll_speed_x: i64,
    pub max_scroll_speed_x: i64,
    pub menu_scroll_speed_x: i64,
}

/// The landscape far behind the level, which scrolls at a tenth of its speed
/// and repeats.
#[derive(Clone, Copy)]
pub struct Landscape<'a> {
    pub image: &'a Image,
    pub offset_x: i64,
    pub last_update_instant: u64,
    pub scrolling_resume_instant: u64,
    pub size: Point,
}

impl<'a> Level<'a> {
    /// Number of columns of the grids.
    pub open spec fn columns(&self) -> nat {
        self.background_object_map@[0]@.len()
    }

    /// Both grids are rectangular with the fixed number of rows and the same
    /// number of columns, tiles and canvas have a size, and the level has not
    /// scrolled backwards.
    pub open spec fn wf(&self) -> bool {
        &&& self.image.wf()
        &&& self.background_object_map@.len() == NUMBER_OF_MAP_ROWS
        &&& self.foreground_object_map@.len() == NUMBER_OF_MAP_ROWS
        &&& forall|y: int|
            0 <= y < NUMBER_OF_MAP_ROWS ==> (#[trigger] self.background_object_map@[y])@.len()
                == self.columns()
        &&& forall|y: int|
            0 <= y < NUMBER_OF_MAP_ROWS ==> (#[trigger] self.foreground_object_map@[y])@.len()
                == self.columns()
        &&& 0 < self.columns() <= usize::MAX
        &&& self.tile_size.x > 0
        &&& self.tile_size.y > 0
        &&& self.canvas_size.x > 0
        &&& self.offset_x >= 0
        &&& npcs_wf(self.npcs@)
    }

    /// The first column of the window of visible tiles.
    pub open spec fn min_visible_column(&self) -> int {
        let first = self.offset_x as int / self.tile_size.x as int;
        if first > self.columns() {
            self.columns() as int
        } else {
            first
        }
    }

    /// The column behind the last column of the window of visible tiles.
    pub open spec fn max_visible_column(&self) -> int {
        let last = self.min_visible_column() + self.number_of_visible_map_columns + 1;
        if last > self.columns() {
            self.columns() as int
        } else {
            last
        }
    }

    /// Number of columns in the window of visible tiles.
    pub open spec fn visible_width(&self) -> int {
        self.max_visible_column() - self.min_visible_column()
    }

    /// Whether a tile lies in a row of the grid and in the window of visible columns.
    pub open spec fn is_visible(&self, tile: (usize, usize)) -> bool {
        &&& self.min_visible_column() <= tile.0 < self.max_visible_column()
        &&& tile.1 < NUMBER_OF_MAP_ROWS
    }

    /// The visible tiles as column and row, row by row from the top and in
    /// each row from the left.
    pub open spec fn visible_tiles_spec(&self) -> Seq<(usize, usize)> {
        Seq::new(
            (NUMBER_OF_MAP_ROWS * self.visible_width()) as nat,
            |k: int|
                (
                    (self.min_visible_column() + k % self.visible_width()) as usize,
                    (k / self.visible_width()) as usize,
                ),
        )
    }

    /// The terrain marker of a tile; negative where there is no terrain.
    pub open spec fn tile_spec(&self, tile_x: int, tile_y: int) -> i64 {
        self.background_object_map@[tile_y]@[tile_x]
    }

    /// The character marker of a tile; negative where no character lives.
    pub open spec fn npc_marker_spec(&self, tile_x: int, tile_y: int) -> i64 {
        self.foreground_object_map@[tile_y]@[tile_x]
    }

    /// The position of a tile in the level.
    pub open spec fn tile_position_spec(&self, tile: (usize, usize)) -> Point {
        Point {
            x: clamp_i64(tile.0 * self.tile_size.x),
            y: clamp_i64(tile.1 * self.tile_size.y),
        }
    }

    /// The scroll speed that belongs to the mode and to where the sleigh is:
    /// in the menu the menu speed, else the least speed with the sleigh at the
    /// left edge, rising evenly to the greatest speed at the right edge.
    pub open spec fn scroll_speed_for(&self, sleigh_position_x: i64, play_width: i64) -> i64 {
        if self.game_mode == GameMode::Menu {
            self.menu_scroll_speed_x
        } else {
            clamp_i64(
                self.min_scroll_speed_x + clamp_i64(
                    quotient(
                        sleigh_position_x * clamp_i64(
                            self.max_scroll_speed_x - self.min_scroll_speed_x,
                        ),
                        play_width as int,
                    ),
                ),
            )
        }
    }

    /// The level after it has scrolled up to `now`.
    pub open spec fn scrolled(self, sleigh_position_x: i64, play_width: i64, now: u64) -> Level<'a> {
        let speed = self.scroll_speed_for(sleigh_position_x, play_width);
        let moved = clamp_i64(self.offset_x + speed * elapsed_spec(self.last_update_instant, now));
        Level {
            scroll_speed_x: speed,
            offset_x: if now < self.scrolling_resume_instant || moved < 0 {
                self.offset_x
            } else {
                moved
            },
            last_update_instant: now,
            ..self
        }
    }

    /// Lays out a grid with the fixed number of rows from numbers given row
    /// by row.
    pub fn convert_data_to_map(data: &Vec<i64>) -> (map: Vec<Vec<i64>>)
        requires
            is_grid_data(data@),
        ensures
            is_map_of(map@, data@),
            0 < columns_for(data@.len()) <= usize::MAX,
    {
        let entries: usize = data.len();
        let number_of_map_columns: usize = entries / NUMBER_OF_MAP_ROWS;
        let mut map: Vec<Vec<i64>> = Vec::new();
        let mut y: usize = 0;
        while y < NUMBER_OF_MAP_ROWS
            invariant
                y <= NUMBER_OF_MAP_ROWS,
                is_grid_data(data@),
                entries == data@.len(),
                number_of_map_columns == columns_for(data@.len()),
                map@.len() == y,
                forall|j: int| 0 <= j < y ==> (#[trigger] map@[j])@.len() == number_of_map_columns,
                forall|j: int, x: int|
                    0 <= j < y && 0 <= x < number_of_map_columns ==> (#[trigger] map@[j]@[x])
                        == cell_of(data@, x, j),
            decreases NUMBER_OF_MAP_ROWS - y,
        {
            let mut row: Vec<i64> = Vec::new();
            let mut x: usize = 0;
            while x < number_of_map_columns
                invariant
                    x <= number_of_map_columns,
                    y < NUMBER_OF_MAP_ROWS,
                    is_grid_data(data@),
                    entries == data@.len(),
                    number_of_map_columns == columns_for(data@.len()),
                    row@.len() == x,
                    forall|k: int| 0 <= k < x ==> (#[trigger] row@[k]) == cell_of(data@, k, y as int),
                decreases number_of_map_columns - x,
            {
                assert(0 <= y * number_of_map_columns && x + y * number_of_map_columns < entries)
                    by (nonlinear_arith)
                    requires
                        0 <= y <= 4,
                        0 <= x < number_of_map_columns,
                        entries == 5 * number_of_map_columns,
                ;
                row.push(data[x + y * number_of_map_columns]);
                x += 1;
            }
            map.push(row);
            y += 1;
        }
        map
    }

    /// A level that has not scrolled yet, in menu mode.
    pub fn new(
        canvas_size: Point,
        image: &'a Image,
        background_object_map_data: Vec<i64>,
        foreground_object_map_data: Vec<i64>,
    ) -> (r: Level<'a>)
        requires
            image.wf(),
            image.frame_width() > 0,
            image.frame_height() > 0,
            canvas_size.x > 0,
            is_grid_data(background_object_map_data@),
            background_object_map_data@.len() == foreground_object_map_data@.len(),
        ensures
            r.wf(),
            r.image == image,
            r.npcs@.len() == 0,
            is_map_of(r.background_object_map@, background_object_map_data@),
            is_map_of(r.foreground_object_map@, foreground_object_map_data@),
            r.game_mode == GameMode::Menu,
            r.offset_x == 0,
            r.scroll_speed_x == 0,
            r.last_update_instant == 0,
            r.scrolling_resume_instant == 0,
            r.canvas_size == canvas_size,
            r.tile_size == image.size_spec(),
            r.number_of_visible_map_columns == visible_columns_for(canvas_size.x, r.tile_size.x),
            r.min_scroll_speed_x == MIN_SCROLL_SPEED_X,
            r.max_scroll_speed_x == MAX_SCROLL_SPEED_X,
            r.menu_scroll_speed_x == MENU_SCROLL_SPEED_X,
    {
        let tile_size = image.size();
        let columns_on_canvas: i64 = canvas_size.x / tile_size.x;
        let visible: u64 = columns_on_canvas as u64 + 1;
        let number_of_visible_map_columns: usize = if visible > usize::MAX as u64 {
            usize::MAX
        } else {
            visible as usize
        };
        let background_object_map = Level::convert_data_to_map(&background_object_map_data);
        let foreground_object_map = Level::convert_data_to_map(&foreground_object_map_data);
        Level {
            image,
            background_object_map,
            foreground_object_map,
            npcs: Vec::new(),
            game_mode: GameMode::Menu,
            offset_x: 0,
            scroll_speed_x: 0,
            last_update_instant: 0,
            scrolling_resume_instant: 0,
            canvas_size,
            tile_size,
            number_of_visible_map_columns,
            min_scroll_speed_x: MIN_SCROLL_SPEED_X,
            max_scroll_speed_x: MAX_SCROLL_SPEED_X,
            menu_scroll_speed_x: MENU_SCROLL_SPEED_X,
        }
    }

    /// Number of columns of the grids.
    pub fn number_of_map_columns(&self) -> (r: usize)
        requires
            self.wf(),
        ensures
            r == self.columns(),
    {
        self.background_object_map[0].len()
    }

    /// The terrain marker of a tile; negative where there is no terrain.
    pub fn tile(&self, tile_x: usize, tile_y: usize) -> (r: i64)
        requires
            self.wf(),
            tile_x < self.columns(),
            tile_y < NUMBER_OF_MAP_ROWS,
        ensures
            r == self.tile_spec(tile_x as int, tile_y as int),
    {
        self.background_object_map[tile_y][tile_x]
    }

    /// The character marker of a tile; negative where no character lives.
    pub fn npc_marker(&self, tile_x: usize, tile_y: usize) -> (r: i64)
        requires
            self.wf(),
            tile_x < self.columns(),
            tile_y < NUMBER_OF_MAP_ROWS,
        ensures
            r == self.npc_marker_spec(tile_x as int, tile_y as int),
    {
        self.foreground_object_map[tile_y][tile_x]
    }

    /// The position of a tile in the level.
    pub fn tile_position(&self, tile: (usize, usize)) -> (r: Point)
        ensures
            r == self.tile_position_spec(tile),
    {
        assert(-0xffff_ffff_ffff_ffff * 0x8000_0000_0000_0000 <= tile.0 * self.tile_size.x
            <= 0xffff_ffff_ffff_ffff * 0x8000_0000_0000_0000) by (nonlinear_arith)
            requires
                0 <= tile.0 <= 0xffff_ffff_ffff_ffff,
                -0x8000_0000_0000_0000 <= self.tile_size.x <= 0x7fff_ffff_ffff_ffff,
        ;
        assert(-0xffff_ffff_ffff_ffff * 0x8000_0000_0000_0000 <= tile.1 * self.tile_size.y
            <= 0xffff_ffff_ffff_ffff * 0x8000_0000_0000_0000) by (nonlinear_arith)
            requires
                0 <= tile.1 <= 0xffff_ffff_ffff_ffff,
                -0x8000_0000_0000_0000 <= self.tile_size.y <= 0x7fff_ffff_ffff_ffff,
        ;
        Point {
            x: saturate_i64((tile.0 as i128) * (self.tile_size.x as i128)),
            y: saturate_i64((tile.1 as i128) * (self.tile_size.y as i128)),
        }
    }

    /// The first column of the window of visible tiles.
    pub fn first_visible_column(&self) -> (r: usize)
        requires
            self.wf(),
        ensures
            r == self.min_visible_column(),
    {
        let columns = self.number_of_map_columns();
        let first: u64 = (self.offset_x / self.tile_size.x) as u64;
        if first > columns as u64 {
            columns
        } else {
            first as usize
        }
    }

    /// The column behind the last column of the window of visible tiles.
    pub fn end_of_visible_columns(&self) -> (r: usize)
        requires
            self.wf(),
        ensures
            r == self.max_visible_column(),
    {
        let columns = self.number_of_map_columns();
        let first = self.first_visible_column();
        if self.number_of_visible_map_columns >= columns - first {
            columns
        } else {
            first + self.number_of_visible_map_columns + 1
        }
    }

    /// The visible tiles as column and row: every row of the grid, and of
    /// each row the columns from the one that the left edge of the canvas has
    /// reached up to one more than fit on the canvas, as far as the grid goes.
    pub fn visible_tiles(&self) -> (tiles: Vec<(usize, usize)>)
        requires
            self.wf(),
        ensures
            tiles@ == self.visible_tiles_spec(),
    {
        let first = self.first_visible_column();
        let end = self.end_of_visible_columns();
        let ghost width = end - first;
        let mut tiles: Vec<(usize, usize)> = Vec::new();
        let mut y: usize = 0;
        while y < NUMBER_OF_MAP_ROWS
            invariant
                y <= NUMBER_OF_MAP_ROWS,
                first == self.min_visible_column(),
                end == self.max_visible_column(),
                first <= end,
                width == end - first,
                tiles@.len() == y * width,
                forall|k: int|
                    0 <= k < tiles@.len() ==> (#[trigger] tiles@[k]) == self.visible_tiles_spec()[k],
            decreases NUMBER_OF_MAP_ROWS - y,
        {
            let mut x: usize = first;
            while x < end
                invariant
                    y < NUMBER_OF_MAP_ROWS,
                    first <= x <= end,
                    first == self.min_visible_column(),
                    end == self.max_visible_column(),
                    width == end - first,
                    tiles@.len() == y * width + (x - first),
                    forall|k: int|
                        0 <= k < tiles@.len() ==> (#[trigger] tiles@[k])
                            == self.visible_tiles_spec()[k],
                decreases end - x,
            {
                proof {
                    lemma_place(x - first, y as int, width);
                }
                tiles.push((x, y));
                x += 1;
            }
            proof {
                assert((y + 1) * width == y * width + width) by (nonlinear_arith);
            }
            y += 1;
        }
        assert(tiles@ =~= self.visible_tiles_spec());
        tiles
    }

    /// How far the level has scrolled.
    pub fn offset_x(&self) -> (r: i64)
        ensures
            r == self.offset_x,
    {
        self.offset_x
    }

    /// How fast the level scrolls.
    pub fn scroll_speed_x(&self) -> (r: i64)
        ensures
            r == self.scroll_speed_x,
    {
        self.scroll_speed_x
    }

    /// The size of a tile.
    pub fn tile_size(&self) -> (r: Point)
        ensures
            r == self.tile_size,
    {
        self.tile_size
    }

    /// The size of the canvas.
    pub fn canvas_size(&self) -> (r: Point)
        ensures
            r == self.canvas_size,
    {
        self.canvas_size
    }

    /// Keeps the level from scrolling until `resume_instant`.
    pub fn pause_scrolling(&mut self, resume_instant: u64)
        ensures
            *final(self) == (Level { scrolling_resume_instant: resume_instant, ..*old(self) }),
    {
        self.scrolling_resume_instant = resume_instant;
    }

    /// Whether `after` is the level at the start of a run that begins at
    /// `game_start_instant`: at its beginning, without characters, and
    /// waiting until then.
    pub open spec fn starts_game_to(self, after: Level<'a>, game_start_instant: u64) -> bool {
        &&& after.npcs@.len() == 0
        &&& after == (Level {
            npcs: after.npcs,
            game_mode: GameMode::Running,
            offset_x: 0,
            scrolling_resume_instant: game_start_instant,
            ..self
        })
    }

    /// Whether `after` is the level back in the menu: at its beginning,
    /// without characters, and scrolling.
    pub open spec fn starts_menu_to(self, after: Level<'a>) -> bool {
        &&& after.npcs@.len() == 0
        &&& after == (Level {
            npcs: after.npcs,
            game_mode: GameMode::Menu,
            offset_x: 0,
            scrolling_resume_instant: 0,
            ..self
        })
    }

    /// Starts a run: the level is at its beginning, without characters, and
    /// waits until `game_start_instant`.
    pub fn start_game(&mut self, game_start_instant: u64)
        requires
            old(self).wf(),
        ensures
            final(self).wf(),
            old(self).starts_game_to(*final(self), game_start_instant),
    {
        self.npcs = Vec::new();
        self.game_mode = GameMode::Running;
        self.offset_x = 0;
        self.scrolling_resume_instant = game_start_instant;
    }

    /// Returns to the menu: the level is at its beginning, without
    /// characters, and scrolls.
    pub fn start_menu(&mut self)
        requires
            old(self).wf(),
        ensures
            final(self).wf(),
            old(self).starts_menu_to(*final(self)),
    {
        self.npcs = Vec::new();
        self.game_mode = GameMode::Menu;
        self.offset_x = 0;
        self.scrolling_resume_instant = 0;
    }

    /// The test whether a character lives on a visible tile.
    pub open spec fn lives_on_visible_tile(&self) -> spec_fn(Npc<'a>) -> bool {
        |npc: Npc<'a>| self.is_visible(npc.tile_spec())
    }

    /// Whether a tile lies in a row of the grid and in the window of visible columns.
    pub fn is_tile_visible(&self, tile: (usize, usize)) -> (r: bool)
        requires
            self.wf(),
        ensures
            r == self.is_visible(tile),
    {
        self.first_visible_column() <= tile.0 && tile.0 < self.end_of_visible_columns() && tile.1
            < NUMBER_OF_MAP_ROWS
    }

    /// Whether a character lives on the tile.
    pub fn has_npc(&self, tile: (usize, usize)) -> (r: bool)
        ensures
            r == has_npc_on(self.npcs@, tile),
    {
        let mut i: usize = 0;
        while i < self.npcs.len()
            invariant
                i <= self.npcs@.len(),
                forall|k: int| 0 <= k < i ==> (#[trigger] self.npcs@[k]).tile_spec() != tile,
            decreases self.npcs@.len() - i,
        {
            let npc_tile = self.npcs[i].tile();
            if npc_tile.0 == tile.0 && npc_tile.1 == tile.1 {
                return true;
            }
            i += 1;
        }
        false
    }

    /// Lets the characters go whose tiles are not visible any more; the
    /// others stay as they are and in their order.
    pub fn remove_invisible_npcs(&mut self)
        requires
            old(self).wf(),
        ensures
            final(self).wf(),
            *final(self) == (Level { npcs: final(self).npcs, ..*old(self) }),
            final(self).npcs@ == old(self).npcs@.filter(old(self).lives_on_visible_tile()),
    {
        let ghost before = self.npcs@;
        let ghost test = self.lives_on_visible_tile();
        let ghost mut done: int = 0;
        let mut i: usize = 0;
        proof {
            reveal(Seq::filter);
            assert(before.take(0).filter(test) =~= Seq::<Npc<'a>>::empty());
            assert(before.skip(0) =~= before);
        }
        while i < self.npcs.len()
            invariant
                self.wf(),
                *self == (Level { npcs: self.npcs, ..*old(self) }),
                before == old(self).npcs@,
                test == old(self).lives_on_visible_tile(),
                0 <= done <= before.len(),
                i == before.take(done).filter(test).len(),
                self.npcs@ == before.take(done).filter(test) + before.skip(done),
            decreases before.len() - done,
        {
            let tile = self.npcs[i].tile();
            let visible = self.is_tile_visible(tile);
            proof {
                let kept = before.take(done).filter(test);
                assert(self.npcs@[i as int] == before.skip(done)[0]);
                assert(before.take(done + 1) =~= before.take(done).push(before[done]));
                before.take(done).lemma_filter_push(before[done], test);
                assert(visible == test(before[done]));
                if visible {
                    assert(kept.push(before[done]) + before.skip(done + 1) =~= kept + before.skip(
                        done,
                    ));
                } else {
                    assert((kept + before.skip(done)).remove(i as int) =~= kept + before.skip(
                        done + 1,
                    ));
                    lemma_npcs_wf_remove(self.npcs@, i as int);
                }
                done = done + 1;
            }
            if visible {
                i += 1;
            } else {
                self.npcs.remove(i);
            }
        }
        proof {
            assert(before.skip(done) =~= Seq::<Npc<'a>>::empty()) by {
                assert(i + before.skip(done).len() == self.npcs@.len());
            }
            assert(before.take(done) =~= before);
            assert(self.npcs@ =~= before.filter(test));
        }
    }

    /// The place in the order of the layers at which a character of the
    /// layer `z_order` joins: behind the first character of a higher layer.
    fn place_for(&self, z_order: i32) -> (p: usize)
        requires
            npcs_wf(self.npcs@),
        ensures
            p <= self.npcs@.len(),
            forall|k: int| 0 <= k < p ==> (#[trigger] self.npcs@[k]).z_order_spec() <= z_order,
            forall|k: int| p <= k < self.npcs@.len() ==> (#[trigger] self.npcs@[k]).z_order_spec() > z_order,
    {
        let mut p: usize = 0;
        while p < self.npcs.len() && self.npcs[p].z_order() <= z_order
            invariant
                p <= self.npcs@.len(),
                forall|k: int| 0 <= k < p ==> (#[trigger] self.npcs@[k]).z_order_spec() <= z_order,
            decreases self.npcs@.len() - p,
        {
            p += 1;
        }
        assert forall|k: int| p <= k < self.npcs@.len() implies (#[trigger] self.npcs@[k]).z_order_spec()
            > z_order by {
            if k > p {
                assert(self.npcs@[p as int].z_order_spec() <= self.npcs@[k].z_order_spec());
            }
        }
        p
    }

    /// Brings the characters to life whose tiles are visible: each visible
    /// tile with a marker that is not negative, and on which no character
    /// lives yet, gets the character of its marker, made at `now`. It joins
    /// the others in front of the first character of a higher layer, so that
    /// the characters of a layer are in the order in which they came. The
    /// characters that were there stay as they are and in their order.
    pub fn add_visible_npcs(&mut self, asset_library: &'a AssetLibrary, now: u64)
        requires
            old(self).wf(),
            asset_library.wf(),
            has_npc_assets(asset_library),
        ensures
            final(self).wf(),
            *final(self) == (Level { npcs: final(self).npcs, ..*old(self) }),
            final(self).npcs@.filter(lives_among(old(self).npcs@)) == old(self).npcs@,
            forall|i: int|
                0 <= i < final(self).npcs@.len() && !has_npc_on(
                    old(self).npcs@,
                    (#[trigger] final(self).npcs@[i]).tile_spec(),
                ) ==> old(self).spawns(asset_library, final(self).npcs@[i], now),
            forall|tile: (usize, usize)|
                old(self).is_visible(tile) && old(self).npc_marker_spec(tile.0 as int, tile.1 as int)
                    >= 0 ==> #[trigger] has_npc_on(final(self).npcs@, tile),
            new_in_order(old(self).npcs@, final(self).npcs@),
    {
        let ghost before = self.npcs@;
        let ghost test = lives_among(before);
        let tiles = self.visible_tiles();
        proof {
            lemma_filter_keeps_all(before, test);
        }
        let mut t: usize = 0;
        while t < tiles.len()
            invariant
                self.wf(),
                asset_library.wf(),
                has_npc_assets(asset_library),
                *self == (Level { npcs: self.npcs, ..*old(self) }),
                before == old(self).npcs@,
                test == lives_among(before),
                tiles@ == old(self).visible_tiles_spec(),
                t <= tiles@.len(),
                self.npcs@.filter(test) == before,
                new_in_order(before, self.npcs@),
                self.new_within(before, self.npcs@, t as int),
                forall|tile: (usize, usize)| has_npc_on(before, tile) ==> has_npc_on(self.npcs@, tile),
                forall|i: int|
                    0 <= i < self.npcs@.len() && !has_npc_on(
                        before,
                        (#[trigger] self.npcs@[i]).tile_spec(),
                    ) ==> old(self).spawns(asset_library, self.npcs@[i], now),
                forall|k: int|
                    0 <= k < t && old(self).npc_marker_spec(tiles@[k].0 as int, tiles@[k].1 as int)
                        >= 0 ==> has_npc_on(self.npcs@, #[trigger] tiles@[k]),
            decreases tiles@.len() - t,
        {
            let tile = tiles[t];
            proof {
                lemma_visible_tiles(*self, tile);
                assert(tiles@.contains(tile));
                lemma_place_of_visible_tile(*self, t as int);
            }
            let marker = self.npc_marker(tile.0, tile.1);
            if marker >= 0 && !self.has_npc(tile) {
                let npc = new_npc(asset_library, self, tile, marker, now);
                let p = self.place_for(npc.z_order());
                let ghost current = self.npcs@;
                proof {
                    lemma_insert_in_order(*self, before, current, p as int, npc, t as int);
                    lemma_npcs_wf_insert(current, p as int, npc);
                    lemma_filter_insert(current, test, p as int, npc);
                    assert forall|other: (usize, usize)| has_npc_on(current, other) implies has_npc_on(
                        current.insert(p as int, npc),
                        other,
                    ) by {
                        lemma_has_npc_on_insert(current, p as int, npc, other);
                    }
                    lemma_has_npc_on_insert(current, p as int, npc, tile);
                    assert forall|i: int|
                        0 <= i < current.insert(p as int, npc).len() && !has_npc_on(
                            before,
                            (#[trigger] current.insert(p as int, npc)[i]).tile_spec(),
                        ) implies old(self).spawns(
                        asset_library,
                        current.insert(p as int, npc)[i],
                        now,
                    ) by {
                        if i < p {
                            assert(current.insert(p as int, npc)[i] == current[i]);
                        } else if i > p {
                            assert(current.insert(p as int, npc)[i] == current[i - 1]);
                        }
                    }
                }
                self.npcs.insert(p, npc);
            }
            t += 1;
        }
        proof {
            assert forall|tile: (usize, usize)|
                old(self).is_visible(tile) && old(self).npc_marker_spec(
                    tile.0 as int,
                    tile.1 as int,
                ) >= 0 implies #[trigger] has_npc_on(self.npcs@, tile) by {
                lemma_visible_tiles(*old(self), tile);
                let k = choose|k: int| 0 <= k < tiles@.len() && tiles@[k] == tile;
                assert(has_npc_on(self.npcs@, tiles@[k]));
            }
        }
    }

    /// The place of a visible tile among the visible tiles.
    pub open spec fn place_of(&self, tile: (usize, usize)) -> int {
        (tile.0 - self.min_visible_column()) + tile.1 * self.visible_width()
    }

    /// Whether every character that was not among `before` lives on one of
    /// the first `n` visible tiles.
    pub open spec fn new_within(&self, before: Seq<Npc<'a>>, npcs: Seq<Npc<'a>>, n: int) -> bool {
        forall|i: int|
            0 <= i < npcs.len() && !has_npc_on(before, (#[trigger] npcs[i]).tile_spec())
                ==> self.is_visible(npcs[i].tile_spec()) && self.place_of(npcs[i].tile_spec())
                < n
    }

    /// Whether `after` is the level after its characters have ticked at `now`.
    pub open spec fn npcs_tick_to(self, after: Level<'a>, sleigh: &Sleigh, now: u64) -> bool {
        &&& after == (Level { npcs: after.npcs, ..self })
        &&& after.npcs@.len() == self.npcs@.len()
        &&& forall|i: int|
            0 <= i < self.npcs@.len() ==> (#[trigger] self.npcs@[i]).ticks_to(
                after.npcs@[i],
                self.offset_x,
                self.scroll_speed_x,
                sleigh,
                now,
            )
    }

    /// Whether the values after are those of the test of the characters of
    /// the level against the sleigh at `now`.
    pub open spec fn npcs_collide_to(
        self,
        after: Level<'a>,
        score: Score,
        score_after: Score,
        sleigh: Sleigh<'a>,
        sleigh_after: Sleigh<'a>,
        now: u64,
    ) -> bool {
        &&& after == (Level { npcs: after.npcs, ..self })
        &&& (after.npcs@, score_after, sleigh_after) == {
            let outcome = self.collided(score, sleigh, now);
            (outcome.0, outcome.1, outcome.2)
        }
    }

    /// The outcome of the test of the characters of the level against the
    /// sleigh at `now`.
    pub open spec fn collided(&self, score: Score, sleigh: Sleigh<'a>, now: u64) -> (
        Seq<Npc<'a>>,
        Score,
        Sleigh<'a>,
        Seq<Sound>,
    ) {
        npcs_collided(
            self.npcs@,
            self.game_mode == GameMode::Running,
            score,
            self.offset_x,
            sleigh,
            now,
            self.npcs@.len() as int,
        )
    }

    /// Whether `after` is the level after the characters on tiles that are
    /// not visible any more have gone and those of the visible tiles have
    /// come to life at `now`: the characters that stay are as they were and
    /// in their order; every other character is the character of the marker
    /// of its visible tile; every visible tile with a marker has its
    /// character; and in each layer the new characters stand behind those
    /// that stay, in the order of their tiles.
    pub open spec fn npcs_update_to(
        self,
        after: Level<'a>,
        asset_library: &'a AssetLibrary,
        now: u64,
    ) -> bool {
        let kept = self.npcs@.filter(self.lives_on_visible_tile());
        &&& after == (Level { npcs: after.npcs, ..self })
        &&& after.npcs@.filter(lives_among(kept)) == kept
        &&& forall|i: int|
            0 <= i < after.npcs@.len() && !has_npc_on(kept, (#[trigger] after.npcs@[i]).tile_spec())
                ==> self.spawns(asset_library, after.npcs@[i], now)
        &&& forall|tile: (usize, usize)|
            self.is_visible(tile) && self.npc_marker_spec(tile.0 as int, tile.1 as int) >= 0
                ==> #[trigger] has_npc_on(after.npcs@, tile)
        &&& new_in_order(kept, after.npcs@)
    }

    /// Whether the values are those of the steps of a tick of the level at
    /// `now`, one after the other: the level scrolls; the characters tick; the
    /// characters are tested against the sleigh; the sleigh is tested against
    /// the terrain; the characters of tiles that are not visible any more go
    /// and those of the visible tiles come to life.
    pub open spec fn logic_steps(
        self,
        after: Level<'a>,
        score: Score,
        score_after: Score,
        landscape: Landscape<'a>,
        landscape_after: Landscape<'a>,
        sleigh: Sleigh<'a>,
        sleigh_after: Sleigh<'a>,
        sounds: Seq<Sound>,
        asset_library: &'a AssetLibrary,
        now: u64,
        ticked: Level<'a>,
        collided: Level<'a>,
        collided_score: Score,
        collided_sleigh: Sleigh<'a>,
        crashed: Level<'a>,
        crash_sound: Option<Sound>,
    ) -> bool {
        let scrolled = self.scrolled(
            sleigh.position.x,
            clamp_i64(self.canvas_size.x - sleigh.size.x),
            now,
        );
        &&& scrolled.npcs_tick_to(ticked, &sleigh, now)
        &&& ticked.npcs_collide_to(collided, score, collided_score, sleigh, collided_sleigh, now)
        &&& collided_sleigh.responds_to_level(
            sleigh_after,
            collided_score,
            score_after,
            landscape,
            landscape_after,
            collided,
            crashed,
            crash_sound,
            now,
        )
        &&& crashed.npcs_update_to(after, asset_library, now)
        &&& sounds == npc_tick_sounds(
            scrolled.npcs@,
            scrolled.offset_x,
            scrolled.scroll_speed_x,
            &sleigh,
            now,
            scrolled.npcs@.len() as int,
        ) + ticked.collided(score, sleigh, now).3 + match crash_sound {
            Some(sound) => seq![sound],
            None => Seq::empty(),
        }
    }

    /// Whether the values after are those of a tick of the level at `now`.
    pub open spec fn does_logic_to(
        self,
        after: Level<'a>,
        score: Score,
        score_after: Score,
        landscape: Landscape<'a>,
        landscape_after: Landscape<'a>,
        sleigh: Sleigh<'a>,
        sleigh_after: Sleigh<'a>,
        sounds: Seq<Sound>,
        asset_library: &'a AssetLibrary,
        now: u64,
    ) -> bool {
        exists|
            ticked: Level<'a>,
            collided: Level<'a>,
            collided_score: Score,
            collided_sleigh: Sleigh<'a>,
            crashed: Level<'a>,
            crash_sound: Option<Sound>,
        | #[trigger]
            self.logic_steps(
                after,
                score,
                score_after,
                landscape,
                landscape_after,
                sleigh,
                sleigh_after,
                sounds,
                asset_library,
                now,
                ticked,
                collided,
                collided_score,
                collided_sleigh,
                crashed,
                crash_sound,
            )
    }

    /// Lets the level live up to `now`.
    ///
    /// The level scrolls, at the speed that belongs to the mode and to where
    /// the sleigh is. Then every character ticks. Then every character is
    /// tested against the sleigh, and the sleigh against the terrain. At last
    /// the characters of tiles that are not visible any more go, and those of
    /// the visible tiles come to life. Returns the sounds, in this order.
    pub fn do_logic(
        &mut self,
        asset_library: &'a AssetLibrary,
        score: &mut Score,
        landscape: &mut Landscape<'a>,
        sleigh: &mut Sleigh<'a>,
        now: u64,
    ) -> (sounds: Vec<Sound>)
        requires
            old(self).wf(),
            old(sleigh).wf(),
            asset_library.wf(),
            has_npc_assets(asset_library),
            old(self).canvas_size.x > old(sleigh).size.x,
        ensures
            final(self).wf(),
            final(sleigh).wf(),
            old(score).wf() ==> final(score).wf(),
            old(landscape).wf() ==> final(landscape).wf(),
            old(self).does_logic_to(
                *final(self),
                *old(score),
                *final(score),
                *old(landscape),
                *final(landscape),
                *old(sleigh),
                *final(sleigh),
                sounds@,
                asset_library,
                now,
            ),
            final(self).canvas_size == old(self).canvas_size,
            final(sleigh).size == old(sleigh).size,
    {
        self.scroll(sleigh.position().x, sub_saturating(self.canvas_size.x, sleigh.size().x), now);
        let mut sounds = self.tick_npcs(sleigh, now);
        let ghost ticked = *self;
        let ghost tick_sounds = sounds@;
        let mut collision_sounds = self.check_collisions(score, sleigh, now);
        let ghost collided = *self;
        let ghost collided_score = *score;
        let ghost collided_sleigh = *sleigh;
        let ghost collision_sounds_view = collision_sounds@;
        sounds.append(&mut collision_sounds);
        let crash_sound = sleigh.check_collision_with_level(score, landscape, self, now);
        let ghost crashed = *self;
        match crash_sound {
            Some(sound) => {
                sounds.push(sound);
            },
            None => {},
        }
        self.remove_invisible_npcs();
        self.add_visible_npcs(asset_library, now);
        proof {
            assert(sounds@ =~= tick_sounds + collision_sounds_view + match crash_sound {
                Some(sound) => seq![sound],
                None => Seq::empty(),
            });
            assert(old(self).logic_steps(
                *self,
                *old(score),
                *score,
                *old(landscape),
                *landscape,
                *old(sleigh),
                *sleigh,
                sounds@,
                asset_library,
                now,
                ticked,
                collided,
                collided_score,
                collided_sleigh,
                crashed,
                crash_sound,
            ));
        }
        sounds
    }

    /// What is drawn of the terrain on a tile.
    pub open spec fn tile_sprite(&self, tile: (usize, usize)) -> Sprite<'a> {
        Sprite {
            image: self.image,
            position: Point {
                x: clamp_i64(self.tile_position_spec(tile).x - self.offset_x),
                y: self.tile_position_spec(tile).y,
            },
            frame: clamp_u64(self.tile_spec(tile.0 as int, tile.1 as int) * crate::units::UNITS_PER_FRAME),
        }
    }

    /// What is drawn of the terrain on the first `n` visible tiles: each
    /// tile whose marker is not negative, in the order of the visible tiles.
    pub open spec fn tile_sprites(&self, n: int) -> Seq<Sprite<'a>>
        decreases n,
    {
        if n <= 0 {
            Seq::empty()
        } else {
            let tile = self.visible_tiles_spec()[n - 1];
            if self.tile_spec(tile.0 as int, tile.1 as int) >= 0 {
                self.tile_sprites(n - 1).push(self.tile_sprite(tile))
            } else {
                self.tile_sprites(n - 1)
            }
        }
    }

    /// What is drawn of the level: the terrain of the visible tiles, then
    /// the characters in the order of their layers.
    pub open spec fn sprites(&self) -> Seq<Sprite<'a>> {
        self.tile_sprites(self.visible_tiles_spec().len() as int) + npcs_sprites(
            self.npcs@,
            self.offset_x,
            self.npcs@.len() as int,
        )
    }

    /// What is drawn of the terrain, tile by tile.
    pub fn draw_background(&self) -> (sprites: Vec<Sprite<'a>>)
        requires
            self.wf(),
        ensures
            sprites@ == self.tile_sprites(self.visible_tiles_spec().len() as int),
    {
        let tiles = self.visible_tiles();
        let mut sprites: Vec<Sprite<'a>> = Vec::new();
        let mut t: usize = 0;
        while t < tiles.len()
            invariant
                self.wf(),
                t <= tiles@.len(),
                tiles@ == self.visible_tiles_spec(),
                sprites@ == self.tile_sprites(t as int),
            decreases tiles@.len() - t,
        {
            let tile = tiles[t];
            proof {
                lemma_visible_tiles(*self, tile);
                assert(tiles@.contains(tile));
            }
            let marker = self.tile(tile.0, tile.1);
            if marker >= 0 {
                let position = self.tile_position(tile);
                sprites.push(
                    Sprite {
                        image: self.image,
                        position: Point::new(sub_saturating(position.x, self.offset_x), position.y),
                        frame: add_scaled_u64(0, marker as u64, 1000),
                    },
                );
            }
            t += 1;
        }
        sprites
    }

    /// What is drawn of the level, from the back to the front.
    pub fn draw(&self) -> (sprites: Vec<Sprite<'a>>)
        requires
            self.wf(),
        ensures
            sprites@ == self.sprites(),
    {
        let mut sprites = self.draw_background();
        let mut i: usize = 0;
        while i < self.npcs.len()
            invariant
                self.wf(),
                i <= self.npcs@.len(),
                sprites@ == self.tile_sprites(self.visible_tiles_spec().len() as int)
                    + npcs_sprites(self.npcs@, self.offset_x, i as int),
            decreases self.npcs@.len() - i,
        {
            let ghost before = sprites@;
            let mut more = self.npcs[i].draw(self.offset_x);
            let ghost added = more@;
            sprites.append(&mut more);
            assert(sprites@ =~= self.tile_sprites(self.visible_tiles_spec().len() as int) + (
            npcs_sprites(self.npcs@, self.offset_x, i as int) + added));
            i += 1;
        }
        sprites
    }

    /// Whether `npc` is a character as this level brings it to life at `now`:
    /// it lives on a visible tile with a marker that is not negative, and is
    /// the character of that marker.
    pub open spec fn spawns(&self, asset_library: &'a AssetLibrary, npc: Npc<'a>, now: u64) -> bool {
        let tile = npc.tile_spec();
        &&& self.is_visible(tile)
        &&& self.npc_marker_spec(tile.0 as int, tile.1 as int) >= 0
        &&& is_new_npc(
            npc,
            asset_library,
            self.canvas_size,
            self.tile_size,
            tile,
            self.npc_marker_spec(tile.0 as int, tile.1 as int),
            now,
        )
    }

    /// Lets every character live up to `now`. Returns their sounds.
    pub fn tick_npcs(&mut self, sleigh: &Sleigh, now: u64) -> (sounds: Vec<Sound>)
        requires
            old(self).wf(),
        ensures
            final(self).wf(),
            *final(self) == (Level { npcs: final(self).npcs, ..*old(self) }),
            same_places(old(self).npcs@, final(self).npcs@),
            forall|i: int|
                0 <= i < old(self).npcs@.len() ==> (#[trigger] old(self).npcs@[i]).ticks_to(
                    final(self).npcs@[i],
                    old(self).offset_x,
                    old(self).scroll_speed_x,
                    sleigh,
                    now,
                ),
            sounds@ == npc_tick_sounds(
                old(self).npcs@,
                old(self).offset_x,
                old(self).scroll_speed_x,
                sleigh,
                now,
                old(self).npcs@.len() as int,
            ),
    {
        let level_offset_x = self.offset_x;
        let level_scroll_speed_x = self.scroll_speed_x;
        let mut sounds: Vec<Sound> = Vec::new();
        let mut i: usize = 0;
        while i < self.npcs.len()
            invariant
                i <= self.npcs@.len(),
                *self == (Level { npcs: self.npcs, ..*old(self) }),
                level_offset_x == old(self).offset_x,
                level_scroll_speed_x == old(self).scroll_speed_x,
                same_places(old(self).npcs@, self.npcs@),
                forall|k: int| 0 <= k < self.npcs@.len() ==> (#[trigger] self.npcs@[k]).wf(),
                forall|k: int|
                    0 <= k < i ==> (#[trigger] old(self).npcs@[k]).ticks_to(
                        self.npcs@[k],
                        level_offset_x,
                        level_scroll_speed_x,
                        sleigh,
                        now,
                    ),
                forall|k: int| i <= k < self.npcs@.len() ==> self.npcs@[k] == old(self).npcs@[k],
                sounds@ == npc_tick_sounds(
                    old(self).npcs@,
                    level_offset_x,
                    level_scroll_speed_x,
                    sleigh,
                    now,
                    i as int,
                ),
            decreases self.npcs@.len() - i,
        {
            let sound = self.npcs[i].do_logic(level_offset_x, level_scroll_speed_x, sleigh, now);
            match sound {
                Some(sound) => {
                    sounds.push(sound);
                },
                None => {},
            }
            i += 1;
        }
        sounds
    }

    /// Tests every character against the sleigh at `now`, one after the
    /// other; outside a run only the finish is tested. Returns the sounds.
    pub fn check_collisions(&mut self, score: &mut Score, sleigh: &mut Sleigh<'a>, now: u64) -> (sounds:
        Vec<Sound>)
        requires
            old(self).wf(),
            old(sleigh).wf(),
        ensures
            final(self).wf(),
            final(sleigh).wf(),
            old(score).wf() ==> final(score).wf(),
            *final(self) == (Level { npcs: final(self).npcs, ..*old(self) }),
            same_places(old(self).npcs@, final(self).npcs@),
            (final(self).npcs@, *final(score), *final(sleigh), sounds@) == npcs_collided(
                old(self).npcs@,
                old(self).game_mode == GameMode::Running,
                *old(score),
                old(self).offset_x,
                *old(sleigh),
                now,
                old(self).npcs@.len() as int,
            ),
            final(sleigh).size == old(sleigh).size,
    {
        let level_offset_x = self.offset_x;
        let running = self.game_mode == GameMode::Running;
        let mut sounds: Vec<Sound> = Vec::new();
        let mut i: usize = 0;
        while i < self.npcs.len()
            invariant
                i <= self.npcs@.len(),
                *self == (Level { npcs: self.npcs, ..*old(self) }),
                level_offset_x == old(self).offset_x,
                running == (old(self).game_mode == GameMode::Running),
                sleigh.wf(),
                sleigh.size == old(sleigh).size,
                old(score).wf() ==> score.wf(),
                same_places(old(self).npcs@, self.npcs@),
                forall|k: int| 0 <= k < self.npcs@.len() ==> (#[trigger] self.npcs@[k]).wf(),
                forall|k: int| i <= k < self.npcs@.len() ==> self.npcs@[k] == old(self).npcs@[k],
                (self.npcs@.take(i as int), *score, *sleigh, sounds@) == npcs_collided(
                    old(self).npcs@,
                    running,
                    *old(score),
                    level_offset_x,
                    *old(sleigh),
                    now,
                    i as int,
                ),
            decreases self.npcs@.len() - i,
        {
            let ghost before = self.npcs@;
            if running || self.npcs[i].check_collision_with_sleigh_in_menu_mode() {
                let sound = self.npcs[i].check_collision_with_sleigh(
                    score,
                    level_offset_x,
                    sleigh,
                    now,
                );
                match sound {
                    Some(sound) => {
                        sounds.push(sound);
                    },
                    None => {},
                }
            }
            assert(self.npcs@.take(i + 1) =~= before.take(i as int).push(self.npcs@[i as int]));
            i += 1;
        }
        assert(self.npcs@.take(self.npcs@.len() as int) =~= self.npcs@);
        sounds
    }

    /// Lets the level scroll up to `now`, at the speed that belongs to the
    /// mode and to where the sleigh is between the left edge and
    /// `play_width`; a level that is paused only takes the speed.
    pub fn scroll(&mut self, sleigh_position_x: i64, play_width: i64, now: u64)
        requires
            old(self).wf(),
            play_width > 0,
        ensures
            *final(self) == old(self).scrolled(sleigh_position_x, play_width, now),
            final(self).wf(),
    {
        let seconds_since_last_update = elapsed(self.last_update_instant, now);
        self.scroll_speed_x = if self.game_mode == GameMode::Menu {
            self.menu_scroll_speed_x
        } else {
            add_saturating(
                self.min_scroll_speed_x,
                mul_div(
                    sleigh_position_x,
                    sub_saturating(self.max_scroll_speed_x, self.min_scroll_speed_x),
                    play_width,
                ),
            )
        };
        let moved = add_scaled(self.offset_x, self.scroll_speed_x, seconds_since_last_update);
        if now >= self.scrolling_resume_instant && moved >= 0 {
            self.offset_x = moved;
        }
        self.last_update_instant = now;
    }
}

/// The place in the window of the tile at column `column` of row `row`.
proof fn lemma_place(column: int, row: int, width: int)
    requires
        0 <= column < width,
        0 <= row < NUMBER_OF_MAP_ROWS,
    ensures
        0 <= column + row * width < NUMBER_OF_MAP_ROWS * width,
        (column + row * width) / width == row,
        (column + row * width) % width == column,
{
    assert(0 <= column + row * width < NUMBER_OF_MAP_ROWS * width) by (nonlinear_arith)
        requires
            0 <= column < width,
            0 <= row < NUMBER_OF_MAP_ROWS,
    ;
    vstd::arithmetic::div_mod::lemma_fundamental_div_mod_converse(
        column + row * width,
        width,
        row,
        column,
    );
}

/// The row and the column of the `k`-th place of a window with `width` columns.
proof fn lemma_row_and_column(k: int, width: int)
    requires
        0 <= k < NUMBER_OF_MAP_ROWS * width,
    ensures
        width > 0,
        0 <= k % width < width,
        0 <= k / width < NUMBER_OF_MAP_ROWS,
        k == (k / width) * width + k % width,
{
    assert(width > 0) by (nonlinear_arith)
        requires
            0 <= k < NUMBER_OF_MAP_ROWS * width,
    ;
    vstd::arithmetic::div_mod::lemma_fundamental_div_mod(k, width);
    vstd::arithmetic::div_mod::lemma_mod_bound(k, width);
    assert(0 <= k / width < NUMBER_OF_MAP_ROWS) by (nonlinear_arith)
        requires
            0 <= k < NUMBER_OF_MAP_ROWS * width,
            k == width * (k / width) + k % width,
            0 <= k % width < width,
    ;
    assert(width * (k / width) == (k / width) * width) by (nonlinear_arith);
}

impl<'a> Landscape<'a> {
    /// The image is well formed and has a width, and the offset lies on it.
    pub open spec fn wf(&self) -> bool {
        &&& self.image.wf()
        &&& self.size.x > 0
        &&& 0 <= self.offset_x < self.size.x
    }

    /// The landscape after it has scrolled up to `now` behind a level that
    /// scrolls at `level_scroll_speed_x`: at a tenth of that speed, and from
    /// the right edge on again from the left. A landscape that is paused, and
    /// one that would scroll backwards over the left edge, stays.
    pub open spec fn scrolled(self, level_scroll_speed_x: i64, now: u64) -> Landscape<'a> {
        let moved = clamp_i64(
            self.offset_x + quotient(level_scroll_speed_x as int, 10) * elapsed_spec(
                self.last_update_instant,
                now,
            ),
        );
        Landscape {
            offset_x: if now < self.scrolling_resume_instant || moved < 0 {
                self.offset_x
            } else {
                (moved % self.size.x) as i64
            },
            last_update_instant: now,
            ..self
        }
    }

    /// A landscape that has not scrolled yet.
    pub fn new(image: &'a Image) -> (r: Landscape<'a>)
        requires
            image.wf(),
            image.frame_width() > 0,
        ensures
            r.wf(),
            r == (Landscape {
                image,
                offset_x: 0,
                last_update_instant: 0,
                scrolling_resume_instant: 0,
                size: image.size_spec(),
            }),
    {
        Landscape {
            image,
            offset_x: 0,
            last_update_instant: 0,
            scrolling_resume_instant: 0,
            size: image.size(),
        }
    }

    /// Keeps the landscape from scrolling until `resume_instant`.
    pub fn pause_scrolling(&mut self, resume_instant: u64)
        ensures
            *final(self) == (Landscape { scrolling_resume_instant: resume_instant, ..*old(self) }),
    {
        self.scrolling_resume_instant = resume_instant;
    }

    /// Starts a run: the landscape waits at its beginning until `game_start_instant`.
    pub fn start_game(&mut self, game_start_instant: u64)
        requires
            old(self).wf(),
        ensures
            final(self).wf(),
            *final(self) == (Landscape {
                offset_x: 0,
                scrolling_resume_instant: game_start_instant,
                ..*old(self)
            }),
    {
        self.offset_x = 0;
        self.scrolling_resume_instant = game_start_instant;
    }

    /// Returns to the menu: the landscape scrolls on from where it is.
    pub fn start_menu(&mut self)
        ensures
            *final(self) == (Landscape { scrolling_resume_instant: 0, ..*old(self) }),
    {
        self.scrolling_resume_instant = 0;
    }

    /// Lets the landscape scroll up to `now`.
    pub fn do_logic(&mut self, level: &Level, now: u64)
        requires
            old(self).wf(),
        ensures
            final(self).wf(),
            *final(self) == old(self).scrolled(level.scroll_speed_x, now),
    {
        let seconds_since_last_update = elapsed(self.last_update_instant, now);
        let scroll_speed_x = level.scroll_speed_x / 10;
        let moved = add_scaled(self.offset_x, scroll_speed_x, seconds_since_last_update);
        if now >= self.scrolling_resume_instant && moved >= 0 {
            self.offset_x = moved % self.size.x;
        }
        self.last_update_instant = now;
    }

    /// The two parts in which the landscape is drawn, each as the column of
    /// the image at which it starts, its width, and the column of the canvas
    /// at which it is put, all in pixels: first the part from the offset to
    /// the right edge, at the left of the canvas, then the part before the
    /// offset, to the right of the first.
    pub fn draw(&self) -> (r: ((i64, i64, i64), (i64, i64, i64)))
        requires
            self.wf(),
        ensures
            r.0.0 == crate::asset::pixel_floor(self.offset_x),
            r.0.1 == crate::asset::pixel_floor((self.size.x - self.offset_x) as i64),
            r.0.2 == 0,
            r.1.0 == 0,
            r.1.1 == crate::asset::pixel_floor(self.offset_x),
            r.1.2 == crate::asset::pixel_floor((self.size.x - self.offset_x) as i64),
    {
        let offset = crate::asset::floor_to_pixel(self.offset_x);
        let rest = crate::asset::floor_to_pixel(self.size.x - self.offset_x);
        ((offset, rest, 0), (0, offset, rest))
    }
}

/// The `k`-th visible tile is visible and has the place `k`, and a visible
/// tile whose place is lower comes before it.
pub proof fn lemma_place_of_visible_tile(level: Level, k: int)
    requires
        level.wf(),
        0 <= k < level.visible_tiles_spec().len(),
    ensures
        level.is_visible(level.visible_tiles_spec()[k]),
        level.place_of(level.visible_tiles_spec()[k]) == k,
        forall|tile: (usize, usize)|
            level.is_visible(tile) && level.place_of(tile) < k ==> #[trigger] comes_before(
                tile,
                level.visible_tiles_spec()[k],
            ),
{
    let width = level.visible_width();
    let tile = level.visible_tiles_spec()[k];
    lemma_visible_tiles(level, tile);
    lemma_row_and_column(k, width);
    assert(level.visible_tiles_spec().contains(tile));
    assert forall|other: (usize, usize)|
        level.is_visible(other) && level.place_of(other) < k implies #[trigger] comes_before(
        other,
        tile,
    ) by {
        let column = other.0 - level.min_visible_column();
        let row = other.1 as int;
        assert(0 <= column < width);
        if row > k / width {
            assert(row * width >= (k / width + 1) * width) by (nonlinear_arith)
                requires
                    row >= k / width + 1,
                    width > 0,
            ;
            assert((k / width + 1) * width == (k / width) * width + width) by (nonlinear_arith);
        }
    }
}

/// The new characters stay in order when a character for the `t`-th visible
/// tile joins the others in front of the first character of a higher layer.
proof fn lemma_insert_in_order<'a>(
    level: Level<'a>,
    before: Seq<Npc<'a>>,
    current: Seq<Npc<'a>>,
    p: int,
    npc: Npc<'a>,
    t: int,
)
    requires
        level.wf(),
        0 <= t < level.visible_tiles_spec().len(),
        npc.tile_spec() == level.visible_tiles_spec()[t],
        0 <= p <= current.len(),
        new_in_order(before, current),
        level.new_within(before, current, t),
        !has_npc_on(current, npc.tile_spec()),
        forall|tile: (usize, usize)| has_npc_on(before, tile) ==> has_npc_on(current, tile),
        forall|k: int| 0 <= k < p ==> (#[trigger] current[k]).z_order_spec() <= npc.z_order_spec(),
        forall|k: int| p <= k < current.len() ==> (#[trigger] current[k]).z_order_spec() > npc.z_order_spec(),
    ensures
        new_in_order(before, current.insert(p, npc)),
        level.new_within(before, current.insert(p, npc), t + 1),
{
    let more = current.insert(p, npc);
    lemma_place_of_visible_tile(level, t);
    assert forall|i: int|
        0 <= i < more.len() && !has_npc_on(before, (#[trigger] more[i]).tile_spec()) implies level.is_visible(
        more[i].tile_spec(),
    ) && level.place_of(more[i].tile_spec()) < t + 1 by {
        if i < p {
            assert(more[i] == current[i]);
        } else if i > p {
            assert(more[i] == current[i - 1]);
        }
    }
    assert forall|i: int, j: int|
        0 <= i < j < more.len() && (#[trigger] more[i]).z_order_spec() == (
        #[trigger] more[j]).z_order_spec() && !has_npc_on(
            before,
            more[i].tile_spec(),
        ) implies !has_npc_on(before, more[j].tile_spec()) && comes_before(
        more[i].tile_spec(),
        more[j].tile_spec(),
    ) by {
        let i0 = if i < p { i } else { i - 1 };
        let j0 = if j < p { j } else { j - 1 };
        if i != p {
            assert(more[i] == current[i0]);
        }
        if j != p {
            assert(more[j] == current[j0]);
        }
        if j == p {
            assert(comes_before(more[i].tile_spec(), level.visible_tiles_spec()[t]));
        }
    }
}

/// One character for each tile: no two characters of a well-formed level
/// live on the same tile. Every function that changes a level keeps it well
/// formed, so this holds after any sequence of ticks.
pub proof fn lemma_one_npc_for_each_tile(level: Level, i: int, j: int)
    requires
        level.wf(),
        0 <= i < level.npcs@.len(),
        0 <= j < level.npcs@.len(),
        i != j,
    ensures
        level.npcs@[i].tile_spec() != level.npcs@[j].tile_spec(),
{
    if i < j {
        assert(level.npcs@[i].tile_spec() != level.npcs@[j].tile_spec());
    } else {
        assert(level.npcs@[j].tile_spec() != level.npcs@[i].tile_spec());
    }
}

/// Viewport windowing: a tile is among the visible tiles exactly if it lies
/// in a row of the grid and in the window of visible columns, and no tile is
/// listed twice.
pub proof fn lemma_visible_tiles(level: Level, tile: (usize, usize))
    requires
        level.wf(),
    ensures
        level.visible_tiles_spec().contains(tile) <==> level.is_visible(tile),
        level.visible_tiles_spec().no_duplicates(),
        0 <= level.min_visible_column() <= level.max_visible_column() <= level.columns(),
{
    let tiles = level.visible_tiles_spec();
    let width = level.visible_width();
    let first = level.min_visible_column();
    assert(0 <= first) by (nonlinear_arith)
        requires
            first == (if level.offset_x as int / level.tile_size.x as int > level.columns() {
                level.columns() as int
            } else {
                level.offset_x as int / level.tile_size.x as int
            }),
            level.offset_x >= 0,
            level.tile_size.x > 0,
    ;
    if level.is_visible(tile) {
        let k = (tile.0 - first) + tile.1 * width;
        lemma_place(tile.0 - first, tile.1 as int, width);
        assert(tiles[k] == tile);
    }
    if tiles.contains(tile) {
        let k = choose|k: int| 0 <= k < tiles.len() && tiles[k] == tile;
        lemma_row_and_column(k, width);
        assert(level.is_visible(tile));
    }
    assert forall|i: int, j: int| 0 <= i < tiles.len() && 0 <= j < tiles.len() && i != j implies tiles[i]
        != tiles[j] by {
        lemma_row_and_column(i, width);
        lemma_row_and_column(j, width);
        if tiles[i] == tiles[j] {
            assert(i % width == j % width);
            assert(i / width == j / width);
        }
    }
}

} // verus!
