//! The block grid: a newest-first, row-wise view of the chain that scrolls
//! with the selection.

use crate::app::App;
use crate::text::{decimal, decimal_len, decimal_string};
use crate::types::BlockResponse;
use vstd::prelude::*;

verus! {

/// Columns that a block takes in the grid.
pub const BLOCK_W: u16 = 2;

/// Columns from one block to the next.
pub const CELL_W: u16 = 3;

/// Lines from one row of blocks to the next.
pub const ROW_STRIDE: u16 = 2;

/// The least width in which the grid is drawn.
pub const MIN_GRID_WIDTH: u16 = 10;

/// The size of an area of character cells. Positions within an area are
/// counted from its top left corner.
#[derive(Clone, Copy, Debug, PartialEq, Eq)]
pub struct Area {
    pub width: u16,
    pub height: u16,
}

/// The rows that `total` items fill at `per_row` items a row.
pub open spec fn rows_for(total: int, per_row: int) -> int {
    if total <= 0 {
        0
    } else {
        (total - 1) / per_row + 1
    }
}

/// The grid position of the block at `index` among `total`: the newest
/// block stands first.
pub open spec fn grid_position(total: int, index: int) -> int {
    if index < total {
        total - 1 - index
    } else {
        0
    }
}

/// The scroll offset that keeps `selected_row` among the `visible` rows
/// shown from the offset on: the row itself if it lies above them, the
/// least offset that shows it if it lies below, and `offset` otherwise.
pub open spec fn scrolled(offset: int, selected_row: int, visible: int) -> int {
    if selected_row < offset {
        selected_row
    } else if visible > 0 && selected_row >= offset + visible {
        selected_row - visible + 1
    } else {
        offset
    }
}

/// The exec form of [`scrolled`]. With at least one visible row the
/// selected row is among those shown afterwards.
pub fn scroll_to(offset: usize, selected_row: usize, visible: usize) -> (r: usize)
    ensures
        r == scrolled(offset as int, selected_row as int, visible as int),
        visible > 0 ==> r <= selected_row < r + visible,
{
    if selected_row < offset {
        selected_row
    } else if visible > 0 && selected_row - offset >= visible {
        selected_row - visible + 1
    } else {
        offset
    }
}

/// Where the parts of the grid stand in an area.
#[derive(Clone, Copy, Debug, PartialEq, Eq)]
pub struct GridLayout {
    /// Width of the row labels: the digits of the newest height.
    pub gutter_digits: usize,
    /// Leftmost column of the blocks, after the labels and one blank.
    pub grid_x: u16,
    /// Columns that the blocks may take.
    pub grid_w: u16,
    pub blocks_per_row: usize,
    pub total_rows: usize,
    pub visible_rows: usize,
    /// The row of the selected block.
    pub selected_row: usize,
    /// The topmost row shown.
    pub scroll_offset: usize,
    /// Whether there are more rows than fit, so that a scrollbar is due.
    pub scrollbar: bool,
}

/// The layout of `total` blocks in `area`, the newest of height
/// `newest_height`, with the block at `selected` selected and the grid
/// scrolled to `offset` before. `None` where nothing can be drawn: no
/// block, an area under ten columns or without lines, or no room for a
/// single block beside the labels and the scrollbar column.
pub open spec fn grid_layout(
    total: int,
    newest_height: u64,
    selected: int,
    offset: int,
    area: Area,
) -> Option<GridLayout> {
    let digits = decimal(newest_height as nat).len();
    let grid_w = if area.width > digits + 2 {
        area.width - (digits + 2)
    } else {
        0
    };
    let per_row = grid_w / CELL_W as int;
    if area.width < MIN_GRID_WIDTH || area.height == 0 || total <= 0 || per_row == 0 {
        None
    } else {
        let total_rows = rows_for(total, per_row);
        let visible = (area.height + 1) / ROW_STRIDE as int;
        let selected_row = grid_position(total, selected) / per_row;
        Some(
            GridLayout {
                gutter_digits: digits as usize,
                grid_x: (digits + 1) as u16,
                grid_w: grid_w as u16,
                blocks_per_row: per_row as usize,
                total_rows: total_rows as usize,
                visible_rows: visible as usize,
                selected_row: selected_row as usize,
                scroll_offset: scrolled(offset, selected_row, visible) as usize,
                scrollbar: total_rows > visible,
            },
        )
    }
}

/// The first row of a grid with at least `row + 1` rows starts within
/// the items.
pub proof fn lemma_row_start(total: int, per_row: int, row: int)
    requires
        total >= 1,
        per_row >= 1,
        0 <= row < rows_for(total, per_row),
    ensures
        0 <= row * per_row <= total - 1,
{
    let q = (total - 1) / per_row;
    assert(q * per_row <= total - 1) by (nonlinear_arith)
        requires
            q == (total - 1) / per_row,
            per_row >= 1,
            total >= 1,
    ;
    assert(0 <= row * per_row <= q * per_row) by (nonlinear_arith)
        requires
            0 <= row <= q,
            per_row >= 1,
    ;
}

/// A position within the items lies on one of their rows.
pub proof fn lemma_row_of_position(total: int, per_row: int, pos: int)
    requires
        per_row >= 1,
        0 <= pos < total,
    ensures
        0 <= pos / per_row < rows_for(total, per_row),
{
    assert(0 <= pos / per_row <= (total - 1) / per_row) by (nonlinear_arith)
        requires
            0 <= pos <= total - 1,
            per_row >= 1,
    ;
}

impl App {
    /// Lays the grid out in `area`, notes the blocks per row for the jump
    /// keys and scrolls so that the row of the selection is shown.
    pub fn layout_grid(&mut self, area: Area) -> (layout: Option<GridLayout>)
        ensures
            layout == grid_layout(
                old(self).chain_blocks.len() as int,
                crate::schedule::newest_height(old(self).chain_blocks@),
                old(self).selected as int,
                old(self).grid_scroll_offset as int,
                area,
            ),
            match layout {
                Some(l) => {
                    &&& *final(self) == (App {
                        blocks_per_row: l.blocks_per_row,
                        grid_scroll_offset: l.scroll_offset,
                        ..*old(self)
                    })
                    &&& lays_out(l, old(self).chain_blocks.len() as int, area)
                    &&& l.visible_rows >= 1
                    &&& l.selected_row < l.total_rows
                    &&& l.scroll_offset <= l.selected_row < l.scroll_offset + l.visible_rows
                },
                None => *final(self) == *old(self),
            },
            old(self).wf() ==> final(self).wf(),
    {
        let total = self.chain_blocks.len();
        if area.width < MIN_GRID_WIDTH || area.height == 0 || total == 0 {
            return None;
        }
        let newest = self.chain_blocks[total - 1].height;
        let digits = decimal_len(newest);
        let gutter_w: u16 = digits as u16 + 1;
        let grid_w: u16 = area.width.saturating_sub(gutter_w + 1);
        let per_row: usize = (grid_w / CELL_W) as usize;
        if per_row == 0 {
            return None;
        }
        let total_rows: usize = (total - 1) / per_row + 1;
        let visible: usize = (area.height as usize + 1) / (ROW_STRIDE as usize);
        let position: usize = (total - 1).saturating_sub(self.selected);
        let selected_row: usize = position / per_row;
        proof {
            lemma_row_of_position(total as int, per_row as int, position as int);
            assert(position == grid_position(total as int, self.selected as int));
        }
        let offset = scroll_to(self.grid_scroll_offset, selected_row, visible);
        self.blocks_per_row = per_row;
        self.grid_scroll_offset = offset;
        Some(
            GridLayout {
                gutter_digits: digits,
                grid_x: gutter_w,
                grid_w,
                blocks_per_row: per_row,
                total_rows,
                visible_rows: visible,
                selected_row,
                scroll_offset: offset,
                scrollbar: total_rows > visible,
            },
        )
    }
}

/// One block of a grid row.
#[derive(Clone, Copy, Debug, PartialEq, Eq)]
pub struct GridCell {
    /// Leftmost of the block's columns.
    pub x: u16,
    /// Index of the block in the chain.
    pub block: usize,
    /// Whether it is the selected block.
    pub selected: bool,
}

/// One row of the grid as it is drawn.
#[derive(Debug)]
pub struct GridRow {
    /// The line on which the row stands.
    pub y: u16,
    /// The height of the row's first block, right-aligned in the gutter.
    pub label: String,
    /// Whether the row holds the selected block.
    pub current: bool,
    pub cells: Vec<GridCell>,
}

/// `text` moved right by blanks to a width of `width`, unchanged if it is
/// as wide already.
pub open spec fn right_aligned(text: Seq<char>, width: int) -> Seq<char> {
    if text.len() < width {
        Seq::new((width - text.len()) as nat, |i: int| ' ') + text
    } else {
        text
    }
}

/// The cells of the row `row` of a grid of `total` blocks.
pub open spec fn row_cell_count(total: int, per_row: int, row: int) -> int {
    if total - row * per_row < per_row {
        total - row * per_row
    } else {
        per_row
    }
}

/// The cell in column `col` of the row `row`.
pub open spec fn cell_at(total: int, selected: int, layout: GridLayout, row: int, col: int) -> GridCell {
    let block = total - 1 - (row * layout.blocks_per_row + col);
    GridCell {
        x: (layout.grid_x + col * CELL_W) as u16,
        block: block as usize,
        selected: block == selected,
    }
}

/// Whether `drawn` is the `shown`-th row from the top of the grid that
/// `layout` lays out over `blocks`.
pub open spec fn is_grid_row(
    drawn: GridRow,
    blocks: Seq<BlockResponse>,
    selected: int,
    layout: GridLayout,
    shown: int,
) -> bool {
    let row = layout.scroll_offset + shown;
    let total = blocks.len() as int;
    &&& drawn.y == shown * ROW_STRIDE
    &&& drawn.current == (row == layout.selected_row)
    &&& drawn.label@ == right_aligned(
        decimal(blocks[total - 1 - row * layout.blocks_per_row].height as nat),
        layout.gutter_digits as int,
    )
    &&& drawn.cells@.len() == row_cell_count(total, layout.blocks_per_row as int, row)
    &&& forall|col: int|
        0 <= col < drawn.cells@.len() ==> #[trigger] drawn.cells@[col] == cell_at(
            total,
            selected,
            layout,
            row,
            col,
        )
}

/// The rows of the grid that are shown: from the scroll offset on, as
/// many as fit and as there are.
pub open spec fn shown_rows(layout: GridLayout) -> int {
    if layout.total_rows - layout.scroll_offset < layout.visible_rows {
        layout.total_rows - layout.scroll_offset
    } else {
        layout.visible_rows as int
    }
}

/// Whether `layout` is a layout of `total` blocks in `area`.
pub open spec fn lays_out(layout: GridLayout, total: int, area: Area) -> bool {
    &&& total >= 1
    &&& layout.blocks_per_row >= 1
    &&& layout.blocks_per_row * CELL_W <= layout.grid_w
    &&& layout.grid_x + layout.grid_w + 1 <= area.width
    &&& layout.total_rows == rows_for(total, layout.blocks_per_row as int)
    &&& layout.visible_rows == (area.height + 1) / ROW_STRIDE as int
    &&& layout.scroll_offset < layout.total_rows
    &&& 1 <= layout.gutter_digits <= 20
}

/// Writes `n` right-aligned to a width of `width`.
pub fn right_aligned_decimal(n: u64, width: usize) -> (s: String)
    ensures
        s@ == right_aligned(decimal(n as nat), width as int),
{
    let digits = decimal_string(n);
    let len = decimal_len(n);
    let mut s = String::new();
    let mut pad: usize = 0;
    while pad + len < width
        invariant
            len == decimal(n as nat).len(),
            pad + len <= width || pad == 0,
            s@ == Seq::new(pad as nat, |i: int| ' '),
        decreases width - pad,
    {
        s.push(' ');
        pad += 1;
    }
    vstd::string::StringExecFns::append(&mut s, digits.as_str());
    s
}

/// The most transactions that any of `blocks` holds, but at least one.
pub open spec fn most_transactions(blocks: Seq<BlockResponse>) -> u32
    decreases blocks.len(),
{
    if blocks.len() == 0 {
        1
    } else {
        let rest = most_transactions(blocks.drop_last());
        if blocks.last().tx_count > rest {
            blocks.last().tx_count
        } else {
            rest
        }
    }
}

/// The exec form of [`most_transactions`]: the scale of the grid's
/// colouring.
pub fn max_tx_count(blocks: &Vec<BlockResponse>) -> (m: u32)
    ensures
        m == most_transactions(blocks@),
        m >= 1,
        forall|i: int| 0 <= i < blocks.len() ==> (#[trigger] blocks@[i]).tx_count <= m,
{
    let mut m: u32 = 1;
    let mut i: usize = 0;
    while i < blocks.len()
        invariant
            i <= blocks.len(),
            m == most_transactions(blocks@.take(i as int)),
            m >= 1,
            forall|j: int| 0 <= j < i ==> (#[trigger] blocks@[j]).tx_count <= m,
        decreases blocks.len() - i,
    {
        assert(blocks@.take(i + 1).drop_last() == blocks@.take(i as int));
        if blocks[i].tx_count > m {
            m = blocks[i].tx_count;
        }
        i += 1;
    }
    assert(blocks@.take(i as int) == blocks@);
    m
}

/// Draws the `shown`-th row from the top of the grid.
pub fn grid_row(
    blocks: &Vec<BlockResponse>,
    selected: usize,
    layout: &GridLayout,
    area: Area,
    shown: usize,
) -> (drawn: GridRow)
    requires
        lays_out(*layout, blocks.len() as int, area),
        shown < shown_rows(*layout),
    ensures
        is_grid_row(drawn, blocks@, selected as int, *layout, shown as int),
        drawn.y < area.height,
        forall|col: int|
            0 <= col < drawn.cells@.len() ==> (#[trigger] drawn.cells@[col]).x + BLOCK_W
                < area.width && drawn.cells@[col].block < blocks.len(),
{
    let total = blocks.len();
    let per_row = layout.blocks_per_row;
    let row = layout.scroll_offset + shown;
    proof {
        lemma_row_start(total as int, per_row as int, row as int);
    }
    let first = row * per_row;
    let label = right_aligned_decimal(blocks[total - 1 - first].height, layout.gutter_digits);
    let count = if total - first < per_row {
        total - first
    } else {
        per_row
    };
    let mut cells: Vec<GridCell> = Vec::new();
    let mut col: usize = 0;
    while col < count
        invariant
            col <= count <= per_row,
            count <= total - first,
            first == row * per_row,
            first <= total - 1,
            per_row == layout.blocks_per_row,
            per_row * CELL_W <= layout.grid_w,
            layout.grid_x + layout.grid_w + 1 <= area.width,
            total == blocks.len(),
            cells@.len() == col,
            forall|c: int|
                0 <= c < col ==> #[trigger] cells@[c] == cell_at(
                    total as int,
                    selected as int,
                    *layout,
                    row as int,
                    c,
                ),
            forall|c: int|
                0 <= c < col ==> (#[trigger] cells@[c]).x + BLOCK_W < area.width && cells@[c].block
                    < total,
        decreases count - col,
    {
        let block = total - 1 - (first + col);
        let x: u16 = layout.grid_x + (col as u16) * CELL_W;
        cells.push(GridCell { x, block, selected: block == selected });
        col += 1;
    }
    GridRow {
        y: (shown as u16) * ROW_STRIDE,
        label,
        current: row == layout.selected_row,
        cells,
    }
}

/// Draws the rows of the grid that are shown, from the top.
pub fn grid_rows(blocks: &Vec<BlockResponse>, selected: usize, layout: &GridLayout, area: Area) -> (rows:
    Vec<GridRow>)
    requires
        lays_out(*layout, blocks.len() as int, area),
    ensures
        rows@.len() == shown_rows(*layout),
        forall|shown: int|
            0 <= shown < rows@.len() ==> is_grid_row(
                #[trigger] rows@[shown],
                blocks@,
                selected as int,
                *layout,
                shown,
            ),
        forall|shown: int, col: int|
            0 <= shown < rows@.len() && 0 <= col < rows@[shown].cells@.len() ==> {
                let cell = #[trigger] rows@[shown].cells@[col];
                &&& rows@[shown].y < area.height
                &&& cell.x + BLOCK_W < area.width
                &&& cell.block < blocks.len()
            },
{
    let left = layout.total_rows - layout.scroll_offset;
    let count = if left < layout.visible_rows {
        left
    } else {
        layout.visible_rows
    };
    let mut rows: Vec<GridRow> = Vec::new();
    let mut shown: usize = 0;
    while shown < count
        invariant
            shown <= count == shown_rows(*layout),
            lays_out(*layout, blocks.len() as int, area),
            rows@.len() == shown,
            forall|r: int|
                0 <= r < shown ==> is_grid_row(
                    #[trigger] rows@[r],
                    blocks@,
                    selected as int,
                    *layout,
                    r,
                ),
            forall|r: int, col: int|
                0 <= r < shown && 0 <= col < rows@[r].cells@.len() ==> {
                    let cell = #[trigger] rows@[r].cells@[col];
                    &&& rows@[r].y < area.height
                    &&& cell.x + BLOCK_W < area.width
                    &&& cell.block < blocks.len()
                },
        decreases count - shown,
    {
        let drawn = grid_row(blocks, selected, layout, area, shown);
        rows.push(drawn);
        shown += 1;
    }
    rows
}

/// The thumb of the grid's scrollbar on a track of `track` lines.
#[derive(Clone, Copy, Debug, PartialEq, Eq)]
pub struct Thumb {
    /// The first line of the thumb, counted from the top of the track.
    pub start: usize,
    /// The lines that the thumb covers.
    pub len: usize,
}

/// The lines of a thumb that stands for `visible` of `total` rows on a
/// track of `track` lines: that share of the track, rounded down, but at
/// least one line.
pub open spec fn thumb_len(track: int, total: int, visible: int) -> int {
    if visible * track / total >= 1 {
        visible * track / total
    } else {
        1
    }
}

/// The first line of the thumb when the grid is scrolled to `offset`: the
/// share of the free track that `offset` is of the largest offset,
/// rounded down.
pub open spec fn thumb_start(track: int, offset: int, total: int, visible: int) -> int {
    offset * (track - thumb_len(track, total, visible)) / (total - visible)
}

/// The scrollbar's thumb, `None` where no scrollbar is drawn: on an empty
/// track, or when all rows fit.
pub fn scrollbar_thumb(track: u16, offset: usize, total: usize, visible: u16) -> (thumb: Option<Thumb>)
    ensures
        thumb == if track == 0 || total <= visible {
            None
        } else {
            Some(
                Thumb {
                    start: if thumb_start(track as int, offset as int, total as int, visible as int)
                        <= usize::MAX {
                        thumb_start(track as int, offset as int, total as int, visible as int) as usize
                    } else {
                        usize::MAX
                    },
                    len: thumb_len(track as int, total as int, visible as int) as usize,
                },
            )
        },
        thumb matches Some(t) ==> 1 <= t.len <= track,
{
    if track == 0 || total <= visible as usize {
        return None;
    }
    assert(visible * track <= 0xffff * 0xffff) by (nonlinear_arith)
        requires
            0 <= visible <= 0xffff,
            0 <= track <= 0xffff,
    ;
    let share: u128 = (visible as u128) * (track as u128) / (total as u128);
    assert(share <= track) by (nonlinear_arith)
        requires
            share == (visible as int) * (track as int) / (total as int),
            0 <= visible < total,
            track >= 0,
    ;
    let len: u128 = if share >= 1 {
        share
    } else {
        1
    };
    let free: u128 = track as u128 - len;
    let largest: u128 = (total - visible as usize) as u128;
    assert(offset * free <= usize::MAX * 0x1_0000) by (nonlinear_arith)
        requires
            0 <= offset <= usize::MAX,
            0 <= free <= 0xffff,
    ;
    let start: u128 = (offset as u128) * free / largest;
    Some(
        Thumb {
            start: if start <= usize::MAX as u128 {
                start as usize
            } else {
                usize::MAX
            },
            len: len as usize,
        },
    )
}

/// Scrolling keeps the selection in sight: whatever the number of
/// blocks, the blocks per row, the rows that fit, the selection and the
/// offset before, the row of the selection is one of the grid's rows and
/// lies among the rows shown from the new offset on.
pub proof fn lemma_selection_stays_visible(
    total: int,
    per_row: int,
    visible: int,
    selected: int,
    offset: int,
)
    requires
        total > 0,
        per_row > 0,
        visible > 0,
        0 <= selected < total,
    ensures
        ({
            let row = grid_position(total, selected) / per_row;
            let shown_from = scrolled(offset, row, visible);
            &&& 0 <= row < rows_for(total, per_row)
            &&& shown_from <= row < shown_from + visible
        }),
{
    lemma_row_of_position(total, per_row, grid_position(total, selected));
}

/// Tells whether `layout` is a layout of `total` blocks in `area`.
pub fn is_layout_of(layout: &GridLayout, total: usize, area: Area) -> (b: bool)
    ensures
        b == lays_out(*layout, total as int, area),
{
    if total == 0 || layout.blocks_per_row == 0 {
        return false;
    }
    let per_row = layout.blocks_per_row;
    per_row <= (layout.grid_w / CELL_W) as usize && layout.grid_x as u32 + layout.grid_w as u32 + 1
        <= area.width as u32 && layout.total_rows == (total - 1) / per_row + 1
        && layout.visible_rows == (area.height as usize + 1) / (ROW_STRIDE as usize)
        && layout.scroll_offset < layout.total_rows && 1 <= layout.gutter_digits
        && layout.gutter_digits <= 20
}

} // verus!
