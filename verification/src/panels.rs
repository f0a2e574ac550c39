//! What the panels show: the texts and bars that the screens are drawn
//! from, computed from the state and the size of the place they go to.

use crate::app::App;
use crate::text::{chars_of, decimal, decimal_len, decimal_string, push_decimal, string_of};
use crate::types::{
    age_seconds, amount_text, format_bnt, time_ago, time_ago_text, BlockResponse,
    BlockTransaction, DaemonStats,
};
use vstd::prelude::*;
use vstd::string::StringExecFns;

verus! {

/// The block time that the chain aims at, in seconds.
pub const EXPECTED_INTERVAL: u64 = 300;

/// The characters of a bar of `width` cells of which `filled` are full,
/// with a marker in the cell `target`.
pub open spec fn bar_text(width: int, filled: int, target: int, marker: char, full: char, empty: char) -> Seq<
    char,
> {
    Seq::new(
        width as nat,
        |i: int|
            if i == target {
                marker
            } else if i < filled {
                full
            } else {
                empty
            },
    )
}

/// Draws a bar.
pub fn draw_bar(width: usize, filled: usize, target: usize, marker: char, full: char, empty: char) -> (bar:
    String)
    ensures
        bar@ == bar_text(width as int, filled as int, target as int, marker, full, empty),
{
    let mut bar = String::new();
    let mut i: usize = 0;
    while i < width
        invariant
            i <= width,
            bar@ == bar_text(width as int, filled as int, target as int, marker, full, empty).take(
                i as int,
            ),
        decreases width - i,
    {
        let c = if i == target {
            marker
        } else if i < filled {
            full
        } else {
            empty
        };
        bar.push(c);
        i += 1;
    }
    assert(bar_text(width as int, filled as int, target as int, marker, full, empty).take(
        i as int,
    ) == bar_text(width as int, filled as int, target as int, marker, full, empty));
    bar
}

/// The cells of `width` that a value of `value` fills on a scale that
/// ends at `cap`: the value's share of the scale, rounded down, and all
/// cells from `cap` on.
pub open spec fn filled_cells(value: int, cap: int, width: int) -> int {
    if value >= cap {
        width
    } else {
        value * width / cap
    }
}

/// The exec form of [`filled_cells`].
pub fn fill(value: u64, cap: u64, width: u16) -> (cells: usize)
    requires
        0 < cap,
    ensures
        cells == filled_cells(value as int, cap as int, width as int),
        cells <= width,
{
    if value >= cap {
        width as usize
    } else {
        assert(value * width <= 0xffff_ffff_ffff_ffff * 0xffff) by (nonlinear_arith)
            requires
                0 <= value <= 0xffff_ffff_ffff_ffff,
                0 <= width <= 0xffff,
        ;
        let cells: u128 = (value as u128) * (width as u128) / (cap as u128);
        assert(cells <= width) by (nonlinear_arith)
            requires
                cells == (value * width) / (cap as int),
                0 <= value < cap,
                0 <= width,
        ;
        cells as usize
    }
}

/// A span of time in minutes and seconds: the seconds alone under a
/// minute.
pub open spec fn span_text(secs: u64) -> Seq<char> {
    if secs < 60 {
        decimal(secs as nat) + "s"@
    } else {
        decimal((secs / 60) as nat) + "m "@ + decimal((secs % 60) as nat) + "s"@
    }
}

/// Appends a span of time.
pub fn push_span(out: &mut String, secs: u64)
    ensures
        final(out)@ == old(out)@ + span_text(secs),
{
    if secs < 60 {
        push_decimal(out, secs);
        out.append("s");
    } else {
        push_decimal(out, secs / 60);
        out.append("m ");
        push_decimal(out, secs % 60);
        out.append("s");
    }
}

/// How the time since the last block compares with the expected interval.
#[derive(Clone, Copy, Debug, PartialEq, Eq, Structural)]
pub enum Pace {
    /// A block was found just now.
    Found,
    /// Under four fifths of the interval.
    Early,
    /// Within a fifth of the interval.
    Near,
    /// Over the interval by a fifth or more.
    Late,
}

/// The band of a wait of `elapsed` seconds.
pub open spec fn pace_of(elapsed: u64, found: bool) -> Pace {
    if found {
        Pace::Found
    } else if elapsed * 5 < EXPECTED_INTERVAL * 4 {
        Pace::Early
    } else if elapsed * 5 < EXPECTED_INTERVAL * 6 {
        Pace::Near
    } else {
        Pace::Late
    }
}

/// The bar that shows the wait for the next block.
#[derive(Debug)]
pub struct ProgressBar {
    pub label: &'static str,
    pub bar: String,
    pub time_label: String,
    pub pace: Pace,
    /// Whether the word for a found block follows the bar.
    pub found: bool,
}

/// The text after the bar: the wait, and the interval it is held against.
pub open spec fn wait_text(elapsed: u64) -> Seq<char> {
    " "@ + span_text(elapsed) + " / 5m "@
}

/// The cells that are left for the bar in a line of `width` cells.
pub open spec fn progress_cells(elapsed: u64, width: u16) -> int {
    let overhead = " Next block "@.len() + wait_text(elapsed).len();
    if width > overhead {
        width - overhead
    } else {
        0
    }
}

/// Whether `bar` shows a wait of `elapsed` seconds in a line of `width`
/// cells. The bar spans twice the expected interval, so that its marker,
/// in the middle, stands at the interval itself; a longer wait fills it.
pub open spec fn shows_wait(bar: ProgressBar, elapsed: u64, width: u16, found: bool) -> bool {
    let cells = progress_cells(elapsed, width);
    &&& bar.label@ == " Next block "@
    &&& bar.time_label@ == wait_text(elapsed)
    &&& bar.bar@ == bar_text(
        cells,
        filled_cells(elapsed as int, 2 * EXPECTED_INTERVAL, cells),
        cells / 2,
        '▏',
        '█',
        '░',
    )
    &&& bar.pace == pace_of(elapsed, found)
    &&& bar.found == found
}

/// The progress bar for a wait of `elapsed` seconds in a line of `width`
/// cells, `None` in a line of twenty cells or fewer.
pub fn progress_bar(elapsed: u64, width: u16, found: bool) -> (r: Option<ProgressBar>)
    ensures
        match r {
            Some(bar) => width > 20 && shows_wait(bar, elapsed, width, found),
            None => width <= 20,
        },
{
    if width <= 20 {
        return None;
    }
    let label = " Next block ";
    let mut time_label = String::from_str(" ");
    push_span(&mut time_label, elapsed);
    time_label.append(" / 5m ");
    let label_len = chars_of(label).len();
    let time_len = chars_of(time_label.as_str()).len();
    let cells: u16 = if (width as usize) > label_len && (width as usize) - label_len > time_len {
        (width as usize - label_len - time_len) as u16
    } else {
        0
    };
    let filled = fill(elapsed, 2 * EXPECTED_INTERVAL, cells);
    let pace = if found {
        Pace::Found
    } else if elapsed < 240 {
        Pace::Early
    } else if elapsed < 360 {
        Pace::Near
    } else {
        Pace::Late
    };
    Some(
        ProgressBar {
            label,
            bar: draw_bar(cells as usize, filled, (cells / 2) as usize, '▏', '█', '░'),
            time_label,
            pace,
            found,
        },
    )
}

/// How the time a block took compares with the expected interval.
#[derive(Clone, Copy, Debug, PartialEq, Eq, Structural)]
pub enum BlockPace {
    /// Under half the interval.
    VeryFast,
    /// Under four fifths of it.
    Fast,
    /// Within a fifth of it.
    OnTarget,
    /// Under twice the interval.
    Slow,
    /// Twice the interval or more.
    VerySlow,
}

/// The band of a block that took `secs` seconds.
pub open spec fn block_pace_of(secs: u64) -> BlockPace {
    if secs * 2 < EXPECTED_INTERVAL {
        BlockPace::VeryFast
    } else if secs * 5 < EXPECTED_INTERVAL * 4 {
        BlockPace::Fast
    } else if secs * 5 < EXPECTED_INTERVAL * 6 {
        BlockPace::OnTarget
    } else if secs < EXPECTED_INTERVAL * 2 {
        BlockPace::Slow
    } else {
        BlockPace::VerySlow
    }
}

/// The bar that shows how long a block took.
#[derive(Debug)]
pub struct BlockTimeBar {
    pub label: &'static str,
    pub bar: String,
    pub time_text: String,
    pub pace: BlockPace,
}

/// The cells of the block time bar in a panel of `width` cells: what is
/// left beside the label and ten cells for the time.
pub open spec fn block_bar_cells(width: u16) -> int {
    if width > 20 {
        width - 20
    } else {
        0
    }
}

/// The bar for a block that took `secs` seconds, in a panel of `width`
/// cells. The bar spans three times the expected interval; its marker
/// stands a third along, at the interval itself.
pub fn block_time_bar(secs: u64, width: u16) -> (b: BlockTimeBar)
    ensures
        b.label@ == " Mined in "@,
        b.bar@ == bar_text(
            block_bar_cells(width),
            filled_cells(secs as int, 3 * EXPECTED_INTERVAL, block_bar_cells(width)),
            block_bar_cells(width) / 3,
            '│',
            '▓',
            '·',
        ),
        b.time_text@ == " "@ + span_text(secs),
        b.pace == block_pace_of(secs),
{
    let cells: u16 = width.saturating_sub(20);
    let filled = fill(secs, 3 * EXPECTED_INTERVAL, cells);
    let mut time_text = String::from_str(" ");
    push_span(&mut time_text, secs);
    let pace = if secs < 150 {
        BlockPace::VeryFast
    } else if secs < 240 {
        BlockPace::Fast
    } else if secs < 360 {
        BlockPace::OnTarget
    } else if secs < 600 {
        BlockPace::Slow
    } else {
        BlockPace::VerySlow
    };
    BlockTimeBar {
        label: " Mined in ",
        bar: draw_bar(cells as usize, filled, (cells / 3) as usize, '│', '▓', '·'),
        time_text,
        pace,
    }
}

/// The time that the block at `selected` took: its timestamp less that
/// of the block before it, zero if that one is later. `None` for the
/// first block held and where no block is selected.
pub fn block_time_secs(blocks: &Vec<BlockResponse>, selected: usize) -> (secs: Option<u64>)
    ensures
        secs == if 0 < selected < blocks.len() {
            let own = blocks[selected as int].timestamp;
            let prev = blocks[selected - 1].timestamp;
            Some(
                if own >= prev {
                    (own - prev) as u64
                } else {
                    0u64
                },
            )
        } else {
            None
        },
{
    if selected == 0 || selected >= blocks.len() {
        None
    } else {
        Some(blocks[selected].timestamp.saturating_sub(blocks[selected - 1].timestamp))
    }
}

/// Where the newest `width` of `len` entries start.
pub fn tail_start(len: usize, width: usize) -> (start: usize)
    ensures
        start == if len > width {
            len - width
        } else {
            0
        },
{
    len.saturating_sub(width)
}

/// `text` filled up with blanks on the right to a width of `width`,
/// unchanged if it is as wide already.
pub open spec fn left_aligned(text: Seq<char>, width: int) -> Seq<char> {
    if text.len() < width {
        text + Seq::new((width - text.len()) as nat, |i: int| ' ')
    } else {
        text
    }
}

/// Writes `n` left-aligned in a field of `width` cells.
pub fn left_aligned_decimal(n: u64, width: usize) -> (s: String)
    ensures
        s@ == left_aligned(decimal(n as nat), width as int),
{
    let mut s = decimal_string(n);
    let len = decimal_len(n);
    let mut pad: usize = 0;
    while pad + len < width
        invariant
            len == decimal(n as nat).len(),
            pad + len <= width || pad == 0,
            s@ == decimal(n as nat) + Seq::new(pad as nat, |i: int| ' '),
        decreases width - pad,
    {
        s.push(' ');
        pad += 1;
    }
    s
}

/// One line of a block's list of transactions.
#[derive(Debug)]
pub enum TxLine {
    /// The coinbase transaction, with its counts of inputs and outputs.
    Coinbase { counts: String },
    /// Any other transaction: the start of its hash, its fee and its
    /// counts of inputs and outputs.
    Transfer { hash: String, fee: String, counts: String },
    /// The note that stands for the transactions that did not fit.
    More { text: String },
}

/// A [`TxLine`] as plain values.
pub enum TxLineView {
    Coinbase { counts: Seq<char> },
    Transfer { hash: Seq<char>, fee: Seq<char>, counts: Seq<char> },
    More { text: Seq<char> },
}

impl View for TxLine {
    type V = TxLineView;

    open spec fn view(&self) -> TxLineView {
        match *self {
            TxLine::Coinbase { counts } => TxLineView::Coinbase { counts: counts@ },
            TxLine::Transfer { hash, fee, counts } => TxLineView::Transfer {
                hash: hash@,
                fee: fee@,
                counts: counts@,
            },
            TxLine::More { text } => TxLineView::More { text: text@ },
        }
    }
}

/// The characters of a hash that a list shows.
pub const HASH_SHOWN: usize = 10;

/// The line of the transaction `tx`.
pub open spec fn tx_line(tx: BlockTransaction) -> TxLineView {
    if tx.is_coinbase {
        TxLineView::Coinbase {
            counts: decimal(tx.inputs as nat) + "in "@ + decimal(tx.outputs as nat) + "out"@,
        }
    } else {
        TxLineView::Transfer {
            hash: " "@ + (if tx.hash@.len() > HASH_SHOWN {
                tx.hash@.take(HASH_SHOWN as int)
            } else {
                tx.hash@
            }) + "... "@,
            fee: amount_text(tx.fee) + " BNT"@,
            counts: " "@ + decimal(tx.inputs as nat) + "->"@ + decimal(tx.outputs as nat),
        }
    }
}

/// The note for `count` transactions of which `lines` lines can show
/// only the first `lines - 1`.
pub open spec fn more_text(count: int, lines: int) -> Seq<char> {
    " +"@ + decimal((count - lines + 1) as nat) + " more..."@
}

/// The line at `i` of a list of `txs` in `lines` lines.
pub open spec fn tx_list_line(txs: Seq<BlockTransaction>, lines: int, i: int) -> TxLineView {
    if txs.len() > lines && i == lines - 1 {
        TxLineView::More { text: more_text(txs.len() as int, lines) }
    } else {
        tx_line(txs[i])
    }
}

/// Draws the line of one transaction.
pub fn draw_tx_line(tx: &BlockTransaction) -> (line: TxLine)
    ensures
        line@ == tx_line(*tx),
{
    if tx.is_coinbase {
        let mut counts = decimal_string(tx.inputs as u64);
        counts.append("in ");
        push_decimal(&mut counts, tx.outputs as u64);
        counts.append("out");
        TxLine::Coinbase { counts }
    } else {
        let v = chars_of(tx.hash.as_str());
        let shown = if v.len() > HASH_SHOWN {
            HASH_SHOWN
        } else {
            v.len()
        };
        assert(v@.subrange(0, v.len() as int) == v@);
        let start = string_of(&v, 0, shown);
        let mut hash = String::from_str(" ");
        hash.append(start.as_str());
        hash.append("... ");
        let mut counts = String::from_str(" ");
        push_decimal(&mut counts, tx.inputs as u64);
        counts.append("->");
        push_decimal(&mut counts, tx.outputs as u64);
        TxLine::Transfer { hash, fee: format_bnt(tx.fee), counts }
    }
}

/// The list of a block's transactions in `lines` lines: one line each
/// while they fit; where they do not, the last line says how many more
/// there are.
pub fn tx_list_lines(txs: &Vec<BlockTransaction>, lines: u16) -> (list: Vec<TxLine>)
    ensures
        list@.len() == if txs.len() < lines {
            txs.len() as int
        } else {
            lines as int
        },
        forall|i: int|
            0 <= i < list@.len() ==> (#[trigger] list@[i])@ == tx_list_line(txs@, lines as int, i),
{
    let count: usize = if txs.len() < lines as usize {
        txs.len()
    } else {
        lines as usize
    };
    let mut list: Vec<TxLine> = Vec::new();
    let mut i: usize = 0;
    while i < count
        invariant
            i <= count <= txs.len(),
            count <= lines,
            list@.len() == i,
            forall|k: int|
                0 <= k < i ==> (#[trigger] list@[k])@ == tx_list_line(txs@, lines as int, k),
        decreases count - i,
    {
        let line = if txs.len() > lines as usize && i == lines as usize - 1 {
            let mut text = String::from_str(" +");
            push_decimal(&mut text, (txs.len() - lines as usize + 1) as u64);
            text.append(" more...");
            TxLine::More { text }
        } else {
            draw_tx_line(&txs[i])
        };
        list.push(line);
        i += 1;
    }
    list
}

/// The state of synchronisation in words: progress, target and share
/// while the node is syncing, the word `synced` once it is not.
pub open spec fn sync_text(stats: DaemonStats) -> Seq<char> {
    if stats.syncing {
        decimal(stats.sync_progress as nat) + "/"@ + decimal(stats.sync_target as nat) + " ("@ + (
        match stats.sync_percent {
            Some(p) => p@,
            None => "0%"@,
        }) + ")"@
    } else {
        "synced"@
    }
}

/// Writes the state of synchronisation.
pub fn sync_line(stats: &DaemonStats) -> (s: String)
    ensures
        s@ == sync_text(*stats),
{
    if stats.syncing {
        let mut s = decimal_string(stats.sync_progress);
        s.append("/");
        push_decimal(&mut s, stats.sync_target);
        s.append(" (");
        match &stats.sync_percent {
            Some(p) => s.append(p.as_str()),
            None => s.append("0%"),
        }
        s.append(")");
        s
    } else {
        String::from_str("synced")
    }
}

/// The sum of the difficulties of `blocks`.
pub open spec fn difficulty_sum(blocks: Seq<BlockResponse>) -> int
    decreases blocks.len(),
{
    if blocks.len() == 0 {
        0
    } else {
        difficulty_sum(blocks.drop_last()) + blocks.last().difficulty
    }
}

/// Lowest, mean and highest difficulty of a window of blocks.
#[derive(Clone, Copy, Debug, PartialEq, Eq)]
pub struct DifficultyStats {
    /// Index of the first block of the window.
    pub start: usize,
    pub lo: u64,
    /// The mean, rounded down.
    pub avg: u64,
    pub hi: u64,
}

/// Whether `stats` describes the blocks `window`.
pub open spec fn describes(stats: DifficultyStats, window: Seq<BlockResponse>) -> bool {
    &&& window.len() > 0
    &&& forall|i: int| 0 <= i < window.len() ==> stats.lo <= (#[trigger] window[i]).difficulty <= stats.hi
    &&& exists|i: int| 0 <= i < window.len() && (#[trigger] window[i]).difficulty == stats.lo
    &&& exists|i: int| 0 <= i < window.len() && (#[trigger] window[i]).difficulty == stats.hi
    &&& stats.avg == difficulty_sum(window) / (window.len() as int)
}

/// The sum of a window lies between its length times the bounds of its
/// members.
pub proof fn lemma_difficulty_sum_bounds(window: Seq<BlockResponse>, hi: int)
    requires
        forall|i: int| 0 <= i < window.len() ==> (#[trigger] window[i]).difficulty <= hi,
    ensures
        0 <= difficulty_sum(window) <= window.len() * hi,
    decreases window.len(),
{
    if window.len() > 0 {
        let rest = window.drop_last();
        assert forall|i: int| 0 <= i < rest.len() implies (#[trigger] rest[i]).difficulty <= hi by {
            assert(rest[i] == window[i]);
        }
        lemma_difficulty_sum_bounds(rest, hi);
        assert(window.len() * hi == rest.len() * hi + hi) by (nonlinear_arith)
            requires
                window.len() == rest.len() + 1,
        ;
    } else {
        assert(window.len() * hi == 0) by (nonlinear_arith)
            requires
                window.len() == 0,
        ;
    }
}

/// The difficulty of the newest blocks, as many as a chart of `width`
/// columns shows. `None` without blocks or without columns.
pub fn difficulty_stats(blocks: &Vec<BlockResponse>, width: u16) -> (r: Option<DifficultyStats>)
    ensures
        match r {
            Some(stats) => {
                &&& blocks.len() > 0 && width > 0
                &&& stats.start == if blocks.len() > width {
                    blocks.len() - width
                } else {
                    0
                }
                &&& describes(stats, blocks@.skip(stats.start as int))
            },
            None => blocks.len() == 0 || width == 0,
        },
{
    if blocks.len() == 0 || width == 0 {
        return None;
    }
    let start = tail_start(blocks.len(), width as usize);
    let ghost window = blocks@.skip(start as int);
    let first = blocks[start].difficulty;
    let mut lo: u64 = first;
    let mut hi: u64 = first;
    let mut sum: u128 = 0;
    let mut i: usize = start;
    while i < blocks.len()
        invariant
            start <= i <= blocks.len(),
            start < blocks.len(),
            blocks.len() - start <= 0xffff,
            window == blocks@.skip(start as int),
            sum == difficulty_sum(window.take(i - start)),
            sum <= (i - start) * u64::MAX,
            forall|k: int| 0 <= k < i - start ==> lo <= (#[trigger] window[k]).difficulty <= hi,
            i == start ==> lo == window[0].difficulty && hi == window[0].difficulty,
            i > start ==> exists|k: int| 0 <= k < i - start && (#[trigger] window[k]).difficulty == lo,
            i > start ==> exists|k: int| 0 <= k < i - start && (#[trigger] window[k]).difficulty == hi,
        decreases blocks.len() - i,
    {
        let d = blocks[i].difficulty;
        let ghost k = i - start;
        assert(window[k] == blocks@[i as int]);
        assert(window.take(k + 1).drop_last() == window.take(k));
        assert(window.take(k + 1).last() == window[k]);
        assert((k + 1) * u64::MAX == k * u64::MAX + u64::MAX) by (nonlinear_arith);
        assert(k * u64::MAX <= 0xffff * u64::MAX) by (nonlinear_arith)
            requires
                0 <= k <= 0xffff,
        ;
        sum = sum + d as u128;
        if d < lo {
            lo = d;
        }
        if d > hi {
            hi = d;
        }
        i += 1;
    }
    assert(window.take(i - start) == window);
    let count = (blocks.len() - start) as u128;
    proof {
        lemma_difficulty_sum_bounds(window, u64::MAX as int);
        assert(sum / count <= u64::MAX) by (nonlinear_arith)
            requires
                0 <= sum <= count * u64::MAX,
                count > 0,
        ;
    }
    let avg = (sum / count) as u64;
    Some(DifficultyStats { start, lo, avg, hi })
}

/// The blocks that the ticker names.
pub const TICKER_BLOCKS: usize = 8;

/// A block's entry in the ticker: height, transactions and age.
pub open spec fn ticker_entry(block: BlockResponse, now: u64) -> Seq<char> {
    "#"@ + decimal(block.height as nat) + " "@ + decimal(block.tx_count as nat) + "tx "@
        + time_ago_text(now, block.timestamp)
}

/// The entries of the newest `count` blocks, the newest first, with a
/// bar between every two.
pub open spec fn ticker_entries(blocks: Seq<BlockResponse>, now: u64, count: nat) -> Seq<char>
    decreases count,
{
    if count == 0 {
        Seq::empty()
    } else if count == 1 {
        ticker_entry(blocks[blocks.len() - 1], now)
    } else {
        ticker_entries(blocks, now, (count - 1) as nat) + "  \u{2502}  "@ + ticker_entry(
            blocks[blocks.len() - count],
            now,
        )
    }
}

/// Writes a block's entry in the ticker.
pub fn ticker_entry_text(block: &BlockResponse, now: u64) -> (entry: String)
    ensures
        entry@ == ticker_entry(*block, now),
{
    let mut entry = String::from_str("#");
    push_decimal(&mut entry, block.height);
    entry.append(" ");
    push_decimal(&mut entry, block.tx_count as u64);
    entry.append("tx ");
    let ago = time_ago(now, block.timestamp);
    entry.append(ago.as_str());
    entry
}

/// The line of recent blocks at the time `now`: a blank, then the newest
/// eight blocks, fewer if fewer are held.
pub fn recent_ticker(blocks: &Vec<BlockResponse>, now: u64) -> (line: String)
    ensures
        line@ == " "@ + ticker_entries(
            blocks@,
            now,
            if blocks.len() < TICKER_BLOCKS {
                blocks.len() as nat
            } else {
                TICKER_BLOCKS as nat
            },
        ),
{
    let count = if blocks.len() < TICKER_BLOCKS {
        blocks.len()
    } else {
        TICKER_BLOCKS
    };
    let mut line = String::from_str(" ");
    let mut done: usize = 0;
    assert(line@ == " "@ + Seq::<char>::empty());
    while done < count
        invariant
            done <= count <= blocks.len(),
            line@ == " "@ + ticker_entries(blocks@, now, done as nat),
        decreases count - done,
    {
        let entry = ticker_entry_text(&blocks[blocks.len() - 1 - done], now);
        let ghost before = ticker_entries(blocks@, now, done as nat);
        if done > 0 {
            line.append("  \u{2502}  ");
            line.append(entry.as_str());
            assert(line@ == " "@ + (before + "  \u{2502}  "@ + entry@));
        } else {
            line.append(entry.as_str());
            assert(line@ == " "@ + entry@);
        }
        done += 1;
    }
    line
}

/// The newest entry of a history as it stands beside a chart of `width`
/// columns: zero where the chart shows no entry, for want of entries or
/// of columns.
pub fn latest_entry(history: &Vec<u64>, width: usize) -> (value: u64)
    ensures
        value == if history.len() > 0 && width > 0 {
            history@.last()
        } else {
            0
        },
{
    if history.len() > 0 && width > 0 {
        history[history.len() - 1]
    } else {
        0
    }
}

/// The timestamp that the wait for the next block is counted from: that
/// of the newest block held, zero where none is held.
pub open spec fn newest_timestamp(blocks: Seq<BlockResponse>) -> u64 {
    if blocks.len() > 0 {
        blocks.last().timestamp
    } else {
        0
    }
}

impl App {
    /// The seconds from the newest block held to the time `now`, zero if
    /// the block is stamped later than that. Without a block the wait is
    /// counted from the epoch.
    pub fn wait_since_newest(&self, now: u64) -> (elapsed: u64)
        ensures
            elapsed == age_seconds(now, newest_timestamp(self.chain_blocks@)),
    {
        let newest = if self.chain_blocks.len() > 0 {
            self.chain_blocks[self.chain_blocks.len() - 1].timestamp
        } else {
            0
        };
        now.saturating_sub(newest)
    }

    /// Whether a found block is still announced.
    pub fn announcing_block(&self) -> (found: bool)
        ensures
            found == (self.block_found_display > 0),
    {
        self.block_found_display > 0
    }

    /// The bar of the wait for the next block at the time `now`, in a
    /// line of `width` cells: the progress bar of the wait since the
    /// newest block, marked as found while a found block is announced.
    pub fn next_block_bar(&self, now: u64, width: u16) -> (r: Option<ProgressBar>)
        ensures
            match r {
                Some(bar) => width > 20 && shows_wait(
                    bar,
                    age_seconds(now, newest_timestamp(self.chain_blocks@)) as u64,
                    width,
                    self.block_found_display > 0,
                ),
                None => width <= 20,
            },
    {
        progress_bar(self.wait_since_newest(now), width, self.announcing_block())
    }
}

} // verus!
