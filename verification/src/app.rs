//! The application state: one value, owned by the main loop, changed only
//! by key handling and by the per-tick updates.

use crate::clock::unix_now;
use crate::text::{decimal, push_decimal};
use crate::types::{BalanceResponse, BlockResponse, DaemonStats, MempoolStats, MiningStatus};
use vstd::prelude::*;
use vstd::string::StringExecFns;

verus! {

/// Entries kept in each mempool history.
pub const HISTORY_CAP: usize = 200;

/// Ticks after which a flash message that is not persistent disappears.
pub const FLASH_TICKS: u64 = 90;

/// The shockwave phase is counted in hundredths; it grows by this each tick.
pub const SHOCKWAVE_STEP: u16 = 8;

/// The shockwave ends once its phase, in hundredths, has passed this.
pub const SHOCKWAVE_END: u16 = 300;

/// How long a found block is announced, in milliseconds.
pub const FOUND_DISPLAY_MS: u32 = 3000;

/// The length of one tick, in milliseconds.
pub const TICK_MS: u32 = 33;

/// The block time assumed where two neighbouring blocks are not at hand.
pub const TARGET_BLOCK_SECS: u64 = 300;

/// Which of the two screens is shown.
#[derive(Clone, Copy, Debug, PartialEq, Eq, Structural)]
pub enum Screen {
    Dashboard,
    Grid,
}

/// What the keyboard is feeding.
#[derive(Debug)]
pub enum InputMode {
    /// Single-key commands.
    Normal,
    /// The send form. `focused` is 0 for the address field; any other
    /// value stands for the amount field.
    SendDialog { address: String, amount: String, focused: u8, error: Option<String> },
}

/// The send form of an [`InputMode`] as plain values.
pub struct SendForm {
    pub address: Seq<char>,
    pub amount: Seq<char>,
    pub focused: u8,
    pub error: Option<Seq<char>>,
}

impl InputMode {
    /// The form that is open, `None` in normal mode.
    pub open spec fn form(self) -> Option<SendForm> {
        match self {
            InputMode::Normal => None,
            InputMode::SendDialog { address, amount, focused, error } => Some(
                SendForm {
                    address: address@,
                    amount: amount@,
                    focused,
                    error: match error {
                        Some(e) => Some(e@),
                        None => None,
                    },
                },
            ),
        }
    }
}

/// A notification shown over the screen.
#[derive(Debug)]
pub struct FlashMessage {
    pub text: String,
    /// The tick at which it was set.
    pub created: u64,
    /// Whether it stays until dismissed.
    pub persistent: bool,
    /// What the copy key puts on the clipboard while it is shown.
    pub copyable: Option<String>,
}

/// A [`FlashMessage`] as plain values.
pub struct FlashView {
    pub text: Seq<char>,
    pub created: u64,
    pub persistent: bool,
    pub copyable: Option<Seq<char>>,
}

impl View for FlashMessage {
    type V = FlashView;

    open spec fn view(&self) -> FlashView {
        FlashView {
            text: self.text@,
            created: self.created,
            persistent: self.persistent,
            copyable: match self.copyable {
                Some(c) => Some(c@),
                None => None,
            },
        }
    }
}

/// The state of the dashboard.
#[derive(Debug)]
pub struct App {
    pub current_view: Screen,
    /// The only clock of everything that is timed in ticks.
    pub tick_count: u64,
    /// Blocks in ascending height; only ever appended to.
    pub chain_blocks: Vec<BlockResponse>,
    /// Index of the selected block.
    pub selected: usize,
    /// Topmost visible row of the grid.
    pub grid_scroll_offset: usize,
    pub blocks_per_row: usize,
    pub status: Option<DaemonStats>,
    pub mempool: Option<MempoolStats>,
    pub balance: Option<BalanceResponse>,
    pub wallet_address: Option<String>,
    pub mining: Option<MiningStatus>,
    /// The "blocks found" counter as last seen; zero until one was seen.
    pub prev_blocks_found: u64,
    /// Phase of the running shockwave in hundredths, `None` when idle.
    pub shockwave: Option<u16>,
    /// The chain height as last seen; zero until one was seen.
    pub prev_chain_height: u64,
    /// Milliseconds for which a found block is still announced.
    pub block_found_display: u32,
    pub mempool_history: Vec<u64>,
    pub mempool_size_history: Vec<u64>,
    pub mempool_fee_history: Vec<u64>,
    /// The tick of the last thread-count change that still waits for the
    /// miner to be restarted.
    pub threads_pending_restart: Option<u64>,
    pub flash_message: Option<FlashMessage>,
    pub input_mode: InputMode,
    /// Identifiers of the transactions sent in this session.
    pub tx_history: Vec<String>,
}

/// Whether a "blocks found" count of `found`, seen after `prev`, starts a
/// shockwave: the count grew, and from a count that was not zero.
pub open spec fn shockwave_fires(prev: u64, found: u64) -> bool {
    found > prev && prev > 0
}

/// One tick of a shockwave phase: a running wave grows by a step and ends
/// once it has passed the end.
pub open spec fn shockwave_step(phase: Option<u16>) -> Option<u16> {
    match phase {
        Some(t) => if t + SHOCKWAVE_STEP > SHOCKWAVE_END {
            None
        } else {
            Some((t + SHOCKWAVE_STEP) as u16)
        },
        None => None,
    }
}

/// The shockwave phase after a tick on which `found` was seen after `prev`.
pub open spec fn shockwave_after(prev: u64, found: u64, phase: Option<u16>) -> Option<u16> {
    shockwave_step(
        if shockwave_fires(prev, found) {
            Some(0u16)
        } else {
            phase
        },
    )
}

/// The announcement time left after one more tick.
pub open spec fn found_display_after(left: u32) -> u32 {
    if left > TICK_MS {
        (left - TICK_MS) as u32
    } else {
        0
    }
}

/// The newest [`HISTORY_CAP`] entries of `s`.
pub open spec fn capped(s: Seq<u64>) -> Seq<u64> {
    if s.len() > HISTORY_CAP {
        s.skip(s.len() - HISTORY_CAP)
    } else {
        s
    }
}

/// Whether a flash message set at `created` is gone at `tick`.
pub open spec fn flash_expired(persistent: bool, created: u64, tick: u64) -> bool {
    !persistent && tick - created > FLASH_TICKS
}

/// One line of the transaction log, without the line end.
pub open spec fn tx_log_text(ts: u64, txid: Seq<char>, address: Seq<char>, amount: u64) -> Seq<
    char,
> {
    decimal(ts as nat) + seq![' '] + txid + seq![' '] + address + seq![' '] + decimal(
        amount as nat,
    )
}

/// Appends `x` to a history and drops the oldest entries over the cap.
pub fn push_capped(history: &mut Vec<u64>, x: u64)
    ensures
        final(history)@ == capped(old(history)@.push(x)),
        final(history).len() <= HISTORY_CAP,
{
    history.push(x);
    let ghost full = history@;
    assert(full.skip(0) == full);
    while history.len() > HISTORY_CAP
        invariant
            history.len() <= full.len(),
            history.len() >= HISTORY_CAP || history.len() == full.len(),
            history@ == full.skip(full.len() - history.len()),
        decreases history.len(),
    {
        history.remove(0);
    }
}

/// Writes one line of the transaction log, without the line end.
pub fn tx_log_line(ts: u64, txid: &str, address: &str, amount: u64) -> (line: String)
    ensures
        line@ == tx_log_text(ts, txid@, address@, amount),
{
    let mut line = String::new();
    push_decimal(&mut line, ts);
    line.push(' ');
    line.append(txid);
    line.push(' ');
    line.append(address);
    line.push(' ');
    push_decimal(&mut line, amount);
    line
}

impl App {
    /// What holds of every state between two steps of the main loop.
    pub open spec fn wf(&self) -> bool {
        &&& self.chain_blocks.len() == 0 ==> self.selected == 0
        &&& self.chain_blocks.len() > 0 ==> self.selected < self.chain_blocks.len()
        &&& self.mempool_history.len() <= HISTORY_CAP
        &&& self.mempool_size_history.len() <= HISTORY_CAP
        &&& self.mempool_fee_history.len() <= HISTORY_CAP
        &&& self.flash_message matches Some(flash) ==> flash.created <= self.tick_count
        &&& self.threads_pending_restart matches Some(tick) ==> tick <= self.tick_count
        &&& self.shockwave matches Some(t) ==> t <= SHOCKWAVE_END
        &&& self.block_found_display <= FOUND_DISPLAY_MS
    }

    /// The "blocks found" count that the miner reports, zero without a
    /// miner status.
    pub open spec fn blocks_found(&self) -> u64 {
        match self.mining {
            Some(m) => m.blocks_found,
            None => 0,
        }
    }

    /// The state at startup: the dashboard, nothing loaded, normal mode.
    pub fn new() -> (app: App)
        ensures
            app.wf(),
            app.current_view == Screen::Dashboard,
            app.tick_count == 0,
            app.chain_blocks@.len() == 0,
            app.selected == 0,
            app.grid_scroll_offset == 0,
            app.blocks_per_row == 20,
            app.status is None,
            app.mempool is None,
            app.balance is None,
            app.wallet_address is None,
            app.mining is None,
            app.prev_blocks_found == 0,
            app.shockwave is None,
            app.prev_chain_height == 0,
            app.block_found_display == 0,
            app.mempool_history@.len() == 0,
            app.mempool_size_history@.len() == 0,
            app.mempool_fee_history@.len() == 0,
            app.threads_pending_restart is None,
            app.flash_message is None,
            app.input_mode is Normal,
            app.tx_history@.len() == 0,
    {
        App {
            current_view: Screen::Dashboard,
            tick_count: 0,
            chain_blocks: Vec::new(),
            selected: 0,
            grid_scroll_offset: 0,
            blocks_per_row: 20,
            status: None,
            mempool: None,
            balance: None,
            wallet_address: None,
            mining: None,
            prev_blocks_found: 0,
            shockwave: None,
            prev_chain_height: 0,
            block_found_display: 0,
            mempool_history: Vec::new(),
            mempool_size_history: Vec::new(),
            mempool_fee_history: Vec::new(),
            threads_pending_restart: None,
            flash_message: None,
            input_mode: InputMode::Normal,
            tx_history: Vec::new(),
        }
    }

    /// The time the selected block took, in seconds: its timestamp less
    /// that of the block before it, zero if that one is later. The target
    /// block time where the selection has no block before it.
    pub fn selected_block_time(&self) -> (secs: u64)
        ensures
            secs == if 0 < self.selected < self.chain_blocks.len() {
                let block = self.chain_blocks[self.selected as int];
                let prev = self.chain_blocks[self.selected - 1];
                if block.timestamp >= prev.timestamp {
                    (block.timestamp - prev.timestamp) as u64
                } else {
                    0
                }
            } else {
                TARGET_BLOCK_SECS
            },
    {
        if self.selected == 0 || self.selected >= self.chain_blocks.len() {
            return TARGET_BLOCK_SECS;
        }
        let block = &self.chain_blocks[self.selected];
        let prev = &self.chain_blocks[self.selected - 1];
        block.timestamp.saturating_sub(prev.timestamp)
    }

    /// The part of the plasma update that is counted: notes the "blocks
    /// found" count, starts a shockwave if it grew from a count that was
    /// not zero, and moves a running shockwave on by one tick. Returns
    /// whether a shockwave started.
    pub fn update_plasma(&mut self) -> (fired: bool)
        ensures
            fired == shockwave_fires(old(self).prev_blocks_found, old(self).blocks_found()),
            final(self).prev_blocks_found == old(self).blocks_found(),
            final(self).shockwave == shockwave_after(
                old(self).prev_blocks_found,
                old(self).blocks_found(),
                old(self).shockwave,
            ),
            *final(self) == (App {
                prev_blocks_found: final(self).prev_blocks_found,
                shockwave: final(self).shockwave,
                ..*old(self)
            }),
            old(self).wf() ==> final(self).wf(),
    {
        let found = match &self.mining {
            Some(m) => m.blocks_found,
            None => 0,
        };
        let fired = found > self.prev_blocks_found && self.prev_blocks_found > 0;
        if fired {
            self.shockwave = Some(0);
        }
        self.prev_blocks_found = found;
        if let Some(t) = self.shockwave {
            if t > SHOCKWAVE_END - SHOCKWAVE_STEP {
                self.shockwave = None;
            } else {
                self.shockwave = Some(t + SHOCKWAVE_STEP);
            }
        }
        fired
    }

    /// Counts one tick off the time for which a found block is announced.
    pub fn update_block_found(&mut self)
        ensures
            final(self).block_found_display == found_display_after(old(self).block_found_display),
            *final(self) == (App {
                block_found_display: final(self).block_found_display,
                ..*old(self)
            }),
            old(self).wf() ==> final(self).wf(),
    {
        if self.block_found_display > TICK_MS {
            self.block_found_display = self.block_found_display - TICK_MS;
        } else {
            self.block_found_display = 0;
        }
    }

    /// Appends the mempool's count, size and average fee to the three
    /// histories, each of which keeps its newest [`HISTORY_CAP`] entries.
    pub fn record_mempool(&mut self, mempool: &MempoolStats)
        ensures
            final(self).mempool_history@ == capped(
                old(self).mempool_history@.push(mempool.count as u64),
            ),
            final(self).mempool_size_history@ == capped(
                old(self).mempool_size_history@.push(mempool.size_bytes),
            ),
            final(self).mempool_fee_history@ == capped(
                old(self).mempool_fee_history@.push(mempool.avg_fee),
            ),
            final(self).mempool_history.len() <= HISTORY_CAP,
            final(self).mempool_size_history.len() <= HISTORY_CAP,
            final(self).mempool_fee_history.len() <= HISTORY_CAP,
            *final(self) == (App {
                mempool_history: final(self).mempool_history,
                mempool_size_history: final(self).mempool_size_history,
                mempool_fee_history: final(self).mempool_fee_history,
                ..*old(self)
            }),
            old(self).wf() ==> final(self).wf(),
    {
        push_capped(&mut self.mempool_history, mempool.count as u64);
        push_capped(&mut self.mempool_size_history, mempool.size_bytes);
        push_capped(&mut self.mempool_fee_history, mempool.avg_fee);
    }

    /// Shows `msg` until [`FLASH_TICKS`] ticks have passed.
    pub fn set_flash(&mut self, msg: String)
        ensures
            final(self).flash_message == Some(
                FlashMessage {
                    text: msg,
                    created: old(self).tick_count,
                    persistent: false,
                    copyable: None,
                },
            ),
            *final(self) == (App { flash_message: final(self).flash_message, ..*old(self) }),
            old(self).wf() ==> final(self).wf(),
    {
        self.flash_message = Some(
            FlashMessage { text: msg, created: self.tick_count, persistent: false, copyable: None },
        );
    }

    /// Shows `msg` until it is dismissed, and offers `copyable` to the
    /// copy key meanwhile.
    pub fn set_flash_persistent(&mut self, msg: String, copyable: String)
        ensures
            final(self).flash_message == Some(
                FlashMessage {
                    text: msg,
                    created: old(self).tick_count,
                    persistent: true,
                    copyable: Some(copyable),
                },
            ),
            *final(self) == (App { flash_message: final(self).flash_message, ..*old(self) }),
            old(self).wf() ==> final(self).wf(),
    {
        self.flash_message = Some(
            FlashMessage {
                text: msg,
                created: self.tick_count,
                persistent: true,
                copyable: Some(copyable),
            },
        );
    }

    /// Notes a sent transaction in the session's history and returns the
    /// line to append to the transaction log: the time of the call, the
    /// identifier, the destination and the amount in atomic units.
    pub fn log_tx(&mut self, txid: &str, address: &str, amount: u64) -> (line: String)
        ensures
            final(self).tx_history@.len() == old(self).tx_history@.len() + 1,
            final(self).tx_history@.drop_last() == old(self).tx_history@,
            final(self).tx_history@.last()@ == txid@,
            exists|ts: u64| line@ == #[trigger] tx_log_text(ts, txid@, address@, amount),
            *final(self) == (App { tx_history: final(self).tx_history, ..*old(self) }),
            old(self).wf() ==> final(self).wf(),
    {
        self.tx_history.push(String::from_str(txid));
        let ts = unix_now();
        tx_log_line(ts, txid, address, amount)
    }

    /// Removes a flash message that is not persistent once more than
    /// [`FLASH_TICKS`] ticks have passed since it was set.
    pub fn update_flash(&mut self)
        requires
            old(self).flash_message matches Some(flash) ==> flash.created <= old(self).tick_count,
        ensures
            final(self).flash_message == match old(self).flash_message {
                Some(flash) => if flash_expired(
                    flash.persistent,
                    flash.created,
                    old(self).tick_count,
                ) {
                    None
                } else {
                    old(self).flash_message
                },
                None => None,
            },
            *final(self) == (App { flash_message: final(self).flash_message, ..*old(self) }),
            old(self).wf() ==> final(self).wf(),
    {
        let expired = match &self.flash_message {
            Some(flash) => !flash.persistent && self.tick_count - flash.created > FLASH_TICKS,
            None => false,
        };
        if expired {
            self.flash_message = None;
        }
    }
}

/// The first "blocks found" count that is seen starts no shockwave,
/// whatever it is: before it the count noted is zero, as in the state at
/// startup.
pub proof fn lemma_first_count_starts_no_shockwave(found: u64)
    ensures
        !shockwave_fires(0, found),
        shockwave_after(0, found, None) is None,
{
}

/// A shockwave starts exactly when the count grows from a count that was
/// not zero, and a started wave is running after the tick.
pub proof fn lemma_shockwave_starts_on_growth(prev: u64, found: u64, phase: Option<u16>)
    ensures
        shockwave_fires(prev, found) <==> (prev > 0 && found > prev),
        shockwave_fires(prev, found) ==> shockwave_after(prev, found, phase) == Some(SHOCKWAVE_STEP),
{
}

/// A capped history holds at most [`HISTORY_CAP`] entries, and they are
/// the newest of the history in their order: the oldest go first.
pub proof fn lemma_capped_keeps_newest(s: Seq<u64>)
    ensures
        capped(s).len() <= HISTORY_CAP,
        capped(s).len() <= s.len(),
        s.len() <= HISTORY_CAP ==> capped(s) == s,
        forall|i: int|
            0 <= i < capped(s).len() ==> #[trigger] capped(s)[i] == s[s.len() - capped(s).len() + i],
{
}

impl App {
    /// Tells whether the state is well formed.
    pub fn is_well_formed(&self) -> (b: bool)
        ensures
            b == self.wf(),
    {
        let len = self.chain_blocks.len();
        let selection = if len == 0 {
            self.selected == 0
        } else {
            self.selected < len
        };
        let flash = match &self.flash_message {
            Some(f) => f.created <= self.tick_count,
            None => true,
        };
        let pending = match self.threads_pending_restart {
            Some(tick) => tick <= self.tick_count,
            None => true,
        };
        let wave = match self.shockwave {
            Some(t) => t <= SHOCKWAVE_END,
            None => true,
        };
        selection && self.mempool_history.len() <= HISTORY_CAP && self.mempool_size_history.len()
            <= HISTORY_CAP && self.mempool_fee_history.len() <= HISTORY_CAP && flash && pending
            && wave && self.block_found_display <= FOUND_DISPLAY_MS
    }
}

} // verus!
