//! The tick schedule: what one pass of the main loop does to the state,
//! which remote calls fall due, and how their answers are taken in.

use crate::app::{
    capped, flash_expired, found_display_after, shockwave_after, shockwave_fires, tx_log_text, App,
    FlashMessage, FlashView, InputMode, Screen, SendForm, FOUND_DISPLAY_MS,
};
use crate::types::{BalanceResponse, BlockResponse, DaemonStats, MempoolStats, MiningStatus};
use vstd::prelude::*;
use vstd::string::StringExecFns;

verus! {

/// Ticks between two polls of the node status.
pub const STATUS_POLL_TICKS: u64 = 30;

/// Ticks between two polls of mempool, balance and miner.
pub const WALLET_POLL_TICKS: u64 = 90;

/// Ticks that a thread-count change waits before the miner is restarted.
pub const RESTART_DELAY_TICKS: u64 = 15;

/// The number of newest blocks that the initial load asks for.
pub const INITIAL_WINDOW: u64 = 1000;

/// What the main loop has to do after a tick.
#[derive(Clone, Copy, Debug)]
pub struct TickPlan {
    /// Turn the cube of the selected block.
    pub spin_cube: bool,
    /// Move the plasma field on.
    pub advance_plasma: bool,
    /// A shockwave started on this tick.
    pub shockwave_fired: bool,
    /// Stop and start the miner, then fetch its status.
    pub restart_mining: bool,
    /// Fetch the node status.
    pub poll_status: bool,
    /// Fetch mempool, balance and miner status.
    pub poll_wallet: bool,
}

/// A run of blocks to fetch by height, both ends included.
#[derive(Clone, Copy, Debug)]
pub struct FetchPlan {
    pub first: u64,
    pub last: u64,
    /// Whether the selection moves to the newest block afterwards.
    pub follow: bool,
}

/// The flash message after the tick that brings the clock to `tick`.
pub open spec fn flash_after(flash: Option<FlashMessage>, tick: u64) -> Option<FlashMessage> {
    match flash {
        Some(f) => if flash_expired(f.persistent, f.created, tick) {
            None
        } else {
            flash
        },
        None => None,
    }
}

/// Whether a thread-count change noted at `pending` is due at `tick`.
pub open spec fn restart_due(pending: Option<u64>, tick: u64) -> bool {
    pending matches Some(changed) && tick - changed > RESTART_DELAY_TICKS
}

/// One tick: `post` and `plan` follow the state `pre`.
pub open spec fn tick_step(pre: App, post: App, plan: TickPlan) -> bool {
    let tick = (pre.tick_count + 1) as u64;
    let dashboard = pre.current_view == Screen::Dashboard;
    &&& post == (App {
        tick_count: tick,
        prev_blocks_found: if dashboard {
            pre.blocks_found()
        } else {
            pre.prev_blocks_found
        },
        shockwave: if dashboard {
            shockwave_after(pre.prev_blocks_found, pre.blocks_found(), pre.shockwave)
        } else {
            pre.shockwave
        },
        block_found_display: found_display_after(pre.block_found_display),
        flash_message: flash_after(pre.flash_message, tick),
        threads_pending_restart: if restart_due(pre.threads_pending_restart, tick) {
            None
        } else {
            pre.threads_pending_restart
        },
        ..pre
    })
    &&& plan == (TickPlan {
        spin_cube: pre.current_view == Screen::Grid && pre.chain_blocks.len() > 0,
        advance_plasma: dashboard,
        shockwave_fired: dashboard && shockwave_fires(pre.prev_blocks_found, pre.blocks_found()),
        restart_mining: restart_due(pre.threads_pending_restart, tick),
        poll_status: tick % STATUS_POLL_TICKS == 0,
        poll_wallet: tick % WALLET_POLL_TICKS == 0,
    })
}

/// The height of the newest block held, zero if none is held.
pub open spec fn newest_height(blocks: Seq<BlockResponse>) -> u64 {
    if blocks.len() > 0 {
        blocks.last().height
    } else {
        0
    }
}

/// The blocks to fetch once a status with chain height `height` has come
/// in: those above the newest block held, if any is held at all.
pub open spec fn catch_up_plan(pre: App, height: u64) -> Option<FetchPlan> {
    let have = newest_height(pre.chain_blocks@);
    if height > have && have > 0 {
        Some(
            FetchPlan {
                first: (have + 1) as u64,
                last: height,
                follow: pre.selected + 1 >= pre.chain_blocks.len(),
            },
        )
    } else {
        None
    }
}

/// The blocks that the initial load asks for under a chain height of
/// `height`: the newest [`INITIAL_WINDOW`] heights, from zero if the chain
/// is shorter.
pub open spec fn initial_plan(height: u64) -> FetchPlan {
    FetchPlan {
        first: if height >= INITIAL_WINDOW - 1 {
            (height - (INITIAL_WINDOW - 1)) as u64
        } else {
            0
        },
        last: height,
        follow: true,
    }
}

impl App {
    /// Advances the clock by one tick and everything that is timed by it.
    ///
    /// On the dashboard the shockwave is updated; the announcement of a
    /// found block and the flash message run down; a thread-count change
    /// older than [`RESTART_DELAY_TICKS`] is taken off and its restart
    /// handed to the loop; polls fall due at multiples of
    /// [`STATUS_POLL_TICKS`] and [`WALLET_POLL_TICKS`].
    pub fn advance_tick(&mut self) -> (plan: TickPlan)
        requires
            old(self).wf(),
            old(self).tick_count < u64::MAX,
        ensures
            tick_step(*old(self), *final(self), plan),
            final(self).wf(),
    {
        self.tick_count = self.tick_count + 1;
        let spin_cube = self.current_view == Screen::Grid && self.chain_blocks.len() > 0;
        let advance_plasma = self.current_view == Screen::Dashboard;
        let mut shockwave_fired = false;
        if advance_plasma {
            shockwave_fired = self.update_plasma();
        }
        self.update_block_found();
        self.update_flash();
        let restart_mining = match self.threads_pending_restart {
            Some(changed) => self.tick_count - changed > RESTART_DELAY_TICKS,
            None => false,
        };
        if restart_mining {
            self.threads_pending_restart = None;
        }
        TickPlan {
            spin_cube,
            advance_plasma,
            shockwave_fired,
            restart_mining,
            poll_status: self.tick_count % STATUS_POLL_TICKS == 0,
            poll_wallet: self.tick_count % WALLET_POLL_TICKS == 0,
        }
    }

    /// Takes in the status fetched at startup and says which blocks to
    /// load. Without a status nothing is loaded.
    pub fn initial_status(&mut self, fetched: Option<DaemonStats>) -> (plan: Option<FetchPlan>)
        ensures
            match fetched {
                Some(stats) => {
                    &&& *final(self) == (App { status: fetched, ..*old(self) })
                    &&& plan == Some(initial_plan(stats.chain_height))
                },
                None => {
                    &&& *final(self) == *old(self)
                    &&& plan == match old(self).status {
                        Some(stats) => Some(initial_plan(stats.chain_height)),
                        None => None,
                    }
                },
            },
            old(self).wf() ==> final(self).wf(),
    {
        if fetched.is_some() {
            self.status = fetched;
        }
        match &self.status {
            Some(stats) => Some(
                FetchPlan {
                    first: stats.chain_height.saturating_sub(INITIAL_WINDOW - 1),
                    last: stats.chain_height,
                    follow: true,
                },
            ),
            None => None,
        }
    }

    /// Takes in a polled status: keeps it, announces a found block if the
    /// chain grew from a height that was already known, and says which
    /// blocks to fetch to catch up.
    pub fn status_received(&mut self, stats: DaemonStats) -> (plan: Option<FetchPlan>)
        ensures
            *final(self) == (App {
                status: Some(stats),
                block_found_display: if stats.chain_height > old(self).prev_chain_height && old(
                    self,
                ).prev_chain_height > 0 {
                    FOUND_DISPLAY_MS
                } else {
                    old(self).block_found_display
                },
                prev_chain_height: stats.chain_height,
                ..*old(self)
            }),
            plan == catch_up_plan(*old(self), stats.chain_height),
            old(self).wf() ==> final(self).wf(),
    {
        let height = stats.chain_height;
        let have = if self.chain_blocks.len() > 0 {
            self.chain_blocks[self.chain_blocks.len() - 1].height
        } else {
            0
        };
        self.status = Some(stats);
        if height > self.prev_chain_height && self.prev_chain_height > 0 {
            self.block_found_display = FOUND_DISPLAY_MS;
        }
        self.prev_chain_height = height;
        if height > have && have > 0 {
            Some(
                FetchPlan {
                    first: have + 1,
                    last: height,
                    follow: self.selected >= self.chain_blocks.len() - 1,
                },
            )
        } else {
            None
        }
    }

    /// Appends the blocks that a fetch brought, in the order given. With
    /// `follow` the selection moves to the newest block held.
    pub fn blocks_received(&mut self, blocks: Vec<BlockResponse>, follow: bool)
        ensures
            final(self).chain_blocks@ == old(self).chain_blocks@ + blocks@,
            final(self).selected == if follow && final(self).chain_blocks.len() > 0 {
                (final(self).chain_blocks.len() - 1) as usize
            } else {
                old(self).selected
            },
            *final(self) == (App {
                chain_blocks: final(self).chain_blocks,
                selected: final(self).selected,
                ..*old(self)
            }),
            old(self).wf() ==> final(self).wf(),
    {
        let mut blocks = blocks;
        self.chain_blocks.append(&mut blocks);
        if follow && self.chain_blocks.len() > 0 {
            self.selected = self.chain_blocks.len() - 1;
        }
    }

    /// Takes in a polled mempool: a successful poll is recorded in the
    /// histories and kept; a failed one changes nothing.
    pub fn mempool_received(&mut self, fetched: Option<MempoolStats>)
        ensures
            match fetched {
                Some(m) => {
                    &&& final(self).mempool == fetched
                    &&& final(self).mempool_history@ == capped(
                        old(self).mempool_history@.push(m.count as u64),
                    )
                    &&& final(self).mempool_size_history@ == capped(
                        old(self).mempool_size_history@.push(m.size_bytes),
                    )
                    &&& final(self).mempool_fee_history@ == capped(
                        old(self).mempool_fee_history@.push(m.avg_fee),
                    )
                    &&& *final(self) == (App {
                        mempool: final(self).mempool,
                        mempool_history: final(self).mempool_history,
                        mempool_size_history: final(self).mempool_size_history,
                        mempool_fee_history: final(self).mempool_fee_history,
                        ..*old(self)
                    })
                },
                None => *final(self) == *old(self),
            },
            old(self).wf() ==> final(self).wf(),
    {
        if let Some(m) = fetched {
            self.record_mempool(&m);
            self.mempool = Some(m);
        }
    }

    /// Takes in the mempool fetched at startup, which is kept but not
    /// recorded in the histories; a failed fetch changes nothing.
    pub fn mempool_loaded(&mut self, fetched: Option<MempoolStats>)
        ensures
            *final(self) == (App {
                mempool: if fetched is Some {
                    fetched
                } else {
                    old(self).mempool
                },
                ..*old(self)
            }),
            old(self).wf() ==> final(self).wf(),
    {
        if fetched.is_some() {
            self.mempool = fetched;
        }
    }

    /// Takes in a polled balance; a failed poll changes nothing.
    pub fn balance_received(&mut self, fetched: Option<BalanceResponse>)
        ensures
            *final(self) == (App {
                balance: if fetched is Some {
                    fetched
                } else {
                    old(self).balance
                },
                ..*old(self)
            }),
            old(self).wf() ==> final(self).wf(),
    {
        if fetched.is_some() {
            self.balance = fetched;
        }
    }

    /// Takes in the wallet address; a failed fetch changes nothing.
    pub fn address_received(&mut self, fetched: Option<String>)
        ensures
            *final(self) == (App {
                wallet_address: if fetched is Some {
                    fetched
                } else {
                    old(self).wallet_address
                },
                ..*old(self)
            }),
            old(self).wf() ==> final(self).wf(),
    {
        if fetched.is_some() {
            self.wallet_address = fetched;
        }
    }

    /// Takes in a fetched miner status; a failed fetch changes nothing.
    pub fn mining_refreshed(&mut self, fetched: Option<MiningStatus>)
        ensures
            *final(self) == (App {
                mining: if fetched is Some {
                    fetched
                } else {
                    old(self).mining
                },
                ..*old(self)
            }),
            old(self).wf() ==> final(self).wf(),
    {
        if fetched.is_some() {
            self.mining = fetched;
        }
    }

    /// Finishes a thread-count change: takes in the miner status fetched
    /// after it and, if the miner was running, notes the tick so that the
    /// miner is restarted once the change has settled.
    pub fn threads_changed(&mut self, was_running: bool, fetched: Option<MiningStatus>)
        ensures
            *final(self) == (App {
                mining: if fetched is Some {
                    fetched
                } else {
                    old(self).mining
                },
                threads_pending_restart: if was_running {
                    Some(old(self).tick_count)
                } else {
                    old(self).threads_pending_restart
                },
                ..*old(self)
            }),
            old(self).wf() ==> final(self).wf(),
    {
        if fetched.is_some() {
            self.mining = fetched;
        }
        if was_running {
            self.threads_pending_restart = Some(self.tick_count);
        }
    }

    /// Reports the outcome of a copy to the clipboard in a flash message:
    /// `done` on success, the error after `Clipboard error: ` otherwise.
    pub fn clipboard_done(&mut self, done: String, outcome: Result<(), String>)
        ensures
            final(self).flash_message matches Some(flash) && flash@ == (FlashView {
                text: match outcome {
                    Ok(_) => done@,
                    Err(e) => "Clipboard error: "@ + e@,
                },
                created: old(self).tick_count,
                persistent: false,
                copyable: None,
            }),
            *final(self) == (App { flash_message: final(self).flash_message, ..*old(self) }),
            old(self).wf() ==> final(self).wf(),
    {
        match outcome {
            Ok(_) => {
                self.set_flash(done);
            },
            Err(e) => {
                let mut text = String::from_str("Clipboard error: ");
                text.append(e.as_str());
                self.set_flash(text);
            },
        }
    }

    /// Finishes a send.
    ///
    /// On success the form closes, the transaction is noted, a persistent
    /// flash message shows its identifier and offers it for copying, and
    /// the line for the transaction log is returned. On failure the error
    /// is shown in the form, which keeps its text.
    pub fn send_done(&mut self, address: &str, amount: u64, outcome: Result<String, String>) -> (line:
        Option<String>)
        ensures
            match outcome {
                Ok(txid) => {
                    &&& final(self).input_mode is Normal
                    &&& final(self).tx_history@.len() == old(self).tx_history@.len() + 1
                    &&& final(self).tx_history@.drop_last() == old(self).tx_history@
                    &&& final(self).tx_history@.last()@ == txid@
                    &&& final(self).flash_message matches Some(flash) && flash@ == (FlashView {
                        text: "Sent! tx: "@ + txid@,
                        created: old(self).tick_count,
                        persistent: true,
                        copyable: Some(txid@),
                    })
                    &&& line matches Some(l) && exists|ts: u64|
                        l@ == #[trigger] tx_log_text(ts, txid@, address@, amount)
                    &&& *final(self) == (App {
                        input_mode: final(self).input_mode,
                        tx_history: final(self).tx_history,
                        flash_message: final(self).flash_message,
                        ..*old(self)
                    })
                },
                Err(e) => {
                    &&& line is None
                    &&& final(self).input_mode.form() == match old(self).input_mode.form() {
                        Some(form) => Some(SendForm { error: Some(e@), ..form }),
                        None => None,
                    }
                    &&& *final(self) == (App { input_mode: final(self).input_mode, ..*old(self) })
                },
            },
            old(self).wf() ==> final(self).wf(),
    {
        match outcome {
            Ok(txid) => {
                self.input_mode = InputMode::Normal;
                let line = self.log_tx(txid.as_str(), address, amount);
                let mut text = String::from_str("Sent! tx: ");
                text.append(txid.as_str());
                self.set_flash_persistent(text, txid);
                Some(line)
            },
            Err(e) => {
                match &mut self.input_mode {
                    InputMode::SendDialog { error, .. } => {
                        *error = Some(e);
                    },
                    InputMode::Normal => {},
                }
                None
            },
        }
    }
}

} // verus!
