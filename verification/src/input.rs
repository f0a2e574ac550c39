//! Key handling: what a key press does to the state, and which piece of
//! outside work it asks the main loop for.

use crate::app::{App, FlashMessage, FlashView, InputMode, Screen, SendForm};
use crate::text::{decimal, push_decimal};
use crate::types::{parse_amount, parse_bnt_amount};
use vstd::prelude::*;
use vstd::string::StringExecFns;

verus! {

/// A key press, as far as the dashboard tells keys apart.
#[derive(Clone, Copy, Debug, PartialEq, Eq)]
pub enum Key {
    Esc,
    Tab,
    BackTab,
    Up,
    Down,
    Backspace,
    Enter,
    Char(char),
    /// Any other key.
    Other,
}

/// Outside work that a key press asks for. The main loop does it and
/// reports back through the method named with each variant.
#[derive(Debug)]
pub enum Command {
    /// Nothing to do.
    Nothing,
    /// Leave the main loop.
    Quit,
    /// Put `text` on the clipboard, then call [`App::clipboard_done`]
    /// with `done` and the outcome.
    Copy { text: String, done: String },
    /// Stop the miner if `running`, else start it; fetch the miner status
    /// again and hand it to [`App::mining_refreshed`].
    ToggleMining { running: bool },
    /// Set the miner's thread count, fetch the miner status again and call
    /// [`App::threads_changed`] with `was_running` and the status.
    SetThreads { threads: u32, was_running: bool },
    /// Open `url` in a browser.
    OpenUrl { url: String },
    /// Send `amount` atomic units to `address` and call
    /// [`App::send_done`] with the outcome.
    Send { address: String, amount: u64 },
}

/// A [`Command`] as plain values.
pub enum CommandView {
    Nothing,
    Quit,
    Copy { text: Seq<char>, done: Seq<char> },
    ToggleMining { running: bool },
    SetThreads { threads: u32, was_running: bool },
    OpenUrl { url: Seq<char> },
    Send { address: Seq<char>, amount: u64 },
}

impl View for Command {
    type V = CommandView;

    open spec fn view(&self) -> CommandView {
        match *self {
            Command::Nothing => CommandView::Nothing,
            Command::Quit => CommandView::Quit,
            Command::Copy { text, done } => CommandView::Copy { text: text@, done: done@ },
            Command::ToggleMining { running } => CommandView::ToggleMining { running },
            Command::SetThreads { threads, was_running } => CommandView::SetThreads {
                threads,
                was_running,
            },
            Command::OpenUrl { url } => CommandView::OpenUrl { url: url@ },
            Command::Send { address, amount } => CommandView::Send { address: address@, amount },
        }
    }
}

/// The address of the block explorer's page for the block at `height`.
pub open spec fn explorer_url(height: u64) -> Seq<char> {
    "https://explorer.blocknetcrypto.com/block/"@ + decimal(height as nat)
}

/// Whether `app` shows a short-lived flash message `text` set at `tick`.
pub open spec fn shows_flash(app: App, text: Seq<char>, tick: u64) -> bool {
    app.flash_message matches Some(flash) && flash@ == (FlashView {
        text,
        created: tick,
        persistent: false,
        copyable: None,
    })
}

/// The selection after a key that moves it in the grid.
pub open spec fn moved_selection(app: App, c: char) -> usize {
    let len = app.chain_blocks.len();
    if app.current_view != Screen::Grid {
        app.selected
    } else if c == 'j' {
        if app.selected + 1 < len {
            (app.selected + 1) as usize
        } else {
            app.selected
        }
    } else if c == 'k' {
        if app.selected > 0 {
            (app.selected - 1) as usize
        } else {
            app.selected
        }
    } else if c == 'J' {
        if len == 0 {
            app.selected
        } else if app.selected + app.blocks_per_row < len - 1 {
            (app.selected + app.blocks_per_row) as usize
        } else {
            (len - 1) as usize
        }
    } else if c == 'K' {
        if app.selected >= app.blocks_per_row {
            (app.selected - app.blocks_per_row) as usize
        } else {
            0
        }
    } else {
        app.selected
    }
}

/// What a key does in normal mode: `post` and `cmd` are the state and the
/// command that follow the state `pre` and the key `key`.
pub open spec fn normal_step(pre: App, key: Key, post: App, cmd: CommandView) -> bool {
    match key {
        Key::Esc => post == (App { flash_message: None, ..pre }) && cmd is Nothing,
        Key::Char(c) => if c == 'c' {
            &&& post == pre
            &&& match pre.flash_message {
                Some(FlashMessage { copyable: Some(text), .. }) => cmd == (CommandView::Copy {
                    text: text@,
                    done: "Copied!"@,
                }),
                _ => cmd is Nothing,
            }
        } else if c == 'q' {
            post == pre && cmd is Quit
        } else if c == '1' {
            post == (App { current_view: Screen::Dashboard, ..pre }) && cmd is Nothing
        } else if c == '2' {
            post == (App { current_view: Screen::Grid, ..pre }) && cmd is Nothing
        } else if c == 's' {
            &&& post == (App { input_mode: post.input_mode, ..pre })
            &&& post.input_mode.form() == Some(
                SendForm { address: Seq::empty(), amount: Seq::empty(), focused: 0, error: None },
            )
            &&& cmd is Nothing
        } else if c == 'm' {
            &&& post == pre
            &&& match pre.mining {
                Some(m) => cmd == (CommandView::ToggleMining { running: m.running }),
                None => cmd is Nothing,
            }
        } else if c == '+' || c == '=' {
            &&& post == pre
            &&& match pre.mining {
                Some(m) => cmd == (CommandView::SetThreads {
                    threads: (m.threads + 1) as u32,
                    was_running: m.running,
                }),
                None => cmd is Nothing,
            }
        } else if c == '-' {
            &&& post == pre
            &&& match pre.mining {
                Some(m) => if m.threads > 1 {
                    cmd == (CommandView::SetThreads {
                        threads: (m.threads - 1) as u32,
                        was_running: m.running,
                    })
                } else {
                    cmd is Nothing
                },
                None => cmd is Nothing,
            }
        } else if c == 'j' || c == 'k' || c == 'J' || c == 'K' {
            post == (App { selected: moved_selection(pre, c), ..pre }) && cmd is Nothing
        } else if c == 'r' {
            &&& post == pre
            &&& match pre.wallet_address {
                Some(addr) => cmd == (CommandView::Copy {
                    text: addr@,
                    done: "Address copied: "@ + addr@,
                }),
                None => cmd is Nothing,
            }
        } else if c == 'v' {
            if pre.current_view == Screen::Grid && pre.selected < pre.chain_blocks.len() {
                &&& post == (App { flash_message: post.flash_message, ..pre })
                &&& shows_flash(post, "Opening block in browser…"@, pre.tick_count)
                &&& cmd == (CommandView::OpenUrl {
                    url: explorer_url(pre.chain_blocks[pre.selected as int].height),
                })
            } else {
                post == pre && cmd is Nothing
            }
        } else {
            post == pre && cmd is Nothing
        },
        _ => post == pre && cmd is Nothing,
    }
}

/// The form after a key that edits the focused field.
pub open spec fn edited_form(form: SendForm, key: Key) -> SendForm {
    let field = if form.focused == 0 {
        form.address
    } else {
        form.amount
    };
    let edited = match key {
        Key::Char(c) => field.push(c),
        _ => if field.len() > 0 {
            field.drop_last()
        } else {
            field
        },
    };
    if form.focused == 0 {
        SendForm { address: edited, error: None, ..form }
    } else {
        SendForm { amount: edited, error: None, ..form }
    }
}

/// What keeps a form from being sent, `None` if nothing does.
pub open spec fn form_error(form: SendForm) -> Option<Seq<char>> {
    if form.address.len() == 0 {
        Some("Address is required"@)
    } else if form.amount.len() == 0 {
        Some("Amount is required"@)
    } else {
        match parse_amount(form.amount) {
            None => Some("Invalid amount format"@),
            Some(atomic) => if atomic == 0 {
                Some("Amount must be greater than 0"@)
            } else {
                None
            },
        }
    }
}

/// What a key does while the send form `form` is open.
pub open spec fn dialog_step(pre: App, form: SendForm, key: Key, post: App, cmd: CommandView) -> bool {
    &&& post == (App { input_mode: post.input_mode, ..pre })
    &&& match key {
        Key::Esc => post.input_mode is Normal && cmd is Nothing,
        Key::Tab | Key::Down | Key::Up | Key::BackTab => {
            &&& post.input_mode.form() == Some(
                SendForm {
                    focused: if form.focused == 0 {
                        1u8
                    } else {
                        0u8
                    },
                    ..form
                },
            )
            &&& cmd is Nothing
        },
        Key::Backspace | Key::Char(_) => {
            &&& post.input_mode.form() == Some(edited_form(form, key))
            &&& cmd is Nothing
        },
        Key::Enter => match form_error(form) {
            Some(message) => {
                &&& post.input_mode.form() == Some(SendForm { error: Some(message), ..form })
                &&& cmd is Nothing
            },
            None => {
                &&& post == pre
                &&& cmd == (CommandView::Send {
                    address: form.address,
                    amount: parse_amount(form.amount)->0,
                })
            },
        },
        Key::Other => post == pre && cmd is Nothing,
    }
}

/// What a key does: the state and the command that follow `pre` and `key`.
pub open spec fn key_step(pre: App, key: Key, post: App, cmd: CommandView) -> bool {
    match pre.input_mode.form() {
        None => normal_step(pre, key, post, cmd),
        Some(form) => dialog_step(pre, form, key, post, cmd),
    }
}

/// Whether the thread count can be raised by the key `key` without
/// leaving the range of the counter.
pub open spec fn threads_in_range(app: App, key: Key) -> bool {
    (app.input_mode is Normal && (key == Key::Char('+') || key == Key::Char('='))) ==> (
    app.mining matches Some(m) ==> m.threads < u32::MAX)
}

impl App {
    /// Handles one key press.
    pub fn handle_key(&mut self, key: Key) -> (cmd: Command)
        requires
            threads_in_range(*old(self), key),
        ensures
            key_step(*old(self), key, *final(self), cmd@),
            old(self).wf() ==> final(self).wf(),
    {
        match &self.input_mode {
            InputMode::Normal => self.handle_normal_key(key),
            InputMode::SendDialog { .. } => self.handle_dialog_key(key),
        }
    }

    /// Handles one key press in normal mode.
    pub fn handle_normal_key(&mut self, key: Key) -> (cmd: Command)
        requires
            old(self).input_mode is Normal,
            threads_in_range(*old(self), key),
        ensures
            normal_step(*old(self), key, *final(self), cmd@),
            old(self).wf() ==> final(self).wf(),
    {
        match key {
            Key::Esc => {
                self.flash_message = None;
                Command::Nothing
            },
            Key::Char(c) => {
                if c == 'c' {
                    match &self.flash_message {
                        Some(FlashMessage { copyable: Some(text), .. }) => Command::Copy {
                            text: text.clone(),
                            done: String::from_str("Copied!"),
                        },
                        _ => Command::Nothing,
                    }
                } else if c == 'q' {
                    Command::Quit
                } else if c == '1' {
                    self.current_view = Screen::Dashboard;
                    Command::Nothing
                } else if c == '2' {
                    self.current_view = Screen::Grid;
                    Command::Nothing
                } else if c == 's' {
                    self.input_mode = InputMode::SendDialog {
                        address: String::new(),
                        amount: String::new(),
                        focused: 0,
                        error: None,
                    };
                    Command::Nothing
                } else if c == 'm' {
                    match &self.mining {
                        Some(m) => Command::ToggleMining { running: m.running },
                        None => Command::Nothing,
                    }
                } else if c == '+' || c == '=' {
                    match &self.mining {
                        Some(m) => Command::SetThreads {
                            threads: m.threads + 1,
                            was_running: m.running,
                        },
                        None => Command::Nothing,
                    }
                } else if c == '-' {
                    match &self.mining {
                        Some(m) => if m.threads > 1 {
                            Command::SetThreads { threads: m.threads - 1, was_running: m.running }
                        } else {
                            Command::Nothing
                        },
                        None => Command::Nothing,
                    }
                } else if c == 'j' || c == 'k' || c == 'J' || c == 'K' {
                    self.move_selection(c);
                    Command::Nothing
                } else if c == 'r' {
                    match &self.wallet_address {
                        Some(addr) => {
                            let mut done = String::from_str("Address copied: ");
                            done.append(addr.as_str());
                            Command::Copy { text: addr.clone(), done }
                        },
                        None => Command::Nothing,
                    }
                } else if c == 'v' {
                    if self.current_view == Screen::Grid && self.selected < self.chain_blocks.len() {
                        let mut url = String::from_str("https://explorer.blocknetcrypto.com/block/");
                        push_decimal(&mut url, self.chain_blocks[self.selected].height);
                        self.set_flash(String::from_str("Opening block in browser…"));
                        Command::OpenUrl { url }
                    } else {
                        Command::Nothing
                    }
                } else {
                    Command::Nothing
                }
            },
            _ => Command::Nothing,
        }
    }

    /// Moves the selection for one of the keys `j`, `k`, `J` and `K`:
    /// one block or one row towards the newest or the oldest block, never
    /// past either, and only on the grid screen.
    pub fn move_selection(&mut self, c: char)
        ensures
            *final(self) == (App { selected: moved_selection(*old(self), c), ..*old(self) }),
            old(self).wf() ==> final(self).wf(),
    {
        let len = self.chain_blocks.len();
        if self.current_view != Screen::Grid {
            return ;
        }
        if c == 'j' {
            if len > 0 && self.selected < len - 1 {
                self.selected = self.selected + 1;
            }
        } else if c == 'k' {
            if self.selected > 0 {
                self.selected = self.selected - 1;
            }
        } else if c == 'J' {
            if len > 0 {
                let max = len - 1;
                let target = self.selected.saturating_add(self.blocks_per_row);
                self.selected = if target < max {
                    target
                } else {
                    max
                };
            }
        } else if c == 'K' {
            self.selected = self.selected.saturating_sub(self.blocks_per_row);
        }
    }

    /// Handles one key press while the send form is open.
    pub fn handle_dialog_key(&mut self, key: Key) -> (cmd: Command)
        requires
            old(self).input_mode is SendDialog,
        ensures
            dialog_step(*old(self), old(self).input_mode.form()->0, key, *final(self), cmd@),
            old(self).wf() ==> final(self).wf(),
    {
        let mut cmd = Command::Nothing;
        let mut close = false;
        match &mut self.input_mode {
            InputMode::SendDialog { address, amount, focused, error } => {
                match key {
                    Key::Esc => {
                        close = true;
                    },
                    Key::Tab | Key::Down | Key::Up | Key::BackTab => {
                        *focused = if *focused == 0 {
                            1
                        } else {
                            0
                        };
                    },
                    Key::Backspace => {
                        if *focused == 0 {
                            address.pop();
                        } else {
                            amount.pop();
                        }
                        *error = None;
                    },
                    Key::Char(c) => {
                        if *focused == 0 {
                            address.push(c);
                        } else {
                            amount.push(c);
                        }
                        *error = None;
                    },
                    Key::Enter => {
                        if address.as_str().is_empty() {
                            *error = Some(String::from_str("Address is required"));
                        } else if amount.as_str().is_empty() {
                            *error = Some(String::from_str("Amount is required"));
                        } else {
                            match parse_bnt_amount(amount.as_str()) {
                                None => {
                                    *error = Some(String::from_str("Invalid amount format"));
                                },
                                Some(atomic) => {
                                    if atomic == 0 {
                                        *error = Some(
                                            String::from_str("Amount must be greater than 0"),
                                        );
                                    } else {
                                        cmd = Command::Send {
                                            address: address.clone(),
                                            amount: atomic,
                                        };
                                    }
                                },
                            }
                        }
                    },
                    Key::Other => {},
                }
            },
            InputMode::Normal => {},
        }
        if close {
            self.input_mode = InputMode::Normal;
        }
        cmd
    }
}

/// The thread count never falls under one: with one thread or none the
/// key `-` changes nothing and asks for nothing.
pub proof fn lemma_threads_stay_above_zero(pre: App, post: App, cmd: CommandView)
    requires
        pre.input_mode is Normal,
        pre.mining matches Some(m) ==> m.threads <= 1,
        key_step(pre, Key::Char('-'), post, cmd),
    ensures
        post == pre,
        cmd is Nothing,
{
}

/// A form that cannot be sent stays open with its text and its error,
/// and nothing is sent: without an address the error asks for one, and
/// with an address and an amount of zero it asks for more than zero.
pub proof fn lemma_unsendable_form_stays_open(pre: App, form: SendForm, post: App, cmd: CommandView)
    requires
        pre.input_mode.form() == Some(form),
        key_step(pre, Key::Enter, post, cmd),
        form.address.len() == 0 || (form.amount.len() > 0 && parse_amount(form.amount) == Some(0u64)),
    ensures
        cmd is Nothing,
        post.input_mode is SendDialog,
        post.input_mode.form() == Some(
            SendForm {
                error: Some(
                    if form.address.len() == 0 {
                        "Address is required"@
                    } else {
                        "Amount must be greater than 0"@
                    },
                ),
                ..form
            },
        ),
{
}

/// A send is asked for only from an open form with an address and an
/// amount that reads as more than zero, and for exactly those.
pub proof fn lemma_send_needs_a_valid_form(pre: App, key: Key, post: App, cmd: CommandView)
    requires
        key_step(pre, key, post, cmd),
        cmd is Send,
    ensures
        key == Key::Enter,
        pre.input_mode.form() matches Some(form) && form.address.len() > 0 && form.amount.len() > 0
            && parse_amount(form.amount) is Some && parse_amount(form.amount)->0 > 0 && cmd == (
        CommandView::Send { address: form.address, amount: parse_amount(form.amount)->0 }),
        post == pre,
{
}

impl App {
    /// Tells whether `key` can be handled: it can unless it would raise a
    /// thread count that stands at the end of its range.
    pub fn can_handle(&self, key: Key) -> (b: bool)
        ensures
            b == threads_in_range(*self, key),
    {
        let raises = match key {
            Key::Char(c) => c == '+' || c == '=',
            _ => false,
        };
        let normal = match &self.input_mode {
            InputMode::Normal => true,
            InputMode::SendDialog { .. } => false,
        };
        if normal && raises {
            match &self.mining {
                Some(m) => m.threads < u32::MAX,
                None => true,
            }
        } else {
            true
        }
    }
}

/// A key changes the input mode in two ways only: `s` opens an empty
/// form from normal mode, and `Esc` closes the form. Every other key
/// leaves the mode as it is.
pub proof fn lemma_mode_changes(pre: App, key: Key, post: App, cmd: CommandView)
    requires
        key_step(pre, key, post, cmd),
    ensures
        pre.input_mode is Normal && post.input_mode is SendDialog ==> key == Key::Char('s')
            && post.input_mode.form() == Some(
            SendForm { address: Seq::empty(), amount: Seq::empty(), focused: 0, error: None },
        ),
        pre.input_mode is SendDialog && post.input_mode is Normal ==> key == Key::Esc,
        pre.input_mode is SendDialog ==> post.selected == pre.selected && post.current_view
            == pre.current_view && post.flash_message == pre.flash_message,
{
}

} // verus!
