//! What lies over and around the screens: the help line, the send form
//! and the flash message, each with its place in the frame.

use crate::app::{App, FlashMessage, InputMode, Screen, SendForm};
use crate::grid::Area;
use crate::text::{chars_of, utf8_len};
use vstd::prelude::*;
use vstd::string::StringExecFns;

verus! {

/// A rectangle of character cells within the frame.
#[derive(Clone, Copy, Debug, PartialEq, Eq)]
pub struct Rect {
    pub x: u16,
    pub y: u16,
    pub width: u16,
    pub height: u16,
}

/// Width of the send form.
pub const DIALOG_W: u16 = 52;

/// Height of the send form.
pub const DIALOG_H: u16 = 11;

/// The offset that centres `size` cells in `room` cells: half of what is
/// left over, rounded down, zero if nothing is.
pub open spec fn centre(room: u16, size: u16) -> u16 {
    if room > size {
        ((room - size) / 2) as u16
    } else {
        0
    }
}

/// The rectangle of a box of `width` by `height` cells in the middle of
/// the frame.
pub fn centered(frame: Area, width: u16, height: u16) -> (r: Rect)
    ensures
        r == (Rect {
            x: centre(frame.width, width),
            y: centre(frame.height, height),
            width,
            height,
        }),
{
    Rect {
        x: frame.width.saturating_sub(width) / 2,
        y: frame.height.saturating_sub(height) / 2,
        width,
        height,
    }
}

/// The rectangle of the send form in the frame.
pub fn dialog_rect(frame: Area) -> (r: Rect)
    ensures
        r == (Rect {
            x: centre(frame.width, DIALOG_W),
            y: centre(frame.height, DIALOG_H),
            width: DIALOG_W,
            height: DIALOG_H,
        }),
{
    centered(frame, DIALOG_W, DIALOG_H)
}

/// The rectangle of the form's fields: the form without its border and
/// one more column on either side.
pub fn dialog_inner(frame: Area) -> (r: Rect)
    ensures
        r == (Rect {
            x: (centre(frame.width, DIALOG_W) + 2) as u16,
            y: (centre(frame.height, DIALOG_H) + 1) as u16,
            width: (DIALOG_W - 4) as u16,
            height: (DIALOG_H - 2) as u16,
        }),
{
    let outer = dialog_rect(frame);
    Rect { x: outer.x + 2, y: outer.y + 1, width: DIALOG_W - 4, height: DIALOG_H - 2 }
}

/// The send form as it is drawn.
#[derive(Debug)]
pub struct DialogLines {
    /// The address, with the cursor after it if the field has the focus.
    pub address: String,
    /// The amount, with the cursor after it if the field has the focus.
    pub amount: String,
    /// Whether the address field is highlighted.
    pub address_focused: bool,
    /// Whether the amount field is highlighted.
    pub amount_focused: bool,
    /// The error, or the keys of the form where there is none.
    pub footer: String,
    /// Whether the footer is an error.
    pub footer_is_error: bool,
}

/// [`DialogLines`] as plain values.
pub struct DialogLinesView {
    pub address: Seq<char>,
    pub amount: Seq<char>,
    pub address_focused: bool,
    pub amount_focused: bool,
    pub footer: Seq<char>,
    pub footer_is_error: bool,
}

impl View for DialogLines {
    type V = DialogLinesView;

    open spec fn view(&self) -> DialogLinesView {
        DialogLinesView {
            address: self.address@,
            amount: self.amount@,
            address_focused: self.address_focused,
            amount_focused: self.amount_focused,
            footer: self.footer@,
            footer_is_error: self.footer_is_error,
        }
    }
}

/// The lines of the form `form`.
pub open spec fn dialog_lines_of(form: SendForm) -> DialogLinesView {
    DialogLinesView {
        address: if form.focused == 0 {
            form.address + "_"@
        } else {
            form.address
        },
        amount: if form.focused == 1 {
            form.amount + "_"@
        } else {
            form.amount
        },
        address_focused: form.focused == 0,
        amount_focused: form.focused == 1,
        footer: match form.error {
            Some(e) => e,
            None => "Tab switch · Enter send · Esc cancel"@,
        },
        footer_is_error: form.error is Some,
    }
}

/// The hint under a flash message: how to copy what it offers, how to
/// close it if it stays, nothing if it goes by itself.
pub open spec fn flash_hint(persistent: bool, copyable: bool) -> Seq<char> {
    if copyable {
        "[c] Copy · Esc close"@
    } else if persistent {
        "Esc close"@
    } else {
        Seq::empty()
    }
}

/// The width of the box of a flash message: the bytes of the longer of
/// text and hint, counted within sixteen bits, and four cells more.
pub open spec fn flash_width(text: Seq<char>, hint: Seq<char>) -> int {
    let longer = if utf8_len(text) >= utf8_len(hint) {
        utf8_len(text)
    } else {
        utf8_len(hint)
    };
    if longer % 0x1_0000 + 4 <= u16::MAX {
        (longer % 0x1_0000 + 4) as int
    } else {
        u16::MAX as int
    }
}

/// The flash message as it is drawn.
#[derive(Debug)]
pub struct FlashBox {
    pub rect: Rect,
    /// The text between two blanks.
    pub text: String,
    /// The hint between two blanks, if there is one.
    pub hint: Option<String>,
}

/// Whether `drawn` is the box of the flash message `flash` in `frame`.
pub open spec fn is_flash_box(drawn: FlashBox, flash: FlashMessage, frame: Area) -> bool {
    let hint = flash_hint(flash.persistent, flash.copyable is Some);
    let width = flash_width(flash.text@, hint) as u16;
    &&& drawn.rect == (Rect {
        x: centre(frame.width, width),
        y: (frame.height / 2) as u16,
        width,
        height: if hint.len() == 0 {
            3u16
        } else {
            4u16
        },
    })
    &&& drawn.text@ == " "@ + flash.text@ + " "@
    &&& match drawn.hint {
        Some(h) => hint.len() > 0 && h@ == " "@ + hint + " "@,
        None => hint.len() == 0,
    }
}

/// The bytes that `s` takes in UTF-8.
pub fn byte_len(s: &str) -> (n: u128)
    ensures
        n == utf8_len(s@),
        n <= 4 * s@.len(),
{
    let v = chars_of(s);
    let mut n: u128 = 0;
    let mut i: usize = 0;
    while i < v.len()
        invariant
            i <= v.len(),
            v@ == s@,
            n == utf8_len(v@.take(i as int)),
            n <= 4 * i,
        decreases v.len() - i,
    {
        let u: u32 = v[i] as u32;
        let width: u128 = if u < 0x80 {
            1
        } else if u < 0x800 {
            2
        } else if u < 0x1_0000 {
            3
        } else {
            4
        };
        assert(v@.take(i + 1).drop_last() == v@.take(i as int));
        n = n + width;
        i += 1;
    }
    assert(v@.take(i as int) == v@);
    n
}

/// The help line's entries: the keys, then what they do.
#[derive(Clone, Copy, Debug)]
pub struct HelpItem {
    pub keys: &'static str,
    pub label: &'static str,
}

/// The entries of the help line on the screen `screen`: the two screens,
/// the keys of the screen shown, and the key to quit.
pub open spec fn help_words(screen: Screen) -> Seq<(Seq<char>, Seq<char>)> {
    seq![(" [1]"@, " Dashboard  "@), ("[2]"@, " Grid  "@)] + (match screen {
        Screen::Dashboard => seq![
            ("[s/r]"@, " Send / Receive  "@),
            ("[m]"@, " Mine  "@),
            ("[+/-]"@, " Threads  "@),
        ],
        Screen::Grid => seq![
            ("[j/k]"@, " Nav  "@),
            ("[J/K]"@, " Jump  "@),
            ("[v]"@, " View in Browser  "@),
        ],
    }) + seq![("[q]"@, " Quit"@)]
}

/// The help line of a screen.
pub fn help_items(screen: Screen) -> (items: Vec<HelpItem>)
    ensures
        items@.len() == help_words(screen).len(),
        forall|i: int|
            0 <= i < items@.len() ==> ((#[trigger] items@[i]).keys@, items@[i].label@) == help_words(
                screen,
            )[i],
{
    let mut items: Vec<HelpItem> = Vec::new();
    items.push(HelpItem { keys: " [1]", label: " Dashboard  " });
    items.push(HelpItem { keys: "[2]", label: " Grid  " });
    match screen {
        Screen::Dashboard => {
            items.push(HelpItem { keys: "[s/r]", label: " Send / Receive  " });
            items.push(HelpItem { keys: "[m]", label: " Mine  " });
            items.push(HelpItem { keys: "[+/-]", label: " Threads  " });
        },
        Screen::Grid => {
            items.push(HelpItem { keys: "[j/k]", label: " Nav  " });
            items.push(HelpItem { keys: "[J/K]", label: " Jump  " });
            items.push(HelpItem { keys: "[v]", label: " View in Browser  " });
        },
    }
    items.push(HelpItem { keys: "[q]", label: " Quit" });
    items
}

impl App {
    /// The lines of the send form, `None` in normal mode.
    pub fn dialog_lines(&self) -> (lines: Option<DialogLines>)
        ensures
            match lines {
                Some(l) => self.input_mode.form() matches Some(form) && l@ == dialog_lines_of(form),
                None => self.input_mode is Normal,
            },
    {
        match &self.input_mode {
            InputMode::Normal => None,
            InputMode::SendDialog { address, amount, focused, error } => {
                let mut address_line = address.clone();
                if *focused == 0 {
                    address_line.append("_");
                }
                let mut amount_line = amount.clone();
                if *focused == 1 {
                    amount_line.append("_");
                }
                let footer = match error {
                    Some(e) => e.clone(),
                    None => String::from_str("Tab switch · Enter send · Esc cancel"),
                };
                Some(
                    DialogLines {
                        address: address_line,
                        amount: amount_line,
                        address_focused: *focused == 0,
                        amount_focused: *focused == 1,
                        footer,
                        footer_is_error: error.is_some(),
                    },
                )
            },
        }
    }

    /// The box of the flash message in `frame`, `None` where no message
    /// is shown.
    pub fn flash_box(&self, frame: Area) -> (drawn: Option<FlashBox>)
        ensures
            match drawn {
                Some(b) => self.flash_message matches Some(flash) && is_flash_box(b, flash, frame),
                None => self.flash_message is None,
            },
    {
        match &self.flash_message {
            None => None,
            Some(flash) => {
                let hint: &'static str = if flash.copyable.is_some() {
                    "[c] Copy · Esc close"
                } else if flash.persistent {
                    "Esc close"
                } else {
                    ""
                };
                proof {
                    reveal_strlit("");
                }
                let text_len = byte_len(flash.text.as_str());
                let hint_len = byte_len(hint);
                let longer = if text_len >= hint_len {
                    text_len
                } else {
                    hint_len
                };
                let width: u16 = ((longer % 0x1_0000) as u16).saturating_add(4);
                let mut text = String::from_str(" ");
                text.append(flash.text.as_str());
                text.append(" ");
                let plain = hint.is_empty();
                let hint_line = if plain {
                    None
                } else {
                    let mut line = String::from_str(" ");
                    line.append(hint);
                    line.append(" ");
                    Some(line)
                };
                Some(
                    FlashBox {
                        rect: Rect {
                            x: frame.width.saturating_sub(width) / 2,
                            y: frame.height / 2,
                            width,
                            height: if plain {
                                3
                            } else {
                                4
                            },
                        },
                        text,
                        hint: hint_line,
                    },
                )
            },
        }
    }
}

} // verus!
