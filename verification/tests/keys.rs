use bntui::app::{App, InputMode, Screen};
use bntui::input::{Command, Key};
use bntui::types::{BlockResponse, MiningStatus};

fn block_at(height: u64) -> BlockResponse {
    BlockResponse {
        height,
        hash: String::new(),
        timestamp: 0,
        difficulty: 0,
        tx_count: 0,
        confirmations: 0,
        reward: 0,
        transactions: vec![],
    }
}

fn miner(running: bool, threads: u32) -> MiningStatus {
    MiningStatus {
        running,
        threads,
        hashrate_bits: 0,
        hash_count: 0,
        blocks_found: 0,
        started_at: None,
    }
}

fn grid_app(blocks: u64, selected: usize) -> App {
    let mut app = App::new();
    app.current_view = Screen::Grid;
    app.chain_blocks = (1..=blocks).map(block_at).collect();
    app.selected = selected;
    app
}

fn dialog(address: &str, amount: &str, focused: u8) -> App {
    let mut app = App::new();
    app.input_mode = InputMode::SendDialog {
        address: address.to_string(),
        amount: amount.to_string(),
        focused,
        error: None,
    };
    app
}

fn form_of(app: &App) -> (String, String, u8, Option<String>) {
    match &app.input_mode {
        InputMode::SendDialog { address, amount, focused, error } => {
            (address.clone(), amount.clone(), *focused, error.clone())
        }
        InputMode::Normal => panic!("the form is closed"),
    }
}

#[test]
fn submitting_an_empty_address_asks_for_it() {
    let mut app = dialog("", "1.5", 0);
    let cmd = app.handle_key(Key::Enter);
    assert!(matches!(cmd, Command::Nothing));
    let (address, amount, _, error) = form_of(&app);
    assert_eq!(address, "");
    assert_eq!(amount, "1.5");
    assert_eq!(error.as_deref(), Some("Address is required"));
}

#[test]
fn submitting_a_zero_amount_sends_nothing() {
    let mut app = dialog("bn1destination", "0", 1);
    let cmd = app.handle_key(Key::Enter);
    assert!(matches!(cmd, Command::Nothing));
    let (address, amount, _, error) = form_of(&app);
    assert_eq!(address, "bn1destination");
    assert_eq!(amount, "0");
    assert_eq!(error.as_deref(), Some("Amount must be greater than 0"));
    let mut app = dialog("bn1destination", "0.00000000", 1);
    assert!(matches!(app.handle_key(Key::Enter), Command::Nothing));
    assert_eq!(form_of(&app).3.as_deref(), Some("Amount must be greater than 0"));
}

#[test]
fn submitting_an_empty_amount_asks_for_it() {
    let mut app = dialog("bn1destination", "", 1);
    assert!(matches!(app.handle_key(Key::Enter), Command::Nothing));
    assert_eq!(form_of(&app).3.as_deref(), Some("Amount is required"));
}

#[test]
fn submitting_a_malformed_amount_is_refused() {
    for amount in ["abc", "1.123456789", "1.2.3", " ", "-1", "99999999999999999999"] {
        let mut app = dialog("bn1destination", amount, 1);
        assert!(matches!(app.handle_key(Key::Enter), Command::Nothing));
        let (_, kept, _, error) = form_of(&app);
        assert_eq!(kept, amount);
        assert_eq!(error.as_deref(), Some("Invalid amount format"));
    }
}

#[test]
fn submitting_a_valid_form_asks_for_the_send() {
    let mut app = dialog("bn1destination", "1.5", 1);
    match app.handle_key(Key::Enter) {
        Command::Send { address, amount } => {
            assert_eq!(address, "bn1destination");
            assert_eq!(amount, 150_000_000);
        }
        other => panic!("unexpected command {:?}", other),
    }
    // The form stays open, with its text, until the send is answered.
    let (address, amount, focused, error) = form_of(&app);
    assert_eq!(address, "bn1destination");
    assert_eq!(amount, "1.5");
    assert_eq!(focused, 1);
    assert_eq!(error, None);
}

#[test]
fn the_send_key_opens_an_empty_form() {
    let mut app = App::new();
    assert!(matches!(app.handle_key(Key::Char('s')), Command::Nothing));
    let (address, amount, focused, error) = form_of(&app);
    assert_eq!(address, "");
    assert_eq!(amount, "");
    assert_eq!(focused, 0);
    assert_eq!(error, None);
}

#[test]
fn escape_closes_the_form_and_drops_its_text() {
    let mut app = dialog("abc", "1", 1);
    assert!(matches!(app.handle_key(Key::Esc), Command::Nothing));
    assert!(matches!(app.input_mode, InputMode::Normal));
    app.handle_key(Key::Char('s'));
    assert_eq!(form_of(&app).0, "");
}

#[test]
fn focus_keys_switch_between_the_two_fields() {
    for key in [Key::Tab, Key::BackTab, Key::Up, Key::Down] {
        let mut app = dialog("a", "b", 0);
        app.handle_key(key);
        assert_eq!(form_of(&app).2, 1);
        app.handle_key(key);
        assert_eq!(form_of(&app).2, 0);
    }
    let mut app = dialog("a", "b", 7);
    app.handle_key(Key::Tab);
    assert_eq!(form_of(&app).2, 0);
}

#[test]
fn typing_edits_the_focused_field_and_clears_the_error() {
    let mut app = dialog("", "", 0);
    app.handle_key(Key::Enter);
    assert!(form_of(&app).3.is_some());
    app.handle_key(Key::Char('b'));
    app.handle_key(Key::Char('n'));
    let (address, amount, _, error) = form_of(&app);
    assert_eq!(address, "bn");
    assert_eq!(amount, "");
    assert_eq!(error, None);
    app.handle_key(Key::Tab);
    app.handle_key(Key::Char('1'));
    app.handle_key(Key::Char('q'));
    let (address, amount, _, _) = form_of(&app);
    assert_eq!(address, "bn");
    assert_eq!(amount, "1q");
}

#[test]
fn backspace_removes_the_last_character() {
    let mut app = dialog("abc", "12", 0);
    app.handle_key(Key::Enter);
    app.handle_key(Key::Backspace);
    let (address, amount, _, error) = form_of(&app);
    assert_eq!(address, "ab");
    assert_eq!(amount, "12");
    assert_eq!(error, None);
    let mut app = dialog("", "é", 1);
    app.handle_key(Key::Backspace);
    assert_eq!(form_of(&app).1, "");
    app.handle_key(Key::Backspace);
    assert_eq!(form_of(&app).1, "");
    assert_eq!(form_of(&app).0, "");
}

#[test]
fn other_keys_leave_the_form_alone() {
    let mut app = dialog("abc", "12", 1);
    assert!(matches!(app.handle_key(Key::Other), Command::Nothing));
    let (address, amount, focused, error) = form_of(&app);
    assert_eq!((address.as_str(), amount.as_str(), focused, error), ("abc", "12", 1, None));
}

#[test]
fn decrementing_threads_from_one_does_nothing() {
    let mut app = App::new();
    app.mining = Some(miner(true, 1));
    assert!(matches!(app.handle_key(Key::Char('-')), Command::Nothing));
    assert_eq!(app.mining.as_ref().unwrap().threads, 1);
    assert_eq!(app.threads_pending_restart, None);
    app.mining = Some(miner(true, 0));
    assert!(matches!(app.handle_key(Key::Char('-')), Command::Nothing));
    app.mining = None;
    assert!(matches!(app.handle_key(Key::Char('-')), Command::Nothing));
}

#[test]
fn thread_keys_ask_for_one_more_or_one_fewer() {
    let mut app = App::new();
    app.mining = Some(miner(true, 4));
    assert!(matches!(
        app.handle_key(Key::Char('-')),
        Command::SetThreads { threads: 3, was_running: true }
    ));
    assert!(matches!(
        app.handle_key(Key::Char('+')),
        Command::SetThreads { threads: 5, was_running: true }
    ));
    app.mining = Some(miner(false, 4));
    assert!(matches!(
        app.handle_key(Key::Char('=')),
        Command::SetThreads { threads: 5, was_running: false }
    ));
    // The state itself changes only when the node has answered.
    assert_eq!(app.mining.as_ref().unwrap().threads, 4);
    app.mining = None;
    assert!(matches!(app.handle_key(Key::Char('+')), Command::Nothing));
}

#[test]
fn the_mining_key_toggles_what_the_miner_does() {
    let mut app = App::new();
    assert!(matches!(app.handle_key(Key::Char('m')), Command::Nothing));
    app.mining = Some(miner(true, 2));
    assert!(matches!(app.handle_key(Key::Char('m')), Command::ToggleMining { running: true }));
    app.mining = Some(miner(false, 2));
    assert!(matches!(app.handle_key(Key::Char('m')), Command::ToggleMining { running: false }));
}

#[test]
fn view_keys_switch_the_screen() {
    let mut app = App::new();
    app.handle_key(Key::Char('2'));
    assert_eq!(app.current_view, Screen::Grid);
    app.handle_key(Key::Char('1'));
    assert_eq!(app.current_view, Screen::Dashboard);
}

#[test]
fn quit_key_asks_to_quit() {
    let mut app = App::new();
    assert!(matches!(app.handle_key(Key::Char('q')), Command::Quit));
}

#[test]
fn escape_dismisses_the_flash_message() {
    let mut app = App::new();
    app.set_flash_persistent("x".to_string(), "y".to_string());
    assert!(matches!(app.handle_key(Key::Esc), Command::Nothing));
    assert!(app.flash_message.is_none());
}

#[test]
fn copy_key_copies_what_the_flash_offers() {
    let mut app = App::new();
    assert!(matches!(app.handle_key(Key::Char('c')), Command::Nothing));
    app.set_flash("plain".to_string());
    assert!(matches!(app.handle_key(Key::Char('c')), Command::Nothing));
    app.set_flash_persistent("Sent! tx: abc".to_string(), "abc".to_string());
    match app.handle_key(Key::Char('c')) {
        Command::Copy { text, done } => {
            assert_eq!(text, "abc");
            assert_eq!(done, "Copied!");
        }
        other => panic!("unexpected command {:?}", other),
    }
    assert!(app.flash_message.is_some());
}

#[test]
fn receive_key_copies_the_wallet_address() {
    let mut app = App::new();
    assert!(matches!(app.handle_key(Key::Char('r')), Command::Nothing));
    app.wallet_address = Some("bn1mine".to_string());
    match app.handle_key(Key::Char('r')) {
        Command::Copy { text, done } => {
            assert_eq!(text, "bn1mine");
            assert_eq!(done, "Address copied: bn1mine");
        }
        other => panic!("unexpected command {:?}", other),
    }
}

#[test]
fn browser_key_opens_the_selected_block() {
    let mut app = grid_app(5, 2);
    app.tick_count = 9;
    match app.handle_key(Key::Char('v')) {
        Command::OpenUrl { url } => {
            assert_eq!(url, "https://explorer.blocknetcrypto.com/block/3");
        }
        other => panic!("unexpected command {:?}", other),
    }
    let flash = app.flash_message.as_ref().unwrap();
    assert_eq!(flash.text, "Opening block in browser…");
    assert_eq!(flash.created, 9);
    assert!(!flash.persistent);
    // Not on the dashboard, and not without a block.
    let mut app = grid_app(5, 2);
    app.current_view = Screen::Dashboard;
    assert!(matches!(app.handle_key(Key::Char('v')), Command::Nothing));
    assert!(app.flash_message.is_none());
    let mut app = grid_app(0, 0);
    assert!(matches!(app.handle_key(Key::Char('v')), Command::Nothing));
}

#[test]
fn single_steps_stay_within_the_chain() {
    let mut app = grid_app(3, 1);
    app.handle_key(Key::Char('j'));
    assert_eq!(app.selected, 2);
    app.handle_key(Key::Char('j'));
    assert_eq!(app.selected, 2);
    app.handle_key(Key::Char('k'));
    app.handle_key(Key::Char('k'));
    assert_eq!(app.selected, 0);
    app.handle_key(Key::Char('k'));
    assert_eq!(app.selected, 0);
    let mut empty = grid_app(0, 0);
    empty.handle_key(Key::Char('j'));
    empty.handle_key(Key::Char('J'));
    empty.handle_key(Key::Char('K'));
    assert_eq!(empty.selected, 0);
}

#[test]
fn jumps_move_by_a_row_and_stop_at_the_ends() {
    let mut app = grid_app(100, 50);
    app.blocks_per_row = 20;
    app.handle_key(Key::Char('J'));
    assert_eq!(app.selected, 70);
    app.handle_key(Key::Char('J'));
    assert_eq!(app.selected, 90);
    app.handle_key(Key::Char('J'));
    assert_eq!(app.selected, 99);
    app.handle_key(Key::Char('K'));
    assert_eq!(app.selected, 79);
    app.selected = 15;
    app.handle_key(Key::Char('K'));
    assert_eq!(app.selected, 0);
    app.blocks_per_row = usize::MAX;
    app.handle_key(Key::Char('J'));
    assert_eq!(app.selected, 99);
}

#[test]
fn navigation_keys_do_nothing_on_the_dashboard() {
    let mut app = grid_app(10, 5);
    app.current_view = Screen::Dashboard;
    for c in ['j', 'k', 'J', 'K'] {
        assert!(matches!(app.handle_key(Key::Char(c)), Command::Nothing));
        assert_eq!(app.selected, 5);
    }
}

#[test]
fn unbound_keys_do_nothing_in_normal_mode() {
    let mut app = grid_app(10, 5);
    for key in [Key::Char('x'), Key::Enter, Key::Tab, Key::Backspace, Key::Other, Key::Up] {
        assert!(matches!(app.handle_key(key), Command::Nothing));
    }
    assert_eq!(app.selected, 5);
    assert!(matches!(app.input_mode, InputMode::Normal));
    assert!(app.flash_message.is_none());
}

#[test]
fn a_thread_count_at_the_end_of_its_range_cannot_be_raised() {
    let mut app = App::new();
    app.mining = Some(miner(true, u32::MAX));
    assert!(!app.can_handle(Key::Char('+')));
    assert!(!app.can_handle(Key::Char('=')));
    assert!(app.can_handle(Key::Char('-')));
    assert!(app.can_handle(Key::Enter));
    assert!(matches!(
        app.handle_key(Key::Char('-')),
        Command::SetThreads { threads: 4294967294, was_running: true }
    ));
    app.mining = Some(miner(true, u32::MAX - 1));
    assert!(app.can_handle(Key::Char('+')));
    app.mining = None;
    assert!(app.can_handle(Key::Char('+')));
    // In the form the keys are text.
    let mut form = dialog("", "", 1);
    form.mining = Some(miner(true, u32::MAX));
    assert!(form.can_handle(Key::Char('+')));
    form.handle_key(Key::Char('+'));
    assert_eq!(form_of(&form).1, "+");
}
