use mixer_hotkey::control::{
    handle_message, is_quit_command, menu_command, parse_option, LoopAction, MenuCommand,
    WindowMessage,
};
use mixer_hotkey::text::str_contains;
use mixer_hotkey::utils::{HotKey, HotKeyAction, Modifier};

#[test]
fn menu_options_one_and_two() {
    assert_eq!(parse_option("1\n"), Some(1));
    assert_eq!(parse_option("2\r\n"), Some(2));
    assert_eq!(menu_command(1), MenuCommand::ListSessions);
    assert_eq!(menu_command(2), MenuCommand::StartHotkeys);
}

#[test]
fn only_the_first_character_is_read() {
    assert_eq!(parse_option("27\n"), Some(2));
    assert_eq!(parse_option("9"), Some(9));
    assert_eq!(parse_option("0abc"), Some(0));
}

#[test]
fn non_digit_first_character_is_unknown_result() {
    assert_eq!(parse_option("a\n"), None);
    assert_eq!(parse_option("-1\n"), None);
    assert_eq!(parse_option("+2\n"), None);
    assert_eq!(parse_option("\n"), None);
}

#[test]
fn other_options_are_unknown() {
    for n in [0, 3, 9, -1, i32::MAX] {
        assert_eq!(menu_command(n), MenuCommand::Unknown);
    }
}

#[test]
fn q_stops_the_hotkeys() {
    assert!(is_quit_command("q\n"));
    assert!(is_quit_command("quit\n"));
    assert!(!is_quit_command("Q\n"));
    assert!(!is_quit_command("x q\n"));
}

#[test]
fn fired_hotkey_runs_the_hotkeys_with_its_id() {
    let hotkeys = vec![
        HotKey::new(0, Modifier::Alt, 1, vec![], HotKeyAction::ToggleMute),
        HotKey::new(2, Modifier::Alt, 2, vec![], HotKeyAction::ToggleMute),
        HotKey::new(5, Modifier::Alt, 3, vec![], HotKeyAction::ToggleMute),
    ];
    assert_eq!(handle_message(&hotkeys, WindowMessage::HotKey(2)), LoopAction::Trigger(vec![1]));
    assert_eq!(handle_message(&hotkeys, WindowMessage::HotKey(0)), LoopAction::Trigger(vec![0]));
    assert_eq!(handle_message(&hotkeys, WindowMessage::HotKey(1)), LoopAction::Trigger(vec![]));
}

#[test]
fn fired_id_is_taken_as_i32() {
    let hotkeys = vec![HotKey::new(-1, Modifier::Alt, 1, vec![], HotKeyAction::ToggleMute)];
    let w = u32::MAX as usize;
    assert_eq!(handle_message(&hotkeys, WindowMessage::HotKey(w)), LoopAction::Trigger(vec![0]));
}

#[test]
fn quit_leaves_the_loop_and_other_messages_are_ignored() {
    let hotkeys = vec![HotKey::new(0, Modifier::Alt, 1, vec![], HotKeyAction::ToggleMute)];
    assert_eq!(handle_message(&hotkeys, WindowMessage::Quit), LoopAction::Exit);
    assert_eq!(handle_message(&hotkeys, WindowMessage::Other), LoopAction::Continue);
}

#[test]
fn substring_search() {
    assert!(str_contains("C:\\x\\firefox.exe", "firefox.exe"));
    assert!(str_contains("abc", ""));
    assert!(str_contains("", ""));
    assert!(!str_contains("", "a"));
    assert!(!str_contains("ab", "abc"));
    assert!(str_contains("aab", "ab"));
    assert!(!str_contains("a-b", "ab"));
    assert!(str_contains("é✓x", "✓x"));
}
