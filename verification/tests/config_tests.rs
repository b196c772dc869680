use mixer_hotkey::config::{Binding, Config};
use mixer_hotkey::control::{handle_message, LoopAction, WindowMessage};
use mixer_hotkey::utils::{AudioSession, HotKeyAction, Modifier, WinApiError};

fn sessions(names: &[&str]) -> Vec<AudioSession> {
    let mut v = Vec::new();
    for (i, n) in names.iter().enumerate() {
        v.push(AudioSession::new(100 + i as u32, n.to_string()));
    }
    v
}

#[test]
fn new_config_has_no_bindings() {
    let c = Config::new();
    assert_eq!(c.bindings.len(), 0);
}

#[test]
fn empty_config_has_one_blank_binding() {
    let c = Config::empty_config();
    assert_eq!(c.bindings.len(), 1);
    let b = &c.bindings[0];
    assert_eq!(b.key(), 0);
    assert_eq!(b.modifier(), 0);
    assert_eq!(b.app(), "");
    assert_eq!(b.delta(), 0);
}

#[test]
fn binding_new_keeps_its_fields() {
    let b = Binding::new(173, 4, "firefox.exe", -10);
    assert_eq!(b.key(), 173);
    assert_eq!(b.modifier(), 4);
    assert_eq!(b.app(), "firefox.exe");
    assert_eq!(b.delta(), -10);
}

#[test]
fn readme_example_binding_toggles_mute_of_firefox() {
    let b = Binding::new(173, 4, "firefox.exe", 0);
    let list = sessions(&[
        "C:\\Program Files\\Mozilla Firefox\\firefox.exe",
        "C:\\Windows\\explorer.exe",
        "D:\\Games\\firefox.exe.launcher",
    ]);
    let h = b.create_hotkey(0, &Ok(list)).expect("a hotkey");
    assert_eq!(h.id, 0);
    assert_eq!(h.modifier(), Modifier::Shift);
    assert_eq!(h.key(), 173);
    assert_eq!(h.audio_sessions(), &vec![0usize, 2]);
    assert_eq!(h.action(), HotKeyAction::ToggleMute);
}

#[test]
fn nonzero_delta_changes_volume() {
    let b = Binding::new(65, 2, "spotify", 15);
    let h = b.create_hotkey(3, &Ok(sessions(&["spotify.exe"]))).unwrap();
    assert_eq!(h.action(), HotKeyAction::ChangeVolume(15));
    assert_eq!(h.modifier(), Modifier::Control);
    assert_eq!(h.id, 3);
    let b = Binding::new(65, 1, "spotify", -100);
    let h = b.create_hotkey(3, &Ok(sessions(&["spotify.exe"]))).unwrap();
    assert_eq!(h.action(), HotKeyAction::ChangeVolume(-100));
    assert_eq!(h.modifier(), Modifier::Alt);
}

#[test]
fn failed_session_listing_gives_no_hotkey() {
    let b = Binding::new(65, 8, "spotify", 0);
    assert!(b.create_hotkey(0, &Err(WinApiError::Other)).is_none());
    assert!(b.create_hotkey(0, &Err(WinApiError::ErrorCode(5))).is_none());
}

#[test]
fn empty_app_name_matches_every_session() {
    let b = Binding::new(65, 8, "", 0);
    let h = b.create_hotkey(0, &Ok(sessions(&["a.exe", "", "b.exe"]))).unwrap();
    assert_eq!(h.audio_sessions(), &vec![0usize, 1, 2]);
    assert_eq!(h.modifier(), Modifier::Windows);
}

#[test]
fn matching_is_case_sensitive_and_needs_the_whole_name() {
    let b = Binding::new(65, 4, "Firefox.exe", 0);
    let h = b.create_hotkey(0, &Ok(sessions(&["firefox.exe", "Firefox.ex", "xFirefox.exey"]))).unwrap();
    assert_eq!(h.audio_sessions(), &vec![2usize]);
}

#[test]
fn no_sessions_gives_hotkey_without_sessions() {
    let b = Binding::new(65, 4, "vlc.exe", 5);
    let h = b.create_hotkey(0, &Ok(Vec::new())).unwrap();
    assert!(h.audio_sessions().is_empty());
}

#[test]
fn create_hotkeys_uses_binding_positions_as_ids() {
    let mut c = Config::new();
    c.bindings.push(Binding::new(1, 1, "a", 0));
    c.bindings.push(Binding::new(2, 2, "b", 10));
    c.bindings.push(Binding::new(3, 4, "a", -10));
    let per_binding = vec![
        Ok(sessions(&["a.exe", "b.exe"])),
        Err(WinApiError::Other),
        Ok(sessions(&["b.exe", "ab.exe"])),
    ];
    let hotkeys = c.create_hotkeys(&per_binding);
    assert_eq!(hotkeys.len(), 2);
    assert_eq!(hotkeys[0].id, 0);
    assert_eq!(hotkeys[0].key(), 1);
    assert_eq!(hotkeys[0].audio_sessions(), &vec![0usize]);
    assert_eq!(hotkeys[1].id, 2);
    assert_eq!(hotkeys[1].key(), 3);
    assert_eq!(hotkeys[1].modifier(), Modifier::Shift);
    assert_eq!(hotkeys[1].audio_sessions(), &vec![1usize]);
    assert_eq!(hotkeys[1].action(), HotKeyAction::ChangeVolume(-10));
}

#[test]
fn create_hotkeys_of_empty_config_is_empty() {
    let c = Config::new();
    assert!(c.create_hotkeys(&Vec::new()).is_empty());
}

#[test]
fn invalid_modifier_is_harmless_when_listing_failed() {
    let b = Binding::new(65, 3, "spotify", 0);
    assert!(b.create_hotkey(0, &Err(WinApiError::Other)).is_none());
    let mut c = Config::new();
    c.bindings.push(Binding::new(65, 3, "spotify", 0));
    c.bindings.push(Binding::new(66, 8, "spotify", 0));
    let hotkeys = c.create_hotkeys(&vec![Err(WinApiError::Other), Ok(sessions(&["spotify.exe"]))]);
    assert_eq!(hotkeys.len(), 1);
    assert_eq!(hotkeys[0].id, 1);
}

#[test]
fn fired_hotkey_runs_the_hotkey_of_its_binding() {
    let mut c = Config::new();
    c.bindings.push(Binding::new(1, 1, "a", 0));
    c.bindings.push(Binding::new(2, 2, "b", 10));
    c.bindings.push(Binding::new(3, 4, "c", -10));
    let per_binding = vec![Ok(sessions(&["a"])), Err(WinApiError::Other), Ok(sessions(&["c"]))];
    let hotkeys = c.create_hotkeys(&per_binding);
    assert_eq!(handle_message(&hotkeys, WindowMessage::HotKey(0)), LoopAction::Trigger(vec![0]));
    assert_eq!(handle_message(&hotkeys, WindowMessage::HotKey(1)), LoopAction::Trigger(vec![]));
    assert_eq!(handle_message(&hotkeys, WindowMessage::HotKey(2)), LoopAction::Trigger(vec![1]));
    assert_eq!(hotkeys[1].key(), 3);
}
