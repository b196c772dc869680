use mixer_hotkey::utils::{
    modifier_from_u32, ExecCommand, ExecReply, HotKey, HotKeyAction, Modifier, WinApiError,
    MOD_ALT, MOD_CONTROL, MOD_SHIFT, MOD_WIN,
};

#[test]
fn readme_modifier_table() {
    assert_eq!(modifier_from_u32(1), Some(Modifier::Alt));
    assert_eq!(modifier_from_u32(2), Some(Modifier::Control));
    assert_eq!(modifier_from_u32(4), Some(Modifier::Shift));
    assert_eq!(modifier_from_u32(8), Some(Modifier::Windows));
    assert_eq!((MOD_ALT, MOD_CONTROL, MOD_SHIFT, MOD_WIN), (1, 2, 4, 8));
}

#[test]
fn other_modifier_codes_are_rejected() {
    for n in [0u32, 3, 5, 6, 7, 9, 12, 16, u32::MAX] {
        assert_eq!(modifier_from_u32(n), None);
    }
}

#[test]
fn modifier_code_round_trips() {
    for m in [Modifier::Alt, Modifier::Control, Modifier::Shift, Modifier::Windows] {
        assert_eq!(modifier_from_u32(m.code()), Some(m));
    }
}

#[test]
fn hotkey_new_keeps_its_fields() {
    let h = HotKey::new(9, Modifier::Alt, 77, vec![4, 1], HotKeyAction::ChangeVolume(20));
    assert_eq!(h.id, 9);
    assert_eq!(h.id(), 9);
    assert_eq!(h.modifier(), Modifier::Alt);
    assert_eq!(h.key(), 77);
    assert_eq!(h.audio_sessions(), &vec![4usize, 1]);
    assert_eq!(h.action(), HotKeyAction::ChangeVolume(20));
}

#[test]
fn toggle_mute_reads_then_writes_the_negation_for_each_session() {
    let h = HotKey::new(0, Modifier::Shift, 1, vec![3, 5], HotKeyAction::ToggleMute);
    assert_eq!(h.exec_start(), ExecCommand::ReadMute(0));
    assert_eq!(h.exec_next(0, ExecReply::MuteState(false)), ExecCommand::WriteMute(0, true));
    assert_eq!(h.exec_next(0, ExecReply::Applied), ExecCommand::ReadMute(1));
    assert_eq!(h.exec_next(1, ExecReply::MuteState(true)), ExecCommand::WriteMute(1, false));
    assert_eq!(h.exec_next(1, ExecReply::Applied), ExecCommand::Finish(Ok(())));
}

#[test]
fn change_volume_shifts_each_session() {
    let h = HotKey::new(0, Modifier::Shift, 1, vec![0, 1, 2], HotKeyAction::ChangeVolume(-5));
    assert_eq!(h.exec_start(), ExecCommand::ShiftVolume(0, -5));
    assert_eq!(h.exec_next(0, ExecReply::Applied), ExecCommand::ShiftVolume(1, -5));
    assert_eq!(h.exec_next(1, ExecReply::Applied), ExecCommand::ShiftVolume(2, -5));
    assert_eq!(h.exec_next(2, ExecReply::Applied), ExecCommand::Finish(Ok(())));
}

#[test]
fn failure_stops_the_run() {
    let h = HotKey::new(0, Modifier::Shift, 1, vec![0, 1], HotKeyAction::ToggleMute);
    assert_eq!(
        h.exec_next(0, ExecReply::Failed(WinApiError::Other)),
        ExecCommand::Finish(Err(WinApiError::Other))
    );
    assert_eq!(
        h.exec_next(1, ExecReply::Failed(WinApiError::ErrorCode(-3))),
        ExecCommand::Finish(Err(WinApiError::ErrorCode(-3)))
    );
}

#[test]
fn hotkey_without_sessions_finishes_at_once() {
    let h = HotKey::new(0, Modifier::Shift, 1, vec![], HotKeyAction::ToggleMute);
    assert_eq!(h.exec_start(), ExecCommand::Finish(Ok(())));
    let h = HotKey::new(0, Modifier::Shift, 1, vec![], HotKeyAction::ChangeVolume(3));
    assert_eq!(h.exec_start(), ExecCommand::Finish(Ok(())));
}

/// Drives a hotkey against mute states that always answer.
fn run_against(h: &HotKey, muted: &mut Vec<bool>, shifted: &mut Vec<usize>) -> Result<(), WinApiError> {
    let mut cmd = h.exec_start();
    loop {
        let (p, reply) = match cmd {
            ExecCommand::ReadMute(p) => (p, ExecReply::MuteState(muted[p])),
            ExecCommand::WriteMute(p, m) => {
                muted[p] = m;
                (p, ExecReply::Applied)
            }
            ExecCommand::ShiftVolume(p, _) => {
                shifted.push(p);
                (p, ExecReply::Applied)
            }
            ExecCommand::Finish(r) => return r,
        };
        cmd = h.exec_next(p, reply);
    }
}

#[test]
fn toggle_flips_every_session_and_twice_restores() {
    let h = HotKey::new(0, Modifier::Shift, 1, vec![7, 8, 9], HotKeyAction::ToggleMute);
    let mut muted = vec![true, false, false];
    let mut shifted = vec![];
    assert_eq!(run_against(&h, &mut muted, &mut shifted), Ok(()));
    assert_eq!(muted, vec![false, true, true]);
    assert_eq!(run_against(&h, &mut muted, &mut shifted), Ok(()));
    assert_eq!(muted, vec![true, false, false]);
    assert!(shifted.is_empty());
}

#[test]
fn volume_shifts_every_session_once_in_order() {
    let h = HotKey::new(0, Modifier::Shift, 1, vec![7, 8, 9, 1], HotKeyAction::ChangeVolume(10));
    let mut muted = vec![false; 4];
    let mut shifted = vec![];
    assert_eq!(run_against(&h, &mut muted, &mut shifted), Ok(()));
    assert_eq!(shifted, vec![0, 1, 2, 3]);
    assert_eq!(muted, vec![false; 4]);
}
