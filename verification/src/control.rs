use vstd::prelude::*;

use crate::config::{lemma_planned_hotkey_ids, planned_hotkey, planned_hotkeys, BindingView};
use crate::text::chars_of;
use crate::utils::{AudioSession, WinApiError};
use crate::utils::{HotKey, HotKeyView};

verus! {

/// A line of console input whose first character is a single byte, so that
/// the line can be cut after it.
pub open spec fn line_has_ascii_head(line: Seq<char>) -> bool {
    line.len() >= 1 && (line[0] as u32) < 0x80
}

/// The menu option a line selects: the value of its first character when
/// that is a decimal digit.
pub open spec fn spec_parse_option(line: Seq<char>) -> Option<i32> {
    let c = line[0];
    if '0' <= c && c <= '9' {
        Some((c as u32 - '0' as u32) as i32)
    } else {
        None
    }
}

/// The option read from a line is the decimal value of its first character:
/// a line gives an option exactly when it starts with a digit, the option
/// lies in 0..=9 and that digit is its numeral; so a line starting with `1`
/// lists the sessions, one starting with `2` starts the hotkeys, and any
/// other digit is an unknown option.
pub proof fn lemma_parse_option_is_digit_value(line: Seq<char>)
    requires
        line_has_ascii_head(line),
    ensures
        spec_parse_option(line) is Some <==> ('0' <= line[0] && line[0] <= '9'),
        spec_parse_option(line) matches Some(n) ==> 0 <= n <= 9 && line[0] as u32 == 48 + n,
        line[0] == '1' ==> spec_parse_option(line) == Some(1i32) && spec_menu_command(1)
            == MenuCommand::ListSessions,
        line[0] == '2' ==> spec_parse_option(line) == Some(2i32) && spec_menu_command(2)
            == MenuCommand::StartHotkeys,
        spec_parse_option(line) matches Some(n) ==> (n != 1 && n != 2 <==> spec_menu_command(n)
            == MenuCommand::Unknown),
{
}

/// Reads the menu option from a console line: only its first character is
/// looked at, and it must be a digit.
pub fn parse_option(line: &str) -> (res: Option<i32>)
    requires
        line_has_ascii_head(line@),
    ensures
        res == spec_parse_option(line@),
{
    let chars = chars_of(line);
    let c = chars[0];
    if '0' <= c && c <= '9' {
        Some((c as u32 - '0' as u32) as i32)
    } else {
        None
    }
}

/// Whether a console line asks to stop the hotkeys: its first character is
/// `q`.
pub fn is_quit_command(line: &str) -> (res: bool)
    requires
        line_has_ascii_head(line@),
    ensures
        res == (line@[0] == 'q'),
{
    let chars = chars_of(line);
    chars[0] == 'q'
}

/// What the main menu does.
#[derive(Debug, Clone, Copy, PartialEq, Eq, Structural)]
pub enum MenuCommand {
    /// Option 1: list every audio session.
    ListSessions,
    /// Option 2: load the configuration and run its hotkeys.
    StartHotkeys,
    /// Any other option.
    Unknown,
}

/// The menu command of an option number.
pub open spec fn spec_menu_command(option: i32) -> MenuCommand {
    if option == 1 {
        MenuCommand::ListSessions
    } else if option == 2 {
        MenuCommand::StartHotkeys
    } else {
        MenuCommand::Unknown
    }
}

/// The menu command of an option number.
pub fn menu_command(option: i32) -> (res: MenuCommand)
    ensures
        res == spec_menu_command(option),
{
    match option {
        1 => MenuCommand::ListSessions,
        2 => MenuCommand::StartHotkeys,
        _ => MenuCommand::Unknown,
    }
}

/// A message of the hotkey thread's queue, as the loop sees it.
#[derive(Debug, Clone, Copy, PartialEq, Eq, Structural)]
pub enum WindowMessage {
    /// A registered hotkey fired; the word parameter carries its identity.
    HotKey(usize),
    /// The thread was asked to quit.
    Quit,
    /// Anything else.
    Other,
}

/// What the hotkey loop does with a message.
#[derive(Debug, PartialEq, Eq)]
pub enum LoopAction {
    /// Run the hotkeys at these positions of the list, in order.
    Trigger(Vec<usize>),
    /// Leave the loop.
    Exit,
    /// Wait for the next message.
    Continue,
}

/// The positions, among the first `n` hotkeys, of those with identity `id`.
pub open spec fn hotkeys_with_id(hotkeys: Seq<HotKeyView>, id: i32, n: int) -> Seq<usize>
    decreases n,
{
    if n <= 0 {
        Seq::empty()
    } else {
        let earlier = hotkeys_with_id(hotkeys, id, n - 1);
        if hotkeys[n - 1].id == id {
            earlier.push((n - 1) as usize)
        } else {
            earlier
        }
    }
}

/// Decides what the hotkey loop does with `msg`: a fired hotkey runs every
/// hotkey whose identity is the message's word parameter taken as `i32`; a
/// quit request leaves the loop; anything else is ignored.
pub fn handle_message(hotkeys: &Vec<HotKey>, msg: WindowMessage) -> (res: LoopAction)
    ensures
        msg matches WindowMessage::HotKey(w) ==> res matches LoopAction::Trigger(t) && t@
            == hotkeys_with_id(hotkeys@.map_values(|h: HotKey| h@), w as i32, hotkeys@.len() as int),
        msg == WindowMessage::Quit ==> res == LoopAction::Exit,
        msg == WindowMessage::Other ==> res == LoopAction::Continue,
{
    match msg {
        WindowMessage::HotKey(w) => {
            let id = w as i32;
            let ghost views = hotkeys@.map_values(|h: HotKey| h@);
            let mut triggered: Vec<usize> = Vec::new();
            let mut i: usize = 0;
            while i < hotkeys.len()
                invariant
                    i <= hotkeys@.len(),
                    views == hotkeys@.map_values(|h: HotKey| h@),
                    triggered@ == hotkeys_with_id(views, id, i as int),
                decreases hotkeys.len() - i,
            {
                assert(views[i as int] == hotkeys@[i as int]@);
                if hotkeys[i].id() == id {
                    triggered.push(i);
                }
                i = i + 1;
            }
            LoopAction::Trigger(triggered)
        },
        WindowMessage::Quit => LoopAction::Exit,
        WindowMessage::Other => LoopAction::Continue,
    }
}

/// When hotkey identities rise strictly along the list, as they do for the
/// hotkeys planned from a configuration, a fired hotkey runs at most one
/// hotkey.
pub proof fn lemma_distinct_ids_trigger_at_most_one(hotkeys: Seq<HotKeyView>, id: i32, n: int)
    requires
        0 <= n <= hotkeys.len(),
        n <= usize::MAX,
        forall|j1: int, j2: int|
            0 <= j1 < j2 < hotkeys.len() ==> #[trigger] hotkeys[j1].id < #[trigger] hotkeys[j2].id,
    ensures
        hotkeys_with_id(hotkeys, id, n).len() <= 1,
        hotkeys_with_id(hotkeys, id, n).len() == 1 ==> hotkeys[hotkeys_with_id(hotkeys, id, n)[0] as int].id == id,
    decreases n,
{
    if n > 0 {
        lemma_distinct_ids_trigger_at_most_one(hotkeys, id, n - 1);
        lemma_hotkeys_with_id_bound(hotkeys, id, n - 1);
        let earlier = hotkeys_with_id(hotkeys, id, n - 1);
        if earlier.len() == 1 && hotkeys[n - 1].id == id {
            let k = earlier[0] as int;
            assert(hotkeys[k].id < hotkeys[n - 1].id);
        }
    }
}

proof fn lemma_hotkeys_with_id_bound(hotkeys: Seq<HotKeyView>, id: i32, n: int)
    requires
        0 <= n <= hotkeys.len(),
        n <= usize::MAX,
    ensures
        forall|j: int|
            0 <= j < hotkeys_with_id(hotkeys, id, n).len() ==> {
                let k = #[trigger] hotkeys_with_id(hotkeys, id, n)[j] as int;
                0 <= k < n && hotkeys[k].id == id
            },
        forall|k: int|
            0 <= k < n && #[trigger] hotkeys[k].id == id ==> hotkeys_with_id(hotkeys, id, n).contains(
                k as usize,
            ),
    decreases n,
{
    if n > 0 {
        lemma_hotkeys_with_id_bound(hotkeys, id, n - 1);
        let earlier = hotkeys_with_id(hotkeys, id, n - 1);
        let now = hotkeys_with_id(hotkeys, id, n);
        assert(forall|j: int| 0 <= j < earlier.len() ==> now[j] == earlier[j]);
        assert forall|k: int| 0 <= k < n && #[trigger] hotkeys[k].id == id implies now.contains(
            k as usize,
        ) by {
            if k < n - 1 {
                let j = choose|j: int| 0 <= j < earlier.len() && earlier[j] == k as usize;
                assert(now[j] == k as usize);
            } else {
                assert(now[earlier.len() as int] == k as usize);
            }
        }
    }
}

/// Among the hotkeys planned from a configuration, the message of hotkey
/// `w` runs exactly the hotkey planned for binding `w`, or nothing when the
/// session listing for that binding failed.
pub proof fn lemma_fired_hotkey_runs_its_binding(
    bindings: Seq<BindingView>,
    sessions: Seq<Result<Vec<AudioSession>, WinApiError>>,
    w: int,
)
    requires
        0 <= w < bindings.len() <= 0x8000_0000,
        sessions.len() == bindings.len(),
    ensures
        ({
            let planned = planned_hotkeys(bindings, sessions, bindings.len() as int);
            let triggered = hotkeys_with_id(planned, w as i32, planned.len() as int);
            match planned_hotkey(bindings[w], w as i32, sessions[w]) {
                None => triggered.len() == 0,
                Some(h) => triggered.len() == 1 && planned[triggered[0] as int] == h,
            }
        }),
{
    let n = bindings.len() as int;
    let planned = planned_hotkeys(bindings, sessions, n);
    lemma_planned_hotkey_ids(bindings, sessions, n);
    lemma_planned_len(bindings, sessions, n);
    let triggered = hotkeys_with_id(planned, w as i32, planned.len() as int);
    lemma_distinct_ids_trigger_at_most_one(planned, w as i32, planned.len() as int);
    lemma_hotkeys_with_id_bound(planned, w as i32, planned.len() as int);
    assert((w as i32) == w);
    match planned_hotkey(bindings[w], w as i32, sessions[w]) {
        None => {
            if triggered.len() > 0 {
                let k = triggered[0] as int;
                assert(planned[k].id == w);
            }
        },
        Some(h) => {
            let j = choose|j: int| 0 <= j < planned.len() && #[trigger] planned[j].id == w;
            assert(triggered.contains(j as usize));
            let k = triggered[0] as int;
            assert(planned[k].id == w);
        },
    }
}

proof fn lemma_planned_len(
    bindings: Seq<BindingView>,
    sessions: Seq<Result<Vec<AudioSession>, WinApiError>>,
    n: int,
)
    requires
        0 <= n,
    ensures
        planned_hotkeys(bindings, sessions, n).len() <= n,
    decreases n,
{
    if n > 0 {
        lemma_planned_len(bindings, sessions, n - 1);
    }
}

} // verus!
