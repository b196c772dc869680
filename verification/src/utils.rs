use vstd::prelude::*;

verus! {

/// Failure reported by the audio or hotkey system.
#[derive(Debug, Clone, Copy, PartialEq, Eq, Structural)]
pub enum WinApiError {
    ErrorCode(i32),
    Other,
}

/// Code of the Alt modifier in a configuration file.
pub const MOD_ALT: u32 = 1;

/// Code of the Control modifier in a configuration file.
pub const MOD_CONTROL: u32 = 2;

/// Code of the Shift modifier in a configuration file.
pub const MOD_SHIFT: u32 = 4;

/// Code of the Windows-key modifier in a configuration file.
pub const MOD_WIN: u32 = 8;

/// A modifier key that must be held for a hotkey to fire.
#[derive(Debug, Clone, Copy, PartialEq, Eq, Structural)]
pub enum Modifier {
    Alt,
    Control,
    Shift,
    Windows,
}

impl Modifier {
    /// The numeric code of the modifier, as written in the configuration.
    pub open spec fn spec_code(&self) -> u32 {
        match self {
            Modifier::Alt => MOD_ALT,
            Modifier::Control => MOD_CONTROL,
            Modifier::Shift => MOD_SHIFT,
            Modifier::Windows => MOD_WIN,
        }
    }

    /// The numeric code of the modifier, as written in the configuration.
    #[verifier::when_used_as_spec(spec_code)]
    pub fn code(&self) -> (res: u32)
        ensures
            res == self.spec_code(),
    {
        match self {
            Modifier::Alt => MOD_ALT,
            Modifier::Control => MOD_CONTROL,
            Modifier::Shift => MOD_SHIFT,
            Modifier::Windows => MOD_WIN,
        }
    }
}

/// The modifier whose code is `n`, if there is one.
pub open spec fn spec_modifier_from_u32(n: u32) -> Option<Modifier> {
    if n == MOD_SHIFT {
        Some(Modifier::Shift)
    } else if n == MOD_CONTROL {
        Some(Modifier::Control)
    } else if n == MOD_ALT {
        Some(Modifier::Alt)
    } else if n == MOD_WIN {
        Some(Modifier::Windows)
    } else {
        None
    }
}

/// Looks up the modifier with code `n` among Shift, Control, Alt and Windows.
pub fn modifier_from_u32(n: u32) -> (res: Option<Modifier>)
    ensures
        res == spec_modifier_from_u32(n),
{
    let modifiers = vec![Modifier::Shift, Modifier::Control, Modifier::Alt, Modifier::Windows];
    let mut i: usize = 0;
    while i < modifiers.len()
        invariant
            modifiers@ == seq![Modifier::Shift, Modifier::Control, Modifier::Alt, Modifier::Windows],
            i <= modifiers.len(),
            forall|j: int| 0 <= j < i ==> modifiers@[j].spec_code() != n,
        decreases modifiers.len() - i,
    {
        let m = modifiers[i];
        if m.code() == n {
            return Some(m);
        }
        i = i + 1;
    }
    assert(modifiers@[0].spec_code() != n && modifiers@[1].spec_code() != n);
    assert(modifiers@[2].spec_code() != n && modifiers@[3].spec_code() != n);
    None
}

/// Every modifier is found again from its own code.
pub proof fn lemma_modifier_code_round_trip(m: Modifier)
    ensures
        spec_modifier_from_u32(m.spec_code()) == Some(m),
{
}

/// A code is accepted exactly when it is the code of the modifier it yields.
pub proof fn lemma_modifier_from_code(n: u32)
    ensures
        spec_modifier_from_u32(n) matches Some(m) ==> m.spec_code() == n,
        spec_modifier_from_u32(n) is None ==> n != MOD_ALT && n != MOD_CONTROL && n != MOD_SHIFT
            && n != MOD_WIN,
{
}


/// An audio session as the hotkey logic sees it: the process it belongs to
/// and the full image name of that process.
pub struct AudioSession {
    pid: u32,
    pub name: String,
}

/// The abstract value of an [`AudioSession`].
pub struct AudioSessionView {
    pub pid: u32,
    pub name: Seq<char>,
}

impl View for AudioSession {
    type V = AudioSessionView;

    closed spec fn view(&self) -> AudioSessionView {
        AudioSessionView { pid: self.pid, name: self.name@ }
    }
}

impl AudioSession {
    /// A session of process `pid` whose executable is named `name`.
    pub fn new(pid: u32, name: String) -> (res: AudioSession)
        ensures
            res@ == (AudioSessionView { pid: pid, name: name@ }),
    {
        AudioSession { pid, name }
    }

    /// The full image name of the session's process.
    pub fn name(&self) -> (res: &str)
        ensures
            res@ == self@.name,
    {
        self.name.as_str()
    }

    /// The process the session belongs to.
    pub fn pid(&self) -> (res: u32)
        ensures
            res == self@.pid,
    {
        self.pid
    }
}

/// What a hotkey does to each of its sessions.
#[derive(Debug, Clone, Copy, PartialEq, Eq, Structural)]
pub enum HotKeyAction {
    /// Mute a session that is playing and unmute one that is muted.
    ToggleMute,
    /// Change the volume of each session by this many percent of full scale.
    ChangeVolume(i32),
}

/// A hotkey: the key chord that fires it and the sessions it acts on, given
/// by their positions in the list of sessions it was planned from.
pub struct HotKey {
    pub id: i32,
    modifier: Modifier,
    key: u32,
    audio_sessions: Vec<usize>,
    action: HotKeyAction,
}

/// The abstract value of a [`HotKey`].
pub struct HotKeyView {
    pub id: i32,
    pub modifier: Modifier,
    pub key: u32,
    pub sessions: Seq<usize>,
    pub action: HotKeyAction,
}

impl View for HotKey {
    type V = HotKeyView;

    closed spec fn view(&self) -> HotKeyView {
        HotKeyView {
            id: self.id,
            modifier: self.modifier,
            key: self.key,
            sessions: self.audio_sessions@,
            action: self.action,
        }
    }
}

/// A step of running a hotkey: what to do next to the audio system.
#[derive(Debug, PartialEq, Eq)]
pub enum ExecCommand {
    /// Read whether the session at this position of the hotkey is muted.
    ReadMute(usize),
    /// Set the mute state of the session at this position.
    WriteMute(usize, bool),
    /// Change the volume of the session at this position by this many percent.
    ShiftVolume(usize, i32),
    /// The run is over, with this outcome.
    Finish(Result<(), WinApiError>),
}

/// What the audio system answered to the last [`ExecCommand`].
#[derive(Debug, Clone, Copy, PartialEq, Eq, Structural)]
pub enum ExecReply {
    /// The session read is muted (`true`) or not.
    MuteState(bool),
    /// The write or the volume change took effect.
    Applied,
    /// The audio system failed.
    Failed(WinApiError),
}

/// The command that starts work on the session at `position`, or ends the
/// run successfully once every session has been handled.
pub open spec fn command_at(action: HotKeyAction, position: int, len: int) -> ExecCommand {
    if position >= len {
        ExecCommand::Finish(Ok(()))
    } else {
        match action {
            HotKeyAction::ToggleMute => ExecCommand::ReadMute(position as usize),
            HotKeyAction::ChangeVolume(delta) => ExecCommand::ShiftVolume(position as usize, delta),
        }
    }
}

/// The command that follows `reply`, the answer to a command about the
/// session at `position`.
pub open spec fn command_after(action: HotKeyAction, position: int, len: int, reply: ExecReply) -> ExecCommand {
    match reply {
        ExecReply::Failed(e) => ExecCommand::Finish(Err(e)),
        ExecReply::MuteState(muted) => ExecCommand::WriteMute(position as usize, !muted),
        ExecReply::Applied => command_at(action, position + 1, len),
    }
}

/// Each step of a run, stated over every position: a session still to be
/// handled is read for its mute state by a toggling hotkey and shifted by
/// exactly the hotkey's percent by a volume hotkey; a mute state read is
/// written back negated; a failure ends the run with that very failure; a
/// completed step moves on to the next position; past the last session the
/// run succeeds.
pub proof fn lemma_exec_steps(action: HotKeyAction, p: int, len: int, muted: bool, e: WinApiError)
    requires
        0 <= p,
        len <= usize::MAX,
    ensures
        p < len && action == HotKeyAction::ToggleMute ==> command_at(action, p, len)
            == ExecCommand::ReadMute(p as usize),
        forall|d: i32|
            p < len && action == HotKeyAction::ChangeVolume(d) ==> #[trigger] command_at(
                HotKeyAction::ChangeVolume(d),
                p,
                len,
            ) == ExecCommand::ShiftVolume(p as usize, d),
        p >= len ==> command_at(action, p, len) == ExecCommand::Finish(Ok(())),
        command_after(action, p, len, ExecReply::MuteState(muted)) == ExecCommand::WriteMute(
            p as usize,
            !muted,
        ),
        command_after(action, p, len, ExecReply::Failed(e)) == ExecCommand::Finish(Err(e)),
        command_after(action, p, len, ExecReply::Applied) == command_at(action, p + 1, len),
{
}

/// Runs the commands of a hotkey with `len` sessions against an audio
/// system that never fails: reads answer with the current mute state, writes
/// set it, and each volume change is recorded with the amount it shifts by.
/// Gives the mute states, the volume changes (position and percent), and
/// the outcome once the run finishes within `fuel` steps.
pub open spec fn run_against(
    action: HotKeyAction,
    len: int,
    cmd: ExecCommand,
    muted: Seq<bool>,
    shifted: Seq<(usize, i32)>,
    fuel: nat,
) -> (Seq<bool>, Seq<(usize, i32)>, Option<Result<(), WinApiError>>)
    decreases fuel,
{
    match cmd {
        ExecCommand::Finish(outcome) => (muted, shifted, Some(outcome)),
        ExecCommand::ReadMute(p) => if fuel == 0 {
            (muted, shifted, None)
        } else {
            run_against(
                action,
                len,
                command_after(action, p as int, len, ExecReply::MuteState(muted[p as int])),
                muted,
                shifted,
                (fuel - 1) as nat,
            )
        },
        ExecCommand::WriteMute(p, m) => if fuel == 0 {
            (muted, shifted, None)
        } else {
            run_against(
                action,
                len,
                command_after(action, p as int, len, ExecReply::Applied),
                muted.update(p as int, m),
                shifted,
                (fuel - 1) as nat,
            )
        },
        ExecCommand::ShiftVolume(p, percent) => if fuel == 0 {
            (muted, shifted, None)
        } else {
            run_against(
                action,
                len,
                command_after(action, p as int, len, ExecReply::Applied),
                muted,
                shifted.push((p, percent)),
                (fuel - 1) as nat,
            )
        },
    }
}

/// Toggling from position `p` on flips the mute state of every session from
/// `p` to the end and leaves the earlier ones alone.
proof fn lemma_toggle_from(muted: Seq<bool>, shifted: Seq<(usize, i32)>, p: int)
    requires
        0 <= p <= muted.len() <= usize::MAX,
    ensures
        run_against(
            HotKeyAction::ToggleMute,
            muted.len() as int,
            command_at(HotKeyAction::ToggleMute, p, muted.len() as int),
            muted,
            shifted,
            (2 * (muted.len() - p)) as nat,
        ) == (
            muted.take(p) + muted.skip(p).map_values(|b: bool| !b),
            shifted,
            Some(Ok::<(), WinApiError>(())),
        ),
    decreases muted.len() - p,
{
    let len = muted.len() as int;
    let flipped = muted.take(p) + muted.skip(p).map_values(|b: bool| !b);
    if p == len {
        assert(flipped =~= muted);
    } else {
        let next = muted.update(p, !muted[p]);
        lemma_toggle_from(next, shifted, p + 1);
        assert(next.take(p + 1) + next.skip(p + 1).map_values(|b: bool| !b) =~= flipped);
        let fuel = (2 * (len - p)) as nat;
        assert(command_at(HotKeyAction::ToggleMute, p, len) == ExecCommand::ReadMute(p as usize));
        assert(run_against(HotKeyAction::ToggleMute, len, ExecCommand::ReadMute(p as usize), muted, shifted, fuel)
            == run_against(HotKeyAction::ToggleMute, len, ExecCommand::WriteMute(p as usize, !muted[p]), muted, shifted, (fuel - 1) as nat));
    }
}

/// A mute-toggling hotkey run against an audio system that never fails
/// flips the mute state of each of its sessions and finishes successfully.
pub proof fn lemma_toggle_flips_every_session(muted: Seq<bool>)
    requires
        muted.len() <= usize::MAX,
    ensures
        run_against(
            HotKeyAction::ToggleMute,
            muted.len() as int,
            command_at(HotKeyAction::ToggleMute, 0, muted.len() as int),
            muted,
            Seq::empty(),
            (2 * muted.len()) as nat,
        ) == (muted.map_values(|b: bool| !b), Seq::<(usize, i32)>::empty(), Some(Ok::<(), WinApiError>(()))),
{
    lemma_toggle_from(muted, Seq::empty(), 0);
    assert(muted.take(0) + muted.skip(0).map_values(|b: bool| !b) =~= muted.map_values(|b: bool| !b));
}

/// Firing a mute-toggling hotkey twice, against an audio system that never
/// fails, brings every session back to its mute state.
pub proof fn lemma_toggle_twice_restores(muted: Seq<bool>)
    requires
        muted.len() <= usize::MAX,
    ensures
        ({
            let len = muted.len() as int;
            let start = command_at(HotKeyAction::ToggleMute, 0, len);
            let once = run_against(HotKeyAction::ToggleMute, len, start, muted, Seq::empty(), (2 * len) as nat).0;
            run_against(HotKeyAction::ToggleMute, len, start, once, Seq::empty(), (2 * len) as nat).0 == muted
        }),
{
    lemma_toggle_flips_every_session(muted);
    let once = muted.map_values(|b: bool| !b);
    lemma_toggle_flips_every_session(once);
    assert(once.map_values(|b: bool| !b) =~= muted);
}

/// A volume hotkey run against an audio system that never fails changes the
/// volume of each of its sessions once, in order, by exactly the hotkey's
/// percent, touches no mute state, and finishes successfully.
pub proof fn lemma_volume_shifts_every_session(delta: i32, muted: Seq<bool>)
    requires
        muted.len() <= usize::MAX,
    ensures
        run_against(
            HotKeyAction::ChangeVolume(delta),
            muted.len() as int,
            command_at(HotKeyAction::ChangeVolume(delta), 0, muted.len() as int),
            muted,
            Seq::empty(),
            muted.len(),
        ) == (
            muted,
            Seq::new(muted.len(), |i: int| (i as usize, delta)),
            Some(Ok::<(), WinApiError>(())),
        ),
{
    lemma_volume_from(delta, muted, 0);
    assert(Seq::new(0, |i: int| (i as usize, delta)) =~= Seq::<(usize, i32)>::empty());
}

proof fn lemma_volume_from(delta: i32, muted: Seq<bool>, p: int)
    requires
        0 <= p <= muted.len() <= usize::MAX,
    ensures
        run_against(
            HotKeyAction::ChangeVolume(delta),
            muted.len() as int,
            command_at(HotKeyAction::ChangeVolume(delta), p, muted.len() as int),
            muted,
            Seq::new(p as nat, |i: int| (i as usize, delta)),
            (muted.len() - p) as nat,
        ) == (
            muted,
            Seq::new(muted.len(), |i: int| (i as usize, delta)),
            Some(Ok::<(), WinApiError>(())),
        ),
    decreases muted.len() - p,
{
    let len = muted.len() as int;
    if p < len {
        lemma_volume_from(delta, muted, p + 1);
        assert(Seq::new(p as nat, |i: int| (i as usize, delta)).push((p as usize, delta)) =~= Seq::new(
            (p + 1) as nat,
            |i: int| (i as usize, delta),
        ));
    } else {
        assert(Seq::new(p as nat, |i: int| (i as usize, delta)) =~= Seq::new(muted.len(), |i: int| (i as usize, delta)));
    }
}

impl HotKey {
    /// A hotkey with the given identity, chord, sessions and action.
    pub fn new(
        id: i32,
        modifier: Modifier,
        key: u32,
        audio_sessions: Vec<usize>,
        action: HotKeyAction,
    ) -> (res: HotKey)
        ensures
            res@ == (HotKeyView {
                id: id,
                modifier: modifier,
                key: key,
                sessions: audio_sessions@,
                action: action,
            }),
    {
        HotKey { id, modifier, key, audio_sessions, action }
    }

    fn first_command_from(&self, position: usize) -> (res: ExecCommand)
        ensures
            res == command_at(self@.action, position as int, self@.sessions.len() as int),
    {
        if position >= self.audio_sessions.len() {
            ExecCommand::Finish(Ok(()))
        } else {
            match self.action {
                HotKeyAction::ToggleMute => ExecCommand::ReadMute(position),
                HotKeyAction::ChangeVolume(delta) => ExecCommand::ShiftVolume(position, delta),
            }
        }
    }

    /// The first step of running the hotkey: work on its first session, or
    /// finish at once when it has none.
    pub fn exec_start(&self) -> (res: ExecCommand)
        ensures
            res == command_at(self@.action, 0, self@.sessions.len() as int),
    {
        self.first_command_from(0)
    }

    /// The step that follows `reply`, the answer to the last command, which
    /// was about the session at `position`.  A failure ends the run with
    /// that failure; a mute state read is written back negated; a completed
    /// write moves on to the next session.
    pub fn exec_next(&self, position: usize, reply: ExecReply) -> (res: ExecCommand)
        requires
            position < self@.sessions.len(),
        ensures
            res == command_after(self@.action, position as int, self@.sessions.len() as int, reply),
    {
        match reply {
            ExecReply::Failed(e) => ExecCommand::Finish(Err(e)),
            ExecReply::MuteState(muted) => ExecCommand::WriteMute(position, !muted),
            ExecReply::Applied => {
                assert(position < self.audio_sessions.len());
                self.first_command_from(position + 1)
            },
        }
    }

    /// The identity under which the hotkey is registered.
    pub fn id(&self) -> (res: i32)
        ensures
            res == self@.id,
    {
        self.id
    }

    /// The modifier that must be held.
    pub fn modifier(&self) -> (res: Modifier)
        ensures
            res == self@.modifier,
    {
        self.modifier
    }

    /// The key code that fires the hotkey.
    pub fn key(&self) -> (res: u32)
        ensures
            res == self@.key,
    {
        self.key
    }

    /// The positions, in the session list the hotkey was planned from, of
    /// the sessions it acts on.
    pub fn audio_sessions(&self) -> (res: &Vec<usize>)
        ensures
            res@ == self@.sessions,
    {
        &self.audio_sessions
    }

    /// What the hotkey does to each session.
    pub fn action(&self) -> (res: HotKeyAction)
        ensures
            res == self@.action,
    {
        self.action
    }
}

} // verus!
