use vstd::prelude::*;

use crate::utils::{AudioSession, AudioSessionView, WinApiError};

verus! {

/// The characters that the UTF-16 code units `units` encode, or `None` when
/// they hold an unpaired surrogate.
pub open spec fn utf16_decode(units: Seq<u16>) -> Option<Seq<char>>
    decreases units.len(),
{
    if units.len() == 0 {
        Some(Seq::empty())
    } else {
        let u = units[0];
        if u < 0xD800 || u > 0xDFFF {
            match utf16_decode(units.drop_first()) {
                Some(rest) => Some(seq![u as char] + rest),
                None => None,
            }
        } else if u <= 0xDBFF && units.len() >= 2 && 0xDC00 <= units[1] <= 0xDFFF {
            let c = (0x10000 + (u - 0xD800) * 0x400 + (units[1] - 0xDC00)) as char;
            match utf16_decode(units.skip(2)) {
                Some(rest) => Some(seq![c] + rest),
                None => None,
            }
        } else {
            None
        }
    }
}

/// `String::from_utf16`: decodes UTF-16 code units, failing exactly when
/// they hold an unpaired surrogate.  The contract states the decoding that
/// the standard library documents for it.
#[verifier::external_body]
fn string_from_utf16(units: &[u16]) -> (res: Option<String>)
    ensures
        res is None <==> utf16_decode(units@) is None,
        res matches Some(s) ==> utf16_decode(units@) == Some(s@),
{
    match String::from_utf16(units) {
        Ok(s) => Some(s),
        Err(_) => None,
    }
}


/// Where a scan of the audio sessions stands.
#[derive(Debug, Clone, Copy, PartialEq, Eq, Structural)]
pub enum ScanPhase {
    /// Waiting for the number of sessions of the default output device.
    AwaitingCount,
    /// Waiting for the process id of the session at the current index.
    AwaitingProcessId,
    /// Waiting for the image name of this process, owner of the session at
    /// the current index.
    AwaitingImageName(u32),
    /// The scan is over.
    Finished,
}

/// The scan of the sessions of the default audio output device, as a state
/// machine: the caller performs each [`ScanCommand`] and hands back the
/// answer as a [`ScanReply`].
pub struct SessionScan {
    phase: ScanPhase,
    count: i32,
    index: i32,
    sessions: Vec<AudioSession>,
}

/// The abstract value of a [`SessionScan`].
pub struct SessionScanView {
    pub phase: ScanPhase,
    pub count: i32,
    pub index: i32,
    pub sessions: Seq<AudioSessionView>,
}

impl View for SessionScan {
    type V = SessionScanView;

    closed spec fn view(&self) -> SessionScanView {
        SessionScanView {
            phase: self.phase,
            count: self.count,
            index: self.index,
            sessions: self.sessions@.map_values(|s: AudioSession| s@),
        }
    }
}

/// What the audio system answered to the last [`ScanCommand`].
pub enum ScanReply {
    /// The number of sessions of the default output device.
    SessionCount(i32),
    /// The id of the process that owns the session asked about.
    ProcessId(u32),
    /// The buffer the process image name was written to, and the number of
    /// code units written.
    ImageName(Vec<u16>, u32),
    /// A call into the audio or process system failed.
    Failed,
}

/// The abstract value of a [`ScanReply`].
pub enum ScanReplyView {
    SessionCount(i32),
    ProcessId(u32),
    ImageName(Seq<u16>, u32),
    Failed,
}

impl View for ScanReply {
    type V = ScanReplyView;

    open spec fn view(&self) -> ScanReplyView {
        match self {
            ScanReply::SessionCount(n) => ScanReplyView::SessionCount(*n),
            ScanReply::ProcessId(pid) => ScanReplyView::ProcessId(*pid),
            ScanReply::ImageName(buf, size) => ScanReplyView::ImageName(buf@, *size),
            ScanReply::Failed => ScanReplyView::Failed,
        }
    }
}

/// The next thing to ask of the audio system.
pub enum ScanCommand {
    /// Ask for the process id of the session at this index.
    QueryProcessId(i32),
    /// Ask for the image name of this process, owner of the session at this
    /// index.
    QueryImageName(i32, u32),
    /// The scan is over, with this outcome.
    Finish(Result<Vec<AudioSession>, WinApiError>),
}

/// The abstract value of a [`ScanCommand`].
pub enum ScanCommandView {
    QueryProcessId(i32),
    QueryImageName(i32, u32),
    Finish(Result<Seq<AudioSessionView>, WinApiError>),
}

impl View for ScanCommand {
    type V = ScanCommandView;

    open spec fn view(&self) -> ScanCommandView {
        match self {
            ScanCommand::QueryProcessId(i) => ScanCommandView::QueryProcessId(*i),
            ScanCommand::QueryImageName(i, pid) => ScanCommandView::QueryImageName(*i, *pid),
            ScanCommand::Finish(Ok(v)) => ScanCommandView::Finish(Ok(v@.map_values(|s: AudioSession| s@))),
            ScanCommand::Finish(Err(e)) => ScanCommandView::Finish(Err(*e)),
        }
    }
}

/// The state and command after moving to the session at `index`: ask for
/// its process id, or finish with the sessions collected so far once every
/// session has been seen.
pub open spec fn scan_move_to(v: SessionScanView, index: int) -> (SessionScanView, ScanCommandView) {
    if index < v.count {
        (
            SessionScanView {
                phase: ScanPhase::AwaitingProcessId,
                count: v.count,
                index: index as i32,
                sessions: v.sessions,
            },
            ScanCommandView::QueryProcessId(index as i32),
        )
    } else {
        (
            SessionScanView {
                phase: ScanPhase::Finished,
                count: v.count,
                index: v.index,
                sessions: Seq::empty(),
            },
            ScanCommandView::Finish(Ok(v.sessions)),
        )
    }
}

/// The reply is one the scan can take in its current phase; an image name
/// must fit in its buffer and be valid UTF-16.
pub open spec fn scan_accepts(v: SessionScanView, reply: ScanReplyView) -> bool {
    match reply {
        ScanReplyView::Failed => v.phase != ScanPhase::Finished,
        ScanReplyView::SessionCount(_) => v.phase == ScanPhase::AwaitingCount,
        ScanReplyView::ProcessId(_) => v.phase == ScanPhase::AwaitingProcessId,
        ScanReplyView::ImageName(buf, size) => v.phase is AwaitingImageName && size <= buf.len()
            && utf16_decode(buf.take(size as int)) is Some,
    }
}

/// The state and command that follow `reply`.  Any failure ends the scan
/// with an error; the core process (id 0) is skipped without asking for its
/// name; every other session is listed, in order, under the decoded name of
/// its process image.
pub open spec fn scan_step(v: SessionScanView, reply: ScanReplyView) -> (SessionScanView, ScanCommandView) {
    match reply {
        ScanReplyView::Failed => (
            SessionScanView {
                phase: ScanPhase::Finished,
                count: v.count,
                index: v.index,
                sessions: Seq::empty(),
            },
            ScanCommandView::Finish(Err(WinApiError::Other)),
        ),
        ScanReplyView::SessionCount(n) => scan_move_to(
            SessionScanView {
                phase: v.phase,
                count: n,
                index: 0,
                sessions: v.sessions,
            },
            0,
        ),
        ScanReplyView::ProcessId(pid) => if pid == 0 {
            scan_move_to(v, v.index + 1)
        } else {
            (
                SessionScanView {
                    phase: ScanPhase::AwaitingImageName(pid),
                    count: v.count,
                    index: v.index,
                    sessions: v.sessions,
                },
                ScanCommandView::QueryImageName(v.index, pid),
            )
        },
        ScanReplyView::ImageName(buf, size) => {
            let pid = v.phase->AwaitingImageName_0;
            let name = utf16_decode(buf.take(size as int))->0;
            scan_move_to(
                SessionScanView {
                    phase: v.phase,
                    count: v.count,
                    index: v.index,
                    sessions: v.sessions.push(AudioSessionView { pid: pid, name: name }),
                },
                v.index + 1,
            )
        },
    }
}

/// What an audio system answers to `cmd`, when its sessions belong to the
/// processes `procs` (each a process id and the UTF-16 image name of the
/// process) and asking for the process id of session `failing` fails (an
/// index outside the sessions makes a system that never fails).
pub open spec fn answer_from(procs: Seq<(u32, Seq<u16>)>, failing: int, cmd: ScanCommandView) -> ScanReplyView {
    match cmd {
        ScanCommandView::QueryProcessId(i) => if i == failing {
            ScanReplyView::Failed
        } else {
            ScanReplyView::ProcessId(procs[i as int].0)
        },
        ScanCommandView::QueryImageName(i, _) => ScanReplyView::ImageName(
            procs[i as int].1,
            procs[i as int].1.len() as u32,
        ),
        ScanCommandView::Finish(_) => ScanReplyView::Failed,
    }
}

/// Runs a scan from state `v` and command `cmd` against that audio system;
/// gives the outcome once the scan finishes within `fuel` steps.
pub open spec fn run_scan(
    procs: Seq<(u32, Seq<u16>)>,
    failing: int,
    v: SessionScanView,
    cmd: ScanCommandView,
    fuel: nat,
) -> Option<Result<Seq<AudioSessionView>, WinApiError>>
    decreases fuel,
{
    match cmd {
        ScanCommandView::Finish(outcome) => Some(outcome),
        _ => if fuel == 0 {
            None
        } else {
            let (next, next_cmd) = scan_step(v, answer_from(procs, failing, cmd));
            run_scan(procs, failing, next, next_cmd, (fuel - 1) as nat)
        },
    }
}

/// The sessions of the first `n` processes that a scan lists: those of
/// every process but the core process, in order, under their decoded names.
pub open spec fn listed_sessions(procs: Seq<(u32, Seq<u16>)>, n: int) -> Seq<AudioSessionView>
    decreases n,
{
    if n <= 0 {
        Seq::empty()
    } else {
        let earlier = listed_sessions(procs, n - 1);
        if procs[n - 1].0 == 0 {
            earlier
        } else {
            earlier.push(AudioSessionView { pid: procs[n - 1].0, name: utf16_decode(procs[n - 1].1)->0 })
        }
    }
}

/// The processes' image names are valid UTF-16 and fit the reply's size.
pub open spec fn processes_well_named(procs: Seq<(u32, Seq<u16>)>) -> bool {
    forall|i: int|
        0 <= i < procs.len() ==> (#[trigger] procs[i]).1.len() <= u32::MAX && utf16_decode(
            procs[i].1,
        ) is Some
}

proof fn lemma_scan_from(procs: Seq<(u32, Seq<u16>)>, w: SessionScanView, i: int, fuel: nat)
    requires
        procs.len() <= i32::MAX,
        processes_well_named(procs),
        0 <= i <= procs.len(),
        w.count == procs.len(),
        w.sessions == listed_sessions(procs, i),
        fuel >= 2 * (procs.len() - i),
    ensures
        ({
            let (v, c) = scan_move_to(w, i);
            run_scan(procs, -1, v, c, fuel) == Some(Ok::<Seq<AudioSessionView>, WinApiError>(listed_sessions(procs, procs.len() as int)))
        }),
    decreases procs.len() - i,
{
    let len = procs.len() as int;
    if i < len {
        let (v, c) = scan_move_to(w, i);
        assert(c == ScanCommandView::QueryProcessId(i as i32));
        let pid = procs[i].0;
        assert(answer_from(procs, -1, c) == ScanReplyView::ProcessId(pid));
        if pid == 0 {
            assert(listed_sessions(procs, i + 1) == listed_sessions(procs, i));
            lemma_scan_from(procs, v, i + 1, (fuel - 1) as nat);
            let (v2, c2) = scan_step(v, ScanReplyView::ProcessId(pid));
            assert(run_scan(procs, -1, v, c, fuel) == run_scan(procs, -1, v2, c2, (fuel - 1) as nat));
        } else {
            let (v2, c2) = scan_step(v, ScanReplyView::ProcessId(pid));
            assert(c2 == ScanCommandView::QueryImageName(i as i32, pid));
            let name = procs[i].1;
            assert(processes_well_named(procs) ==> name.len() <= u32::MAX && utf16_decode(name) is Some);
            assert(name.take(name.len() as int) =~= name);
            let w3 = SessionScanView {
                phase: v2.phase,
                count: v2.count,
                index: v2.index,
                sessions: v2.sessions.push(AudioSessionView { pid: pid, name: utf16_decode(name)->0 }),
            };
            assert(w3.sessions == listed_sessions(procs, i + 1));
            lemma_scan_from(procs, w3, i + 1, (fuel - 2) as nat);
            let reply3 = ScanReplyView::ImageName(name, name.len() as u32);
            assert(answer_from(procs, -1, c2) == reply3);
            let (v3, c3) = scan_step(v2, reply3);
            assert((v3, c3) == scan_move_to(w3, i + 1));
            assert(run_scan(procs, -1, v2, c2, (fuel - 1) as nat) == run_scan(procs, -1, v3, c3, (fuel - 2) as nat));
            assert(run_scan(procs, -1, v, c, fuel) == run_scan(procs, -1, v2, c2, (fuel - 1) as nat));
        }
    }
}

/// A scan run against an audio system that never fails lists, in order,
/// the session of every process except the core process (id 0), each under
/// the decoded image name of its process.
pub proof fn lemma_scan_lists_every_user_session(procs: Seq<(u32, Seq<u16>)>)
    requires
        procs.len() <= i32::MAX,
        processes_well_named(procs),
    ensures
        ({
            let start = SessionScanView {
                phase: ScanPhase::AwaitingCount,
                count: 0,
                index: 0,
                sessions: Seq::empty(),
            };
            let (v, c) = scan_step(start, ScanReplyView::SessionCount(procs.len() as i32));
            run_scan(procs, -1, v, c, (2 * procs.len()) as nat) == Some(Ok::<Seq<AudioSessionView>, WinApiError>(listed_sessions(procs, procs.len() as int)))
        }),
{
    let w = SessionScanView {
        phase: ScanPhase::AwaitingCount,
        count: procs.len() as i32,
        index: 0,
        sessions: Seq::empty(),
    };
    lemma_scan_from(procs, w, 0, (2 * procs.len()) as nat);
}

/// In any phase before the end, a failure ends the scan at once with an
/// error, keeping no session.
pub proof fn lemma_scan_failure_ends_scan(v: SessionScanView)
    requires
        v.phase != ScanPhase::Finished,
    ensures
        scan_accepts(v, ScanReplyView::Failed),
        scan_step(v, ScanReplyView::Failed).1 == ScanCommandView::Finish(Err(WinApiError::Other)),
        scan_step(v, ScanReplyView::Failed).0.phase == ScanPhase::Finished,
        scan_step(v, ScanReplyView::Failed).0.sessions.len() == 0,
{
}

proof fn lemma_scan_fails_from(
    procs: Seq<(u32, Seq<u16>)>,
    k: int,
    w: SessionScanView,
    i: int,
    fuel: nat,
)
    requires
        procs.len() <= i32::MAX,
        0 <= i <= k < procs.len(),
        w.count == procs.len(),
        fuel >= 2 * (k - i) + 1,
    ensures
        ({
            let (v, c) = scan_move_to(w, i);
            run_scan(procs, k, v, c, fuel) == Some(Err::<Seq<AudioSessionView>, WinApiError>(WinApiError::Other))
        }),
    decreases k - i,
{
    let (v, c) = scan_move_to(w, i);
    assert(c == ScanCommandView::QueryProcessId(i as i32));
    if i == k {
        assert(answer_from(procs, k, c) == ScanReplyView::Failed);
        let (v2, c2) = scan_step(v, ScanReplyView::Failed);
        assert(run_scan(procs, k, v, c, fuel) == run_scan(procs, k, v2, c2, (fuel - 1) as nat));
    } else {
        let pid = procs[i].0;
        assert(answer_from(procs, k, c) == ScanReplyView::ProcessId(pid));
        let (v2, c2) = scan_step(v, ScanReplyView::ProcessId(pid));
        assert(run_scan(procs, k, v, c, fuel) == run_scan(procs, k, v2, c2, (fuel - 1) as nat));
        if pid == 0 {
            lemma_scan_fails_from(procs, k, v, i + 1, (fuel - 1) as nat);
        } else {
            assert(c2 == ScanCommandView::QueryImageName(i as i32, pid));
            let name = procs[i].1;
            let reply3 = ScanReplyView::ImageName(name, name.len() as u32);
            assert(answer_from(procs, k, c2) == reply3);
            let (v3, c3) = scan_step(v2, reply3);
            let w3 = SessionScanView {
                phase: v2.phase,
                count: v2.count,
                index: v2.index,
                sessions: v2.sessions.push(
                    AudioSessionView { pid: pid, name: utf16_decode(name.take(name.len() as u32 as int))->0 },
                ),
            };
            assert((v3, c3) == scan_move_to(w3, i + 1));
            lemma_scan_fails_from(procs, k, w3, i + 1, (fuel - 2) as nat);
            assert(run_scan(procs, k, v2, c2, (fuel - 1) as nat) == run_scan(procs, k, v3, c3, (fuel - 2) as nat));
        }
    }
}

/// When asking for the process id of any one session fails, the whole scan
/// ends with an error: no session is dropped silently and no partial list
/// is returned.
pub proof fn lemma_scan_fails_when_a_query_fails(procs: Seq<(u32, Seq<u16>)>, k: int)
    requires
        procs.len() <= i32::MAX,
        0 <= k < procs.len(),
    ensures
        ({
            let start = SessionScanView {
                phase: ScanPhase::AwaitingCount,
                count: 0,
                index: 0,
                sessions: Seq::empty(),
            };
            let (v, c) = scan_step(start, ScanReplyView::SessionCount(procs.len() as i32));
            run_scan(procs, k, v, c, (2 * procs.len()) as nat) == Some(Err::<Seq<AudioSessionView>, WinApiError>(WinApiError::Other))
        }),
{
    let w = SessionScanView {
        phase: ScanPhase::AwaitingCount,
        count: procs.len() as i32,
        index: 0,
        sessions: Seq::empty(),
    };
    lemma_scan_fails_from(procs, k, w, 0, (2 * procs.len()) as nat);
}

impl SessionScan {
    /// The invariant of a scan: the index stays within the sessions while
    /// one is being examined, only processes other than the core process
    /// are listed or asked about, and a finished scan holds nothing.
    pub closed spec fn wf(&self) -> bool {
        &&& 0 <= self.index
        &&& (self.phase == ScanPhase::AwaitingProcessId || self.phase is AwaitingImageName)
            ==> self.index < self.count
        &&& self.phase matches ScanPhase::AwaitingImageName(pid) ==> pid != 0
        &&& forall|i: int| 0 <= i < self.sessions@.len() ==> #[trigger] self.sessions@[i]@.pid != 0
        &&& self.phase == ScanPhase::Finished ==> self.sessions@.len() == 0
    }

    /// A scan that has asked nothing yet: the first reply it takes is the
    /// number of sessions.
    pub fn new() -> (res: SessionScan)
        ensures
            res.wf(),
            res@ == (SessionScanView {
                phase: ScanPhase::AwaitingCount,
                count: 0,
                index: 0,
                sessions: Seq::empty(),
            }),
    {
        let res = SessionScan { phase: ScanPhase::AwaitingCount, count: 0, index: 0, sessions: Vec::new() };
        assert(res@.sessions =~= Seq::empty());
        res
    }

    /// Where the scan stands.
    pub fn phase(&self) -> (res: ScanPhase)
        ensures
            res == self@.phase,
    {
        self.phase
    }

    fn move_to(&mut self, index: i32) -> (res: ScanCommand)
        requires
            old(self).wf(),
            0 <= index,
            old(self).phase != ScanPhase::Finished,
        ensures
            final(self).wf(),
            (final(self)@, res@) == scan_move_to(old(self)@, index as int),
    {
        if index < self.count {
            self.phase = ScanPhase::AwaitingProcessId;
            self.index = index;
            ScanCommand::QueryProcessId(index)
        } else {
            let mut listed: Vec<AudioSession> = Vec::new();
            std::mem::swap(&mut listed, &mut self.sessions);
            self.phase = ScanPhase::Finished;
            assert(self@.sessions =~= Seq::empty());
            ScanCommand::Finish(Ok(listed))
        }
    }

    /// Takes the answer to the last command and returns the next command.
    pub fn step(&mut self, reply: ScanReply) -> (res: ScanCommand)
        requires
            old(self).wf(),
            scan_accepts(old(self)@, reply@),
        ensures
            final(self).wf(),
            (final(self)@, res@) == scan_step(old(self)@, reply@),
            res@ matches ScanCommandView::Finish(Ok(listed)) ==> forall|i: int|
                0 <= i < listed.len() ==> #[trigger] listed[i].pid != 0,
    {
        let ghost before = self@;
        match reply {
            ScanReply::Failed => {
                let mut dropped: Vec<AudioSession> = Vec::new();
                std::mem::swap(&mut dropped, &mut self.sessions);
                self.phase = ScanPhase::Finished;
                assert(self@.sessions =~= Seq::empty());
                ScanCommand::Finish(Err(WinApiError::Other))
            },
            ScanReply::SessionCount(n) => {
                self.count = n;
                self.index = 0;
                self.move_to(0)
            },
            ScanReply::ProcessId(pid) => {
                if pid == 0 {
                    self.move_to(self.index + 1)
                } else {
                    self.phase = ScanPhase::AwaitingImageName(pid);
                    ScanCommand::QueryImageName(self.index, pid)
                }
            },
            ScanReply::ImageName(buf, size) => {
                let pid = match self.phase {
                    ScanPhase::AwaitingImageName(p) => p,
                    _ => 0,
                };
                let units = vstd::slice::slice_subrange(buf.as_slice(), 0, size as usize);
                assert(units@ == buf@.take(size as int));
                match string_from_utf16(units) {
                    Some(name) => {
                        self.sessions.push(AudioSession::new(pid, name));
                        assert(self@.sessions =~= before.sessions.push(
                            AudioSessionView { pid: pid, name: utf16_decode(buf@.take(size as int))->0 },
                        ));
                        self.move_to(self.index + 1)
                    },
                    None => ScanCommand::Finish(Err(WinApiError::Other)),
                }
            },
        }
    }
}

} // verus!
