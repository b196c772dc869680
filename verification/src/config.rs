use vstd::prelude::*;

use crate::text::{seq_contains, str_contains};
use crate::utils::{
    modifier_from_u32, spec_modifier_from_u32, AudioSession, HotKey, HotKeyAction, HotKeyView,
    WinApiError,
};

verus! {

/// One hotkey of the configuration: the key and modifier that fire it, the
/// application whose sessions it controls, and the volume change in
/// percent (0 toggles mute instead).
pub struct Binding {
    key: u32,
    modifier: u32,
    app: String,
    delta: i32,
}

/// The abstract value of a [`Binding`].
pub struct BindingView {
    pub key: u32,
    pub modifier: u32,
    pub app: Seq<char>,
    pub delta: i32,
}

impl View for Binding {
    type V = BindingView;

    closed spec fn view(&self) -> BindingView {
        BindingView { key: self.key, modifier: self.modifier, app: self.app@, delta: self.delta }
    }
}

/// The configuration: the list of hotkey bindings.
pub struct Config {
    pub bindings: Vec<Binding>,
}

/// The action a binding's volume change stands for: 0 toggles mute, any
/// other value changes the volume by that many percent.
pub open spec fn action_for_delta(delta: i32) -> HotKeyAction {
    if delta == 0 {
        HotKeyAction::ToggleMute
    } else {
        HotKeyAction::ChangeVolume(delta)
    }
}

/// The positions, among the first `n` sessions, of those whose name
/// contains `app`, in increasing order.
pub open spec fn matching_sessions(sessions: Seq<AudioSession>, app: Seq<char>, n: int) -> Seq<usize>
    decreases n,
{
    if n <= 0 {
        Seq::empty()
    } else {
        let earlier = matching_sessions(sessions, app, n - 1);
        if seq_contains(sessions[n - 1]@.name, app) {
            earlier.push((n - 1) as usize)
        } else {
            earlier
        }
    }
}

/// The binding's modifier code names a modifier.
pub open spec fn binding_valid(b: BindingView) -> bool {
    spec_modifier_from_u32(b.modifier) is Some
}

/// The hotkey planned for binding `b` under identity `id`, given the outcome
/// of listing the audio sessions: none when the listing failed, otherwise a
/// hotkey over every session whose process name contains the application
/// name.
pub open spec fn planned_hotkey(
    b: BindingView,
    id: i32,
    sessions: Result<Vec<AudioSession>, WinApiError>,
) -> Option<HotKeyView> {
    match sessions {
        Err(_) => None,
        Ok(list) => Some(
            HotKeyView {
                id: id,
                modifier: spec_modifier_from_u32(b.modifier)->0,
                key: b.key,
                sessions: matching_sessions(list@, b.app, list@.len() as int),
                action: action_for_delta(b.delta),
            },
        ),
    }
}

/// The hotkeys planned for the first `n` bindings, binding `i` under
/// identity `i` with the `i`-th session listing, skipping those for which
/// the listing failed.
pub open spec fn planned_hotkeys(
    bindings: Seq<BindingView>,
    sessions: Seq<Result<Vec<AudioSession>, WinApiError>>,
    n: int,
) -> Seq<HotKeyView>
    decreases n,
{
    if n <= 0 {
        Seq::empty()
    } else {
        let earlier = planned_hotkeys(bindings, sessions, n - 1);
        match planned_hotkey(bindings[n - 1], (n - 1) as i32, sessions[n - 1]) {
            Some(h) => earlier.push(h),
            None => earlier,
        }
    }
}

impl Binding {
    /// A binding of `key` with `modifier` that acts on the sessions of `app`.
    pub fn new(key: u32, modifier: u32, app: &str, delta: i32) -> (res: Binding)
        ensures
            res@ == (BindingView { key: key, modifier: modifier, app: app@, delta: delta }),
    {
        Binding { key, modifier, app: app.to_owned(), delta }
    }

    /// The key code that fires the binding.
    pub fn key(&self) -> (res: u32)
        ensures
            res == self@.key,
    {
        self.key
    }

    /// The modifier code of the binding.
    pub fn modifier(&self) -> (res: u32)
        ensures
            res == self@.modifier,
    {
        self.modifier
    }

    /// The application name the binding looks for in session names.
    pub fn app(&self) -> (res: &str)
        ensures
            res@ == self@.app,
    {
        self.app.as_str()
    }

    /// The volume change in percent; 0 toggles mute.
    pub fn delta(&self) -> (res: i32)
        ensures
            res == self@.delta,
    {
        self.delta
    }

    /// Plans the hotkey of this binding under identity `id`, from the
    /// outcome of listing the audio sessions.
    pub fn create_hotkey(
        &self,
        id: i32,
        sessions: &Result<Vec<AudioSession>, WinApiError>,
    ) -> (res: Option<HotKey>)
        requires
            sessions is Ok ==> binding_valid(self@),
        ensures
            res matches Some(h) ==> planned_hotkey(self@, id, *sessions) == Some(h@),
            res is None <==> planned_hotkey(self@, id, *sessions) is None,
    {
        let list = match sessions {
            Ok(s) => s,
            Err(_err) => return None,
        };
        let mut matching: Vec<usize> = Vec::new();
        let mut i: usize = 0;
        while i < list.len()
            invariant
                i <= list@.len(),
                matching@ == matching_sessions(list@, self.app@, i as int),
            decreases list.len() - i,
        {
            if str_contains(list[i].name(), self.app.as_str()) {
                matching.push(i);
            }
            i = i + 1;
        }
        let action = if self.delta == 0 {
            HotKeyAction::ToggleMute
        } else {
            HotKeyAction::ChangeVolume(self.delta)
        };
        let modifier = match modifier_from_u32(self.modifier) {
            Some(m) => m,
            None => return None,
        };
        Some(HotKey::new(id, modifier, self.key, matching, action))
    }
}


impl View for Config {
    type V = Seq<BindingView>;

    open spec fn view(&self) -> Seq<BindingView> {
        self.bindings@.map_values(|b: Binding| b@)
    }
}

/// Every binding whose session listing succeeded names a valid modifier.
pub open spec fn config_valid(
    bindings: Seq<BindingView>,
    sessions: Seq<Result<Vec<AudioSession>, WinApiError>>,
) -> bool {
    forall|i: int| 0 <= i < bindings.len() && sessions[i] is Ok ==> binding_valid(#[trigger] bindings[i])
}

impl Config {
    /// A configuration without bindings.
    pub fn new() -> (res: Config)
        ensures
            res@ == Seq::<BindingView>::empty(),
    {
        let res = Config { bindings: Vec::new() };
        assert(res@ =~= Seq::<BindingView>::empty());
        res
    }

    /// A configuration with one blank binding: key 0, modifier 0, no
    /// application name and no volume change.
    pub fn empty_config() -> (res: Config)
        ensures
            res@ == seq![BindingView { key: 0, modifier: 0, app: Seq::empty(), delta: 0 }],
    {
        proof {
            reveal_strlit("");
        }
        let blank = Binding::new(0, 0, "", 0);
        assert(blank@.app =~= Seq::<char>::empty());
        let res = Config { bindings: vec![blank] };
        assert(res@ =~= seq![BindingView { key: 0, modifier: 0, app: Seq::empty(), delta: 0 }]);
        res
    }

    /// Plans the hotkeys of all bindings: binding `i` gets identity `i` and is
    /// planned from `sessions[i]`, the outcome of listing the audio sessions
    /// for it; bindings whose listing failed get no hotkey.
    pub fn create_hotkeys(
        &self,
        sessions: &Vec<Result<Vec<AudioSession>, WinApiError>>,
    ) -> (res: Vec<HotKey>)
        requires
            sessions@.len() == self@.len(),
            config_valid(self@, sessions@),
        ensures
            res@.map_values(|h: HotKey| h@) == planned_hotkeys(self@, sessions@, self@.len() as int),
    {
        let mut hotkey_list: Vec<HotKey> = Vec::new();
        let n = self.bindings.len();
        for i in 0..n
            invariant
                n == self@.len(),
                sessions@.len() == n,
                config_valid(self@, sessions@),
                hotkey_list@.map_values(|h: HotKey| h@) == planned_hotkeys(self@, sessions@, i as int),
        {
            let binding = &self.bindings[i];
            assert(sessions@[i as int] is Ok ==> binding_valid(self@[i as int]));
            let hotkey = binding.create_hotkey(i as i32, &sessions[i]);
            let ghost before = hotkey_list@;
            match hotkey {
                Some(h) => {
                    hotkey_list.push(h);
                    assert(hotkey_list@.map_values(|h: HotKey| h@) =~= before.map_values(
                        |h: HotKey| h@,
                    ).push(h@));
                },
                None => {},
            }
        }
        hotkey_list
    }
}

/// The sessions a binding controls are exactly those whose process name
/// contains the binding's application name, listed once each in the order
/// of the session list.
pub proof fn lemma_matching_sessions_exact(sessions: Seq<AudioSession>, app: Seq<char>, n: int)
    requires
        0 <= n <= sessions.len(),
        n <= usize::MAX,
    ensures
        forall|j: int|
            0 <= j < matching_sessions(sessions, app, n).len() ==> {
                let k = #[trigger] matching_sessions(sessions, app, n)[j] as int;
                0 <= k < n && seq_contains(sessions[k]@.name, app)
            },
        forall|j1: int, j2: int|
            0 <= j1 < j2 < matching_sessions(sessions, app, n).len() ==> #[trigger] matching_sessions(
                sessions,
                app,
                n,
            )[j1] < #[trigger] matching_sessions(sessions, app, n)[j2],
        forall|k: int|
            0 <= k < n && seq_contains(#[trigger] sessions[k]@.name, app) ==> matching_sessions(
                sessions,
                app,
                n,
            ).contains(k as usize),
    decreases n,
{
    if n > 0 {
        lemma_matching_sessions_exact(sessions, app, n - 1);
        let earlier = matching_sessions(sessions, app, n - 1);
        let now = matching_sessions(sessions, app, n);
        assert(forall|j: int| 0 <= j < earlier.len() ==> now[j] == earlier[j]);
        assert forall|k: int|
            0 <= k < n && seq_contains(#[trigger] sessions[k]@.name, app) implies now.contains(
            k as usize,
        ) by {
            if k < n - 1 {
                let j = choose|j: int| 0 <= j < earlier.len() && earlier[j] == k as usize;
                assert(now[j] == k as usize);
            } else {
                assert(now[earlier.len() as int] == k as usize);
            }
        }
    }
}

/// A volume change of 0 toggles mute, and only 0 does; any other value is a
/// volume change by exactly that many percent.
pub proof fn lemma_action_for_delta(delta: i32)
    ensures
        (action_for_delta(delta) == HotKeyAction::ToggleMute) <==> delta == 0,
        delta != 0 ==> action_for_delta(delta) == HotKeyAction::ChangeVolume(delta),
{
}

/// What the hotkey planned for a binding is, stated over its inputs: none
/// when the session listing failed; otherwise it carries the given
/// identity, the binding's key, a modifier with the binding's code, toggles
/// mute exactly when the volume change is 0 and otherwise changes the
/// volume by exactly that change, and acts on exactly the sessions whose
/// process name contains the binding's application name, each once, in the
/// order of the listing.
pub proof fn lemma_planned_hotkey_exact(
    b: BindingView,
    id: i32,
    sessions: Result<Vec<AudioSession>, WinApiError>,
)
    ensures
        sessions is Err ==> planned_hotkey(b, id, sessions) is None,
        sessions matches Ok(list) ==> planned_hotkey(b, id, sessions) matches Some(h) && {
            &&& h.id == id
            &&& h.key == b.key
            &&& binding_valid(b) ==> h.modifier.spec_code() == b.modifier
            &&& b.delta == 0 ==> h.action == HotKeyAction::ToggleMute
            &&& b.delta != 0 ==> h.action == HotKeyAction::ChangeVolume(b.delta)
            &&& forall|j: int|
                0 <= j < h.sessions.len() ==> #[trigger] h.sessions[j] < list@.len()
                    && seq_contains(list@[h.sessions[j] as int]@.name, b.app)
            &&& forall|j1: int, j2: int|
                0 <= j1 < j2 < h.sessions.len() ==> #[trigger] h.sessions[j1] < #[trigger] h.sessions[j2]
            &&& forall|k: int|
                0 <= k < list@.len() && seq_contains(#[trigger] list@[k]@.name, b.app)
                    ==> h.sessions.contains(k as usize)
        },
{
    match sessions {
        Err(_) => {},
        Ok(list) => {
            assert(list.len() == list@.len());
            lemma_matching_sessions_exact(list@, b.app, list@.len() as int);
            lemma_action_for_delta(b.delta);
            let h = planned_hotkey(b, id, sessions)->0;
            assert forall|j: int| 0 <= j < h.sessions.len() implies #[trigger] h.sessions[j] < list@.len()
                && seq_contains(list@[h.sessions[j] as int]@.name, b.app) by {
                let k = matching_sessions(list@, b.app, list@.len() as int)[j] as int;
                assert(0 <= k < list@.len());
            }
        },
    }
}

/// Each planned hotkey carries the position of its binding as identity and
/// is the hotkey planned for that binding; identities rise strictly along
/// the list; and every binding whose session listing succeeded has its
/// hotkey in the list (while the number of bindings fits the identity type).
pub proof fn lemma_planned_hotkey_ids(
    bindings: Seq<BindingView>,
    sessions: Seq<Result<Vec<AudioSession>, WinApiError>>,
    n: int,
)
    requires
        0 <= n <= 0x8000_0000,
        n <= bindings.len(),
        n <= sessions.len(),
    ensures
        forall|j: int|
            0 <= j < planned_hotkeys(bindings, sessions, n).len() ==> {
                let h = #[trigger] planned_hotkeys(bindings, sessions, n)[j];
                &&& 0 <= h.id < n
                &&& planned_hotkey(bindings[h.id as int], h.id, sessions[h.id as int]) == Some(h)
            },
        forall|j1: int, j2: int|
            0 <= j1 < j2 < planned_hotkeys(bindings, sessions, n).len() ==> #[trigger] planned_hotkeys(
                bindings,
                sessions,
                n,
            )[j1].id < #[trigger] planned_hotkeys(bindings, sessions, n)[j2].id,
        forall|k: int|
            0 <= k < n && #[trigger] planned_hotkey(bindings[k], k as i32, sessions[k]) is Some
                ==> exists|j: int|
                0 <= j < planned_hotkeys(bindings, sessions, n).len() && #[trigger] planned_hotkeys(
                    bindings,
                    sessions,
                    n,
                )[j].id == k,
    decreases n,
{
    if n > 0 {
        lemma_planned_hotkey_ids(bindings, sessions, n - 1);
        assert(((n - 1) as i32) == n - 1);
        let earlier = planned_hotkeys(bindings, sessions, n - 1);
        let now = planned_hotkeys(bindings, sessions, n);
        assert(forall|j: int| 0 <= j < earlier.len() ==> now[j] == earlier[j]);
        assert forall|k: int|
            0 <= k < n && #[trigger] planned_hotkey(bindings[k], k as i32, sessions[k]) is Some
                implies exists|j: int| 0 <= j < now.len() && #[trigger] now[j].id == k by {
            if k < n - 1 {
                let j = choose|j: int| 0 <= j < earlier.len() && #[trigger] earlier[j].id == k;
                assert(now[j].id == k);
            } else {
                assert(now[earlier.len() as int].id == k);
            }
        }
    }
}

} // verus!
