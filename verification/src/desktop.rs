//! The instance registry and the session-level call protocol.
//!
//! The registry maps caller-chosen session keys (window labels) to live
//! instances, at most one per key.  Creation is idempotent: a key that
//! already has an instance is left exactly as it is, and the caller makes no
//! second native allocation.  Destruction removes the entry before any
//! teardown, so a concurrent destroy of the same key sees "not found" and
//! treats it as a no-op.  The foreign calls and the surrounding lock live
//! outside; every decision between them is made and verified here.

use vstd::prelude::*;

use crate::error::Error;
use crate::libmpv::property::MpvNode;
use crate::libmpv::utils::{dec_int_str, i64_to_string};
use crate::models::{FfiResponse, MpvConfig, MpvInstance, OptionValue, VideoMarginRatio};

verus! {

/// Position of the first entry holding the given key, or the length when no
/// entry does.
pub open spec fn inst_index(s: Seq<(String, MpvInstance)>, key: Seq<char>) -> int
    decreases s,
{
    if s.len() == 0 {
        0
    } else if s[0].0@ == key {
        0
    } else {
        1 + inst_index(s.drop_first(), key)
    }
}

pub proof fn lemma_inst_index(s: Seq<(String, MpvInstance)>, key: Seq<char>)
    ensures
        0 <= inst_index(s, key) <= s.len(),
        inst_index(s, key) < s.len() ==> s[inst_index(s, key)].0@ == key,
        forall|j: int| 0 <= j < inst_index(s, key) ==> s[j].0@ != key,
    decreases s,
{
    if s.len() > 0 && s[0].0@ != key {
        lemma_inst_index(s.drop_first(), key);
        assert forall|j: int| 0 <= j < inst_index(s, key) implies s[j].0@ != key by {
            if j > 0 {
                assert(s.drop_first()[j - 1] == s[j]);
            }
        }
    }
}

/// Whether any option marks the instance as audio-only: a `video` or `vid`
/// option whose value is the text "no" or the flag false.
pub open spec fn spec_audio_only(s: Seq<(String, OptionValue)>) -> bool {
    exists|i: int|
        0 <= i < s.len() && {
            let e = #[trigger] s[i];
            &&& (e.0@ == "video"@ || e.0@ == "vid"@)
            &&& ((e.1 matches OptionValue::Text(t) && t@ == "no"@) || e.1 == OptionValue::Flag(
                false,
            ))
        }
}

/// Whether any option carries the given name.
pub open spec fn spec_has_option(s: Seq<(String, OptionValue)>, key: Seq<char>) -> bool {
    exists|i: int| 0 <= i < s.len() && (#[trigger] s[i]).0@ == key
}

/// The creation decision for one session key.
#[derive(Debug, PartialEq)]
pub enum InitPlan {
    /// An instance already exists: creation is an idempotent no-op and the
    /// caller makes no native allocation.
    AlreadyExists,
    /// No instance exists: the caller performs the native creation with this
    /// configuration, whose options now carry the window id where one is
    /// wanted.
    Proceed(MpvConfig),
}

/// The instance registry: the only state shared across caller threads.  The
/// caller guards it with one lock; every operation below is one critical
/// section's decision.
pub struct Mpv {
    pub instances: Vec<(String, MpvInstance)>,
}

impl Mpv {
    /// The registry invariant: at most one instance per session key.
    pub open spec fn wf(self) -> bool {
        forall|i: int, j: int|
            0 <= i < j < self.instances@.len() ==> (#[trigger] self.instances@[i]).0@ != (
            #[trigger] self.instances@[j]).0@
    }

    /// Whether a live instance exists for the key.
    pub open spec fn spec_contains(self, key: Seq<char>) -> bool {
        exists|i: int|
            0 <= i < self.instances@.len() && (#[trigger] self.instances@[i]).0@ == key
    }

    /// The live instance for the key, if any.
    pub open spec fn spec_get(self, key: Seq<char>) -> Option<MpvInstance> {
        if self.spec_contains(key) {
            Some(self.instances@[inst_index(self.instances@, key)].1)
        } else {
            None
        }
    }

    /// An empty registry.
    pub fn new() -> (r: Mpv)
        ensures
            r.instances@ == Seq::<(String, MpvInstance)>::empty(),
            r.wf(),
    {
        Mpv { instances: Vec::new() }
    }

    /// Finds the position of the key's entry.
    fn find_index(&self, window_label: &String) -> (r: Option<usize>)
        ensures
            r matches Some(i) ==> i == inst_index(self.instances@, window_label@)
                && i < self.instances@.len(),
            r is None ==> !self.spec_contains(window_label@),
            r is Some <==> self.spec_contains(window_label@),
    {
        proof {
            lemma_inst_index(self.instances@, window_label@);
        }
        let mut i: usize = 0;
        while i < self.instances.len()
            invariant
                i <= self.instances@.len(),
                forall|l: int| 0 <= l < i ==> (#[trigger] self.instances@[l]).0@ != window_label@,
                0 <= inst_index(self.instances@, window_label@) <= self.instances@.len(),
                inst_index(self.instances@, window_label@) < self.instances@.len()
                    ==> self.instances@[inst_index(self.instances@, window_label@)].0@
                    == window_label@,
                forall|j: int|
                    0 <= j < inst_index(self.instances@, window_label@)
                        ==> self.instances@[j].0@ != window_label@,
            decreases self.instances@.len() - i,
        {
            if self.instances[i].0 == *window_label {
                proof {
                    let ki = inst_index(self.instances@, window_label@);
                    if ki < i as int {
                        assert(self.instances@[ki].0@ != window_label@);
                        assert(false);
                    }
                    if ki > i as int {
                        assert(self.instances@[i as int].0@ != window_label@);
                        assert(false);
                    }
                }
                return Some(i);
            }
            i = i + 1;
        }
        None
    }

    /// Whether a live instance exists for the session key.
    pub fn contains(&self, window_label: &String) -> (r: bool)
        ensures
            r == self.spec_contains(window_label@),
    {
        self.find_index(window_label).is_some()
    }

    /// Looks the session key up, failing with the not-found error exactly
    /// when no instance is live for it.
    pub fn find_instance(&self, window_label: &String) -> (r: Result<MpvInstance, Error>)
        ensures
            r is Ok <==> self.spec_contains(window_label@),
            r matches Ok(inst) ==> self.spec_get(window_label@) == Some(inst),
            r matches Err(e) ==> (e matches Error::InstanceNotFound(m) && m@
                == "mpv instance for window label '"@ + window_label@ + "' not found"@),
    {
        match self.find_index(window_label) {
            Some(i) => Ok(self.instances[i].1),
            None => {
                proof {
                    reveal_strlit("mpv instance for window label '");
                    reveal_strlit("' not found");
                }
                let mut m = "mpv instance for window label '".to_owned();
                m.append(window_label.as_str());
                m.append("' not found");
                Err(Error::InstanceNotFound(m))
            },
        }
    }

    /// Decides a creation request.  An existing instance makes creation an
    /// idempotent no-op; otherwise the configuration goes out to the native
    /// creation with the window id option applied — unless the options mark
    /// the instance audio-only, already name a window id, or no id is
    /// available.
    pub fn prepare_init(
        &self,
        mpv_config: MpvConfig,
        window_label: &String,
        wid: Option<i64>,
    ) -> (r: InitPlan)
        ensures
            self.spec_contains(window_label@) ==> r is AlreadyExists,
            !self.spec_contains(window_label@) ==> (r matches InitPlan::Proceed(cfg) && {
                let s = mpv_config.initial_options@;
                &&& cfg.observed_properties == mpv_config.observed_properties
                &&& if spec_audio_only(s) || spec_has_option(s, "wid"@) || wid is None {
                    cfg.initial_options@ == s
                } else {
                    &&& cfg.initial_options@.len() == s.len() + 1
                    &&& cfg.initial_options@.drop_last() == s
                    &&& cfg.initial_options@.last().0@ == "wid"@
                    &&& (cfg.initial_options@.last().1 matches OptionValue::Number(t) && t@
                        == dec_int_str(wid->Some_0 as int))
                }
            }),
    {
        if self.contains(window_label) {
            return InitPlan::AlreadyExists;
        }
        let MpvConfig { mut initial_options, observed_properties } = mpv_config;
        let audio = audio_only_options(&initial_options);
        let has_wid = has_option(&initial_options, "wid");
        match wid {
            Some(w) if !audio && !has_wid => {
                proof {
                    reveal_strlit("wid");
                }
                let ghost before = initial_options@;
                initial_options.push(("wid".to_owned(), OptionValue::Number(i64_to_string(w))));
                proof {
                    assert(initial_options@.drop_last() =~= before);
                }
            },
            _ => {},
        }
        InitPlan::Proceed(MpvConfig { initial_options, observed_properties })
    }

    /// Records the outcome of the native creation, while the caller still
    /// holds the registry exclusively.  A missing handle is the creation
    /// error — the caller must reclaim the context block it allocated — and
    /// no entry appears.  On success the instance becomes visible under its
    /// key in one step; a key that gained an instance meanwhile is left
    /// untouched, keeping creation idempotent.
    pub fn finish_init(
        &mut self,
        window_label: &String,
        outcome: Option<MpvInstance>,
    ) -> (r: Result<String, Error>)
        requires
            old(self).wf(),
        ensures
            final(self).wf(),
            outcome is None ==> (*final(self) == *old(self) && r == Err::<String, Error>(
                Error::CreateInstance,
            )),
            outcome is Some && old(self).spec_contains(window_label@) ==> (*final(self) == *old(
                self,
            ) && (r matches Ok(s) && s@ == window_label@)),
            outcome matches Some(inst) ==> (!old(self).spec_contains(window_label@) ==> {
                &&& final(self).instances@.len() == old(self).instances@.len() + 1
                &&& final(self).instances@.drop_last() == old(self).instances@
                &&& final(self).instances@.last().0@ == window_label@
                &&& final(self).instances@.last().1 == inst
                &&& final(self).spec_contains(window_label@)
                &&& r matches Ok(s) && s@ == window_label@
            }),
    {
        let inst = match outcome {
            Some(inst) => inst,
            None => {
                return Err(Error::CreateInstance);
            },
        };
        if self.contains(window_label) {
            return Ok(window_label.clone());
        }
        let ghost before = self.instances@;
        self.instances.push((window_label.clone(), inst));
        proof {
            assert(self.instances@.drop_last() =~= before);
            assert(self.instances@.last().0@ == window_label@);
            assert forall|i: int, j: int|
                0 <= i < j < self.instances@.len() implies (#[trigger] self.instances@[i]).0@ != (
            #[trigger] self.instances@[j]).0@ by {
                if j < self.instances@.len() - 1 {
                    assert(before[i] == self.instances@[i]);
                    assert(before[j] == self.instances@[j]);
                } else {
                    assert(before[i] == self.instances@[i]);
                }
            }
        }
        Ok(window_label.clone())
    }

    /// Removes the key's entry, handing back the instance for teardown.
    /// The entry is gone before any native teardown begins, and a missing
    /// key changes nothing.
    pub fn remove_instance(&mut self, window_label: &String) -> (r: Option<MpvInstance>)
        requires
            old(self).wf(),
        ensures
            final(self).wf(),
            !old(self).spec_contains(window_label@) ==> (*final(self) == *old(self) && r
                is None),
            old(self).spec_contains(window_label@) ==> {
                let idx = inst_index(old(self).instances@, window_label@);
                &&& r == Some(old(self).instances@[idx].1)
                &&& final(self).instances@ == old(self).instances@.remove(idx)
                &&& !final(self).spec_contains(window_label@)
            },
    {
        proof {
            lemma_inst_index(self.instances@, window_label@);
        }
        match self.find_index(window_label) {
            Some(i) => {
                let ghost before = self.instances@;
                let entry = self.instances.remove(i);
                proof {
                    assert forall|a: int, b: int|
                        0 <= a < b < self.instances@.len() implies (
                    #[trigger] self.instances@[a]).0@ != (#[trigger] self.instances@[b]).0@ by {
                        let a0: int = if a < i as int {
                            a
                        } else {
                            a + 1
                        };
                        let b0: int = if b < i as int {
                            b
                        } else {
                            b + 1
                        };
                        assert(self.instances@[a] == before[a0]);
                        assert(self.instances@[b] == before[b0]);
                    }
                    assert forall|a: int|
                        0 <= a < self.instances@.len() implies (
                    #[trigger] self.instances@[a]).0@ != window_label@ by {
                        let a0: int = if a < i as int {
                            a
                        } else {
                            a + 1
                        };
                        assert(self.instances@[a] == before[a0]);
                        if a0 != i as int {
                            if a0 < i as int {
                                assert(before[a0].0@ != window_label@);
                            } else {
                                if before[a0].0@ == window_label@ {
                                    assert(before[i as int].0@ == window_label@);
                                    assert(false);
                                }
                            }
                        }
                    }
                }
                Some(entry.1)
            },
            None => None,
        }
    }

    /// Destroys the instance of a session key.  A key with no instance is a
    /// successful no-op, never an error; otherwise the entry leaves the
    /// registry first and the instance goes back to the caller, which
    /// releases the native handle and the context block exactly once.
    pub fn destroy(&mut self, window_label: &String) -> (r: Result<Option<MpvInstance>, Error>)
        requires
            old(self).wf(),
        ensures
            final(self).wf(),
            r is Ok,
            !old(self).spec_contains(window_label@) ==> (*final(self) == *old(self) && r == Ok::<
                Option<MpvInstance>,
                Error,
            >(None)),
            old(self).spec_contains(window_label@) ==> {
                let idx = inst_index(old(self).instances@, window_label@);
                &&& r == Ok::<Option<MpvInstance>, Error>(
                    Some(old(self).instances@[idx].1),
                )
                &&& final(self).instances@ == old(self).instances@.remove(idx)
                &&& !final(self).spec_contains(window_label@)
            },
    {
        Ok(self.remove_instance(window_label))
    }

    /// The decision core of one session command call: the instance must
    /// exist, the wrapper must have answered, and an error message in the
    /// response becomes the typed command error for this session.
    pub fn command(&self, window_label: &String, response: Option<FfiResponse>) -> (r: Result<
        (),
        Error,
    >)
        ensures
            !self.spec_contains(window_label@) ==> (r matches Err(e) && e
                matches Error::InstanceNotFound(_)),
            self.spec_contains(window_label@) && response is None ==> (r matches Err(e) && e
                matches Error::Ffi(m) && m@ == "Call returned null pointer"@),
            self.spec_contains(window_label@) ==> match response {
                Some(resp) => match resp.error {
                    Some(err) => (r matches Err(e) && e matches Error::Command {
                        window_label: l,
                        message,
                    } && l@ == window_label@ && message@ == err@),
                    None => r == Ok::<(), Error>(()),
                },
                None => r is Err,
            },
    {
        let _inst = match self.find_instance(window_label) {
            Ok(inst) => inst,
            Err(e) => {
                return Err(e);
            },
        };
        let resp = match response {
            Some(resp) => resp,
            None => {
                proof {
                    reveal_strlit("Call returned null pointer");
                }
                return Err(Error::Ffi("Call returned null pointer".to_owned()));
            },
        };
        match resp.error {
            Some(err) => Err(
                Error::Command { window_label: window_label.clone(), message: err },
            ),
            None => Ok(()),
        }
    }

    /// The decision core of one session property write, mirroring
    /// [`Mpv::command`] with the property-write error.
    pub fn set_property(&self, window_label: &String, response: Option<FfiResponse>) -> (r:
        Result<(), Error>)
        ensures
            !self.spec_contains(window_label@) ==> (r matches Err(e) && e
                matches Error::InstanceNotFound(_)),
            self.spec_contains(window_label@) && response is None ==> (r matches Err(e) && e
                matches Error::Ffi(m) && m@ == "Call returned null pointer"@),
            self.spec_contains(window_label@) ==> match response {
                Some(resp) => match resp.error {
                    Some(err) => (r matches Err(e) && e matches Error::SetProperty {
                        window_label: l,
                        message,
                    } && l@ == window_label@ && message@ == err@),
                    None => r == Ok::<(), Error>(()),
                },
                None => r is Err,
            },
    {
        let _inst = match self.find_instance(window_label) {
            Ok(inst) => inst,
            Err(e) => {
                return Err(e);
            },
        };
        let resp = match response {
            Some(resp) => resp,
            None => {
                proof {
                    reveal_strlit("Call returned null pointer");
                }
                return Err(Error::Ffi("Call returned null pointer".to_owned()));
            },
        };
        match resp.error {
            Some(err) => Err(
                Error::SetProperty { window_label: window_label.clone(), message: err },
            ),
            None => Ok(()),
        }
    }

    /// The decision core of one session property read: beyond the command
    /// checks, a successful response must actually carry a value.
    pub fn get_property(&self, window_label: &String, response: Option<FfiResponse>) -> (r:
        Result<MpvNode, Error>)
        ensures
            !self.spec_contains(window_label@) ==> (r matches Err(e) && e
                matches Error::InstanceNotFound(_)),
            self.spec_contains(window_label@) ==> match response {
                Some(resp) => match resp.error {
                    Some(err) => (r matches Err(e) && e matches Error::GetProperty {
                        window_label: l,
                        message,
                    } && l@ == window_label@ && message@ == err@),
                    None => match resp.data {
                        Some(v) => r == Ok::<MpvNode, Error>(v),
                        None => (r matches Err(e) && e matches Error::GetProperty {
                            window_label: l,
                            message,
                        } && l@ == window_label@ && message@
                            == "FFI response contained no data"@),
                    },
                },
                None => (r matches Err(e) && e matches Error::GetProperty {
                    window_label: l,
                    message,
                } && l@ == window_label@ && message@ == "FFI call returned null pointer"@),
            },
    {
        let _inst = match self.find_instance(window_label) {
            Ok(inst) => inst,
            Err(e) => {
                return Err(e);
            },
        };
        let resp = match response {
            Some(resp) => resp,
            None => {
                proof {
                    reveal_strlit("FFI call returned null pointer");
                }
                return Err(
                    Error::GetProperty {
                        window_label: window_label.clone(),
                        message: "FFI call returned null pointer".to_owned(),
                    },
                );
            },
        };
        match resp.error {
            Some(err) => Err(
                Error::GetProperty { window_label: window_label.clone(), message: err },
            ),
            None => match resp.data {
                Some(v) => Ok(v),
                None => {
                    proof {
                        reveal_strlit("FFI response contained no data");
                    }
                    Err(
                        Error::GetProperty {
                            window_label: window_label.clone(),
                            message: "FFI response contained no data".to_owned(),
                        },
                    )
                },
            },
        }
    }
}

/// Creation is idempotent.  Once a creation for a key has completed — the
/// well-formed registry `m0` gained exactly the entry for `key`, as
/// [`Mpv::finish_init`] ensures — the key is visible, so a second creation
/// request answers that the instance already exists, allocates nothing, and
/// the one live instance for the key is still the first creation's.
pub proof fn lemma_create_idempotent(m0: Mpv, m1: Mpv, key: Seq<char>, inst: MpvInstance)
    requires
        m0.wf(),
        !m0.spec_contains(key),
        m1.instances@.len() == m0.instances@.len() + 1,
        m1.instances@.drop_last() == m0.instances@,
        m1.instances@.last().0@ == key,
        m1.instances@.last().1 == inst,
    ensures
        m1.spec_contains(key),
        m1.spec_get(key) == Some(inst),
{
    let s = m1.instances@;
    let last = s.len() - 1;
    assert(s[last].0@ == key);
    assert(m1.spec_contains(key));
    lemma_inst_index(s, key);
    let ki = inst_index(s, key);
    if ki < last {
        assert(s[ki] == m0.instances@[ki]);
        assert(m0.spec_contains(key));
        assert(false);
    }
    assert(ki == last);
}

/// Whether the options mark the instance audio-only.
pub fn audio_only_options(options: &Vec<(String, OptionValue)>) -> (r: bool)
    ensures
        r == spec_audio_only(options@),
{
    proof {
        reveal_strlit("video");
        reveal_strlit("vid");
        reveal_strlit("no");
    }
    let mut i: usize = 0;
    while i < options.len()
        invariant
            i <= options@.len(),
            forall|l: int|
                0 <= l < i ==> !({
                    let e = #[trigger] options@[l];
                    &&& (e.0@ == "video"@ || e.0@ == "vid"@)
                    &&& ((e.1 matches OptionValue::Text(t) && t@ == "no"@) || e.1
                        == OptionValue::Flag(false))
                }),
        decreases options@.len() - i,
    {
        let key_matches = options[i].0 == "video".to_owned() || options[i].0 == "vid".to_owned();
        if key_matches {
            let value_matches = match &options[i].1 {
                OptionValue::Text(t) => *t == "no".to_owned(),
                OptionValue::Flag(b) => !*b,
                _ => false,
            };
            if value_matches {
                return true;
            }
        }
        i = i + 1;
    }
    false
}

/// Whether any option carries the given name.
pub fn has_option(options: &Vec<(String, OptionValue)>, key: &str) -> (r: bool)
    ensures
        r == spec_has_option(options@, key@),
{
    let mut i: usize = 0;
    while i < options.len()
        invariant
            i <= options@.len(),
            forall|l: int| 0 <= l < i ==> (#[trigger] options@[l]).0@ != key@,
        decreases options@.len() - i,
    {
        if options[i].0 == key.to_owned() {
            return true;
        }
        i = i + 1;
    }
    false
}

/// The name of the per-session event channel: deterministic in the session
/// key, so the emission side and its listener always agree.
pub fn event_channel_name(window_label: &String) -> (r: String)
    ensures
        r@ == "mpv-event-"@ + window_label@,
{
    proof {
        reveal_strlit("mpv-event-");
    }
    let mut s = "mpv-event-".to_owned();
    s.append(window_label.as_str());
    s
}

/// Plans the video-margin fan-out: one property write per specified edge,
/// in the fixed order left, right, top, bottom, skipping any edge left
/// unspecified.
pub open spec fn spec_margin_writes(ratio: VideoMarginRatio) -> Seq<(Seq<char>, u64)> {
    let s0 = Seq::<(Seq<char>, u64)>::empty();
    let s1 = match ratio.left {
        Some(v) => s0.push(("video-margin-ratio-left"@, v)),
        None => s0,
    };
    let s2 = match ratio.right {
        Some(v) => s1.push(("video-margin-ratio-right"@, v)),
        None => s1,
    };
    let s3 = match ratio.top {
        Some(v) => s2.push(("video-margin-ratio-top"@, v)),
        None => s2,
    };
    match ratio.bottom {
        Some(v) => s3.push(("video-margin-ratio-bottom"@, v)),
        None => s3,
    }
}

/// The margin-write views of the planned writes.
pub open spec fn margin_writes_model(s: Seq<(String, u64)>) -> Seq<(Seq<char>, u64)> {
    s.map_values(|p: (String, u64)| (p.0@, p.1))
}

impl Mpv {
    /// Fans a margin-ratio update out into individual property writes, one
    /// per specified edge; the caller performs each through the property
    /// write path and stops at the first failure, as any sequence of writes
    /// does.
    pub fn set_video_margin_ratio(&self, ratio: VideoMarginRatio) -> (r: Vec<(String, u64)>)
        ensures
            margin_writes_model(r@) == spec_margin_writes(ratio),
    {
        proof {
            reveal_strlit("video-margin-ratio-left");
            reveal_strlit("video-margin-ratio-right");
            reveal_strlit("video-margin-ratio-top");
            reveal_strlit("video-margin-ratio-bottom");
        }
        let mut out: Vec<(String, u64)> = Vec::new();
        if let Some(v) = ratio.left {
            out.push(("video-margin-ratio-left".to_owned(), v));
        }
        if let Some(v) = ratio.right {
            out.push(("video-margin-ratio-right".to_owned(), v));
        }
        if let Some(v) = ratio.top {
            out.push(("video-margin-ratio-top".to_owned(), v));
        }
        if let Some(v) = ratio.bottom {
            out.push(("video-margin-ratio-bottom".to_owned(), v));
        }
        proof {
            assert(margin_writes_model(out@) =~= spec_margin_writes(ratio));
        }
        out
    }
}

} // verus!
