//! Instance construction: handle acquisition outcomes, option encoding and
//! the observed-property table.
//!
//! Creation runs in fixed steps — acquire the primary handle and the event
//! client sub-handle, set each initial option, register each observed
//! property, then initialize.  The native calls happen outside; this module
//! makes every decision between them: which option strings are written,
//! which correlation identifier each observed property gets, and which
//! typed error each failing step yields.

use vstd::prelude::*;

use crate::libmpv::error::Error;
use crate::libmpv::property::MpvFormat;
use crate::libmpv::{Mpv, MpvHandle};
use crate::models::OptionValue;

verus! {

/// A builder for one instance: the primary handle and the event client
/// sub-handle, both already issued by the native library.
#[derive(Debug, Clone, Copy, PartialEq, Eq, Structural)]
pub struct MpvBuilder {
    pub handle: MpvHandle,
    pub event_handle: MpvHandle,
}

/// One observed property: its name, the format its change notifications are
/// requested in, and the correlation identifier later events report.
#[derive(Debug, PartialEq)]
pub struct ObservedProperty {
    pub name: String,
    pub format: MpvFormat,
    pub id: u64,
}

/// The option string an option value encodes to: the engine's boolean
/// convention for flags, the fixed decimal text for numbers, the text
/// itself for strings — and nothing for any other shape, which is skipped.
pub open spec fn spec_option_string(v: OptionValue) -> Option<Seq<char>> {
    match v {
        OptionValue::Flag(b) => Some(
            if b {
                "yes"@
            } else {
                "no"@
            },
        ),
        OptionValue::Number(s) => Some(s@),
        OptionValue::Text(s) => Some(s@),
        OptionValue::Other => None,
    }
}

/// The option writes a configuration encodes to, in order: every entry with
/// a nonempty name and a representable value, and no other.
pub open spec fn spec_encode_options(s: Seq<(String, OptionValue)>) -> Seq<
    (Seq<char>, Seq<char>),
>
    decreases s,
{
    if s.len() == 0 {
        Seq::empty()
    } else {
        let front = spec_encode_options(s.drop_last());
        let e = s.last();
        if e.0@.len() == 0 {
            front
        } else {
            match spec_option_string(e.1) {
                Some(v) => front.push((e.0@, v)),
                None => front,
            }
        }
    }
}

/// The pairwise views of a sequence of string pairs.
pub open spec fn string_pairs_model(s: Seq<(String, String)>) -> Seq<(Seq<char>, Seq<char>)> {
    s.map_values(|p: (String, String)| (p.0@, p.1@))
}

/// Encodes one option value, or nothing when options cannot carry it.
pub fn encode_option_value(value: &OptionValue) -> (r: Option<String>)
    ensures
        match r {
            Some(s) => spec_option_string(*value) == Some(s@),
            None => spec_option_string(*value) is None,
        },
{
    proof {
        reveal_strlit("yes");
        reveal_strlit("no");
    }
    match value {
        OptionValue::Flag(b) => Some(
            if *b {
                "yes".to_owned()
            } else {
                "no".to_owned()
            },
        ),
        OptionValue::Number(s) => Some(s.clone()),
        OptionValue::Text(s) => Some(s.clone()),
        OptionValue::Other => None,
    }
}

impl MpvBuilder {
    /// Interprets the two native handle acquisitions that start a build: no
    /// primary handle fails creation outright; a primary handle without a
    /// client sub-handle fails client creation, and the caller must then
    /// destroy the primary handle it was issued.
    pub fn new(handle: MpvHandle, event_handle: MpvHandle) -> (r: Result<MpvBuilder, Error>)
        ensures
            handle.0 == 0 ==> r == Err::<MpvBuilder, Error>(Error::Create),
            handle.0 != 0 && event_handle.0 == 0 ==> r == Err::<MpvBuilder, Error>(
                Error::ClientCreation,
            ),
            handle.0 != 0 && event_handle.0 != 0 ==> r == Ok::<MpvBuilder, Error>(
                MpvBuilder { handle, event_handle },
            ),
    {
        if handle.inner() == 0 {
            Err(Error::Create)
        } else if event_handle.inner() == 0 {
            Err(Error::ClientCreation)
        } else {
            Ok(MpvBuilder { handle, event_handle })
        }
    }

    /// Encodes the initial options into the exact sequence of native option
    /// writes, in insertion order, skipping empty names and values options
    /// cannot carry.
    pub fn set_options(&self, options: &Vec<(String, OptionValue)>) -> (r: Vec<(String, String)>)
        ensures
            string_pairs_model(r@) == spec_encode_options(options@),
    {
        let mut out: Vec<(String, String)> = Vec::new();
        let mut i: usize = 0;
        proof {
            assert(options@.take(0) =~= Seq::<(String, OptionValue)>::empty());
            assert(string_pairs_model(out@) =~= spec_encode_options(options@.take(0)));
        }
        while i < options.len()
            invariant
                i <= options@.len(),
                string_pairs_model(out@) == spec_encode_options(options@.take(i as int)),
            decreases options@.len() - i,
        {
            proof {
                assert(options@.take(i + 1).drop_last() =~= options@.take(i as int));
                assert(options@.take(i + 1).last() == options@[i as int]);
            }
            let name = &options[i].0;
            match encode_option_value(&options[i].1) {
                Some(value_str) => {
                    if name.as_str().is_empty() {
                        proof {
                            assert(string_pairs_model(out@) =~= spec_encode_options(
                                options@.take(i + 1),
                            ));
                        }
                    } else {
                        out.push((name.clone(), value_str));
                        proof {
                            assert(string_pairs_model(out@) =~= spec_encode_options(
                                options@.take(i + 1),
                            ));
                        }
                    }
                },
                None => {
                    proof {
                        assert(string_pairs_model(out@) =~= spec_encode_options(
                            options@.take(i + 1),
                        ));
                    }
                },
            }
            i = i + 1;
        }
        proof {
            assert(options@.take(options@.len() as int) =~= options@);
        }
        out
    }

    /// Interprets the native status of one option write: a negative status
    /// aborts creation with the option's name and the engine's message.
    pub fn option_set_outcome(name: &String, status: i32, native_message: String) -> (r: Result<
        (),
        Error,
    >)
        ensures
            status < 0 ==> (r matches Err(e) && e matches Error::SetOption { name: n, message }
                && n@ == name@ && message@ == native_message@),
            status >= 0 ==> r == Ok::<(), Error>(()),
    {
        if status < 0 {
            Err(Error::SetOption { name: name.clone(), message: native_message })
        } else {
            Ok(())
        }
    }

    /// Assigns the observed-property table: correlation identifiers run
    /// 1..=N in registration order, and the table never changes afterwards
    /// for the instance's lifetime.
    pub fn observed_properties(&self, properties: &Vec<(String, MpvFormat)>) -> (r: Vec<
        ObservedProperty,
    >)
        ensures
            r@.len() == properties@.len(),
            forall|i: int|
                0 <= i < r@.len() ==> {
                    &&& (#[trigger] r@[i]).id == i + 1
                    &&& r@[i].name@ == properties@[i].0@
                    &&& r@[i].format == properties@[i].1
                },
    {
        let mut out: Vec<ObservedProperty> = Vec::new();
        let mut i: usize = 0;
        while i < properties.len()
            invariant
                i <= properties@.len(),
                out@.len() == i,
                forall|l: int|
                    0 <= l < i ==> {
                        &&& (#[trigger] out@[l]).id == l + 1
                        &&& out@[l].name@ == properties@[l].0@
                        &&& out@[l].format == properties@[l].1
                    },
            decreases properties@.len() - i,
        {
            let id = (i as u64) + 1;
            out.push(
                ObservedProperty {
                    name: properties[i].0.clone(),
                    format: properties[i].1,
                    id,
                },
            );
            i = i + 1;
        }
        out
    }

    /// Interprets the native status of one property-observe registration.
    pub fn observe_outcome(name: &String, status: i32, native_message: String) -> (r: Result<
        (),
        Error,
    >)
        ensures
            status < 0 ==> (r matches Err(e) && e matches Error::PropertyObserve {
                name: n,
                message,
            } && n@ == name@ && message@ == native_message@),
            status >= 0 ==> r == Ok::<(), Error>(()),
    {
        if status < 0 {
            Err(Error::PropertyObserve { name: name.clone(), message: native_message })
        } else {
            Ok(())
        }
    }

    /// Interprets the native initialization status and finishes the build.
    /// On success the primary handle passes to the instance; the event
    /// sub-handle's ownership passes to the event listener the caller
    /// spawns.
    pub fn build(self, status: i32, native_message: String) -> (r: Result<Mpv, Error>)
        ensures
            status < 0 ==> (r matches Err(e) && e matches Error::Initialize(m) && m@
                == native_message@),
            status >= 0 ==> r == Ok::<Mpv, Error>(Mpv { handle: self.handle }),
    {
        if status < 0 {
            Err(Error::Initialize(native_message))
        } else {
            Ok(Mpv { handle: self.handle })
        }
    }
}

} // verus!
