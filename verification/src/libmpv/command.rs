//! The blocking command call protocol.
//!
//! A command crosses the boundary as a null-terminated array of C strings:
//! the command name followed by its arguments.  The strings are validated
//! and assembled here; the native call itself happens outside, and its
//! status code comes back to [`Mpv::command`], which turns a negative
//! status into the typed command error carrying the engine's own message.

use vstd::prelude::*;
use vstd::string::StringSliceAdditionalSpecFns;

use crate::libmpv::error::Error;
use crate::libmpv::utils::{contains_nul, has_nul_byte, string_bytes};
use crate::libmpv::Mpv;

verus! {

/// Whether a command name and argument list can cross the boundary: none of
/// the strings may hold an interior NUL byte.
pub open spec fn argv_clean(name: String, args: Seq<String>) -> bool {
    &&& !has_nul_byte(string_bytes(name))
    &&& forall|i: int| 0 <= i < args.len() ==> !has_nul_byte(string_bytes(#[trigger] args[i]))
}

/// Builds the argv of a command call: the name followed by the arguments,
/// each checked for interior NUL bytes.  The native side appends the
/// terminating null pointer.
pub fn build_command_argv(name: &String, args: &Vec<String>) -> (r: Result<Vec<String>, Error>)
    ensures
        r is Ok <==> argv_clean(*name, args@),
        r matches Ok(v) ==> {
            &&& v@.len() == 1 + args@.len()
            &&& v@[0]@ == name@
            &&& forall|i: int| 0 <= i < args@.len() ==> #[trigger] v@[i + 1]@ == args@[i]@
        },
        r matches Err(e) ==> e matches Error::InvalidParameter(_),
{
    if contains_nul(name.as_str()) {
        return Err(Error::InvalidParameter("string contains an interior NUL byte".to_owned()));
    }
    let mut out: Vec<String> = Vec::new();
    out.push(name.clone());
    let mut i: usize = 0;
    while i < args.len()
        invariant
            i <= args@.len(),
            out@.len() == 1 + i,
            out@[0]@ == name@,
            forall|l: int| 0 <= l < i ==> #[trigger] out@[l + 1]@ == args@[l]@,
            forall|l: int| 0 <= l < i ==> !has_nul_byte(string_bytes(#[trigger] args@[l])),
        decreases args@.len() - i,
    {
        if contains_nul(args[i].as_str()) {
            return Err(
                Error::InvalidParameter("string contains an interior NUL byte".to_owned()),
            );
        }
        out.push(args[i].clone());
        i = i + 1;
    }
    Ok(out)
}

impl Mpv {
    /// The decision core of one blocking command call: the argv must be
    /// clean, and a negative native status becomes the command error
    /// carrying the command name and the engine's message.
    pub fn command(
        &self,
        name: &String,
        args: &Vec<String>,
        status: i32,
        native_message: String,
    ) -> (r: Result<(), Error>)
        ensures
            !argv_clean(*name, args@) ==> (r matches Err(e) && e matches Error::InvalidParameter(
                _,
            )),
            argv_clean(*name, args@) && status < 0 ==> (r matches Err(e) && e
                matches Error::Command { name: n, message } && n@ == name@ && message@
                == native_message@),
            argv_clean(*name, args@) && status >= 0 ==> r == Ok::<(), Error>(()),
    {
        match build_command_argv(name, args) {
            Ok(_) => {
                if status < 0 {
                    Err(Error::Command { name: name.clone(), message: native_message })
                } else {
                    Ok(())
                }
            },
            Err(e) => Err(e),
        }
    }
}

} // verus!
