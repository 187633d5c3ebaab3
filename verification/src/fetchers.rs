//! Initialisation of Nix's fetchers library, as seen by its callers.

use vstd::prelude::*;
use vstd::string::StringExecFns;

verus! {

/// What [`init`] puts before the message of a failed initialisation.
pub open spec fn init_error_prefix() -> Seq<char> {
    "nix_bindings_fetchers::init error: "@
}

/// Reports the outcome of the one-time initialisation of the fetchers
/// library, `stored`, to a caller: success as it is, a failure as a new
/// error whose message names the fetchers library before the message of
/// the stored failure (which cannot itself be handed out twice).
pub fn init(stored: &Result<(), String>) -> (res: Result<(), String>)
    ensures
        stored is Ok <==> res is Ok,
        stored matches Err(e) ==> (res matches Err(m) && m@ == init_error_prefix() + e@),
{
    match stored {
        Ok(()) => Ok(()),
        Err(e) => {
            let mut msg = String::from_str("nix_bindings_fetchers::init error: ");
            proof {
                reveal_strlit("nix_bindings_fetchers::init error: ");
            }
            msg.append(e.as_str());
            Err(msg)
        },
    }
}

} // verus!
