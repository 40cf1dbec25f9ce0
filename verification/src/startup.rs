//! Startup skip policy: whether the update check on application startup is
//! skipped, because the build is a debug build or because a `--skip-update`
//! flag is present among the process arguments.

use vstd::prelude::*;
use vstd::string::StringExecFns;

verus! {

/// The exact text of the command-line flag that disables the startup check.
pub open spec fn skip_flag() -> Seq<char> {
    "--skip-update"@
}

/// An argument list requests a skip when some argument is exactly the
/// `--skip-update` flag (order-independent, case-sensitive exact match).
pub open spec fn has_skip_flag(args: Seq<String>) -> bool {
    exists|i: int| 0 <= i < args.len() && args[i]@ == skip_flag()
}

/// The startup check is skipped in debug builds, and otherwise exactly when
/// the argument list carries the skip flag.
pub open spec fn spec_skip_startup_check(debug_build: bool, args: Seq<String>) -> bool {
    debug_build || has_skip_flag(args)
}

/// Membership test for the `--skip-update` flag among process arguments.
pub fn skip_update_requested(args: &Vec<String>) -> (r: bool)
    ensures
        r == has_skip_flag(args@),
{
    let flag: String = String::from_str("--skip-update");
    let mut i: usize = 0;
    while i < args.len()
        invariant
            i <= args@.len(),
            flag@ == skip_flag(),
            forall|j: int| 0 <= j < i ==> args@[j]@ != skip_flag(),
        decreases args@.len() - i,
    {
        if args[i] == flag {
            assert(has_skip_flag(args@)) by {
                assert(args@[i as int]@ == skip_flag());
            }
            return true;
        }
        i = i + 1;
    }
    false
}

/// The startup skip policy, derived from the build configuration and the
/// process arguments: skip unconditionally in debug builds, otherwise skip
/// exactly when `--skip-update` was passed.
pub fn should_skip_startup_check(debug_build: bool, args: &Vec<String>) -> (r: bool)
    ensures
        r == spec_skip_startup_check(debug_build, args@),
{
    if debug_build {
        true
    } else {
        skip_update_requested(args)
    }
}

} // verus!
