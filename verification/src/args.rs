//! The process argument list: exact forwarding into the interpreter's
//! argument slot, and the scan for the one flag the launcher recognizes.

use vstd::prelude::*;
use vstd::string::*;

verus! {

/// The one argument the launcher itself recognizes: the opt-in that installs
/// the import-profiling hook.
pub open spec fn profile_flag() -> Seq<char> {
    "--profile-imports"@
}

/// Some argument, anywhere in the list, equals the profiling flag.
pub open spec fn has_profile_flag(args: Seq<String>) -> bool {
    exists|i: int| 0 <= i < args.len() && (#[trigger] args[i])@ == profile_flag()
}

/// Scans the captured argument list for the profiling flag.
pub fn contains_profile_flag(args: &Vec<String>) -> (r: bool)
    ensures
        r == has_profile_flag(args@),
{
    let flag = String::from_str("--profile-imports");
    let n = args.len();
    let mut k: usize = 0;
    while k < n
        invariant
            n == args@.len(),
            k <= n,
            flag@ == profile_flag(),
            forall|i: int| 0 <= i < k ==> (#[trigger] args@[i])@ != profile_flag(),
        decreases n - k,
    {
        if args[k].eq(&flag) {
            return true;
        }
        k = k + 1;
    }
    false
}

/// Hands the captured argument list on unchanged: the hosted application's
/// own parser sees exactly the arguments the operating system gave the
/// process, the program name at index 0 included, with no reordering,
/// filtering, or mutation.
pub fn forwarded_args(args: Vec<String>) -> (r: Vec<String>)
    ensures
        r@ == args@,
{
    args
}

} // verus!
