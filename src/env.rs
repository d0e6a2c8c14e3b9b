use vstd::prelude::*;
use crate::error::CallError;

verus! {

/// The release line of a server: its version and the system it runs on.
pub open spec fn release_line(version: Seq<char>, os: Seq<char>, arch: Seq<char>) -> Seq<char> {
    version + " for "@ + os + " on "@ + arch
}

/// The release line of a server: `<version> for <os> on <arch>`.
pub fn release(version: &str, os: &str, arch: &str) -> (r: String)
    ensures
        r@ == release_line(version@, os@, arch@),
{
    let mut r = String::from_str(version);
    r.append(" for ");
    r.append(os);
    r.append(" on ");
    r.append(arch);
    r
}

/// Prepares the environment; nothing in it can fail.
pub fn init() -> (r: Result<(), CallError>)
    ensures
        r is Ok,
{
    Ok(())
}

} // verus!
