//! Where a saved image goes: the path is the directory, a stamp of the
//! time of saving and the configured base name.

use vstd::prelude::*;

verus! {

/// The text that `std` prints for a `Duration` of `secs` whole seconds and
/// `nanos` nanoseconds with the `{:?}` format.
pub uninterp spec fn duration_debug(secs: u64, nanos: u32) -> Seq<char>;

/// Formats a span of time the way `std::time::Duration` prints itself with
/// `{:?}`. The contract names that text and says nothing of what it looks
/// like; it leaves out a nanosecond count of a second or more, for which
/// `Duration::new` carries into the seconds and may panic.
#[verifier::external_body]
fn duration_text(secs: u64, nanos: u32) -> (text: String)
    requires
        nanos < 1_000_000_000,
    ensures
        text@ == duration_debug(secs, nanos),
{
    format!("{:?}", std::time::Duration::new(secs, nanos))
}

/// The path of an image saved into `dir` under the base name `name`, with
/// `stamp` standing for the time of saving.
pub open spec fn save_path_of(dir: Seq<char>, stamp: Seq<char>, name: Seq<char>) -> Seq<char> {
    dir + "/smr_"@ + stamp + "_"@ + name
}

/// Puts a save path together from its three parts.
pub fn join_save_path(dir: &str, stamp: &str, name: &str) -> (path: String)
    ensures
        path@ == save_path_of(dir@, stamp@, name@),
{
    let mut path: String = String::from_str(dir);
    path.append("/smr_");
    path.append(stamp);
    path.append("_");
    path.append(name);
    path
}

/// The path for an image saved at `secs` seconds and `nanos` nanoseconds
/// after the epoch. Two saves within one tick of the clock get the same
/// path.
pub fn save_path(dir: &str, secs: u64, nanos: u32, name: &str) -> (path: String)
    requires
        nanos < 1_000_000_000,
    ensures
        path@ == save_path_of(dir@, duration_debug(secs, nanos), name@),
{
    let stamp: String = duration_text(secs, nanos);
    join_save_path(dir, stamp.as_str(), name)
}

} // verus!
