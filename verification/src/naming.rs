//! Names for temporary files and directories that do not collide: the
//! package name, the local time and a random identifier.

use vstd::prelude::*;
use vstd::string::StringExecFns;

use crate::paths::Location;

verus! {

/// The name of this package, with which every unique name begins.
pub const PACKAGE_NAME: &'static str = "live_app_icon";

/// The unique name made of a time stamp and an identifier.
pub open spec fn unique_name_of(stamp: Seq<char>, identifier: Seq<char>) -> Seq<char> {
    PACKAGE_NAME@ + "-"@ + stamp + "-"@ + identifier
}

/// Whether `name` is a unique name, whatever its time stamp and identifier.
pub open spec fn is_unique_name(name: Seq<char>) -> bool {
    exists|stamp: Seq<char>, identifier: Seq<char>|
        name == #[trigger] unique_name_of(stamp, identifier)
}

/// Calls `chrono::Local::now` and formats the time as year, month, day, hour,
/// minute and second, joined by hyphens. The result depends on the clock and
/// the time zone, so nothing is said of it.
#[verifier::external_body]
fn local_timestamp() -> (stamp: String) {
    chrono::Local::now().format("%Y-%m-%d-%H-%M-%S").to_string()
}

/// Calls `uuid::Uuid::new_v4` and writes the identifier in its usual
/// hyphenated form. The result is random, so nothing is said of it.
#[verifier::external_body]
fn random_identifier() -> (identifier: String) {
    uuid::Uuid::new_v4().to_string()
}

/// Composes the unique name of a time stamp and an identifier.
pub fn compose_unique_name(stamp: &str, identifier: &str) -> (name: String)
    ensures
        name@ == unique_name_of(stamp@, identifier@),
{
    let mut name = String::from_str(PACKAGE_NAME);
    name.append("-");
    name.append(stamp);
    name.append("-");
    name.append(identifier);
    name
}

/// A fresh unique name, from the clock and a random identifier.
pub fn unique_name() -> (name: String)
    ensures
        is_unique_name(name@),
{
    let stamp = local_timestamp();
    let identifier = random_identifier();
    compose_unique_name(stamp.as_str(), identifier.as_str())
}

/// A fresh location for a temporary directory inside `directory`.
pub fn temp_dir_in(directory: &str) -> (location: Location)
    ensures
        location@.base == directory@,
        location@.parts.len() == 1,
        is_unique_name(location@.parts[0]),
{
    let name = unique_name();
    Location::new(directory).join(name.as_str())
}

/// A fresh location for a temporary file with the given extension inside
/// `directory`.
pub fn temp_file_in(directory: &str, extension: &str) -> (location: Location)
    ensures
        location@.base == directory@,
        location@.parts.len() == 1,
        exists|name: Seq<char>|
            #[trigger] is_unique_name(name) && location@.parts[0] == name + "."@ + extension@,
{
    let mut name = unique_name();
    let ghost unique = name@;
    name.append(".");
    name.append(extension);
    assert(is_unique_name(unique) && name@ == unique + "."@ + extension@);
    Location::new(directory).join(name.as_str())
}

} // verus!
