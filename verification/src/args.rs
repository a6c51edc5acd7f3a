//! The arguments of the command line, and the rules that its values meet.

use vstd::prelude::*;
use vstd::string::StringExecFns;

use crate::geometry::ResizeMethod;
use crate::install::InstallAction;
use crate::naming::{is_unique_name, temp_dir_in};
use crate::paths::{at, Location};

verus! {

/// The arguments of one run.
#[derive(Debug, Clone, PartialEq, Eq)]
pub struct Args {
    /// The name of the application, shown in the dock and the launcher.
    pub name: String,
    /// The path of the animated image that becomes the icon.
    pub gif: String,
    /// The shell command that runs when the application is clicked.
    pub command: String,
    /// How an image that is not square is made square.
    pub resize_method: ResizeMethod,
    /// The directory into which the application is installed.
    pub install_location: String,
    /// What happens once the application is installed.
    pub install_action: InstallAction,
    /// Whether every step is logged to the terminal.
    pub verbose: bool,
    /// A working directory to use in place of a temporary one.
    pub work_dir: Option<String>,
    /// A local copy of the repository to use in place of a download.
    pub local_repository: Option<String>,
}

impl Args {
    /// The working directory of the run: the one that was asked for, or else
    /// a fresh temporary directory inside `temporary`.
    pub fn work_dir_in(&self, temporary: &str) -> (location: Location)
        ensures
            match self.work_dir {
                Some(path) => location@ == at(path@),
                None => {
                    &&& location@.base == temporary@
                    &&& location@.parts.len() == 1
                    &&& is_unique_name(location@.parts[0])
                },
            },
    {
        match &self.work_dir {
            Some(path) => Location::new(path.as_str()),
            None => temp_dir_in(temporary),
        }
    }
}

/// The directory into which applications are installed by default: the
/// directory `Applications` of the user's home.
pub fn default_install_location(home: &str) -> (location: Location)
    ensures
        location@ == at(home@).join("Applications"@),
{
    Location::new(home).join("Applications")
}

/// Accepts the name of an application: any text but the empty one.
pub fn parse_name(input: &str) -> (result: Result<String, String>)
    ensures
        input@.len() == 0 ==> (result matches Err(message) && message@
            == "app name must not be empty"@),
        input@.len() > 0 ==> (result matches Ok(name) && name@ == input@),
{
    if input.is_empty() {
        Err(String::from_str("app name must not be empty"))
    } else {
        Ok(String::from_str(input))
    }
}

/// Accepts the path of the animated image, given what the file system says of
/// it: whether it exists, or why that cannot be told, and whether it is a
/// regular file.
pub fn parse_gif(input: &str, found: Result<bool, String>, is_file: bool) -> (result: Result<
    String,
    String,
>)
    ensures
        match found {
            Ok(true) => if is_file {
                result matches Ok(path) && path@ == input@
            } else {
                result matches Err(message) && message@ == "Specify a GIF, not a directory"@
            },
            Ok(false) => result matches Err(message) && message@ == "No such file"@,
            Err(reason) => result matches Err(message) && message == reason,
        },
{
    match found {
        Ok(true) => if is_file {
            Ok(String::from_str(input))
        } else {
            Err(String::from_str("Specify a GIF, not a directory"))
        },
        Ok(false) => Err(String::from_str("No such file")),
        Err(reason) => Err(reason),
    }
}

} // verus!
