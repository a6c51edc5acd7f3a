//! Where the built application goes, and what is opened once it is there.

use vstd::prelude::*;

use crate::paths::{at, Location};

verus! {

/// What happens once the application is installed.
#[derive(Debug, Clone, Copy, PartialEq, Eq, Structural)]
pub enum InstallAction {
    /// Launch the application.
    Launch,
    /// Open the directory in which it was installed.
    OpenInFinder,
    /// Nothing.
    Nothing,
}

/// An installation: where the application arrives, and what is opened after
/// that, if anything.
#[derive(Debug, Clone, PartialEq, Eq)]
pub struct Installation {
    pub installed: Location,
    pub open: Option<Location>,
}

/// Plans the installation of the application named `app_name` into
/// `location`. The application arrives under its own name inside `location`;
/// launching opens the application there, and opening in the file manager
/// opens `location`.
pub fn install_app(app_name: &str, location: &str, action: InstallAction) -> (plan: Installation)
    ensures
        plan.installed@ == at(location@).join(app_name@),
        match action {
            InstallAction::Nothing => plan.open is None,
            InstallAction::Launch => plan.open matches Some(opened) && opened@ == at(
                location@,
            ).join(app_name@),
            InstallAction::OpenInFinder => plan.open matches Some(opened) && opened@ == at(
                location@,
            ),
        },
{
    let installed = Location::new(location).join(app_name);
    let open = match action {
        InstallAction::Nothing => None,
        InstallAction::Launch => Some(Location::new(location).join(app_name)),
        InstallAction::OpenInFinder => Some(Location::new(location)),
    };
    Installation { installed, open }
}

} // verus!
