//! What the build of the application needs: its identifiers, its build
//! configuration, and the places of the files that the build tool reads and
//! writes.

use vstd::prelude::*;
use vstd::string::StringExecFns;

use crate::naming::{is_unique_name, temp_dir_in};
use crate::paths::{at, Location};
use crate::text::joined;

verus! {

/// The extension of a project of the build tool.
pub const XCODEPROJ: &'static str = "xcodeproj";

/// The extension of a built application.
pub const APP: &'static str = "app";

/// The extension of an archive of the build tool.
pub const XCARCHIVE: &'static str = "xcarchive";

/// The extension of a property list.
pub const PLIST: &'static str = "plist";

/// The extension of a build configuration.
pub const XCCONFIG: &'static str = "xcconfig";

/// The directory of the application template inside the repository.
pub const TEMPLATE_DIRECTORY: &'static str = "app_template";

/// The build scheme of every project made from the template.
pub open spec fn scheme() -> Seq<char> {
    "LiveAppIcon"@
}

/// The bundle identifier of the application with the given label.
pub open spec fn bundle_id_of(label: Seq<char>) -> Seq<char> {
    "dev.norelease.liveappicon."@ + label
}

/// The text of the build configuration.
pub open spec fn config_text(app_name: Seq<char>, bundle_id: Seq<char>, team_id: Seq<char>) -> Seq<
    char,
> {
    "\n    PRODUCT_BUNDLE_IDENTIFIER = "@ + bundle_id + "\n    PRODUCT_NAME = "@ + app_name
        + "\n\n    CODE_SIGN_IDENTITY =\n    CODE_SIGN_IDENTITY[sdk=macosx*] = Apple Development\n\n    CODE_SIGN_STYLE = Manual\n\n    DEVELOPMENT_TEAM =\n    DEVELOPMENT_TEAM[sdk=macosx*] = "@
        + team_id + "\n    "@
}

/// The name of the file `stem` with `extension`.
pub open spec fn file_name(stem: Seq<char>, extension: Seq<char>) -> Seq<char> {
    stem + "."@ + extension
}

/// The build scheme of the project: the same for every project made from the
/// template.
pub fn find_scheme(project: &str) -> (name: String)
    ensures
        name@ == scheme(),
{
    String::from_str("LiveAppIcon")
}

/// The bundle identifier of the application with the given label.
pub fn bundle_id(label: &str) -> (identifier: String)
    ensures
        identifier@ == bundle_id_of(label@),
{
    joined("dev.norelease.liveappicon.", label)
}

/// The text of the build configuration: the bundle identifier and the name of
/// the product, manual signing with a development identity, and the team.
pub fn build_config(app_name: &str, bundle_id: &str, team_id: &str) -> (text: String)
    ensures
        text@ == config_text(app_name@, bundle_id@, team_id@),
{
    let mut text = String::from_str("\n    PRODUCT_BUNDLE_IDENTIFIER = ");
    text.append(bundle_id);
    text.append("\n    PRODUCT_NAME = ");
    text.append(app_name);
    text.append(
        "\n\n    CODE_SIGN_IDENTITY =\n    CODE_SIGN_IDENTITY[sdk=macosx*] = Apple Development\n\n    CODE_SIGN_STYLE = Manual\n\n    DEVELOPMENT_TEAM =\n    DEVELOPMENT_TEAM[sdk=macosx*] = ",
    );
    text.append(team_id);
    text.append("\n    ");
    text
}

/// The name of the file `stem` with `extension`.
fn named(stem: &str, extension: &str) -> (name: String)
    ensures
        name@ == file_name(stem@, extension@),
{
    let mut name = String::from_str(stem);
    name.append(".");
    name.append(extension);
    name
}

/// What one build works with.
#[derive(Debug, Clone, PartialEq, Eq)]
pub struct BuildPlan {
    /// The project that is built.
    pub project: Location,
    /// The scheme that is built.
    pub scheme: String,
    /// The bundle identifier of the application.
    pub bundle_id: String,
    /// Where the build configuration is written.
    pub config: Location,
    /// The text of the build configuration.
    pub config_text: String,
    /// Where the build tool puts the archive.
    pub archive: Location,
    /// The export options, which the build tool reads from inside the archive.
    pub export_options: Location,
    /// The directory into which the application is exported.
    pub export: Location,
}

/// Plans the build of the application `app_name` from `project` in the
/// working directory `dest`, signed for the team `team_id`: the configuration
/// and the archive lie in `dest`, the export options inside the archive, and
/// the application is exported to `dest`.
pub fn build_app(project: &str, app_name: &str, dest: &str, team_id: &str) -> (plan: BuildPlan)
    ensures
        plan.project@ == at(project@),
        plan.scheme@ == scheme(),
        plan.bundle_id@ == bundle_id_of(app_name@),
        plan.config@ == at(dest@).join(file_name("config"@, XCCONFIG@)),
        plan.config_text@ == config_text(app_name@, bundle_id_of(app_name@), team_id@),
        plan.archive@ == at(dest@).join(file_name("archive"@, XCARCHIVE@)),
        plan.export_options@ == plan.archive@.join(file_name("Info"@, PLIST@)),
        plan.export@ == at(dest@),
{
    let identifier = bundle_id(app_name);
    let config_text = build_config(app_name, identifier.as_str(), team_id);
    let archive_name = named("archive", XCARCHIVE);
    let archive = Location::new(dest).join(archive_name.as_str());
    let export_options = archive.clone_location().join(named("Info", PLIST).as_str());
    BuildPlan {
        project: Location::new(project),
        scheme: find_scheme(project),
        bundle_id: identifier,
        config: Location::new(dest).join(named("config", XCCONFIG).as_str()),
        config_text,
        archive,
        export_options,
        export: Location::new(dest),
    }
}

/// Where the application template comes from and where it goes.
#[derive(Debug, Clone, PartialEq, Eq)]
pub struct TemplateSource {
    /// Where the repository is cloned to, where no local copy is used.
    pub clone_into: Option<Location>,
    /// The template inside the repository.
    pub template: Location,
    /// The project: the copy of the template in the working directory.
    pub project: Location,
}

/// Plans how the application template reaches the working directory `dest`:
/// from the local repository where one is given, and else from a clone of the
/// remote one in a fresh temporary directory inside `dest`. The template is
/// the directory `app_template` of the repository, and it is copied under
/// that name into `dest`.
pub fn get_template_project(local_repository: Option<&str>, dest: &str) -> (source: TemplateSource)
    ensures
        match local_repository {
            Some(path) => {
                &&& source.clone_into is None
                &&& source.template@ == at(path@).join(TEMPLATE_DIRECTORY@)
            },
            None => source.clone_into matches Some(target) && {
                &&& target@.base == dest@
                &&& target@.parts.len() == 1
                &&& is_unique_name(target@.parts[0])
                &&& source.template@ == target@.join(TEMPLATE_DIRECTORY@)
            },
        },
        source.project@ == at(dest@).join(TEMPLATE_DIRECTORY@),
{
    let project = Location::new(dest).join(TEMPLATE_DIRECTORY);
    match local_repository {
        Some(path) => TemplateSource {
            clone_into: None,
            template: Location::new(path).join(TEMPLATE_DIRECTORY),
            project,
        },
        None => {
            let target = download_repository(dest);
            let template = target.clone_location().join(TEMPLATE_DIRECTORY);
            TemplateSource { clone_into: Some(target), template, project }
        },
    }
}

/// Where the remote repository is cloned to: a fresh temporary directory
/// inside `dest`.
pub fn download_repository(dest: &str) -> (target: Location)
    ensures
        target@.base == dest@,
        target@.parts.len() == 1,
        is_unique_name(target@.parts[0]),
{
    temp_dir_in(dest)
}

} // verus!
