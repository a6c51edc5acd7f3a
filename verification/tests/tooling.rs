use live_app_icon::args::{default_install_location, parse_gif, parse_name, Args};
use live_app_icon::geometry::ResizeMethod;
use live_app_icon::install::{install_app, InstallAction};
use live_app_icon::naming::{compose_unique_name, temp_dir_in, temp_file_in, unique_name};
use live_app_icon::paths::Location;
use live_app_icon::project::{
    build_app, build_config, bundle_id, download_repository, find_scheme, get_template_project,
};
use live_app_icon::text::{decimal_string, joined};

fn location(base: &str, parts: &[&str]) -> Location {
    Location { base: base.to_string(), parts: parts.iter().map(|part| part.to_string()).collect() }
}

fn arguments(work_dir: Option<&str>) -> Args {
    Args {
        name: "Clock".to_string(),
        gif: "clock.gif".to_string(),
        command: "date".to_string(),
        resize_method: ResizeMethod::CenterFit,
        install_location: "/Applications".to_string(),
        install_action: InstallAction::Launch,
        verbose: false,
        work_dir: work_dir.map(|path| path.to_string()),
        local_repository: None,
    }
}

#[test]
fn numbers_are_written_in_decimal() {
    assert_eq!(decimal_string(0), "0");
    assert_eq!(decimal_string(7), "7");
    assert_eq!(decimal_string(10), "10");
    assert_eq!(decimal_string(1024), "1024");
    assert_eq!(decimal_string(90807), "90807");
    assert_eq!(decimal_string(u32::MAX), "4294967295");
    assert_eq!(joined("ab", "cd"), "abcd");
}

#[test]
fn empty_name_is_refused() {
    assert_eq!(parse_name(""), Err("app name must not be empty".to_string()));
    assert_eq!(parse_name("Clock"), Ok("Clock".to_string()));
    assert_eq!(parse_name(" "), Ok(" ".to_string()));
}

#[test]
fn gif_must_be_an_existing_file() {
    assert_eq!(parse_gif("a.gif", Ok(true), true), Ok("a.gif".to_string()));
    assert_eq!(
        parse_gif("pictures", Ok(true), false),
        Err("Specify a GIF, not a directory".to_string())
    );
    assert_eq!(parse_gif("a.gif", Ok(false), false), Err("No such file".to_string()));
    assert_eq!(parse_gif("a.gif", Ok(false), true), Err("No such file".to_string()));
    assert_eq!(
        parse_gif("a.gif", Err("permission denied".to_string()), true),
        Err("permission denied".to_string())
    );
}

#[test]
fn applications_are_installed_into_the_home_by_default() {
    assert_eq!(default_install_location("/Users/me"), location("/Users/me", &["Applications"]));
}

#[test]
fn work_dir_is_the_one_asked_for_or_a_fresh_one() {
    assert_eq!(arguments(Some("/w")).work_dir_in("/tmp"), location("/w", &[]));
    let fresh = arguments(None).work_dir_in("/tmp");
    assert_eq!(fresh.base, "/tmp");
    assert_eq!(fresh.parts.len(), 1);
    assert!(fresh.parts[0].starts_with("live_app_icon-"));
}

#[test]
fn unique_name_is_made_of_package_time_and_identifier() {
    assert_eq!(
        compose_unique_name("2024-01-02-03-04-05", "abc"),
        "live_app_icon-2024-01-02-03-04-05-abc"
    );
    assert_eq!(compose_unique_name("", ""), "live_app_icon--");
}

#[test]
fn unique_names_differ() {
    let first = unique_name();
    let second = unique_name();
    assert_ne!(first, second);
    for name in [first, second] {
        let rest = name.strip_prefix("live_app_icon-").unwrap();
        let stamp: Vec<&str> = rest.splitn(7, '-').collect();
        assert_eq!(stamp.len(), 7);
        assert_eq!(stamp[0].len(), 4);
        for piece in &stamp[1..6] {
            assert_eq!(piece.len(), 2);
            assert!(piece.chars().all(|c| c.is_ascii_digit()));
        }
        assert_eq!(stamp[6].len(), 36);
    }
}

#[test]
fn temporary_locations_lie_in_the_directory_given() {
    let directory = temp_dir_in("/var/tmp");
    assert_eq!(directory.base, "/var/tmp");
    assert_eq!(directory.parts.len(), 1);
    assert!(directory.parts[0].starts_with("live_app_icon-"));
    let file = temp_file_in("/var/tmp", "log");
    assert_eq!(file.base, "/var/tmp");
    assert_eq!(file.parts.len(), 1);
    assert!(file.parts[0].starts_with("live_app_icon-"));
    assert!(file.parts[0].ends_with(".log"));
    assert_ne!(temp_dir_in("/var/tmp"), directory);
}

#[test]
fn bundle_identifier_ends_with_the_label() {
    assert_eq!(bundle_id("Clock"), "dev.norelease.liveappicon.Clock");
    assert_eq!(bundle_id(""), "dev.norelease.liveappicon.");
    assert_eq!(find_scheme("/work/app_template/LiveAppIcon.xcodeproj"), "LiveAppIcon");
    assert_eq!(find_scheme(""), "LiveAppIcon");
}

#[test]
fn build_configuration_names_product_and_team() {
    let expected = "
    PRODUCT_BUNDLE_IDENTIFIER = dev.norelease.liveappicon.Clock
    PRODUCT_NAME = Clock

    CODE_SIGN_IDENTITY =
    CODE_SIGN_IDENTITY[sdk=macosx*] = Apple Development

    CODE_SIGN_STYLE = Manual

    DEVELOPMENT_TEAM =
    DEVELOPMENT_TEAM[sdk=macosx*] = TEAM123
    ";
    assert_eq!(build_config("Clock", "dev.norelease.liveappicon.Clock", "TEAM123"), expected);
}

#[test]
fn build_is_planned_in_the_working_directory() {
    let plan = build_app("/work/app_template/LiveAppIcon.xcodeproj", "Clock", "/work", "TEAM123");
    assert_eq!(plan.project, location("/work/app_template/LiveAppIcon.xcodeproj", &[]));
    assert_eq!(plan.scheme, "LiveAppIcon");
    assert_eq!(plan.bundle_id, "dev.norelease.liveappicon.Clock");
    assert_eq!(plan.config, location("/work", &["config.xcconfig"]));
    assert_eq!(plan.config_text, build_config("Clock", "dev.norelease.liveappicon.Clock", "TEAM123"));
    assert_eq!(plan.archive, location("/work", &["archive.xcarchive"]));
    assert_eq!(plan.export_options, location("/work", &["archive.xcarchive", "Info.plist"]));
    assert_eq!(plan.export, location("/work", &[]));
}

#[test]
fn template_comes_from_the_local_repository_where_one_is_given() {
    let source = get_template_project(Some("/src/repo"), "/work");
    assert_eq!(source.clone_into, None);
    assert_eq!(source.template, location("/src/repo", &["app_template"]));
    assert_eq!(source.project, location("/work", &["app_template"]));
}

#[test]
fn template_comes_from_a_fresh_clone_otherwise() {
    let source = get_template_project(None, "/work");
    let target = source.clone_into.unwrap();
    assert_eq!(target.base, "/work");
    assert_eq!(target.parts.len(), 1);
    assert!(target.parts[0].starts_with("live_app_icon-"));
    assert_eq!(source.template.base, "/work");
    assert_eq!(source.template.parts, [target.parts[0].as_str(), "app_template"]);
    assert_eq!(source.project, location("/work", &["app_template"]));
    assert_eq!(download_repository("/work").base, "/work");
}

#[test]
fn installed_application_is_opened_as_the_action_says() {
    let launched = install_app("Clock.app", "/Applications", InstallAction::Launch);
    assert_eq!(launched.installed, location("/Applications", &["Clock.app"]));
    assert_eq!(launched.open, Some(location("/Applications", &["Clock.app"])));
    let shown = install_app("Clock.app", "/Applications", InstallAction::OpenInFinder);
    assert_eq!(shown.installed, location("/Applications", &["Clock.app"]));
    assert_eq!(shown.open, Some(location("/Applications", &[])));
    let quiet = install_app("Clock.app", "/Applications", InstallAction::Nothing);
    assert_eq!(quiet.installed, location("/Applications", &["Clock.app"]));
    assert_eq!(quiet.open, None);
}
