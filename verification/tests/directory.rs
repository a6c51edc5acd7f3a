use std::path::Path;

use live_app_icon::directory::{find_item_by_extension, name_has_extension};

fn names(list: &[&str]) -> Vec<String> {
    list.iter().map(|name| name.to_string()).collect()
}

#[test]
fn first_name_with_the_extension_is_found() {
    let list = names(&["notes.txt", "LiveAppIcon.xcodeproj", "Other.xcodeproj", "LiveAppIcon"]);
    assert_eq!(find_item_by_extension("/work/app_template", &list, "xcodeproj"), Ok(1));
    assert_eq!(find_item_by_extension("/work/app_template", &list, "txt"), Ok(0));
}

#[test]
fn missing_extension_is_reported_with_the_directory() {
    let list = names(&["notes.txt", "app", ".app", "x.application"]);
    assert_eq!(
        find_item_by_extension("/work", &list, "app"),
        Err("*.app not found in /work".to_string())
    );
    assert_eq!(
        find_item_by_extension("/empty", &Vec::new(), "app"),
        Err("*.app not found in /empty".to_string())
    );
}

#[test]
fn extension_is_what_follows_the_last_full_stop() {
    assert!(name_has_extension(b"archive.tar.gz", b"gz"));
    assert!(!name_has_extension(b"archive.tar.gz", b"tar.gz"));
    assert!(!name_has_extension(b"archive.tar.gz", b"tar"));
    assert!(name_has_extension(b"a.", b""));
    assert!(!name_has_extension(b"a", b""));
    assert!(!name_has_extension(b".hidden", b"hidden"));
    assert!(name_has_extension(b".hidden.txt", b"txt"));
    assert!(!name_has_extension(b"..", b""));
    assert!(name_has_extension(b"...", b""));
    assert!(!name_has_extension(b"", b""));
    assert!(!name_has_extension(b"Clock.app", b"App"));
    assert!(!name_has_extension(b"Clock.app", b"ap"));
    assert!(!name_has_extension(b"Clock.app", b"apps"));
}

#[test]
fn extension_agrees_with_the_standard_library() {
    let list = ["a.b", "a.", ".a", "..", "...", "a..b", "a", "", ".a.b", "a.b.c", "é.ü", "x.app"];
    let extensions = ["", "a", "b", "c", "ü", "app", ".b", "b.c"];
    for name in list {
        for extension in extensions {
            let expected = Path::new(name).extension().map(|found| found == extension) == Some(true);
            assert_eq!(
                name_has_extension(name.as_bytes(), extension.as_bytes()),
                expected,
                "{:?} {:?}",
                name,
                extension
            );
        }
    }
}
