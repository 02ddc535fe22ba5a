use coco_ws::icons::{
    app_search_word, clean_app_name, extract_icon_from_app_bundle, get_icns_from_app_bundle,
    get_icon_names_from_info_plist, get_png_from_resources, get_system_icon, has_text,
    icon_output_path, join_path_exec,
};
use std::cell::RefCell;

#[test]
fn clean_name_strips_app() {
    assert_eq!(clean_app_name("/Applications/Safari.app"), Some("Safari".to_string()));
    assert_eq!(clean_app_name("/Applications/Odd.app.app"), Some("Odd".to_string()));
    assert_eq!(clean_app_name("/Applications/Notes"), Some("Notes".to_string()));
    assert_eq!(clean_app_name("/"), None);
}

#[test]
fn join_paths() {
    assert_eq!(join_path_exec("/a", "b/c"), "/a/b/c");
    assert_eq!(join_path_exec("/a/", "b"), "/a/b");
    assert_eq!(join_path_exec("", "b"), "b");
    assert_eq!(join_path_exec("/a", "/b"), "/b");
}

#[test]
fn conventional_icon_paths() {
    let yes = |_: &String| true;
    let no = |_: &String| false;
    assert_eq!(
        get_icns_from_app_bundle("/A/X.app", &yes),
        Some("/A/X.app/Contents/Resources/AppIcon.icns".to_string())
    );
    assert_eq!(get_icns_from_app_bundle("/A/X.app", &no), None);
    assert_eq!(
        get_png_from_resources("/A/X.app", &yes),
        Some("/A/X.app/Contents/Resources/Icon.png".to_string())
    );
    assert_eq!(
        get_system_icon("/A/X.app", &yes),
        Some("/System/Library/CoreServices/CoreTypes.bundle/Contents/Resources/GenericApplicationIcon.icns".to_string())
    );
    assert_eq!(get_system_icon("/A/X.app", &no), None);
}

#[test]
fn named_icon_gets_icns_extension_when_missing() {
    let tried = RefCell::new(Vec::new());
    let present = |p: &String| p == "/A/X.app/Contents/Resources/Logo.icns";
    let icns = |p: &String| {
        tried.borrow_mut().push(p.clone());
        Some(format!("out:{}", p))
    };
    let png = |_: &String| None;
    let r = extract_icon_from_app_bundle("/A/X.app", Some(vec!["Logo".to_string()]), &present, &icns, &png);
    assert_eq!(r, Some("out:/A/X.app/Contents/Resources/Logo.icns".to_string()));
    assert_eq!(tried.borrow().len(), 1);
}

#[test]
fn falls_back_to_png_then_system() {
    let present = |p: &String| p.ends_with("Icon.png") || p.starts_with("/System");
    let icns = |p: &String| Some(format!("icns:{}", p));
    let png_fail = |_: &String| None;
    let png_ok = |p: &String| Some(format!("png:{}", p));
    let r = extract_icon_from_app_bundle("/A/X.app", None, &present, &icns, &png_ok);
    assert_eq!(r, Some("png:/A/X.app/Contents/Resources/Icon.png".to_string()));
    let r = extract_icon_from_app_bundle("/A/X.app", None, &present, &icns, &png_fail);
    assert!(r.unwrap().starts_with("icns:/System/"));
    let none = |_: &String| false;
    assert_eq!(extract_icon_from_app_bundle("/A/X.app", Some(vec!["a.icns".to_string()]), &none, &icns, &png_ok), None);
}

#[test]
fn plist_icon_names_in_order() {
    assert_eq!(get_icon_names_from_info_plist(None, None, None), None);
    assert_eq!(
        get_icon_names_from_info_plist(Some("a".to_string()), None, Some("c".to_string())),
        Some(vec!["a".to_string(), "c".to_string()])
    );
}

#[test]
fn output_path_of_bundle() {
    assert_eq!(
        icon_output_path("/Applications/Mail.app", "/home/u/.local/share"),
        Some("/home/u/.local/share/coco-appIcons/Mail.app.png".to_string())
    );
}

#[test]
fn search_words() {
    assert_eq!(app_search_word("/Applications/Safari.app", "/Applications"), Some("safari".to_string()));
    assert_eq!(app_search_word("/A/B.app/Contents/C.app", "/A/B.app/Contents/"), None);
    assert_eq!(app_search_word("/Applications/Coco-AI.app", "/Applications"), None);
    assert_eq!(app_search_word("/Applications/.app", "/Applications"), None);
    assert!(has_text("abc", ""));
    assert!(has_text("x.app/Contents/y", ".app/Contents/"));
    assert!(!has_text("ab", "abc"));
}
