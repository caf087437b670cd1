use boobar::model::{CustomWidget, DocValue, Windows};
use boobar::project::project;

fn str_val(x: &str) -> DocValue {
    DocValue::Str(x.to_string())
}

fn table(entries: Vec<(&str, DocValue)>) -> DocValue {
    DocValue::Table(entries.into_iter().map(|(k, v)| (k.to_string(), v)).collect())
}

fn env(entries: Vec<(&str, DocValue)>) -> Vec<(String, DocValue)> {
    entries.into_iter().map(|(k, v)| (k.to_string(), v)).collect()
}

#[test]
fn window_fields_projected_exactly() {
    let e = env(vec![(
        "windows",
        table(vec![(
            "main",
            table(vec![
                ("width", str_val("800")),
                ("height", str_val("24")),
                ("win_type", str_val("dock")),
                ("left_contents", str_val("custom.clock")),
            ]),
        )]),
    )]);
    let cfg = project(&e);
    let w = cfg.windows.get("main").expect("window should be present");
    assert_eq!(
        w,
        Windows {
            width: Some("800".to_string()),
            height: Some("24".to_string()),
            win_type: Some("dock".to_string()),
            offset_x: None,
            position: None,
            left_contents: Some("custom.clock".to_string()),
            center_contents: None,
            right_contents: None,
        }
    );
}

#[test]
fn missing_windows_projects_empty() {
    let e = env(vec![("custom", table(vec![]))]);
    let cfg = project(&e);
    assert!(cfg.windows.is_empty());
    assert_eq!(cfg.windows.entry_count(), 0);
}

#[test]
fn non_table_windows_projects_empty() {
    let e = env(vec![("windows", str_val("oops"))]);
    let cfg = project(&e);
    assert!(cfg.windows.is_empty());
}

#[test]
fn non_string_field_is_absent() {
    let e = env(vec![(
        "windows",
        table(vec![("main", table(vec![("width", table(vec![])), ("height", DocValue::Other)]))]),
    )]);
    let cfg = project(&e);
    let w = cfg.windows.get("main").unwrap();
    assert_eq!(w.width, None);
    assert_eq!(w.height, None);
}

#[test]
fn unknown_keys_are_ignored() {
    let e = env(vec![(
        "windows",
        table(vec![("main", table(vec![("width", str_val("1")), ("frobnicate", str_val("2"))]))]),
    )]);
    let cfg = project(&e);
    let w = cfg.windows.get("main").unwrap();
    assert_eq!(w.width, Some("1".to_string()));
    assert_eq!(w.offset_x, None);
}

#[test]
fn non_table_child_is_skipped() {
    let e = env(vec![("windows", table(vec![("main", str_val("nope"))]))]);
    let cfg = project(&e);
    assert!(cfg.windows.get("main").is_none());
}

#[test]
fn later_binding_wins() {
    let e = env(vec![
        (
            "windows",
            table(vec![
                ("main", table(vec![("width", str_val("1"))])),
                ("main", table(vec![("width", str_val("2"))])),
            ]),
        ),
        ("windows", table(vec![("main", table(vec![("width", str_val("3"))]))])),
    ]);
    let cfg = project(&e);
    let w = cfg.windows.get("main").unwrap();
    assert_eq!(w.width, Some("3".to_string()));
}

#[test]
fn customs_projected() {
    let e = env(vec![(
        "custom",
        table(vec![("clock", table(vec![("type", str_val("label")), ("content", str_val("12:00"))]))]),
    )]);
    let cfg = project(&e);
    let c = cfg.custom.get("clock").unwrap();
    assert_eq!(
        c,
        CustomWidget { type_: Some("label".to_string()), content: Some("12:00".to_string()) }
    );
}

#[test]
fn boo_values_carried_through() {
    let e = env(vec![(
        "boo",
        table(vec![
            ("word", str_val("hi")),
            ("tree", table(vec![("leaf", str_val("x"))])),
            ("rest", DocValue::Other),
        ]),
    )]);
    let cfg = project(&e);
    assert_eq!(cfg.boo.get_ref("word"), Some(&str_val("hi")));
    assert_eq!(cfg.boo.get_ref("tree"), Some(&table(vec![("leaf", str_val("x"))])));
    assert_eq!(cfg.boo.get_ref("rest"), Some(&DocValue::Other));
    assert_eq!(cfg.boo.get_ref("gone"), None);
}

#[test]
fn projection_is_idempotent() {
    let e = env(vec![
        (
            "windows",
            table(vec![("main", table(vec![("width", str_val("800")), ("position", str_val("top"))]))]),
        ),
        ("custom", table(vec![("clock", table(vec![("type", str_val("label"))]))])),
        ("boo", table(vec![("k", str_val("v"))])),
    ]);
    let a = project(&e);
    let b = project(&e);
    assert_eq!(a, b);
}
