use boobar::model::{CustomWidget, WinType, Windows};
use boobar::strmap::StrMap;
use boobar::widget::{effective_height, effective_width, effective_win_type, resolve_widget_ref};

fn customs(entries: Vec<(&str, Option<&str>, Option<&str>)>) -> StrMap<CustomWidget> {
    let mut m = StrMap::new();
    for (name, type_, content) in entries {
        m.insert(
            name.to_string(),
            CustomWidget {
                type_: type_.map(|t| t.to_string()),
                content: content.map(|c| c.to_string()),
            },
        );
    }
    m
}

fn window_with(win_type: Option<&str>, width: Option<&str>, height: Option<&str>) -> Windows {
    Windows {
        width: width.map(|s| s.to_string()),
        height: height.map(|s| s.to_string()),
        win_type: win_type.map(|s| s.to_string()),
        offset_x: None,
        position: None,
        left_contents: None,
        center_contents: None,
        right_contents: None,
    }
}

#[test]
fn resolve_label_shows_content() {
    let m = customs(vec![("clock", Some("label"), Some("12:00"))]);
    assert_eq!(resolve_widget_ref("custom.clock", &m), Some("12:00".to_string()));
}

#[test]
fn resolve_label_without_content_shows_missing() {
    let m = customs(vec![("x", Some("label"), None)]);
    assert_eq!(resolve_widget_ref("custom.x", &m), Some("missing".to_string()));
}

#[test]
fn resolve_unknown_name_is_empty() {
    let m = customs(vec![]);
    assert_eq!(resolve_widget_ref("custom.does_not_exist", &m), None);
}

#[test]
fn resolve_non_custom_reference_is_empty() {
    let m = customs(vec![("clock", Some("label"), Some("12:00"))]);
    assert_eq!(resolve_widget_ref("clock", &m), None);
    assert_eq!(resolve_widget_ref("customXclock", &m), None);
    assert_eq!(resolve_widget_ref("", &m), None);
}

#[test]
fn resolve_unknown_type_is_empty() {
    let m = customs(vec![("b", Some("button"), Some("hi")), ("n", None, Some("hi"))]);
    assert_eq!(resolve_widget_ref("custom.b", &m), None);
    assert_eq!(resolve_widget_ref("custom.n", &m), None);
}

#[test]
fn win_type_defaults_to_float() {
    assert_eq!(effective_win_type(&window_with(None, None, None)), WinType::Float);
}

#[test]
fn win_type_case_and_space_insensitive() {
    assert_eq!(effective_win_type(&window_with(Some(" DOCK "), None, None)), WinType::Dock);
    assert_eq!(effective_win_type(&window_with(Some("Window"), None, None)), WinType::Window);
    assert_eq!(effective_win_type(&window_with(Some("float"), None, None)), WinType::Float);
    assert_eq!(effective_win_type(&window_with(Some("weird"), None, None)), WinType::Other);
}

#[test]
fn dimensions_parse_or_default() {
    assert_eq!(effective_width(&window_with(None, Some("800"), None)), 800);
    assert_eq!(effective_width(&window_with(None, None, None)), 600);
    assert_eq!(effective_width(&window_with(None, Some("12abc"), None)), 600);
    assert_eq!(effective_width(&window_with(None, Some("-5"), None)), -5);
    assert_eq!(effective_height(&window_with(None, None, Some("24"))), 24);
    assert_eq!(effective_height(&window_with(None, None, None)), 60);
    assert_eq!(effective_height(&window_with(None, None, Some("2147483648"))), 60);
}
