use std::sync::Arc;

use boobar::duration::Interval;
use boobar::error::ConfigError;
use boobar::model::DocValue;
use boobar::runtime::Runtime;
use boobar::widget::resolve_widget_ref;

#[test]
fn minimal_valid_doc() {
    let script = r#"
        let windows = #{
            main: #{
                width: "800",
                height: "24",
                win_type: "dock",
                left_contents: "custom.clock",
            },
        };
        let custom = #{
            clock: #{ "type": "label", content: "12:00" },
        };
    "#;
    let (rt, cfg) = Runtime::from_script(script).expect("load should succeed");
    let w = rt.get_bar("main").expect("window should be present");
    assert_eq!(w.width, Some("800".to_string()));
    assert_eq!(w.win_type, Some("dock".to_string()));
    let c = rt.get_custom_widget("clock").expect("widget should be present");
    assert_eq!(c.content, Some("12:00".to_string()));
    assert_eq!(resolve_widget_ref("custom.clock", &cfg.custom), Some("12:00".to_string()));
    assert_eq!(rt.get_all_bars(), cfg.windows);
}

#[test]
fn missing_windows_loads_empty() {
    let script = r#"let custom = #{ clock: #{ "type": "label" } };"#;
    let (rt, cfg) = Runtime::from_script(script).expect("load should succeed");
    assert!(cfg.windows.is_empty());
    assert!(rt.get_all_bars().is_empty());
    assert!(rt.get_bar("main").is_none());
}

#[test]
fn missing_content_renders_missing() {
    let script = r#"let custom = #{ x: #{ "type": "label" } };"#;
    let (rt, cfg) = Runtime::from_script(script).expect("load should succeed");
    let c = rt.get_custom_widget("x").expect("widget should be present");
    assert_eq!(c.content, None);
    assert_eq!(resolve_widget_ref("custom.x", &cfg.custom), Some("missing".to_string()));
}

#[test]
fn unknown_widget_reference_is_soft() {
    let script = r#"
        let windows = #{ main: #{ left_contents: "custom.does_not_exist" } };
    "#;
    let (rt, cfg) = Runtime::from_script(script).expect("load should succeed");
    let w = rt.get_bar("main").expect("window should be present");
    let slot = w.left_contents.expect("reference should be kept verbatim");
    assert_eq!(resolve_widget_ref(&slot, &cfg.custom), None);
}

#[test]
fn invalid_poll_duration_fails_load() {
    let script = r#"poll("|| 1", "1minute");"#;
    match Runtime::from_script(script) {
        Err(ConfigError::ScriptError(msg)) => {
            assert!(msg.contains("Invalid duration format"), "diagnostic was: {}", msg);
        }
        other => panic!("expected a script error, got {:?}", other.map(|_| ())),
    }
}

#[test]
fn poll_registers_workers() {
    let script = r#"
        poll("|| 1 + 1", "10ms");
        poll("|| 2 + 2", "1s");
    "#;
    let (rt, _cfg) = Runtime::from_script(script).expect("load should succeed");
    let entries = rt.poll_entries();
    assert_eq!(entries.len(), 2);
    assert_eq!(entries[0].source, "|| 1 + 1");
    assert_eq!(entries[0].interval, Interval { secs: 0, millis: 10 });
    assert_eq!(entries[1].interval, Interval { secs: 1, millis: 0 });
}

#[test]
fn poll_worker_ticks() {
    let script = r#"poll("|| 1 + 1", "10ms");"#;
    let (rt, _cfg) = Runtime::from_script(script).expect("load should succeed");
    let entry = rt.poll_entries()[0].clone();
    // A worker's loop: evaluate the source once to a callable, then call
    // it tick after tick on a fresh interpreter of its own.
    let engine = rhai::Engine::new();
    let ast = engine.compile(&entry.source).expect("source should compile");
    let action: rhai::FnPtr = engine.eval_ast(&ast).expect("action should evaluate");
    let mut ticks: usize = 0;
    for _ in 0..5 {
        let got: i64 = action.call(&engine, &ast, ()).expect("action should run");
        assert_eq!(got, 2);
        ticks += 1;
    }
    assert_eq!(ticks, 5);
}

#[test]
fn failing_action_does_not_kill_worker() {
    let script = r#"poll("|| throw \"boom\"", "5ms");"#;
    let (rt, _cfg) = Runtime::from_script(script).expect("load should succeed");
    let entry = rt.poll_entries()[0].clone();
    let engine = rhai::Engine::new();
    let ast = engine.compile(&entry.source).expect("source should compile");
    let action: rhai::FnPtr = engine.eval_ast(&ast).expect("action should evaluate");
    let mut errors: usize = 0;
    for _ in 0..3 {
        let tick: Result<i64, _> = action.call(&engine, &ast, ());
        if let Err(e) = tick {
            println!("poll() error: {}", e);
            errors += 1;
        }
    }
    assert_eq!(errors, 3, "every tick reports its error and the loop lives on");
}

#[test]
fn boo_set_and_get_round_trip() {
    let script = r#"let boo = #{ counter: "0" };"#;
    let (rt, _cfg) = Runtime::from_script(script).expect("load should succeed");
    let rt = Arc::new(rt);
    match rt.boo_get("counter") {
        Some(DocValue::Str(s)) => assert_eq!(s, "0"),
        other => panic!("unexpected initial value: {:?}", other),
    }
    for t in 0..4 {
        for i in 0..50 {
            let value = format!("{}:{}", t, i);
            rt.boo_set("counter".to_string(), DocValue::Str(value));
            match rt.boo_get("counter") {
                Some(DocValue::Str(s)) => {
                    // Always a full "<worker>:<step>" pair, never a torn one.
                    let mut parts = s.split(':');
                    let a: usize = parts.next().unwrap().parse().unwrap();
                    let b: usize = parts.next().unwrap().parse().unwrap();
                    assert!(a < 4 && b < 50);
                }
                None => panic!("value vanished"),
                _ => panic!("value changed shape"),
            }
        }
    }
    assert!(rt.boo_get("missing").is_none());
}

#[test]
fn shadowed_global_last_declaration_wins() {
    let script = r#"
        let windows = #{ main: #{ width: "1" } };
        let windows = #{ main: #{ width: "2" } };
    "#;
    let (rt, _cfg) = Runtime::from_script(script).expect("load should succeed");
    let w = rt.get_bar("main").expect("window should be present");
    assert_eq!(w.width, Some("2".to_string()));
}

#[test]
fn win_type_normalized_end_to_end() {
    let script = r#"let windows = #{ main: #{ win_type: " DOCK " } };"#;
    let (rt, _cfg) = Runtime::from_script(script).expect("load should succeed");
    let w = rt.get_bar("main").expect("window should be present");
    assert_eq!(boobar::widget::effective_win_type(&w), boobar::model::WinType::Dock);
}
