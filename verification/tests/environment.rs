use runseal::injections::env::{
    apply_ops, merge_values, separator_value, split_parts, unique_of, validate_key_value, validate_merge,
    validate_op, validate_separator, EnvOp,
};
use runseal::model::app::{App, Process};
use runseal::model::config::Config;
use runseal::table::Table;

fn strings(items: &[&str]) -> Vec<String> {
    items.iter().map(|s| s.to_string()).collect()
}

fn app(ambient: &[(&str, &str)]) -> App {
    let mut vars = Table::new();
    for (k, v) in ambient {
        vars.insert(k.to_string(), v.to_string());
    }
    let config = Config {
        command: Vec::new(),
        home: "/h".to_string(),
        name: None,
        path: None,
        root: "/r".to_string(),
    };
    App::new(config, Process::new(vars))
}

#[test]
fn list_values_merge() {
    assert_eq!(merge_values("/a:/b", "/b:/c", ":", true), "/a:/b:/c");
    assert_eq!(merge_values("/a:/b", "/b:/c", ":", false), "/a:/b:/b:/c");
    assert_eq!(merge_values("/a::", "", ":", false), "/a");
    assert_eq!(merge_values("", "", ":", true), "");
    assert_eq!(split_parts("a,,b,", ","), strings(&["a", "b"]));
    assert_eq!(split_parts("ab", ""), strings(&["a", "b"]));
    assert_eq!(unique_of(strings(&["a", "b", "a", "c", "b"])), strings(&["a", "b", "c"]));
    assert_eq!(separator_value(&None), ":");
    assert_eq!(separator_value(&Some("os".to_string())), ":");
    assert_eq!(separator_value(&Some(";".to_string())), ";");
}

#[test]
fn operations_apply_in_order() {
    let a = app(&[("PATH", "/usr/bin:/bin"), ("LANG", "C")]);
    let mut env = Table::new();
    let ops = vec![
        EnvOp::Assign { key: "A".to_string(), value: "1".to_string() },
        EnvOp::AssignIfAbsent { key: "LANG".to_string(), value: "en".to_string() },
        EnvOp::AssignIfAbsent { key: "B".to_string(), value: "2".to_string() },
        EnvOp::Prepend { key: "PATH".to_string(), value: "/opt/bin:/bin".to_string(), separator: None, dedup: true },
        EnvOp::Append { key: "A".to_string(), value: "3".to_string(), separator: Some(",".to_string()), dedup: false },
        EnvOp::Unset { key: "B".to_string() },
    ];
    apply_ops(&a, &mut env, &ops).unwrap();
    assert_eq!(env.get("A").unwrap(), "1,3");
    assert!(env.get("LANG").is_none());
    assert!(env.get("B").is_none());
    assert_eq!(env.get("PATH").unwrap(), "/opt/bin:/bin:/usr/bin");
}

#[test]
fn operations_are_checked() {
    assert!(validate_key_value("K", "v").is_ok());
    assert_eq!(validate_key_value(" ", "v").unwrap_err(), "env var key must not be empty");
    assert_eq!(validate_key_value("K", "  ").unwrap_err(), "env var value must not be empty");
    assert_eq!(
        validate_separator(&Some(String::new())).unwrap_err(),
        "separator must not be empty"
    );
    assert!(validate_separator(&None).is_ok());
    assert_eq!(
        validate_merge("K", "v", &Some(String::new())).unwrap_err(),
        "separator must not be empty"
    );
    assert_eq!(
        validate_op(&EnvOp::Unset { key: "".to_string() }).unwrap_err(),
        "env var key must not be empty"
    );
    assert!(validate_op(&EnvOp::Assign { key: "K".to_string(), value: "v".to_string() }).is_ok());
}
