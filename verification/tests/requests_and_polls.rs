use runseal::json::{Json, Kind};
use runseal::table::Table;
use runseal::tool::cloudflare::plan;
use runseal::tool::forgejo::command;
use runseal::tool::forgejo::seat::{Body, Field, Seat};
use runseal::tool::github;

fn strings(items: &[&str]) -> Vec<String> {
    items.iter().map(|s| s.to_string()).collect()
}

fn parsed(text: &str) -> Json {
    runseal::reply::read_json(text).unwrap()
}

fn rows(text: &str) -> Vec<Json> {
    match parsed(text).kind {
        Kind::Array(rows) => rows,
        _ => panic!("expected an array"),
    }
}

#[test]
fn github_headers_carry_a_token_only_when_given() {
    let plain = github::github_headers(None);
    let want = vec![
        ("Accept".to_string(), "application/vnd.github+json".to_string()),
        ("X-GitHub-Api-Version".to_string(), "2022-11-28".to_string()),
        ("User-Agent".to_string(), "runseal".to_string()),
    ];
    assert_eq!(plain, want);
    assert_eq!(github::github_headers(Some("")), want);
    let with = github::github_headers(Some("tok"));
    assert_eq!(with.len(), 4);
    assert_eq!(with[3], ("Authorization".to_string(), "Bearer tok".to_string()));
}

#[test]
fn probe_routes_in_order() {
    assert_eq!(github::probe_pull_path("o/r", "12"), "/repos/o/r/pulls/12");
    let (checks, status) = github::probe_commit_paths("o/r", "abc");
    assert_eq!(checks, "/repos/o/r/commits/abc/check-runs");
    assert_eq!(status, "/repos/o/r/commits/abc/status");
}

#[test]
fn guard_polls_decide_wait_done_or_fail() {
    let runs = rows(
        r#"[{"commit_sha":"x","workflow_id":"guard.yml","trigger_event":"push","status":"success"},
            {"commit_sha":"abc","workflow_id":"guard.yml","trigger_event":"pull_request","status":"running"}]"#,
    );
    assert_eq!(command::guard_poll(&runs, "abc", "guard.yml", false).unwrap(), None);
    assert_eq!(
        command::guard_poll(&runs, "abc", "guard.yml", true).unwrap_err(),
        "timed out waiting for Forgejo workflow guard.yml"
    );
    let done = rows(r#"[{"commit_sha":"abc","workflow_id":"guard.yml","trigger_event":"pull_request","status":"success"}]"#);
    assert_eq!(command::guard_poll(&done, "abc", "guard.yml", true).unwrap(), Some(0));
    let failed = rows(r#"[{"commit_sha":"abc","workflow_id":"guard.yml","trigger_event":"pull_request","status":"failure"}]"#);
    assert!(command::guard_poll(&failed, "abc", "guard.yml", false).unwrap_err().starts_with("Forgejo workflow guard.yml failed: "));
    assert_eq!(command::guard_poll(&Vec::new(), "abc", "guard.yml", false).unwrap(), None);
}

#[test]
fn watch_polls_decide_wait_done_or_fail() {
    assert!(command::watch_poll(&parsed(r#"{"status":"success"}"#), "7", true).unwrap());
    assert!(!command::watch_poll(&parsed(r#"{"status":"running"}"#), "7", false).unwrap());
    assert_eq!(
        command::watch_poll(&parsed(r#"{"status":"running"}"#), "7", true).unwrap_err(),
        "timed out waiting for Forgejo workflow run 7"
    );
    assert!(command::watch_poll(&parsed(r#"{"status":"cancelled"}"#), "7", false).is_err());
}

#[test]
fn upsert_and_dispatch_bodies() {
    assert_eq!(command::upsert_method(true), "PUT");
    assert_eq!(command::upsert_method(false), "POST");
    match command::upsert_body("value", "v1".to_string()) {
        Body::Object(f) => {
            assert_eq!(f.len(), 1);
            assert_eq!(f[0].0, "value");
            assert!(matches!(&f[0].1, Field::Text(t) if t == "v1"));
        }
        _ => panic!("expected an object body"),
    }
    let mut inputs = Table::new();
    inputs.insert("b".to_string(), "2".to_string());
    inputs.insert("a".to_string(), "x\"y".to_string());
    match command::dispatch_body("main", &inputs) {
        Body::Object(f) => {
            assert_eq!(f.len(), 3);
            assert!(matches!(&f[0], (k, Field::Text(t)) if k == "ref" && t == "main"));
            assert!(matches!(&f[1], (k, Field::Raw(t)) if k == "inputs" && t == r#"{"a":"x\"y","b":"2"}"#));
            assert!(matches!(&f[2], (k, Field::Flag(true)) if k == "return_run_info"));
        }
        _ => panic!("expected an object body"),
    }
}

#[test]
fn forgejo_pages_are_joined_and_arrays_required() {
    let mut vars = Table::new();
    vars.insert("FORGEJO_URL".to_string(), "https://f/".to_string());
    vars.insert("FORGEJO_TOKEN".to_string(), "t".to_string());
    let seat = Seat::open(&strings(&["--limit", "60", "issue", "list"]), &vars).ok().unwrap();
    let mut gathered: Vec<Json> = Vec::new();
    let full = format!("[{}]", vec!["{}"; 50].join(","));
    assert!(seat.gather(&mut gathered, parsed(&full)).unwrap());
    assert_eq!(gathered.len(), 50);
    assert!(!seat.gather(&mut gathered, parsed(&full)).unwrap());
    assert_eq!(gathered.len(), 100);
    assert_eq!(
        seat.gather(&mut gathered, parsed(r#"{"a":1}"#)).unwrap_err(),
        "forgejo list did not return an array"
    );
    assert_eq!(gathered.len(), 100);
}

#[test]
fn cloudflare_pages_stop_by_total_pages() {
    let line = runseal::parse::Line::take(&strings(&["token", "user", "list"])).ok().unwrap();
    let mut gathered: Vec<Json> = Vec::new();
    let info = parsed(r#"{"total_pages":2}"#);
    assert!(!plan::gather(&line, &mut gathered, parsed("[1,2]"), Some(&info), 1).unwrap());
    assert!(plan::gather(&line, &mut gathered, parsed("[3]"), Some(&info), 2).unwrap());
    assert_eq!(gathered.len(), 3);
    assert!(plan::gather(&line, &mut gathered, parsed("[4]"), None, 3).unwrap());
    assert_eq!(
        plan::gather(&line, &mut gathered, parsed("null"), None, 4).unwrap_err(),
        "cloudflare token list did not return an array"
    );
}

#[test]
fn github_asks_carry_paths_and_bodies() {
    let a = github::issue_ask("o/r", "Title".to_string(), Some("Body \"x\"".to_string()));
    assert_eq!(a.method, "POST");
    assert_eq!(a.path, "/repos/o/r/issues");
    assert_eq!(a.body.text, r#"{"body":"Body \"x\"","title":"Title"}"#);
    let a = github::issue_ask("o/r", "T".to_string(), None);
    assert_eq!(a.body.text, r#"{"title":"T"}"#);
    let c = github::comment_ask("o/r", "5", "hi".to_string());
    assert_eq!((c.method.as_str(), c.path.as_str(), c.body.text.as_str()), ("POST", "/repos/o/r/issues/5/comments", r#"{"body":"hi"}"#));
    let b = github::body_ask("o/r", "5", "new".to_string());
    assert_eq!((b.method.as_str(), b.path.as_str(), b.body.text.as_str()), ("PATCH", "/repos/o/r/issues/5", r#"{"body":"new"}"#));
}

#[test]
fn unwrapped_members_and_job_lists() {
    let v = runseal::json::unwrap_member(parsed(r#"{"content":{"a":1},"x":2}"#), "content");
    assert_eq!(v.text, r#"{"a":1}"#);
    let v = runseal::json::unwrap_member(parsed("[1]"), "content");
    assert_eq!(v.text, "[1]");
    let rows = vec![
        runseal::tool::forgejo::watch::JobRow { index: 0, name: "build".to_string(), status: "success".to_string() },
        runseal::tool::forgejo::watch::JobRow { index: 1, name: "test".to_string(), status: "running".to_string() },
    ];
    assert_eq!(
        runseal::tool::forgejo::watch::job_list(rows).text,
        r#"[{"index":0,"name":"build","status":"success"},{"index":1,"name":"test","status":"running"}]"#
    );
}

#[test]
fn cloudflare_config_and_redirect_json() {
    let c = runseal::tool::cloudflare::command::Config {
        account_id: "acc".to_string(),
        api_token: "secret".to_string(),
        zone_name: "z.example".to_string(),
        manage_host: "m.example".to_string(),
        manage_origin_host: "o.example".to_string(),
        manage_redirect_prefix: "/go".to_string(),
    };
    assert_eq!(
        runseal::tool::cloudflare::command::config_json(c).text,
        r#"{"account_id":"acc","manage_host":"m.example","manage_origin_host":"o.example","manage_redirect_prefix":"/go","zone_name":"z.example"}"#
    );
    let rule = runseal::tool::cloudflare::command::Rule {
        reference: "r1".to_string(),
        description: "d".to_string(),
        expression: "true".to_string(),
        url: "https://x/".to_string(),
        status: 301,
    };
    assert_eq!(
        runseal::tool::cloudflare::command::redirect_rule_json(rule).text,
        r#"{"action":"redirect","action_parameters":{"from_value":{"preserve_query_string":false,"status_code":301,"target_url":{"value":"https://x/"}}},"description":"d","enabled":true,"expression":"true","ref":"r1"}"#
    );
}

#[test]
fn a_link_is_removed_once_and_only_while_it_is_its_own() {
    let spec = runseal::model::profile::Symlink { source: "/s".to_string(), target: "/t".to_string() };
    let mut l = runseal::injections::symlink::Symlink::new(spec);
    assert!(!l.removal_due());
    l.register().unwrap();
    assert!(l.removal_due());
    assert!(l.removal(true, "/s").is_ok());
    assert!(l.removal(true, "/elsewhere").is_err());
    assert!(l.removal(false, "").is_err());
    l.shutdown().unwrap();
    assert!(!l.removal_due());
    l.shutdown().unwrap();
    assert!(!l.removal_due());
}
