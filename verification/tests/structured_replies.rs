use runseal::json::{self, Json, Kind};
use runseal::table::Table;
use runseal::tool::cloudflare::deed::Control;
use runseal::tool::cloudflare::plan::{self, Credential, Payload};
use runseal::tool::github;
use runseal::tool::Reply;

fn json_of(v: &serde_json::Value) -> Json {
    let kind = match v {
        serde_json::Value::Null => Kind::Null,
        serde_json::Value::Bool(b) => Kind::Bool(*b),
        serde_json::Value::Number(n) => Kind::Number(n.as_u64()),
        serde_json::Value::String(s) => Kind::Text(s.clone()),
        serde_json::Value::Array(items) => Kind::Array(items.iter().map(json_of).collect()),
        serde_json::Value::Object(fields) => Kind::Object(
            fields.iter().map(|(k, x)| (k.clone(), json_of(x))).collect(),
        ),
    };
    Json { text: v.to_string(), kind }
}

fn parsed(text: &str) -> Json {
    json_of(&serde_json::from_str(text).unwrap())
}

#[test]
fn probe_reads_head_and_counts() {
    let pull = parsed(r#"{"head":{"sha":"abc123"},"number":7}"#);
    assert_eq!(github::pull_head(&pull).unwrap(), "abc123");
    assert_eq!(
        github::pull_head(&parsed(r#"{"head":{}}"#)).unwrap_err(),
        "GitHub API pull request payload missing head.sha"
    );
    assert_eq!(
        github::pull_head(&parsed(r#"{"head":{"sha":5}}"#)).unwrap_err(),
        "GitHub API pull request payload missing head.sha"
    );
    let checks = parsed(r#"{"total_count":3,"check_runs":[]}"#);
    let statuses = parsed(r#"{"state":"pending","statuses":[{"state":"ok"},{"state":"ok"}]}"#);
    assert_eq!(github::count_at(&checks, "total_count"), 3);
    assert_eq!(github::count_at(&parsed(r#"{"total_count":-1}"#), "total_count"), 0);
    assert_eq!(github::count_at(&parsed(r#"{"total_count":"3"}"#), "total_count"), 0);
    assert_eq!(github::items_at(&statuses, "statuses"), 2);
    assert_eq!(github::checks_counted(&checks, &statuses), (3, 2));
}

#[test]
fn probe_answers_fail_open() {
    assert_eq!(github::probe_answer(Err("unreachable".to_string())), "true");
    assert_eq!(github::probe_answer(Ok((0, 0))), "false");
    assert_eq!(github::probe_answer(Ok((1, 0))), "true");
    assert_eq!(github::probe_answer(Ok((0, 4))), "true");
}

#[test]
fn members_are_taken_and_put_with_serde_text() {
    let value = parsed(r#"{"id":"t1","name":"ci","value":"s3cret"}"#);
    let (rest, secret) = json::take_member(value, "value");
    assert_eq!(secret.as_deref(), Some("s3cret"));
    assert_eq!(rest.text, r#"{"id":"t1","name":"ci"}"#);
    let (same, none) = json::take_member(parsed(r#"{"a":1}"#), "value");
    assert!(none.is_none());
    assert_eq!(same.text, r#"{"a":1}"#);
    let placed = json::put_absent(parsed(r#"{"name":"ci","status":"active"}"#), "id".to_string(), parsed(r#""t9""#));
    assert_eq!(placed.text, r#"{"id":"t9","name":"ci","status":"active"}"#);
    let kept = json::put_absent(parsed(r#"{"id":"t1"}"#), "id".to_string(), parsed(r#""t9""#));
    assert_eq!(kept.text, r#"{"id":"t1"}"#);
    let built = json::object(vec![("a".to_string(), parsed("1")), ("b\"".to_string(), parsed("[true]"))]);
    assert_eq!(built.text, r#"{"a":1,"b\"":[true]}"#);
}

#[test]
fn cloudflare_calls_and_replies() {
    assert_eq!(plan::account(Some("a b"), Some("other")).unwrap(), "/accounts/a%20b");
    assert_eq!(plan::account(None, Some("acc")).unwrap(), "/accounts/acc");
    assert_eq!(
        plan::account(None, None).unwrap_err(),
        "@cloudflare account calls require --account or CLOUDFLARE_ACCOUNT_ID"
    );
    assert_eq!(plan::base(None, None), "https://api.cloudflare.com/client/v4");
    assert_eq!(plan::base(None, Some("http://x")), "http://x");
    assert_eq!(plan::base(Some("http://y"), Some("http://x")), "http://y");
    let call = plan::control("/accounts/a", &Control::Detach { bucket: "b 1".to_string(), domain: "d.example".to_string() });
    assert_eq!(call.method, "DELETE");
    assert_eq!(call.route, "/accounts/a/r2/buckets/b%201/domains/custom/d.example");
    assert!(matches!(call.payload, Payload::Nothing));
    let reply: Reply = plan::answer(&call, parsed(r#"{"domain":"d.example"}"#));
    assert_eq!(reply.kind, "domain");
    assert!(reply.secret().is_none());
    assert_eq!(reply.value.text, r#"{"domain":"d.example"}"#);
}

#[test]
fn cloudflare_token_replies() {
    let r = plan::token_reply("token", parsed(r#"{"id":"t1","value":"abc"}"#)).ok().unwrap();
    assert_eq!(r.kind, "token");
    assert_eq!(r.secret().unwrap().expose(), "abc");
    assert_eq!(r.value.text, r#"{"id":"t1"}"#);
    let r = plan::token_reply("token", parsed(r#"{"id":"t1"}"#)).ok().unwrap();
    assert!(r.secret().is_none());
    assert_eq!(r.value.text, r#"{"id":"t1"}"#);
    assert_eq!(
        plan::token_reply("token", parsed(r#"{"id":"t1","value":""}"#)).err().unwrap(),
        "cloudflare returned an empty token secret"
    );
    let rolled = plan::rolled(parsed(r#"{"value":"new"}"#), "t7");
    assert_eq!(rolled.text, r#"{"id":"t7","value":"new"}"#);
}

#[test]
fn cloudflare_credentials() {
    let mut vars = Table::new();
    assert_eq!(
        plan::credential(None, &vars).err().unwrap(),
        "@cloudflare requires --token-file, CLOUDFLARE_API_TOKEN_FILE, CLOUDFLARE_API_TOKEN, or CLOUDFLARE_API_KEY with CLOUDFLARE_API_EMAIL"
    );
    vars.insert("CLOUDFLARE_API_KEY".to_string(), "k".to_string());
    assert_eq!(
        plan::credential(None, &vars).err().unwrap(),
        "@cloudflare CLOUDFLARE_API_KEY requires CLOUDFLARE_API_EMAIL"
    );
    vars.insert("CLOUDFLARE_API_EMAIL".to_string(), "e@x".to_string());
    assert!(matches!(plan::credential(None, &vars).ok().unwrap(), Credential::Key(k, e) if k == "k" && e == "e@x"));
    vars.insert("CLOUDFLARE_API_TOKEN".to_string(), "tok".to_string());
    assert!(matches!(plan::credential(None, &vars).ok().unwrap(), Credential::Token(t) if t == "tok"));
    assert!(matches!(plan::credential(Some("/f"), &vars).ok().unwrap(), Credential::TokenFile(p) if p == "/f"));
}

#[test]
fn json_envelope_matches_serde() {
    let value = parsed(r#"{"b":[1,2],"a":null}"#);
    assert_eq!(runseal::parse::dump("tokens", value).text, r#"{"tokens":{"a":null,"b":[1,2]},"version":1}"#);
    assert_eq!(runseal::parse::dump("domain", parsed(r#""d""#)).text, r#"{"domain":"d","version":1}"#);
    assert_eq!(runseal::parse::dump("version", parsed("7")).text, r#"{"version":7}"#);
}

#[test]
fn a_watch_prints_a_growing_log_once() {
    let logs = ["", "step 1\n", "step 1\nstep 2\n", "step 1\nstep 2\n", "step 1\nstep 2\ndone\n"];
    let mut shown = String::new();
    let mut printed = String::new();
    for log in logs {
        printed.push_str(&runseal::tool::forgejo::watch::fresh(log, &shown));
        shown = log.to_string();
    }
    assert_eq!(printed, "step 1\nstep 2\ndone\n");
}

#[test]
fn keys_are_escaped_as_serde_does() {
    let built = json::object(vec![("a\n\u{1}\"\\é\t".to_string(), parsed("1"))]);
    let want = serde_json::to_string(&serde_json::Value::String("a\n\u{1}\"\\é\t".to_string())).unwrap();
    assert_eq!(built.text, format!("{{{want}:1}}"));
    assert_eq!(built.text, "{\"a\\n\\u0001\\\"\\\\é\\t\":1}");
}

#[test]
fn http_methods_are_tokens() {
    assert_eq!(runseal::reply::method("PURGE").unwrap(), "PURGE");
    assert_eq!(runseal::reply::method("M-SEARCH").unwrap(), "M-SEARCH");
    assert_eq!(runseal::reply::method("GE T").unwrap_err(), "invalid HTTP method: GE T");
    assert_eq!(runseal::reply::method("").unwrap_err(), "invalid HTTP method: ");
    assert_eq!(runseal::reply::method("GÉT").unwrap_err(), "invalid HTTP method: GÉT");
}

#[test]
fn arrays_are_clipped_with_their_text() {
    let a = json::array(vec![parsed("1"), parsed("{\"a\":2}")]);
    assert_eq!(a.text, "[1,{\"a\":2}]");
    assert_eq!(json::array(Vec::new()).text, "[]");
    let cut = json::clip(parsed("[1,2,3]"), Some(2));
    assert_eq!(cut.text, "[1,2]");
    assert_eq!(json::clip(parsed("[1,2,3]"), None).text, "[1,2,3]");
    assert_eq!(json::clip(parsed("{\"a\":1}"), Some(0)).text, "{\"a\":1}");
    let runs = parsed(r#"{"total_count":3,"workflow_runs":[{"id":1},{"id":2},{"id":3}]}"#);
    assert_eq!(
        json::clip_member(runs, "workflow_runs", 2).text,
        r#"{"total_count":3,"workflow_runs":[{"id":1},{"id":2}]}"#
    );
    let few = parsed(r#"{"workflow_runs":[{"id":1}]}"#);
    assert_eq!(json::clip_member(few, "workflow_runs", 2).text, r#"{"workflow_runs":[{"id":1}]}"#);
}
