use runseal::json::{self, Json, Kind};
use runseal::permissions::expand;
use runseal::reply;
use runseal::tool::cloudflare::secret;
use runseal::tool::Secret;
use runseal::tool::cloudflare::command::{pick_reply, Pick, Picked};
use runseal::tool::forgejo::command::head_sha;
use runseal::tool::forgejo::watch::{job_rows, job_state};

fn json_of(v: &serde_json::Value) -> Json {
    let kind = match v {
        serde_json::Value::Null => Kind::Null,
        serde_json::Value::Bool(b) => Kind::Bool(*b),
        serde_json::Value::Number(n) => Kind::Number(n.as_u64()),
        serde_json::Value::String(s) => Kind::Text(s.clone()),
        serde_json::Value::Array(items) => Kind::Array(items.iter().map(json_of).collect()),
        serde_json::Value::Object(fields) => Kind::Object(
            fields.iter().map(|(k, x)| (k.clone(), json_of(x))).collect(),
        ),
    };
    Json { text: v.to_string(), kind }
}

fn parsed(text: &str) -> Json {
    json_of(&serde_json::from_str(text).unwrap())
}

#[test]
fn forgejo_replies() {
    assert!(matches!(reply::finish_with(204, "  ", None).unwrap().kind, Kind::Null));
    assert_eq!(reply::finish_with(404, "", None).err().unwrap(), "forgejo: request failed");
    assert_eq!(
        reply::finish_with(200, "<html>", None).err().unwrap(),
        "forgejo response is not JSON"
    );
    assert_eq!(
        reply::finish_with(200, "{\"a\":1}", Some(parsed("{\"a\":1}"))).unwrap().text,
        "{\"a\":1}"
    );
    assert_eq!(
        reply::finish_with(403, "{\"message\":\"denied\"}", Some(parsed("{\"message\":\"denied\"}")))
            .err()
            .unwrap(),
        "forgejo: denied"
    );
    assert_eq!(
        reply::finish_with(500, "[1]", Some(parsed("[1]"))).err().unwrap(),
        "forgejo: request failed"
    );
}

#[test]
fn plain_text_replies_become_json_strings() {
    let v = reply::raw_with(200, "hello \"you\"", None).unwrap();
    match &v.kind {
        Kind::Text(t) => assert_eq!(t, "hello \"you\""),
        _ => panic!("expected a string"),
    }
    assert_eq!(v.text, "\"hello \\\"you\\\"\"");
    assert_eq!(reply::raw_with(500, "oops", None).err().unwrap(), "response is not JSON");
    assert_eq!(reply::raw_with(500, "", None).err().unwrap(), "request failed");
    assert_eq!(reply::raw_with(201, "[]", Some(parsed("[]"))).unwrap().text, "[]");
}

#[test]
fn sent_values() {
    assert_eq!(reply::send(200, parsed("{\"x\":true}")).unwrap().text, "{\"x\":true}");
    assert_eq!(
        reply::send(422, parsed("{\"message\":\"bad\"}")).err().unwrap(),
        "bad"
    );
    assert_eq!(reply::send(422, parsed("{}")).err().unwrap(), "request failed");
}

#[test]
fn github_and_cloudflare_replies() {
    assert_eq!(
        reply::api_reply_with("GitHub", "GET", "/user", 401, "Bad credentials", None)
            .err()
            .unwrap(),
        "GitHub API GET /user -> 401: Bad credentials"
    );
    assert_eq!(
        reply::api_reply_with("GitHub", "DELETE", "/x", 204, "", None).unwrap().text,
        "{}"
    );
    assert_eq!(
        reply::api_reply_with("GitHub", "GET", "/x", 200, "nope", None).err().unwrap(),
        "GitHub API returned invalid JSON for /x"
    );
    let failed = "{\"success\":false,\"errors\":[]}";
    assert_eq!(
        reply::api_reply_with("Cloudflare", "POST", "/zones", 200, failed, Some(parsed(failed)))
            .err()
            .unwrap(),
        "Cloudflare API POST /zones failed: {\"errors\":[],\"success\":false}"
    );
    assert_eq!(
        reply::api_reply_with("GitHub", "POST", "/zones", 200, failed, Some(parsed(failed)))
            .unwrap()
            .text,
        "{\"errors\":[],\"success\":false}"
    );
    assert_eq!(
        reply::body_with(" ", None).unwrap().text,
        "null"
    );
    assert_eq!(
        reply::body_with("x", None).err().unwrap(),
        "Forgejo API returned invalid JSON"
    );
}

#[test]
fn http_methods() {
    assert_eq!(reply::method("GET").unwrap(), "GET");
    assert_eq!(reply::method("PURGE").unwrap(), "PURGE");
    assert_eq!(reply::method("").err().unwrap(), "invalid HTTP method: ");
    assert_eq!(reply::method("G ET").err().unwrap(), "invalid HTTP method: G ET");
}

#[test]
fn printed_lines() {
    assert_eq!(json::line(&parsed("{\"login\":\"ana\",\"id\":3}")), "ana");
    assert_eq!(
        json::line(&parsed("{\"number\":7,\"state\":\"open\",\"title\":\"Fix\"}")),
        "7\topen\tFix"
    );
    assert_eq!(json::line(&parsed("{\"full_name\":\"o/r\"}")), "o/r");
    assert_eq!(
        json::line(&parsed("{\"state\":\"success\",\"statuses\":[]}")),
        "success"
    );
    assert_eq!(
        json::line(&parsed("{\"id\":5,\"user\":{\"login\":\"bo\"},\"body\":\"one\\r\\ntwo\"}")),
        "5\tbo\tone"
    );
    assert_eq!(json::line(&parsed("{\"other\":1}")), "{\"other\":1}");
    assert_eq!(json::first_line_of("a\r\nb"), "a");
    assert_eq!(json::first_line_of("only"), "only");
    assert_eq!(json::kept(Some(10), Some(3)), Some(3));
    assert_eq!(json::kept(Some(2), Some(3)), Some(2));
    assert_eq!(json::kept(Some(2), None), Some(2));
    assert_eq!(json::kept(None, Some(3)), None);
}

#[test]
fn members() {
    let v = parsed("{\"a\":\"x\",\"b\":1}");
    assert_eq!(json::text_of(&v, "a"), Some("x"));
    assert_eq!(json::text_of(&v, "b"), None);
    assert_eq!(json::member(&v, "b").unwrap().text, "1");
    assert!(json::member(&v, "c").is_none());
}

#[test]
fn deno_permissions_expand_environment_references() {
    let plain = vec!["--allow-read=.".to_string(), "--allow-net".to_string()];
    assert_eq!(expand(&plain).unwrap(), plain);
    let missing = vec!["--allow-read=$RUNSEAL_SURELY_UNSET_VARIABLE_41".to_string()];
    assert_eq!(
        expand(&missing).err().unwrap(),
        "unable to expand deno permission: --allow-read=$RUNSEAL_SURELY_UNSET_VARIABLE_41"
    );
}

#[test]
fn secrets_digest_and_wipe() {
    let mut s = Secret::new("abc".to_string());
    assert_eq!(
        secret::digest(&s),
        "ba7816bf8f01cfea414140de5dae2223b00361a396177a9cb410ff61f20015ad"
    );
    assert_eq!(secret::contents(&s), "abc\n");
    assert_eq!(s.expose(), "abc");
    assert!(secret::needed(Some(&s)).is_ok());
    assert_eq!(
        secret::needed(None).err().unwrap(),
        "cloudflare did not return a token secret"
    );
    assert_eq!(
        secret::failure(Some("t1"), "/tmp/x"),
        "cloudflare created or rolled token t1, but its secret could not be written to /tmp/x"
    );
    assert_eq!(
        secret::failure(None, "/tmp/x"),
        "cloudflare created or rolled token unknown, but its secret could not be written to /tmp/x"
    );
    s.wipe();
    assert_eq!(s.expose(), "");
}

#[test]
fn actions_job_replies() {
    let v = parsed("{\"state\":{\"run\":{\"done\":true,\"jobs\":[{\"name\":\"build\",\"status\":\"success\"},{\"status\":\"running\"}]}}}");
    let rows = job_rows(&v).ok().unwrap();
    assert_eq!(rows.len(), 2);
    assert_eq!((rows[0].index, rows[0].name.as_str(), rows[0].status.as_str()), (0, "build", "success"));
    assert_eq!((rows[1].index, rows[1].name.as_str(), rows[1].status.as_str()), (1, "", "running"));
    assert_eq!(job_state(&v, 1).unwrap(), ("running".to_string(), true));
    assert_eq!(
        job_state(&v, 2).unwrap_err(),
        "Forgejo action job response has no status"
    );
    let bare = parsed("{\"state\":{\"run\":{\"jobs\":[{\"status\":\"waiting\"}]}}}");
    assert_eq!(job_state(&bare, 0).unwrap(), ("waiting".to_string(), false));
    assert_eq!(
        job_rows(&parsed("{}")).err().unwrap(),
        "Forgejo action run response has no jobs"
    );
}

#[test]
fn cloudflare_reply_picks() {
    let v = parsed("{\"result\":{\"buckets\":[1]},\"success\":true}");
    assert!(matches!(pick_reply(&Pick::ResultOrNull, &v).ok().unwrap(), Picked::Found(x) if x.text == "{\"buckets\":[1]}"));
    assert!(matches!(pick_reply(&Pick::Buckets, &v).ok().unwrap(), Picked::Found(x) if x.text == "[1]"));
    assert!(matches!(pick_reply(&Pick::Whole, &v).ok().unwrap(), Picked::Found(x) if x.text == v.text));
    let empty = parsed("{}");
    assert!(matches!(pick_reply(&Pick::ResultOrNull, &empty).ok().unwrap(), Picked::Null));
    assert!(matches!(pick_reply(&Pick::ResultOrList, &empty).ok().unwrap(), Picked::NoRows));
    assert!(matches!(pick_reply(&Pick::Buckets, &empty).ok().unwrap(), Picked::NoRows));
    let zones = parsed("{\"result\":[{\"id\":\"z\"}]}");
    assert!(matches!(pick_reply(&Pick::Zone("e.com".to_string()), &zones).ok().unwrap(), Picked::Found(x) if x.text == "{\"id\":\"z\"}"));
    let two = parsed("{\"result\":[1,2]}");
    assert_eq!(
        pick_reply(&Pick::Zone("e.com".to_string()), &two).err().unwrap(),
        "expected one zone for e.com, found 2"
    );
    assert_eq!(
        pick_reply(&Pick::Zone("e.com".to_string()), &empty).err().unwrap(),
        "Cloudflare zone response missing result array"
    );
}

#[test]
fn pull_request_heads() {
    assert_eq!(head_sha(&parsed("{\"head\":{\"sha\":\"abc\"}}")).unwrap(), "abc");
    assert_eq!(
        head_sha(&parsed("{\"head\":{}}")).unwrap_err(),
        "Forgejo pull request payload missing head.sha"
    );
}

#[test]
fn reply_bodies_are_read_by_the_library() {
    assert_eq!(reply::finish(200, "{\"a\":1}").unwrap().text, "{\"a\":1}");
    assert_eq!(reply::finish(200, "<html>").err().unwrap(), "forgejo response is not JSON");
    assert_eq!(reply::finish(403, "{\"message\":\"denied\"}").err().unwrap(), "forgejo: denied");
    assert!(matches!(reply::raw(200, "[1,2]").unwrap().kind, Kind::Array(ref rows) if rows.len() == 2));
    assert!(matches!(reply::raw(200, "not json").unwrap().kind, Kind::Text(ref t) if t == "not json"));
    assert_eq!(
        reply::api_reply("GitHub", "GET", "/x", 200, "not json").err().unwrap(),
        "GitHub API returned invalid JSON for /x"
    );
    assert_eq!(
        reply::api_reply("Cloudflare", "POST", "/zones", 200, "{\"success\":false}").err().unwrap(),
        "Cloudflare API POST /zones failed: {\"success\":false}"
    );
    assert_eq!(reply::api_reply("GitHub", "GET", "/x", 200, "{\"b\":2,\"a\":1}").unwrap().text, "{\"a\":1,\"b\":2}");
    assert_eq!(reply::body("{x").err().unwrap(), "Forgejo API returned invalid JSON");
    assert!(reply::read_json("[1, {\"k\": null}]").is_some());
    assert!(reply::read_json("nope").is_none());
}

#[test]
fn expansion_outcomes_decide_the_permissions() {
    let perms = vec!["--allow-read=$HOME".to_string(), "--allow-env=$X".to_string(), "--allow-net".to_string()];
    let all_ok = vec![Ok("--allow-read=/h".to_string()), Ok("--allow-env=x".to_string()), Ok("--allow-net".to_string())];
    assert_eq!(
        runseal::permissions::expand_with(&perms, &all_ok).unwrap(),
        vec!["--allow-read=/h".to_string(), "--allow-env=x".to_string(), "--allow-net".to_string()]
    );
    let failing = vec![Ok("--allow-read=/h".to_string()), Err(()), Err(())];
    assert_eq!(
        runseal::permissions::expand_with(&perms, &failing).err().unwrap(),
        "unable to expand deno permission: --allow-env=$X"
    );
}
