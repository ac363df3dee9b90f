use runseal::model::forgejo::{self, Call, Deed, Event, Need, Session};
use runseal::table::Table;

fn strings(items: &[&str]) -> Vec<String> {
    items.iter().map(|s| s.to_string()).collect()
}

fn vars(pairs: &[(&str, &str)]) -> Table<String> {
    let mut t = Table::new();
    for (k, v) in pairs {
        t.insert(k.to_string(), v.to_string());
    }
    t
}

fn sent(n: &Need) -> (String, String, Option<Vec<(String, String)>>) {
    match n {
        Need::Send(q) => (q.method.clone(), q.url.clone(), q.body.clone()),
        _ => panic!("expected a request"),
    }
}

#[test]
fn forgejo_parts() {
    assert_eq!(forgejo::host("https://f.example//"), "https://f.example/api/v1");
    assert_eq!(
        forgejo::pair("o/r").unwrap(),
        ("o".to_string(), "r".to_string())
    );
    assert_eq!(forgejo::pair("o/").unwrap_err(), "repository must be owner/name: o/");
    assert_eq!(forgejo::pair("or").unwrap_err(), "repository must be owner/name: or");
    assert_eq!(forgejo::peel("git@f.example:o/r.git\n").unwrap(), "o/r");
    assert_eq!(forgejo::peel("https://f.example/o/r.git").unwrap(), "o/r");
    assert_eq!(forgejo::peel("ssh://git@f.example:22/o/r").unwrap(), "o/r");
    assert_eq!(forgejo::peel("nope").unwrap_err(), "unable to parse git remote: nope");
    assert_eq!(forgejo::load(" tok \n", "/p").unwrap(), "tok");
    assert_eq!(forgejo::load(" \n", "/p").unwrap_err(), "token file is empty: /p");
    assert_eq!(
        forgejo::page_url("https://f/api/v1/repos/o/r/issues?state=all&limit=50", 12),
        "https://f/api/v1/repos/o/r/issues?state=all&limit=50&page=12"
    );
}

#[test]
fn forgejo_verbs() {
    assert!(matches!(forgejo::deed(&strings(&["user", "show"])).ok().unwrap(), Deed::User));
    match forgejo::deed(&strings(&["issue", "comment", "create", "7"])).ok().unwrap() {
        Deed::Comment(id) => assert_eq!(id, "7"),
        _ => panic!("expected a comment"),
    }
    assert_eq!(
        forgejo::deed(&strings(&["issue", "drop"])).err().unwrap(),
        "@forgejo expected user show, issue show <id>, issue list, issue create, issue edit <id>, issue comment list <id>, or issue comment create <id>"
    );
}

#[test]
fn forgejo_calls_refuse_what_they_lack() {
    let none = vars(&[]);
    assert_eq!(
        Call::parse(&strings(&["user", "show"]), &none).err().unwrap(),
        "@forgejo requires FORGEJO_URL or --url"
    );
    assert_eq!(
        Call::parse(&strings(&["--url", "https://f", "user", "show"]), &none).err().unwrap(),
        "@forgejo requires FORGEJO_TOKEN_FILE, FORGEJO_TOKEN, or --token-file"
    );
    assert_eq!(
        Call::parse(&strings(&["--url"]), &none).err().unwrap(),
        "--url requires a value"
    );
    assert_eq!(
        Call::parse(&strings(&["--limit", "x"]), &none).err().unwrap(),
        "invalid --limit"
    );
    let v = vars(&[("FORGEJO_URL", "https://f"), ("FORGEJO_TOKEN", "t")]);
    let create = Call::parse(&strings(&["issue", "create", "--repo", "o/r"]), &v).ok().unwrap();
    assert_eq!(
        create.request().err().unwrap(),
        "@forgejo issue create requires --title"
    );
    let edit = Call::parse(&strings(&["issue", "edit", "3", "--state", "gone"]), &v).ok().unwrap();
    assert_eq!(
        edit.request().err().unwrap(),
        "@forgejo issue edit --state must be open or closed"
    );
    let bare = Call::parse(&strings(&["issue", "edit", "3"]), &v).ok().unwrap();
    assert_eq!(
        bare.request().err().unwrap(),
        "@forgejo issue edit requires --title, --body, or --state"
    );
}

#[test]
fn requests_of_the_verbs() {
    let v = vars(&[("FORGEJO_URL", "https://f/"), ("FORGEJO_TOKEN", "t")]);
    let c = Call::parse(
        &strings(&["issue", "edit", "o/r#9", "--title", "T", "--state", "closed"]),
        &v,
    )
    .ok()
    .unwrap();
    let q = c.request().ok().unwrap();
    assert_eq!(q.method, "PATCH");
    assert_eq!(q.url, "https://f/api/v1/repos/o/r/issues/9");
    assert_eq!(
        q.body.unwrap(),
        vec![("title".to_string(), "T".to_string()), ("state".to_string(), "closed".to_string())]
    );
    assert_eq!(q.kind, "issue");
    let c = Call::parse(&strings(&["issue", "comment", "create", "4", "--repo", "o/r", "--body", "hi"]), &v)
        .ok()
        .unwrap();
    let q = c.request().ok().unwrap();
    assert_eq!(q.url, "https://f/api/v1/repos/o/r/issues/4/comments");
    assert_eq!(q.body.unwrap(), vec![("body".to_string(), "hi".to_string())]);
    assert!(!c.needs_origin());
    let c = Call::parse(&strings(&["issue", "show", "4"]), &v).ok().unwrap();
    assert!(c.needs_origin());
}

#[test]
fn a_paged_list_with_a_token_at_hand() {
    let v = vars(&[("FORGEJO_URL", "https://f"), ("FORGEJO_TOKEN", "t")]);
    let (s, n) = forgejo::run(&strings(&["issue", "list", "--repo", "o/r", "--limit", "60"]), &v)
        .ok()
        .unwrap();
    let (m, u, _) = sent(&n);
    assert_eq!(m, "GET");
    assert_eq!(u, "https://f/api/v1/repos/o/r/issues?state=all&limit=50&page=1");
    assert_eq!(s.token.as_deref(), Some("t"));
    let (s, n) = s.next(Event::Reply(Some(50))).ok().unwrap();
    assert_eq!(sent(&n).1, "https://f/api/v1/repos/o/r/issues?state=all&limit=50&page=2");
    let (_, n) = s.next(Event::Reply(Some(50))).ok().unwrap();
    match n {
        Need::Emit { kind, json, limit } => {
            assert_eq!(kind, "issues");
            assert!(!json);
            assert_eq!(limit, Some(60));
        }
        _ => panic!("the limit is reached"),
    }
}

#[test]
fn a_short_page_ends_the_list() {
    let v = vars(&[("FORGEJO_URL", "https://f"), ("FORGEJO_TOKEN", "t")]);
    let (s, _) = forgejo::run(&strings(&["issue", "list", "--repo", "o/r", "--json"]), &v)
        .ok()
        .unwrap();
    let (_, n) = s.next(Event::Reply(Some(3))).ok().unwrap();
    assert!(matches!(n, Need::Emit { json: true, .. }));
    let (s, _) = forgejo::run(&strings(&["issue", "list", "--repo", "o/r"]), &v)
        .ok()
        .unwrap();
    assert_eq!(
        s.next(Event::Reply(None)).err().unwrap(),
        "forgejo list did not return an array"
    );
}

#[test]
fn a_token_file_and_the_remote_origin() {
    let v = vars(&[("FORGEJO_URL", "https://f"), ("FORGEJO_TOKEN_FILE", "/t")]);
    let (s, n) = forgejo::run(&strings(&["issue", "show", "5"]), &v).ok().unwrap();
    match &n {
        Need::TokenFile(p) => assert_eq!(p, "/t"),
        _ => panic!("expected the token file"),
    }
    let (s, n) = s.next(Event::Token(Some("tok\n".to_string()))).ok().unwrap();
    assert!(matches!(n, Need::Origin));
    let (s, n) = s
        .next(Event::Origin(Some(Some("git@f:o/r.git\n".to_string()))))
        .ok()
        .unwrap();
    assert_eq!(sent(&n).1, "https://f/api/v1/repos/o/r/issues/5");
    assert_eq!(s.token.as_deref(), Some("tok"));
    let (_, n) = s.next(Event::Reply(None)).ok().unwrap();
    assert!(matches!(n, Need::Emit { .. }));
}

#[test]
fn token_and_origin_failures() {
    let v = vars(&[("FORGEJO_URL", "https://f"), ("FORGEJO_TOKEN_FILE", "/t")]);
    let (s, _) = forgejo::run(&strings(&["user", "show"]), &v).ok().unwrap();
    assert_eq!(s.next(Event::Token(None)).err().unwrap(), "unable to read token file /t");
    let (s, _) = forgejo::run(&strings(&["user", "show"]), &v).ok().unwrap();
    assert_eq!(
        s.next(Event::Token(Some("  ".to_string()))).err().unwrap(),
        "token file is empty: /t"
    );
    let w = vars(&[("FORGEJO_URL", "https://f"), ("FORGEJO_TOKEN", "t")]);
    let (s, _) = forgejo::run(&strings(&["issue", "list"]), &w).ok().unwrap();
    assert_eq!(
        s.next(Event::Origin(Some(None))).err().unwrap(),
        "git remote origin is unavailable; pass --repo owner/name"
    );
    let (s, _) = forgejo::run(&strings(&["issue", "list"]), &w).ok().unwrap();
    assert_eq!(
        s.next(Event::Origin(None)).err().unwrap(),
        "failed to read git remote origin"
    );
}
