use runseal::tool::github::{self, Source, Verb};

fn strings(items: &[&str]) -> Vec<String> {
    items.iter().map(|s| s.to_string()).collect()
}

#[test]
fn github_commands() {
    match github::eval("issue", &strings(&["create", "--title", "T"])).ok().unwrap() {
        Verb::IssueCreate(rest) => assert_eq!(rest, strings(&["--title", "T"])),
        _ => panic!("expected issue create"),
    }
    match github::eval("issue", &strings(&["comment", "create", "--number", "3"])).ok().unwrap() {
        Verb::CommentCreate(rest) => assert_eq!(rest, strings(&["--number", "3"])),
        _ => panic!("expected comment create"),
    }
    match github::eval("issue", &strings(&["body", "update"])).ok().unwrap() {
        Verb::BodyUpdate(rest) => assert!(rest.is_empty()),
        _ => panic!("expected body update"),
    }
    match github::eval("pr", &strings(&["checks", "probe", "12"])).ok().unwrap() {
        Verb::Probe(n) => assert_eq!(n, "12"),
        _ => panic!("expected the probe"),
    }
    assert_eq!(
        github::eval("issue", &[]).err().unwrap(),
        "usage: runseal @tool github issue create|comment|body ..."
    );
    assert_eq!(
        github::eval("issue", &strings(&["comment"])).err().unwrap(),
        "usage: runseal @tool github issue comment create ..."
    );
    assert_eq!(
        github::eval("issue", &strings(&["body", "x"])).err().unwrap(),
        "usage: runseal @tool github issue body update ..."
    );
    assert_eq!(
        github::eval("pr", &strings(&["checks", "probe"])).err().unwrap(),
        "usage: runseal @tool github pr checks probe <number>"
    );
    assert_eq!(
        github::eval("repo", &[]).err().unwrap(),
        "unknown tool command: github repo"
    );
}

#[test]
fn boolean_flags() {
    assert_eq!(github::boolean(&strings(&["--x"]), "--x").unwrap(), Some(true));
    assert_eq!(github::boolean(&strings(&["--x=false"]), "--x").unwrap(), Some(false));
    assert_eq!(github::boolean(&strings(&["--y"]), "--x").unwrap(), None);
    assert_eq!(
        github::boolean(&strings(&["--x=maybe"]), "--x").unwrap_err(),
        "--x expects true or false"
    );
    assert!(github::prefix_enabled(&strings(&["--prefix-enable"])).unwrap());
    assert!(!github::prefix_enabled(&[]).unwrap());
}

#[test]
fn body_sources_and_limits() {
    match github::source(&strings(&["--body", "hello"])).ok().unwrap() {
        Source::Inline(b) => assert_eq!(b, "hello"),
        Source::File(_) => panic!("expected an inline body"),
    }
    match github::source(&strings(&["--body-file", "/tmp/b.md"])).ok().unwrap() {
        Source::File(p) => assert_eq!(p, "/tmp/b.md"),
        Source::Inline(_) => panic!("expected a body file"),
    }
    assert_eq!(
        github::source(&[]).err().unwrap(),
        "pass exactly one of --body or --body-file"
    );
    assert_eq!(
        github::source(&strings(&["--body", "a", "--body-file", "b"])).err().unwrap(),
        "pass exactly one of --body or --body-file"
    );
    assert!(github::has_body(&strings(&["--body=x"])));
    assert!(!github::has_body(&strings(&["--title", "x"])));
    assert!(github::validate(&[], "abc", 3).is_ok());
    assert_eq!(
        github::validate(&[], "abcd", 3).unwrap_err(),
        "body length 4 exceeds --body-max=3"
    );
    assert!(github::validate(&strings(&["--body-max", "0"]), "abcd", 3).is_ok());
    assert_eq!(
        github::validate(&strings(&["--body-max", "x"]), "abcd", 3).unwrap_err(),
        "invalid --body-max: x"
    );
    assert!(github::validate(&[], "ééé", 3).is_ok());
}

#[test]
fn requester_prefix() {
    assert!(github::is_core("perishcode/RUNSEAL"));
    assert!(!github::is_core("someone/else"));
    let body = github::prefixed("me/app", "main", "Hi");
    assert_eq!(body, "Requested-By-Repo: me/app\nRequested-By-Branch: main\n\nHi");
    assert_eq!(github::prefixed("me/app", "main", &body), body);
    assert!(github::prefix_due("PerishCode/runseal", "me/app"));
    assert!(!github::prefix_due("PerishCode/runseal", "perishcode/runseal"));
    assert!(!github::prefix_due("me/other", "me/app"));
}

#[test]
fn remotes_of_github_and_gitee() {
    assert_eq!(github::remote("git@github.com:o/r.git").unwrap(), "o/r");
    assert_eq!(github::remote("https://github.com/o/r").unwrap(), "o/r");
    assert_eq!(github::remote("ssh://git@gitee.com/o/r.git").unwrap(), "o/r");
    assert_eq!(
        github::remote("https://github.com/o").unwrap_err(),
        "cannot parse owner/repo from origin url: https://github.com/o"
    );
    assert_eq!(
        github::remote("https://example.com/o/r").unwrap_err(),
        "cannot parse owner/repo from origin url: https://example.com/o/r"
    );
    assert_eq!(github::github("o/r".to_string()).unwrap(), "o/r");
    assert_eq!(
        github::github("r".to_string()).unwrap_err(),
        "cannot parse GitHub owner/repo from current repository"
    );
    assert_eq!(github::branch(" main\n").unwrap(), "main");
    assert_eq!(
        github::branch("\n").unwrap_err(),
        "git branch --show-current returned an empty branch name"
    );
}

#[test]
fn tokens_and_urls() {
    assert_eq!(github::env_token("T", Some("x".to_string())).unwrap(), "x");
    assert_eq!(
        github::env_token("T", Some(String::new())).unwrap_err(),
        "environment variable is empty: T"
    );
    assert_eq!(
        github::env_token("T", None).unwrap_err(),
        "environment variable not set: T"
    );
    assert_eq!(
        github::required_token(None).unwrap_err(),
        "missing GitHub token: pass --token, --token-file, --token-env, or set GITHUB_TOKEN"
    );
    assert_eq!(github::probed(0, 0), "false");
    assert_eq!(github::probed(1, 0), "true");
    assert_eq!(github::probed(0, 2), "true");
    assert_eq!(github::github_url(None, "user"), "https://api.github.com/user");
    assert_eq!(github::github_url(Some("http://h"), "/x"), "http://h/x");
}
