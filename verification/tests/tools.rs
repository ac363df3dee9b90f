use runseal::tool::client::{self, Login};
use runseal::tool::forgejo::watch::{self, Verdict};
use runseal::tool::help::{self, Entry, Section};
use runseal::tool::{run, Tool};
use runseal::wrappers;

fn strings(items: &[&str]) -> Vec<String> {
    items.iter().map(|s| s.to_string()).collect()
}

#[test]
fn tool_names() {
    assert_eq!(run("cloudflare").unwrap(), Tool::Cloudflare);
    assert_eq!(run("forgejo").unwrap(), Tool::Forgejo);
    assert_eq!(run("forgejo-admin").unwrap(), Tool::ForgejoAdmin);
    assert_eq!(run("github").unwrap_err(), "unknown Runseal tool: @github");
}

#[test]
fn rendered_help() {
    let bare = Entry {
        key: "x".to_string(),
        usage: "runseal x".to_string(),
        about: None,
        sections: Vec::new(),
        examples: Vec::new(),
    };
    assert_eq!(help::render(&bare), "usage: runseal x");
    let full = Entry {
        key: "x".to_string(),
        usage: "runseal x".to_string(),
        about: Some("Does x.".to_string()),
        sections: vec![Section {
            title: "Commands".to_string(),
            items: vec![("get".to_string(), "read".to_string())],
        }],
        examples: strings(&["runseal x get"]),
    };
    let pad = " ".repeat(41);
    assert_eq!(
        help::render(&full),
        format!("Usage: runseal x\n\nDoes x.\n\nCommands:\n  get{pad}read\n\nExamples:\n  runseal x get\n")
    );
    let long = Entry {
        key: "y".to_string(),
        usage: "u".to_string(),
        about: None,
        sections: vec![Section {
            title: "Options".to_string(),
            items: vec![("x".repeat(50), "d".to_string())],
        }],
        examples: Vec::new(),
    };
    assert_eq!(help::render(&long), format!("Usage: u\n\nOptions:\n  {}  d\n", "x".repeat(50)));
}

#[test]
fn progressive_help() {
    assert_eq!(help::progressive(&strings(&["-h"])).unwrap(), help::top());
    assert!(help::top().starts_with("Usage: runseal @tool <namespace> <command> [args]\n"));
    let repo = help::entry("forgejo.repo").unwrap();
    assert_eq!(
        help::progressive(&strings(&["forgejo", "repo", "--help"])).unwrap(),
        help::render(&repo)
    );
    assert_eq!(
        help::progressive(&strings(&["forgejo", "repo", "help"])).unwrap(),
        help::render(&repo)
    );
    assert!(help::progressive(&strings(&["nothing", "-h"])).is_none());
    assert!(help::progressive(&strings(&["forgejo", "repo"])).is_none());
    assert!(help::progressive(&[]).is_none());
    assert!(help::entry("github.issue.create").is_some());
    assert!(help::entry("no.such.entry").is_none());
}

#[test]
fn wrapper_candidates_and_directories() {
    assert_eq!(wrappers::candidates("/d", "deploy"), strings(&["/d/deploy.ts", "/d/deploy.sh"]));
    assert_eq!(wrappers::candidates("/d", "x.py"), strings(&["/d/x.py"]));
    assert_eq!(
        wrappers::dirs("/repo/runseal.toml", "/h"),
        strings(&["/repo/.runseal/wrappers", "/h/wrappers"])
    );
    assert_eq!(
        wrappers::paths("/repo/runseal.toml", "/h", "go"),
        strings(&[
            "/repo/.runseal/wrappers/go.ts",
            "/repo/.runseal/wrappers/go.sh",
            "/h/wrappers/go.ts",
            "/h/wrappers/go.sh",
        ])
    );
    assert_eq!(
        wrappers::not_found("go", &strings(&["/a", "/b"])),
        "wrapper not found: :go\nsearched:\n- /a\n- /b"
    );
    assert_eq!(
        wrappers::resolve("go", &strings(&["a/go.sh"]), Some(0), "/cwd").unwrap(),
        "/cwd/a/go.sh"
    );
    assert_eq!(
        wrappers::resolve("go", &strings(&["/a"]), None, "/cwd").unwrap_err(),
        "wrapper not found: :go\nsearched:\n- /a"
    );
}

#[test]
fn wrapper_file_names() {
    assert_eq!(wrappers::file_name_of("/a/b/").unwrap(), "b");
    assert!(wrappers::file_name_of("/a/..").is_none());
    assert!(wrappers::file_name_of("/").is_none());
    assert_eq!(
        wrappers::split_name("/x/a.tar.gz"),
        (Some("gz".to_string()), Some("a.tar".to_string()))
    );
    assert_eq!(wrappers::split_name("/x/.profile"), (None, Some(".profile".to_string())));
    assert!(wrappers::is_deno("/x/a.ts"));
    assert!(!wrappers::is_deno("/x/a.sh"));
    assert_eq!(wrappers::label("/x/deploy.sh").unwrap(), "deploy");
    assert_eq!(wrappers::label("/x/deploy.ts").unwrap(), "deploy");
    assert!(wrappers::label("/x/deploy.py").is_none());
    assert!(wrappers::label("/x/bad name.sh").is_none());
    assert_eq!(wrappers::source("/r/.runseal/wrappers/a.sh", "/r/.runseal/wrappers"), "profile");
    assert_eq!(wrappers::source("/h/wrappers/a.sh", "/r/.runseal/wrappers"), "home");
    assert_eq!(wrappers::source("/r/.runseal/wrappersx/a.sh", "/r/.runseal/wrappers"), "home");
    assert_eq!(wrappers::path_env(&strings(&["/a", "/b"])).unwrap(), "/a:/b");
    assert_eq!(
        wrappers::path_env(&strings(&["/a", "/b:c"])).unwrap_err(),
        "failed to build RUNSEAL_WRAPPER_PATH"
    );
}

fn login(name: &str, active: bool) -> Login {
    Login {
        name: name.to_string(),
        url: format!("https://{name}.example/"),
        token: format!("tok-{name}"),
        active,
    }
}

#[test]
fn tea_logins() {
    let logins = vec![login("a", false), login("b", true), login("c", true)];
    assert_eq!(client::pick(&logins, None).unwrap(), 1);
    assert_eq!(client::pick(&logins, Some("c")).unwrap(), 2);
    assert_eq!(client::pick(&logins, Some("z")).unwrap_err(), "Tea login not found: z");
    assert_eq!(client::pick(&[login("a", false)], None).unwrap(), 0);
    assert_eq!(client::pick(&[], None).unwrap_err(), "Tea config has no logins");
    assert_eq!(
        client::pick(&[login("a", false), login("b", false)], None).unwrap_err(),
        "multiple Tea logins found: pass --login or set FORGEJO_LOGIN"
    );
    assert_eq!(
        client::settle(None, None, Some(login("a", false))).unwrap(),
        ("https://a.example/api/v1".to_string(), "tok-a".to_string())
    );
    assert_eq!(
        client::settle(Some("t".to_string()), None, None).unwrap_err(),
        "missing Forgejo URL: configure Tea or set FORGEJO_URL"
    );
    assert_eq!(
        client::settle(None, Some("https://f".to_string()), None).unwrap_err(),
        "missing Forgejo token: configure Tea or set FORGEJO_TOKEN"
    );
    assert!(client::needs_login(&None, &Some("b".to_string())));
    assert!(!client::needs_login(&Some("t".to_string()), &Some("b".to_string())));
    assert_eq!(client::tea_path(None, Some("/home/u")).unwrap(), "/home/u/.tea/tea.yml");
    assert_eq!(client::tea_path(Some("/c.yml"), None).unwrap(), "/c.yml");
    assert_eq!(client::tea_path(None, None).unwrap_err(), "HOME is not set");
}

#[test]
fn forgejo_client_urls_and_checks() {
    assert_eq!(client::api("https://f/"), "https://f/api/v1");
    assert_eq!(client::api("https://f/api/v1/"), "https://f/api/v1");
    assert_eq!(client::route("repos/o/r"), "/repos/o/r");
    assert_eq!(client::route("/user"), "/user");
    assert!(client::checked("GET", "/x", 204, "").is_ok());
    assert_eq!(
        client::checked("POST", "/x", 409, "{}").unwrap_err(),
        "Forgejo API POST /x -> 409: {}"
    );
    assert!(!client::probed("/x", 404, "").unwrap());
    assert!(client::probed("/x", 200, "").unwrap());
    assert_eq!(client::probed("/x", 500, "boom").unwrap_err(), "Forgejo API GET /x -> 500: boom");
}

#[test]
fn job_watching() {
    assert_eq!(watch::millis(None, "poll-ms", 1000).unwrap(), 1000);
    assert_eq!(watch::millis(Some("250"), "poll-ms", 1000).unwrap(), 250);
    assert_eq!(watch::millis(Some("x"), "poll-ms", 1000).unwrap_err(), "invalid --poll-ms");
    assert!(matches!(watch::verdict("success", false), Verdict::Done));
    assert!(matches!(watch::verdict("skipped", true), Verdict::Done));
    assert!(matches!(watch::verdict("running", false), Verdict::Wait));
    assert!(matches!(watch::verdict("blocked", false), Verdict::Wait));
    match watch::verdict("blocked", true) {
        Verdict::Fail(m) => assert_eq!(m, "Forgejo action job ended with blocked"),
        _ => panic!("a blocked job of a finished run fails"),
    }
    match watch::verdict("cancelled", false) {
        Verdict::Fail(m) => assert_eq!(m, "Forgejo action job ended with cancelled"),
        _ => panic!("a cancelled job fails"),
    }
    match watch::verdict("odd", false) {
        Verdict::Fail(m) => assert_eq!(m, "Forgejo action job has unknown status odd"),
        _ => panic!("an unknown status fails"),
    }
    assert!(watch::shows("running"));
    assert!(!watch::shows("waiting"));
    assert_eq!(watch::fresh("line1\nline2\n", "line1\n"), "line2\n");
    assert_eq!(watch::fresh("new log", "old"), "new log");
}
