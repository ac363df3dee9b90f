use runseal::table::Table;
use runseal::tool::forgejo::admin::{self, Admin, Token};
use runseal::tool::forgejo::command::{self, Order, Repo};
use runseal::tool::forgejo::deed::{deed, kind, Deed};
use runseal::tool::forgejo::seat::{header, Body, Plan, Seat, Field};

fn strings(items: &[&str]) -> Vec<String> {
    items.iter().map(|s| s.to_string()).collect()
}

fn vars() -> Table<String> {
    let mut t = Table::new();
    t.insert("FORGEJO_URL".to_string(), "https://f/".to_string());
    t.insert("FORGEJO_TOKEN".to_string(), "t".to_string());
    t
}

fn plan(args: &[&str]) -> Result<Plan, String> {
    let seat = Seat::open(&strings(args), &vars()).ok().unwrap();
    let d = deed(&seat.line.rest).ok().unwrap();
    seat.plan(&d)
}

fn sent(p: Plan) -> (String, String, Option<Body>) {
    match p {
        Plan::Send(q) => (q.method, q.url, q.body),
        _ => panic!("expected one request"),
    }
}

#[test]
fn structured_calls_open_with_url_and_token() {
    let seat = Seat::open(&strings(&["user", "show"]), &vars()).ok().unwrap();
    assert_eq!(seat.base, "https://f/api/v1");
    let none = Table::new();
    assert_eq!(
        Seat::open(&strings(&["user", "show"]), &none).err().unwrap(),
        "@forgejo requires FORGEJO_URL or --url"
    );
    let bare = Seat::open(&strings(&["get", "https://x/y"]), &none).ok().unwrap();
    assert!(bare.auth.is_none());
    assert_eq!(header("abc"), "token abc");
}

#[test]
fn plans_of_the_verbs() {
    let (m, u, _) = sent(plan(&["user", "show"]).ok().unwrap());
    assert_eq!((m.as_str(), u.as_str()), ("GET", "https://f/api/v1/user"));
    match plan(&["issue", "list", "--repo", "o/r"]).ok().unwrap() {
        Plan::Pages(stem) => assert_eq!(stem, "https://f/api/v1/repos/o/r/issues?state=all&limit=50"),
        _ => panic!("a list is fetched page by page"),
    }
    let (m, u, b) = sent(plan(&["pull", "merge", "4", "--repo", "o/r", "--head", "abc"]).ok().unwrap());
    assert_eq!((m.as_str(), u.as_str()), ("POST", "https://f/api/v1/repos/o/r/pulls/4/merge"));
    match b {
        Some(Body::Object(fields)) => {
            assert_eq!(fields[0].0, "Do");
            assert!(matches!(&fields[0].1, Field::Text(t) if t == "fast-forward-only"));
            assert!(matches!(&fields[1].1, Field::Flag(false)));
            assert!(matches!(&fields[2].1, Field::Text(t) if t == "abc"));
        }
        _ => panic!("expected an object body"),
    }
    let (_, u, _) = sent(plan(&["branch", "show", "feat/x", "--repo", "o/r"]).ok().unwrap());
    assert_eq!(u, "https://f/api/v1/repos/o/r/branches/feat%2Fx");
    match plan(&["secret", "list", "--repo", "o/r"]).ok().unwrap() {
        Plan::Unwrap(q, key) => {
            assert_eq!(q.url, "https://f/api/v1/repos/o/r/actions/secrets");
            assert_eq!(key, "secrets");
        }
        _ => panic!("expected the secrets member"),
    }
    match plan(&["task", "list", "7", "--repo", "o/r"]).ok().unwrap() {
        Plan::Jobs(q) => assert_eq!(q.url, "https://f/o/r/actions/runs/7/jobs/0/attempt/1"),
        _ => panic!("expected the jobs of a run"),
    }
    match plan(&["get", "https://x/y"]).ok().unwrap() {
        Plan::Fetch(url) => assert_eq!(url, "https://x/y"),
        _ => panic!("expected an unsigned fetch"),
    }
}

#[test]
fn plan_refusals() {
    assert_eq!(
        plan(&["protection", "create", "--repo", "o/r", "--body", "{nope"]).err().unwrap(),
        "invalid --body"
    );
    assert!(plan(&["protection", "create", "--repo", "o/r", "--body", "{\"a\":1}"]).is_ok());
    assert_eq!(
        plan(&["workflow", "dispatch", "ci.yml", "--repo", "o/r"]).err().unwrap(),
        "@forgejo workflow dispatch requires --ref"
    );
    assert_eq!(
        plan(&["workflow", "dispatch", "ci.yml", "--repo", "o/r", "--ref", "main", "--inputs", "[1"]).err().unwrap(),
        "invalid --inputs"
    );
    assert_eq!(
        plan(&["pull", "create", "--repo", "o/r", "--title", "T"]).err().unwrap(),
        "@forgejo pull create requires --head"
    );
    assert_eq!(
        plan(&["issue", "show", "3"]).err().unwrap(),
        "git remote origin is unavailable; pass --repo owner/name"
    );
    let seat = Seat::open(&strings(&["issue", "show", "3"]), &vars()).ok().unwrap();
    let d = deed(&seat.line.rest).ok().unwrap();
    assert!(seat.needs_origin(&d));
    assert_eq!(
        deed(&strings(&["nothing"])).err().unwrap(),
        "@forgejo expected a known resource verb"
    );
    let watching = Seat::open(&strings(&["job", "log", "1", "2", "--watch"]), &vars()).ok().unwrap();
    assert_eq!(
        watching.act().err().unwrap(),
        "structured @forgejo calls cannot watch a job log"
    );
}

#[test]
fn reply_kinds() {
    assert_eq!(kind(&deed(&strings(&["issue", "list"])).ok().unwrap()), "issues");
    assert_eq!(kind(&deed(&strings(&["pull", "show", "1"])).ok().unwrap()), "pull");
    assert_eq!(kind(&deed(&strings(&["job", "log", "1", "2"])).ok().unwrap()), "log");
    assert!(matches!(deed(&strings(&["label", "list"])).ok().unwrap(), Deed::Label));
}

#[test]
fn job_watch_requests() {
    let seat = Seat::open(&strings(&["job", "log", "5", "2", "--repo", "o/r", "--attempt", "3"]), &vars()).ok().unwrap();
    let (q, index) = seat.poll("5", "2").ok().unwrap();
    assert_eq!(index, 2);
    assert_eq!(q.method, "POST");
    assert_eq!(q.url, "https://f/o/r/actions/runs/5/jobs/2/attempt/3");
    assert_eq!(seat.poll("5", "x").err().unwrap(), "invalid job index");
    let timing = seat.timing().ok().unwrap();
    assert_eq!((timing.poll, timing.timeout), (1000, 1800000));
    assert!(seat.more(50, 50));
    assert!(!seat.more(50, 49));
}

#[test]
fn tool_forgejo_commands() {
    match command::eval("pr", &strings(&["find", "--repo", "o/r", "--head", "h", "--base", "main"])).ok().unwrap() {
        Order::Find { list, head, base } => {
            assert_eq!(list.path, "/repos/o/r/pulls");
            assert_eq!(
                list.query,
                vec![("state".to_string(), "open".to_string()), ("limit".to_string(), "50".to_string())]
            );
            assert_eq!((head.as_str(), base.as_str()), ("h", "main"));
        }
        _ => panic!("expected a pull request search"),
    }
    match command::eval("pr", &strings(&["guard", "--repo", "o/r", "--number", "9"])).ok().unwrap() {
        Order::Guard { number, workflow, interval, timeout, .. } => {
            assert_eq!((number, workflow.as_str(), interval, timeout), (9, "guard.yml", 5, 1800));
        }
        _ => panic!("expected a guard wait"),
    }
    match command::eval("run", &strings(&["list", "--repo", "o/r", "--status", "success", "--limit", "3"])).ok().unwrap() {
        Order::List { ask, limit } => {
            assert_eq!(limit, 3);
            assert_eq!(
                ask.query,
                vec![("status".to_string(), "success".to_string()), ("limit".to_string(), "3".to_string())]
            );
        }
        _ => panic!("expected a run listing"),
    }
    match command::eval("variable", &strings(&["upsert", "--repo", "o/r", "--name", "V"])).ok().unwrap() {
        Order::Upsert { path, key, early } => {
            assert_eq!((path.as_str(), key.as_str()), ("/repos/o/r/actions/variables/V", "value"));
            assert!(early.is_none());
        }
        _ => panic!("expected an upsert"),
    }
    match command::eval("workflow", &strings(&["dispatch", "--repo", "o/r", "--workflow", "ci.yml", "--ref", "main", "--input", "a=1"]))
        .ok()
        .unwrap()
    {
        Order::Dispatch { path, git, inputs } => {
            assert_eq!(path, "/repos/o/r/actions/workflows/ci.yml/dispatches");
            assert_eq!(git, "main");
            assert_eq!(inputs.get("a").unwrap(), "1");
        }
        _ => panic!("expected a dispatch"),
    }
    assert_eq!(
        command::eval("run", &strings(&["cancel"])).err().unwrap(),
        "Forgejo v15 has no supported workflow cancel API"
    );
    assert_eq!(
        command::eval("run", &strings(&["list", "--repo", "o/r", "--limit", "0"])).err().unwrap(),
        "--limit expects a positive integer"
    );
    assert_eq!(
        command::eval("secret", &strings(&["upsert", "--repo", "o/r", "--name", "a/b", "--value", "x"])).err().unwrap(),
        "invalid Forgejo path atom: a/b"
    );
    assert_eq!(
        command::eval("repo", &strings(&["get", "--repo", "onlyname"])).err().unwrap(),
        "--repo expects owner/name"
    );
    assert_eq!(command::eval("x", &[]).err().unwrap(), "unknown tool command: forgejo x");
    let repo = Repo::parse("o/r").ok().unwrap();
    assert_eq!(repo.path("pulls/1"), "/repos/o/r/pulls/1");
    assert_eq!(repo.path(""), "/repos/o/r");
}

#[test]
fn administration_verbs() {
    match admin::Deed::take(&strings(&["admin", "token", "create", "ops", "ci"]), Some("read:repo,write:issue")).ok().unwrap() {
        admin::Deed::Admin(Admin::Token(Token::Create { account, name, scopes })) => {
            assert_eq!((account.as_str(), name.as_str()), ("ops", "ci"));
            assert_eq!(scopes, strings(&["read:repo", "write:issue"]));
        }
        _ => panic!("expected a token creation"),
    }
    assert_eq!(
        admin::Deed::take(&strings(&["admin", "token", "create", "ops", "ci"]), None).err().unwrap(),
        "@forgejo admin token create requires --scopes"
    );
    assert_eq!(
        admin::Deed::take(&strings(&["admin", "token", "create", "ops", "ci"]), Some("a,,b")).err().unwrap(),
        "@forgejo admin scope must be one simple token"
    );
    assert_eq!(
        admin::Deed::take(&strings(&["admin", "token", "delete", "ops", "ci", "0"]), None).err().unwrap(),
        "@forgejo admin token ID must be positive"
    );
    assert_eq!(
        admin::Deed::take(&strings(&["admin", "token", "list", "o p"]), None).err().unwrap(),
        "@forgejo admin account must be one simple token"
    );
    assert!(admin::validate("read:repo", "scope").is_ok());
}
