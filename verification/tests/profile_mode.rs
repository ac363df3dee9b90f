use runseal::injections::{Action, Lifecycle, Patch, Stage};
use runseal::model::config::Config;
use runseal::model::profile::{self, Env, Profile, Symlink};
use runseal::model::symbol::valid;
use runseal::runtime::{self, Args, Command, Plane, Runner, Step};
use runseal::tool::Tool;
use runseal::table::Table;

fn strings(items: &[&str]) -> Vec<String> {
    items.iter().map(|s| s.to_string()).collect()
}

fn empty_profile() -> Profile {
    Profile {
        env: Env { vars: Table::new(), unset: Vec::new() },
        argv: Table::new(),
        symlink: Vec::new(),
    }
}

fn config(command: &[&str], name: Option<&str>, path: Option<&str>) -> Config {
    Config {
        command: strings(command),
        home: "/home/u/.runseal".to_string(),
        name: name.map(str::to_string),
        path: path.map(str::to_string),
        root: "/repo".to_string(),
    }
}

fn link(source: &str, target: &str) -> Symlink {
    Symlink {
        source: source.to_string(),
        target: target.to_string(),
    }
}

#[test]
fn names_of_profiles_and_tools() {
    assert!(valid("release").is_ok());
    assert!(valid("a.b_c-9").is_ok());
    assert!(valid("").is_ok());
    assert_eq!(valid(".").unwrap_err(), "reserved name");
    assert_eq!(valid("..").unwrap_err(), "reserved name");
    assert_eq!(
        valid("bad/name").unwrap_err(),
        "expected only ASCII letters, numbers, '.', '_', and '-'"
    );
    assert_eq!(
        valid("é").unwrap_err(),
        "expected only ASCII letters, numbers, '.', '_', and '-'"
    );
}

#[test]
fn resource_and_local_uris_resolve_under_the_repository() {
    assert_eq!(
        profile::resolve("/repo", "resource://template.yaml").unwrap(),
        "/repo/.runseal/resources/template.yaml"
    );
    assert_eq!(
        profile::resolve("/repo", "local://secrets/kube/config").unwrap(),
        "/repo/.local/secrets/kube/config"
    );
    assert_eq!(
        profile::resolve("/repo", "resource://").unwrap(),
        "/repo/.runseal/resources"
    );
}

#[test]
fn uri_paths_refuse_traversal_and_ambiguous_segments() {
    assert_eq!(
        profile::resolve("/repo", "resource://../etc/passwd").unwrap_err(),
        "profile URI path must not contain '.' or '..'"
    );
    assert_eq!(
        profile::resolve("/repo", "local://a/./b").unwrap_err(),
        "profile URI path must not contain '.' or '..'"
    );
    assert_eq!(
        profile::resolve("/repo", "local://a//b").unwrap_err(),
        "profile URI path segment must not be empty"
    );
    assert_eq!(
        profile::resolve("/repo", "local://a:b").unwrap_err(),
        "profile URI path segment must not contain ':'"
    );
    assert_eq!(
        profile::resolve("/repo", "local://a\\b").unwrap_err(),
        "profile URI path must use '/' separators"
    );
    assert_eq!(
        profile::resolve("/repo", "https://example.com/x").unwrap_err(),
        "expected a resource:// or local:// URI"
    );
}

#[test]
fn uri_path_parts() {
    assert_eq!(profile::parse("").unwrap(), "");
    assert_eq!(profile::parse(".").unwrap(), "");
    assert_eq!(profile::parse("a/b").unwrap(), "a/b");
    assert_eq!(
        profile::parse("a/").unwrap_err(),
        "profile URI path segment must not be empty"
    );
}

#[test]
fn profile_values_and_link_seats() {
    assert_eq!(profile::value("/repo", "plain").unwrap(), "plain");
    assert_eq!(
        profile::value("/repo", "local://x").unwrap(),
        "/repo/.local/x"
    );
    assert_eq!(profile::seat("run/tool.conf", "/repo").unwrap(), "/repo/run/tool.conf");
    assert_eq!(profile::seat("/abs/x", "/repo").unwrap(), "/abs/x");
    assert_eq!(profile::seat("a/../b", "/repo").unwrap(), "/repo/b");
}

#[test]
fn profile_normalization_resolves_every_value() {
    let mut vars = Table::new();
    vars.insert("TEMPLATE".to_string(), "resource://template.yaml".to_string());
    vars.insert("PLAIN".to_string(), "x".to_string());
    let mut argv = Table::new();
    argv.insert("kubectl".to_string(), strings(&["--kubeconfig=local://kube", "local://kube"]));
    let mut p = Profile {
        env: Env { vars, unset: strings(&["AMBIENT_KEY"]) },
        argv,
        symlink: vec![link("resource://tool.conf", "local://run/tool.conf")],
    };
    p.normalize("/repo").unwrap();
    assert_eq!(
        p.env.vars.get("TEMPLATE").unwrap(),
        "/repo/.runseal/resources/template.yaml"
    );
    assert_eq!(p.env.vars.get("PLAIN").unwrap(), "x");
    assert_eq!(
        p.argv.get("kubectl").unwrap(),
        &strings(&["--kubeconfig=local://kube", "/repo/.local/kube"])
    );
    assert_eq!(p.symlink[0].source, "/repo/.runseal/resources/tool.conf");
    assert_eq!(p.symlink[0].target, "/repo/.local/run/tool.conf");

    let mut bad = empty_profile();
    bad.env.vars.insert("K".to_string(), "local://..".to_string());
    assert_eq!(
        bad.normalize("/repo").unwrap_err(),
        "profile URI path must not contain '.' or '..'"
    );
}

#[test]
fn argv_is_inserted_right_after_the_matching_command() {
    let mut p = empty_profile();
    p.argv.insert("kubectl".to_string(), strings(&["--request-timeout=30s"]));
    assert_eq!(
        Args::apply(&strings(&["kubectl", "get", "pods"]), &p).unwrap(),
        strings(&["kubectl", "--request-timeout=30s", "get", "pods"])
    );
    assert_eq!(
        Args::apply(&strings(&["helm", "list"]), &p).unwrap(),
        strings(&["helm", "list"])
    );
    p.argv.insert("empty".to_string(), Vec::new());
    assert_eq!(
        Args::apply(&strings(&["empty"]), &p).unwrap_err(),
        "argv injection for empty must not be empty"
    );
}

#[test]
fn profile_mode_commands() {
    let p = empty_profile();
    match Command::resolve(&strings(&["echo", "hi"]), &p).unwrap() {
        Command::External(argv) => assert_eq!(argv, strings(&["echo", "hi"])),
        _ => panic!("expected an external command"),
    }
    assert_eq!(
        Command::resolve(&[], &p).err().unwrap(),
        "profile mode requires a command or @tool"
    );
    assert_eq!(
        Command::resolve(&strings(&["@"]), &p).err().unwrap(),
        "@tool name must not be empty"
    );
    assert_eq!(
        Command::resolve(&strings(&["@a/b"]), &p).err().unwrap(),
        "invalid @tool name: @a/b"
    );
    match Command::resolve(&strings(&["@forgejo", "user", "show"]), &p).ok().unwrap() {
        Command::Native(t, rest) => {
            assert_eq!(t, Tool::Forgejo);
            assert_eq!(rest, strings(&["user", "show"]));
        }
        _ => panic!("profile mode runs one native @tool"),
    }
    assert_eq!(
        Command::resolve(&strings(&["@nope"]), &p).err().unwrap(),
        "unknown Runseal tool: @nope"
    );
}

#[test]
fn a_separator_after_the_first_word_is_dropped() {
    assert_eq!(
        runtime::normalize(strings(&["ls", "--", "-l"])),
        strings(&["ls", "-l"])
    );
    assert_eq!(runtime::normalize(strings(&["--", "--"])), strings(&["--"]));
    assert_eq!(
        runtime::normalize(strings(&["ls", "-l", "--"])),
        strings(&["ls", "-l", "--"])
    );
    assert_eq!(runtime::normalize(strings(&["--"])), strings(&["--"]));
}

#[test]
fn inspection_lines() {
    let mut p = empty_profile();
    p.env.vars.insert("A".to_string(), "1".to_string());
    p.env.vars.insert("B".to_string(), "2".to_string());
    p.symlink.push(link("/a", "/b"));
    let c = config(&["x"], Some("release"), Some("/repo/runseal.release.toml"));
    assert_eq!(
        runtime::inspect(&c, &p),
        strings(&[
            "RUNSEAL_HOME=/home/u/.runseal",
            "RUNSEAL_PROFILE=release",
            "RUNSEAL_ROOT=/repo",
            "RUNSEAL_PROFILE_PATH=/repo/runseal.release.toml",
            "RUNSEAL_ENV=2",
            "RUNSEAL_ARGV=0",
            "RUNSEAL_SYMLINK=1",
        ])
    );
    let d = config(&["x"], None, None);
    assert_eq!(runtime::inspect(&d, &empty_profile())[1], "RUNSEAL_PROFILE=default");
    assert_eq!(runtime::inspect(&d, &empty_profile()).len(), 6);
}

#[test]
fn resolving_many_uris_stops_at_the_first_refusal() {
    let c = config(&["x"], None, None);
    let (done, fault) = runtime::resolve_all(&c, &strings(&["local://a", "resource://b"]));
    assert_eq!(done, strings(&["/repo/.local/a", "/repo/.runseal/resources/b"]));
    assert!(fault.is_none());
    let (done, fault) = runtime::resolve_all(&c, &strings(&["local://a", "file://b", "local://c"]));
    assert_eq!(done, strings(&["/repo/.local/a"]));
    assert_eq!(fault.unwrap(), "expected a resource:// or local:// URI");
}

#[test]
fn child_exit_codes() {
    assert_eq!(Runner::exit_code(Some(3), None), 3);
    assert_eq!(Runner::exit_code(None, Some(9)), 137);
    assert_eq!(Runner::exit_code(None, None), 1);
    assert!(Runner::check(&[]).is_err());
    assert!(Runner::check(&strings(&["x"])).is_ok());
}

#[test]
fn launch_puts_this_runs_variables_last() {
    let mut p = empty_profile();
    p.env.vars.insert("RUNSEAL_ROOT".to_string(), "/elsewhere".to_string());
    p.env.vars.insert("KUBECONFIG".to_string(), "/k".to_string());
    p.env.unset.push("AMBIENT_KEY".to_string());
    let patch = Patch::build(&p.env).unwrap();
    let c = config(&["kubectl", "get"], None, None);
    let l = Runner::launch(&c, &strings(&["kubectl", "get"]), &patch).unwrap();
    assert_eq!(l.program, "kubectl");
    assert_eq!(l.args, strings(&["get"]));
    let mut env: std::collections::BTreeMap<String, String> = std::collections::BTreeMap::new();
    env.insert("AMBIENT_KEY".to_string(), "old".to_string());
    env.insert("RUNSEAL_PROFILE_PATH".to_string(), "/stale".to_string());
    for s in &l.steps {
        match s {
            Step::Remove(k) => {
                env.remove(k);
            }
            Step::Put(k, v) => {
                env.insert(k.clone(), v.clone());
            }
        }
    }
    assert_eq!(env.get("RUNSEAL_ROOT").unwrap(), "/repo");
    assert_eq!(env.get("RUNSEAL_PROFILE").unwrap(), "default");
    assert_eq!(env.get("RUNSEAL_HOME").unwrap(), "/home/u/.runseal");
    assert_eq!(env.get("KUBECONFIG").unwrap(), "/k");
    assert!(env.get("AMBIENT_KEY").is_none());
    assert!(env.get("RUNSEAL_PROFILE_PATH").is_none());
    assert_eq!(
        Runner::launch(&c, &[], &patch).err().unwrap(),
        "profile mode requires a command"
    );
}

#[test]
fn env_patch_refuses_bad_names() {
    let mut p = empty_profile();
    p.env.vars.insert("GOOD".to_string(), "1".to_string());
    let patch = Patch::build(&p.env).unwrap();
    assert_eq!(patch.set, vec![("GOOD".to_string(), "1".to_string())]);
    p.env.unset.push("".to_string());
    assert_eq!(Patch::build(&p.env).err().unwrap(), "env var key must not be empty");
    let mut q = empty_profile();
    q.env.vars.insert("  ".to_string(), "1".to_string());
    assert!(Patch::build(&q.env).is_err());
    let e = match Lifecycle::with(&q) {
        Err(e) => e,
        Ok(_) => panic!("a bad name must be refused"),
    };
    assert_eq!(e, "env validation failed: env var key must not be empty");
}

fn is_finish_ok(a: &Action) -> bool {
    matches!(a, Action::Finish(Ok(())))
}

#[test]
fn links_are_created_in_order_and_removed_in_reverse() {
    let (l, a) = Lifecycle::start(2);
    assert!(matches!(a, Action::Validate(0)));
    let (l, a) = l.next(Ok(()));
    assert!(matches!(a, Action::Validate(1)));
    let (l, a) = l.next(Ok(()));
    assert!(matches!(a, Action::Register(0)));
    let (l, a) = l.next(Ok(()));
    assert!(matches!(a, Action::Register(1)));
    let (l, a) = l.next(Ok(()));
    assert!(matches!(a, Action::Run));
    assert_eq!(l.registered, 2);
    let (l, a) = l.next(Ok(()));
    assert!(matches!(a, Action::Close(1)));
    let (l, a) = l.next(Ok(()));
    assert!(matches!(a, Action::Close(0)));
    let (l, a) = l.next(Ok(()));
    assert!(is_finish_ok(&a));
    assert_eq!(l.stage, Stage::Finished);
}

#[test]
fn no_links_runs_at_once() {
    let (l, a) = Lifecycle::start(0);
    assert!(matches!(a, Action::Run));
    let (_, a) = l.next(Err("exit".to_string()));
    match a {
        Action::Finish(Err(e)) => assert_eq!(e, "exit"),
        _ => panic!("expected the run's own failure"),
    }
}

#[test]
fn a_failed_registration_removes_the_links_made_before_it() {
    let (l, _) = Lifecycle::start(2);
    let (l, _) = l.next(Ok(()));
    let (l, _) = l.next(Ok(()));
    let (l, _) = l.next(Ok(()));
    let (l, a) = l.next(Err("occupied".to_string()));
    assert!(matches!(a, Action::Close(0)));
    let (_, a) = l.next(Ok(()));
    match a {
        Action::Finish(Err(e)) => assert_eq!(e, "symlink registration failed: occupied"),
        _ => panic!("expected the registration failure"),
    }
}

#[test]
fn failures_of_validation_and_shutdown() {
    let (l, _) = Lifecycle::start(1);
    let (_, a) = l.next(Err("missing source".to_string()));
    match a {
        Action::Finish(Err(e)) => assert_eq!(e, "symlink validation failed: missing source"),
        _ => panic!("expected the validation failure"),
    }
    let (l, _) = Lifecycle::start(1);
    let (l, _) = l.next(Ok(()));
    let (l, _) = l.next(Ok(()));
    let (l, a) = l.next(Err("command failed".to_string()));
    assert!(matches!(a, Action::Close(0)));
    let (_, a) = l.next(Err("busy".to_string()));
    match a {
        Action::Finish(Err(e)) => assert_eq!(
            e,
            "command failed; also failed shutdown: symlink shutdown failed"
        ),
        _ => panic!("expected both failures"),
    }
    let (l, _) = Lifecycle::start(1);
    let (l, _) = l.next(Ok(()));
    let (l, _) = l.next(Ok(()));
    let (l, a) = l.next(Ok(()));
    assert!(matches!(a, Action::Close(0)));
    let (_, a) = l.next(Err("busy".to_string()));
    match a {
        Action::Finish(Err(e)) => assert_eq!(e, "symlink shutdown failed: busy"),
        _ => panic!("expected the shutdown failure"),
    }
}

#[test]
fn registration_and_shutdown_failures_name_their_contexts() {
    let (l, _) = Lifecycle::start(2);
    let (l, _) = l.next(Ok(()));
    let (l, _) = l.next(Ok(()));
    let (l, _) = l.next(Ok(()));
    let (l, a) = l.next(Err("occupied".to_string()));
    assert!(matches!(a, Action::Close(0)));
    let (_, a) = l.next(Err("busy".to_string()));
    match a {
        Action::Finish(Err(e)) => {
            assert_eq!(e, "symlink registration failed; also failed shutdown: symlink shutdown failed")
        }
        _ => panic!("expected both failures"),
    }
}

#[test]
fn a_run_prepares_command_patch_and_links() {
    let mut p = empty_profile();
    p.argv.insert("echo".to_string(), strings(&["-n"]));
    p.symlink.push(link("/a", "/b"));
    let c = config(&["echo", "hi"], None, None);
    let s = match runtime::run(&c, &p) {
        Ok(s) => s,
        Err(e) => panic!("{e}"),
    };
    match &s.command {
        Command::External(argv) => assert_eq!(argv, &strings(&["echo", "-n", "hi"])),
        _ => panic!("expected an external command"),
    }
    assert!(matches!(s.first, Action::Validate(0)));
    assert_eq!(s.life.count, 1);
    let e = match runtime::run(&config(&[], None, None), &p) {
        Err(e) => e,
        Ok(_) => panic!("an empty command must be refused"),
    };
    assert_eq!(e, "profile mode requires a command or @tool");
}

fn process(pairs: &[(&str, &str)]) -> runseal::model::app::Process {
    let mut t = Table::new();
    for (k, v) in pairs {
        t.insert(k.to_string(), v.to_string());
    }
    runseal::model::app::Process::new(t)
}

#[test]
fn profile_discovery_walks_upward_then_home() {
    let env = process(&[("HOME", "/home/u")]);
    let files = strings(&["/repo/runseal.release.toml"]);
    let c = Config::build(Some("release".to_string()), strings(&["x"]), "/repo/sub", &env, &files).unwrap();
    assert_eq!(c.path.as_deref(), Some("/repo/runseal.release.toml"));
    assert_eq!(c.root, "/repo");
    assert_eq!(c.home, "/home/u/.runseal");
    assert_eq!(c.label(), "release");
    let home_file = strings(&["/home/u/.runseal/profiles/release.toml"]);
    let c = Config::build(Some("release".to_string()), strings(&["x"]), "/repo/sub", &env, &home_file).unwrap();
    assert_eq!(c.root, "/home/u/.runseal/profiles");
    let c = Config::build(None, strings(&["x"]), "/repo/sub", &env, &Vec::new()).unwrap();
    assert!(c.path.is_none());
    assert_eq!(c.root, "/repo/sub");
    assert_eq!(c.label(), "default");
    let default_up = strings(&["/runseal.toml", "/repo/runseal.toml"]);
    let c = Config::build(None, strings(&["x"]), "/repo/sub", &env, &default_up).unwrap();
    assert_eq!(c.path.as_deref(), Some("/repo/runseal.toml"));
}

#[test]
fn named_profiles_must_exist_and_be_valid() {
    let env = process(&[("HOME", "/home/u")]);
    assert_eq!(
        Config::build(Some("release".to_string()), strings(&["x"]), "/repo/sub", &env, &Vec::new()).err().unwrap(),
        "named profile not found: :release; expected runseal.release.toml from /repo/sub upward, /home/u/.runseal/profiles/release.toml, or /home/u/.runseal/profiles/release/runseal.toml"
    );
    assert_eq!(
        Config::build(Some("a/b".to_string()), strings(&["x"]), "/repo", &env, &Vec::new()).err().unwrap(),
        "invalid profile name: :a/b"
    );
    let custom = process(&[("HOME", "/home/u"), ("RUNSEAL_HOME", "/opt/rs")]);
    let c = Config::build(None, strings(&["x"]), "/repo", &custom, &Vec::new()).unwrap();
    assert_eq!(c.home, "/opt/rs");
    let bare = process(&[]);
    let c = Config::build(None, strings(&["x"]), "/repo", &bare, &Vec::new()).unwrap();
    assert_eq!(c.home, "/repo/.runseal");
}

#[test]
fn planes_of_the_command_line() {
    match runtime::plane(strings(&[":release", "kubectl", "get"])) {
        Plane::Profile { name, command } => {
            assert_eq!(name.as_deref(), Some("release"));
            assert_eq!(command, strings(&["kubectl", "get"]));
        }
        _ => panic!("a colon enters profile mode"),
    }
    match runtime::plane(strings(&[":", "ls"])) {
        Plane::Profile { name, command } => {
            assert!(name.is_none());
            assert_eq!(command, strings(&["ls"]));
        }
        _ => panic!("a bare colon selects the default profile"),
    }
    match runtime::plane(strings(&["@tool", "github", "issue"])) {
        Plane::Tool(rest) => assert_eq!(rest, strings(&["github", "issue"])),
        _ => panic!("@tool runs a native tool"),
    }
    match runtime::plane(strings(&["profile", "release"])) {
        Plane::Control(all) => assert_eq!(all, strings(&["profile", "release"])),
        _ => panic!("no colon is the control plane"),
    }
    assert!(matches!(runtime::plane(Vec::new()), Plane::Control(v) if v.is_empty()));
}

#[test]
fn native_tools_in_profile_mode() {
    let p = empty_profile();
    match Command::resolve(&strings(&["@forgejo", "issue", "list"]), &p).ok().unwrap() {
        Command::Native(t, rest) => {
            assert_eq!(t, Tool::Forgejo);
            assert_eq!(rest, strings(&["issue", "list"]));
        }
        _ => panic!("expected the native tool"),
    }
    match Command::resolve(&strings(&["ls", "-l"]), &p).ok().unwrap() {
        Command::External(argv) => assert_eq!(argv, strings(&["ls", "-l"])),
        _ => panic!("expected an external command"),
    }
    assert_eq!(
        Command::resolve(&strings(&["@nope"]), &p).err().unwrap(),
        "unknown Runseal tool: @nope"
    );
    assert_eq!(
        Command::resolve(&strings(&["@"]), &p).err().unwrap(),
        "@tool name must not be empty"
    );
    assert_eq!(
        Command::resolve(&[], &p).err().unwrap(),
        "profile mode requires a command or @tool"
    );
}

#[test]
fn symlink_decisions() {
    let mut l = runseal::injections::symlink::Symlink::new(link("/s", "/t"));
    assert_eq!(l.name(), "symlink");
    assert_eq!(l.source(), "/s");
    assert_eq!(l.target(), "/t");
    assert!(l.validate(true).is_ok());
    assert_eq!(l.validate(false).unwrap_err(), "source does not exist: /s");
    assert_eq!(
        runseal::injections::symlink::Symlink::new(link(" ", "/t")).validate(true).unwrap_err(),
        "source must not be empty"
    );
    assert_eq!(
        l.creation(runseal::injections::symlink::Occupant::File).unwrap_err(),
        "refusing to overwrite existing file: /t"
    );
    assert!(l.creation(runseal::injections::symlink::Occupant::Vacant).is_ok());
    assert_eq!(
        l.creation(runseal::injections::symlink::Occupant::Directory).unwrap_err(),
        "refusing to overwrite existing file: /t"
    );
    assert!(!l.removal_due());
    l.register().unwrap();
    assert!(l.removal_due());
    assert!(l.removal(true, "/s").is_ok());
    assert_eq!(l.removal(false, "/s").unwrap_err(), "refusing to remove non-symlink at /t");
    assert_eq!(
        l.removal(true, "/other").unwrap_err(),
        "refusing to remove symlink with unexpected target: /t"
    );
    l.shutdown().unwrap();
    assert!(!l.removal_due());
    assert!(l.export().unwrap().is_empty());
    assert_eq!(
        runseal::injections::symlink::context("create", "/t"),
        "failed to create symlink target /t; lifecycle symlink targets are single-owner and may already be managed by another concurrent runseal process"
    );
}

#[test]
fn uris_land_under_any_plain_root() {
    assert_eq!(profile::resolve("/", "resource://a/b").unwrap(), "/.runseal/resources/a/b");
    assert_eq!(profile::resolve("/repo/", "local://x").unwrap(), "/repo/.local/x");
    assert_eq!(profile::resolve("//repo//sub/", "local://").unwrap(), "/repo/sub/.local");
    assert_eq!(profile::resolve("/repo/./sub", "resource://.").unwrap(), "/repo/sub/.runseal/resources");
}
