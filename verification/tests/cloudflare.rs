use runseal::table::Table;
use runseal::tool::cloudflare::command::{self, Order, Pick};
use runseal::tool::cloudflare::deed::{Control, Deed, Owner};
use runseal::tool::cloudflare::plan::{self, Payload, Step};
use runseal::tool::forgejo::seat::{Body, Field};

fn strings(items: &[&str]) -> Vec<String> {
    items.iter().map(|s| s.to_string()).collect()
}

fn order(command: &str, args: &[&str]) -> Result<Order, String> {
    command::eval(command, &strings(args))
}

#[test]
fn config_commands() {
    match order("config", &["get", "zone_name"]).ok().unwrap() {
        Order::Key(k) => assert_eq!(k, "zone_name"),
        _ => panic!("expected a key"),
    }
    assert!(matches!(order("config", &["json"]).ok().unwrap(), Order::Dump));
    assert_eq!(
        order("config", &["get"]).err().unwrap(),
        "usage: runseal @tool cloudflare config get <key>|json"
    );
    assert_eq!(
        order("dns", &[]).err().unwrap(),
        "unknown tool command: cloudflare dns"
    );
}

#[test]
fn raw_api_requests() {
    match order(
        "api",
        &["request", "POST", "/zones", "--query", "a=1", "--json", "{\"x\":1}"],
    )
    .ok()
    .unwrap()
    {
        Order::Call { method, path, query, body, pick } => {
            assert_eq!(method, "POST");
            assert_eq!(path, "/zones");
            assert_eq!(query, vec![("a".to_string(), "1".to_string())]);
            match body {
                Some(Body::Raw(t)) => assert_eq!(t, "{\"x\":1}"),
                _ => panic!("expected a raw body"),
            }
            assert!(matches!(pick, Pick::Whole));
        }
        _ => panic!("expected a call"),
    }
    assert_eq!(
        order("api", &["request", "GET", "/x", "--json", "{bad"]).err().unwrap(),
        "invalid --json payload"
    );
    assert_eq!(
        order("api", &["request", "GET", "/x", "--query", "novalue"]).err().unwrap(),
        "invalid --query value: novalue; expected key=value"
    );
    assert_eq!(
        order("api", &["request", "GET", "/x", "--query"]).err().unwrap(),
        "--query requires a value"
    );
    assert_eq!(
        order("api", &["request", "GET", "/x", "--other", "1"]).err().unwrap(),
        "unknown Cloudflare option: --other"
    );
    assert_eq!(
        order("api", &["request", "GET"]).err().unwrap(),
        "usage: runseal @tool cloudflare api request <method> <path> [--query k=v]... [--json <json>]"
    );
}

#[test]
fn zone_commands() {
    match order("zone", &["get", "--name", "example.com"]).ok().unwrap() {
        Order::Call { method, path, query, pick, .. } => {
            assert_eq!(method, "GET");
            assert_eq!(path, "/zones");
            assert_eq!(query, vec![("name".to_string(), "example.com".to_string())]);
            match pick {
                Pick::Zone(n) => assert_eq!(n, "example.com"),
                _ => panic!("expected the zone pick"),
            }
        }
        _ => panic!("expected a call"),
    }
    assert_eq!(order("zone", &["get"]).err().unwrap(), "--name is required");
    match order("zone", &["ruleset", "create", "--zone-id", "z", "--phase", "p", "--name", "n"])
        .ok()
        .unwrap()
    {
        Order::Call { method, path, body, .. } => {
            assert_eq!(method, "POST");
            assert_eq!(path, "/zones/z/rulesets");
            match body {
                Some(Body::Object(fields)) => {
                    let keys: Vec<&str> = fields.iter().map(|(k, _)| k.as_str()).collect();
                    assert_eq!(keys, vec!["kind", "name", "phase", "rules"]);
                    assert!(matches!(&fields[0].1, Field::Text(t) if t == "zone"));
                    assert!(matches!(&fields[3].1, Field::Texts(v) if v.is_empty()));
                }
                _ => panic!("expected an object body"),
            }
        }
        _ => panic!("expected a call"),
    }
    match order(
        "zone",
        &["ruleset", "rule", "update", "--zone-id", "z", "--ruleset-id", "r", "--rule-id", "u", "--json", "{}"],
    )
    .ok()
    .unwrap()
    {
        Order::Call { method, path, .. } => {
            assert_eq!(method, "PATCH");
            assert_eq!(path, "/zones/z/rulesets/r/rules/u");
        }
        _ => panic!("expected a call"),
    }
    assert_eq!(
        order("zone", &["ruleset", "rule", "add", "--zone-id", "z", "--ruleset-id", "r", "--json", "nope"])
            .err()
            .unwrap(),
        "invalid rule JSON"
    );
    match order("zone", &["dns-record", "list", "--zone-id", "z", "--name", "www"]).ok().unwrap() {
        Order::Call { path, query, pick, .. } => {
            assert_eq!(path, "/zones/z/dns_records");
            assert_eq!(query, vec![("name".to_string(), "www".to_string())]);
            assert!(matches!(pick, Pick::ResultOrList));
        }
        _ => panic!("expected a call"),
    }
    assert_eq!(
        order("zone", &["dns-record", "create", "--zone-id", "z", "--json", "["]).err().unwrap(),
        "invalid DNS record JSON"
    );
    assert_eq!(
        order("zone", &["dns-record", "drop"]).err().unwrap(),
        "usage: runseal @tool cloudflare zone dns-record list|create|update ..."
    );
}

#[test]
fn account_and_redirect_commands() {
    match order("account", &["r2", "bucket", "list", "--account-id", "a"]).ok().unwrap() {
        Order::Call { path, pick, .. } => {
            assert_eq!(path, "/accounts/a/r2/buckets");
            assert!(matches!(pick, Pick::Buckets));
        }
        _ => panic!("expected a call"),
    }
    let exact = [
        "exact", "--ref", "r1", "--description", "d", "--host", "h.example", "--path", "/p",
        "--target-url", "https://t",
    ];
    match order("redirect-rule", &exact).ok().unwrap() {
        Order::Redirect(rule) => {
            assert_eq!(rule.reference, "r1");
            assert_eq!(
                rule.expression,
                "(http.host eq \"h.example\" and http.request.uri.path eq \"/p\")"
            );
            assert_eq!(rule.url, "https://t");
            assert_eq!(rule.status, 302);
        }
        _ => panic!("expected a redirect"),
    }
    let mut bad = exact.to_vec();
    bad.extend(["--status-code", "70000"]);
    assert_eq!(order("redirect-rule", &bad).err().unwrap(), "invalid redirect status code");
    assert_eq!(
        order("redirect-rule", &[]).err().unwrap(),
        "usage: runseal @tool cloudflare redirect-rule exact ..."
    );
}

#[test]
fn the_secrets_file() {
    let text = "# comment\n\nCLOUDFLARE_ACCOUNT_ID = \"acc\"\nCLOUDFLARE_API_TOKEN='tok'\nCLOUDFLARE_MANAGE_REDIRECT_PREFIX=/go/\n";
    let values = command::parse_env_file(text, "cf.env").unwrap();
    assert_eq!(values.get("CLOUDFLARE_ACCOUNT_ID").unwrap(), "acc");
    assert_eq!(values.get("CLOUDFLARE_API_TOKEN").unwrap(), "tok");
    let config = command::load_config(&values, "cf.env").ok().unwrap();
    assert_eq!(config.zone_name, "perish.uk");
    assert_eq!(config.manage_host, "runseal.perish.uk");
    assert_eq!(config.manage_origin_host, "releases.runseal.perish.uk");
    assert_eq!(config.manage_redirect_prefix, "go");
    assert_eq!(command::value(config, "account_id").unwrap(), "acc");
    assert_eq!(
        command::parse_env_file("JUSTAKEY\n", "cf.env").err().unwrap(),
        "invalid line in cf.env: JUSTAKEY"
    );
    let mut partial = Table::new();
    partial.insert("CLOUDFLARE_ACCOUNT_ID".to_string(), "a".to_string());
    assert_eq!(
        command::load_config(&partial, "cf.env").err().unwrap(),
        "missing required key(s) in cf.env: CLOUDFLARE_API_TOKEN"
    );
    assert_eq!(command::token_file(None), ".local/secrets/cloudflare.env");
    assert_eq!(command::token_file(Some("/s")), "/s/cloudflare.env");
}

#[test]
fn zone_replies_and_urls() {
    assert!(command::zone_pick("e.com", Some(1)).is_ok());
    assert_eq!(
        command::zone_pick("e.com", Some(0)).unwrap_err(),
        "zone not found for name: e.com"
    );
    assert_eq!(
        command::zone_pick("e.com", Some(2)).unwrap_err(),
        "expected one zone for e.com, found 2"
    );
    assert_eq!(
        command::zone_pick("e.com", None).unwrap_err(),
        "Cloudflare zone response missing result array"
    );
    assert_eq!(
        command::api_url(None, "zones"),
        "https://api.cloudflare.com/client/v4/zones"
    );
    assert_eq!(command::route("z", "r", None), "/zones/z/rulesets/r/rules");
}

fn line(args: &[&str]) -> runseal::parse::Line {
    runseal::parse::Line::take(&strings(args)).ok().unwrap()
}

#[test]
fn structured_verbs() {
    let d = Deed::take(&strings(&["token", "account", "roll", "t1"])).ok().unwrap();
    assert!(d.secret());
    assert!(d.rolls());
    let d = Deed::take(&strings(&["token", "user", "list"])).ok().unwrap();
    assert!(!d.secret());
    assert_eq!(
        Deed::take(&strings(&["token", "team", "list"])).err().unwrap(),
        "@cloudflare token owner must be account or user"
    );
    assert_eq!(
        Deed::take(&strings(&["token", "user", "fly"])).err().unwrap(),
        "@cloudflare expected a known token resource verb"
    );
    assert_eq!(
        Deed::take(&strings(&["r2", "bucket", "paint", "b"])).err().unwrap(),
        "@cloudflare expected a known worker or r2 resource verb"
    );
    assert_eq!(
        Deed::take(&strings(&["dns"])).err().unwrap(),
        "@cloudflare expected token, worker, or r2 resource"
    );
    assert_eq!(Owner::Account.other(), "user");
    assert_eq!(Owner::User.other(), "account");
}

#[test]
fn structured_requests() {
    let c = plan::control("/accounts/a", &Control::Normalize { bucket: "b 1".to_string(), domain: "x.example".to_string() });
    assert_eq!(c.method, "PUT");
    assert_eq!(c.route, "/accounts/a/r2/buckets/b%201/domains/custom/x.example");
    assert_eq!(c.kind, "domain");
    assert!(matches!(c.payload, Payload::Given));
    let c = plan::control("/accounts/a", &Control::Create("b".to_string()));
    assert!(matches!(c.payload, Payload::Name(ref n) if n == "b"));
    assert_eq!(plan::scope(Owner::Account, "/accounts/a"), "/accounts/a/tokens");
    assert_eq!(plan::scope(Owner::User, "/accounts/a"), "/user/tokens");
    let l = line(&["--name", "Zone Read", "--direction", "desc"]);
    assert_eq!(plan::filters(&l, "/user/tokens/permission_groups"), "/user/tokens/permission_groups?name=Zone%20Read");
    assert_eq!(plan::listing(&l, "/user/tokens", 2), "/user/tokens?page=2&per_page=50&direction=desc");
    let limited = line(&["--limit", "60"]);
    assert!(plan::done(&limited, None, 2, 50, 60));
    assert!(!plan::done(&limited, None, 1, 50, 50));
    assert!(plan::done(&l, Some(3), 3, 50, 150));
    assert!(plan::done(&l, None, 1, 10, 10));
    assert!(plan::secret_of(None).unwrap().is_none());
    assert_eq!(plan::secret_of(Some("s".to_string())).unwrap(), Some("s".to_string()));
    assert_eq!(
        plan::secret_of(Some(String::new())).unwrap_err(),
        "cloudflare returned an empty token secret"
    );
    let token = match Deed::take(&strings(&["token", "account", "roll", "t/1"])).ok().unwrap() {
        Deed::Token(t) => t,
        _ => panic!("expected a token verb"),
    };
    match plan::token_plan(&l, "/accounts/a", &token) {
        Step::Roll(c, id) => {
            assert_eq!(c.method, "PUT");
            assert_eq!(c.route, "/accounts/a/tokens/t%2F1/value");
            assert_eq!(id, "t/1");
            assert!(matches!(c.payload, Payload::Empty));
        }
        _ => panic!("a roll puts a new value"),
    }
}
