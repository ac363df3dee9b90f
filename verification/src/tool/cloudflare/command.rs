//! The `@tool cloudflare` commands: their options, the API request each one
//! makes, how its reply is read, and the configuration file they share.
use vstd::prelude::*;

use crate::model::path::{join, joined};
use crate::table::Table;
use crate::text::{
    rest_from, bools_from,
    decimal, number, owned, parse_u64, same, split, split_by, split_once, split_once_at, strip_prefix,
    strip_prefix_of, trim, trim_all, trim_matches, trimmed, views,
};
use crate::json::{member, Json, Kind};
use crate::reply::json_parses;
use crate::tool::forgejo::seat::{parses, Body, BodyModel, Field, FieldModel, fields};

verus! {

/// The value of option `name` from index `i` on: the argument after an
/// exact `name` (none when it is last), or the rest of a `name=value`
/// argument, whichever comes first.
pub open spec fn option_from(a: Seq<Seq<char>>, name: Seq<char>, i: int) -> Option<Seq<char>>
    decreases a.len() - i,
{
    if i < 0 || i >= a.len() {
        None
    } else if a[i] == name {
        if i + 1 < a.len() {
            Some(a[i + 1])
        } else {
            None
        }
    } else {
        match strip_prefix(a[i], name + "="@) {
            Some(v) => Some(v),
            None => option_from(a, name, i + 1),
        }
    }
}

/// The value of option `name`.
pub open spec fn option_of(a: Seq<Seq<char>>, name: Seq<char>) -> Option<Seq<char>> {
    option_from(a, name, 0)
}

/// The value of a required option.
pub open spec fn required_of(a: Seq<Seq<char>>, name: Seq<char>) -> Result<Seq<char>, Seq<char>> {
    match option_of(a, name) {
        Some(v) => Ok(v),
        None => Err(name + " is required"@),
    }
}

/// The value of option `name`.
pub fn optional_option(args: &[String], name: &str) -> (r: Option<String>)
    ensures
        match option_of(views(args@), name@) {
            Some(v) => r matches Some(s) && s@ == v,
            None => r is None,
        },
{
    let ghost a = views(args@);
    let mut prefix = owned(name);
    prefix.append("=");
    let mut index: usize = 0;
    while index < args.len()
        invariant
            a == views(args@),
            prefix@ == name@ + "="@,
            index <= args.len(),
            option_of(a, name@) == option_from(a, name@, index as int),
        decreases args.len() - index,
    {
        assert(a[index as int] == args@[index as int]@);
        if same(args[index].as_str(), name) {
            if index + 1 < args.len() {
                assert(a[index + 1] == args@[index + 1]@);
                return Some(args[index + 1].clone());
            }
            return None;
        }
        if let Some(v) = strip_prefix_of(args[index].as_str(), prefix.as_str()) {
            return Some(v);
        }
        index += 1;
    }
    None
}

/// The value of a required option.
pub fn required_option(args: &[String], name: &str) -> (r: Result<String, String>)
    ensures
        match required_of(views(args@), name@) {
            Ok(v) => r matches Ok(s) && s@ == v,
            Err(e) => r matches Err(m) && m@ == e,
        },
{
    match optional_option(args, name) {
        Some(v) => Ok(v),
        None => {
            let mut e = owned(name);
            e.append(" is required");
            Err(e)
        },
    }
}

/// How the reply of a request becomes the printed value.
pub enum Pick {
    /// The whole reply.
    Whole,
    /// The reply's `result`, or `null`.
    ResultOrNull,
    /// The reply's `result`, or `[]`.
    ResultOrList,
    /// The reply's `result.buckets`, or `[]`.
    Buckets,
    /// The one zone in the reply's `result` array: see [`zone_pick`].
    Zone(String),
}

/// How a reply is read, in text.
pub enum PickModel {
    Whole,
    ResultOrNull,
    ResultOrList,
    Buckets,
    Zone(Seq<char>),
}

impl Pick {
    /// The reading in text.
    pub open spec fn model(&self) -> PickModel {
        match self {
            Pick::Whole => PickModel::Whole,
            Pick::ResultOrNull => PickModel::ResultOrNull,
            Pick::ResultOrList => PickModel::ResultOrList,
            Pick::Buckets => PickModel::Buckets,
            Pick::Zone(n) => PickModel::Zone(n@),
        }
    }
}

/// An exact-match redirect rule of a zone ruleset.
pub struct Rule {
    pub reference: String,
    pub description: String,
    /// The rule's filter expression.
    pub expression: String,
    pub url: String,
    pub status: u16,
}

/// What a command does.
pub enum Order {
    /// Print one value of the configuration.
    Key(String),
    /// Print the configuration as JSON.
    Dump,
    /// One request of the Cloudflare API.
    Call { method: String, path: String, query: Vec<(String, String)>, body: Option<Body>, pick: Pick },
    /// Print a redirect rule as JSON.
    Redirect(Rule),
}

/// What a command does, in text.
pub enum OrderModel {
    Key(Seq<char>),
    Dump,
    Call {
        method: Seq<char>,
        path: Seq<char>,
        query: Seq<(Seq<char>, Seq<char>)>,
        body: Option<BodyModel>,
        pick: PickModel,
    },
    Redirect { reference: Seq<char>, description: Seq<char>, expression: Seq<char>, url: Seq<char>, status: nat },
}

/// The text of query pairs.
pub open spec fn query_view(v: Seq<(String, String)>) -> Seq<(Seq<char>, Seq<char>)> {
    v.map_values(|p: (String, String)| (p.0@, p.1@))
}

impl Order {
    /// The command in text.
    pub open spec fn model(&self) -> OrderModel {
        match self {
            Order::Key(k) => OrderModel::Key(k@),
            Order::Dump => OrderModel::Dump,
            Order::Call { method, path, query, body, pick } => OrderModel::Call {
                method: method@,
                path: path@,
                query: query_view(query@),
                body: match body {
                    Some(b) => Some(b.model()),
                    None => None,
                },
                pick: pick.model(),
            },
            Order::Redirect(r) => OrderModel::Redirect {
                reference: r.reference@,
                description: r.description@,
                expression: r.expression@,
                url: r.url@,
                status: r.status as nat,
            },
        }
    }
}

/// A request of the API, in text.
pub open spec fn call(method: Seq<char>, path: Seq<char>, query: Seq<(Seq<char>, Seq<char>)>, body: Option<BodyModel>, pick: PickModel) -> OrderModel {
    OrderModel::Call { method, path, query, body, pick }
}

/// The options of `api request`, read from index `i` on, two arguments at a
/// time; `valid[i]` tells whether argument `i` parses as JSON.
pub open spec fn options_from(o: Seq<Seq<char>>, valid: Seq<bool>, i: int, query: Seq<(Seq<char>, Seq<char>)>, body: Option<Seq<char>>)
    -> Result<(Seq<(Seq<char>, Seq<char>)>, Option<Seq<char>>), Seq<char>>
    decreases o.len() - i,
{
    if i < 0 || i >= o.len() {
        Ok((query, body))
    } else if o[i] == "--query"@ {
        if i + 1 >= o.len() {
            Err("--query requires a value"@)
        } else {
            match split_once(o[i + 1], "="@) {
                Some((k, v)) => options_from(o, valid, i + 2, query.push((k, v)), body),
                None => Err("invalid --query value: "@ + o[i + 1] + "; expected key=value"@),
            }
        }
    } else if o[i] == "--json"@ {
        if i + 1 >= o.len() {
            Err("--json requires a value"@)
        } else if !valid[i + 1] {
            Err("invalid --json payload"@)
        } else {
            options_from(o, valid, i + 2, query, Some(o[i + 1]))
        }
    } else {
        Err("unknown Cloudflare option: "@ + o[i])
    }
}

/// Reads the options of `api request`.
fn parse_options(o: &[String], valid: &[bool]) -> (r: Result<(Vec<(String, String)>, Option<String>), String>)
    requires
        valid@.len() == o@.len(),
    ensures
        match options_from(views(o@), valid@, 0, seq![], None) {
            Ok((q, b)) => r matches Ok((x, y)) && query_view(x@) == q && match b {
                Some(t) => y matches Some(s) && s@ == t,
                None => y is None,
            },
            Err(e) => r matches Err(m) && m@ == e,
        },
{
    let ghost a = views(o@);
    let mut query: Vec<(String, String)> = Vec::new();
    let mut body: Option<String> = None;
    let mut index: usize = 0;
    assert(query_view(query@) =~= seq![]);
    while index < o.len()
        invariant
            a == views(o@),
            valid@.len() == o@.len(),
            options_from(a, valid@, 0, seq![], None) == options_from(a, valid@, index as int, query_view(query@),
                match body {
                    Some(s) => Some(s@),
                    None => None,
                }),
        decreases o.len() - index,
    {
        assert(a[index as int] == o@[index as int]@);
        if index + 1 < o.len() {
            assert(a[index + 1] == o@[index + 1]@);
        }
        if same(o[index].as_str(), "--query") {
            if index + 1 >= o.len() {
                return Err(owned("--query requires a value"));
            }
            match split_once_at(o[index + 1].as_str(), "=") {
                Some((k, v)) => {
                    let ghost before = query_view(query@);
                    query.push((k, v));
                    assert(query_view(query@) =~= before.push((query@.last().0@, query@.last().1@)));
                },
                None => {
                    let mut e = owned("invalid --query value: ");
                    e.append(o[index + 1].as_str());
                    e.append("; expected key=value");
                    return Err(e);
                },
            }
        } else if same(o[index].as_str(), "--json") {
            if index + 1 >= o.len() {
                return Err(owned("--json requires a value"));
            }
            if !valid[index + 1] {
                return Err(owned("invalid --json payload"));
            }
            body = Some(o[index + 1].clone());
        } else {
            let mut e = owned("unknown Cloudflare option: ");
            e.append(o[index].as_str());
            return Err(e);
        }
        index += 2;
    }
    Ok((query, body))
}

/// The route of a ruleset's rules, or of one rule.
pub open spec fn route_of(zone: Seq<char>, ruleset: Seq<char>, rule: Option<Seq<char>>) -> Seq<char> {
    match rule {
        Some(id) => "/zones/"@ + zone + "/rulesets/"@ + ruleset + "/rules/"@ + id,
        None => "/zones/"@ + zone + "/rulesets/"@ + ruleset + "/rules"@,
    }
}

/// The route of a ruleset's rules, or of one rule.
pub fn route(zone: &str, ruleset: &str, rule: Option<String>) -> (r: String)
    ensures
        r@ == route_of(zone@, ruleset@, match rule {
            Some(s) => Some(s@),
            None => None,
        }),
{
    let mut out = owned("/zones/");
    out.append(zone);
    out.append("/rulesets/");
    out.append(ruleset);
    match rule {
        Some(id) => {
            out.append("/rules/");
            out.append(id.as_str());
        },
        None => {
            out.append("/rules");
        },
    }
    out
}

/// The filter expression of an exact redirect.
pub open spec fn expression_of(host: Seq<char>, path: Seq<char>) -> Seq<char> {
    "(http.host eq \""@ + host + "\" and http.request.uri.path eq \""@ + path + "\")"@
}

/// The usage lines of the command groups.
pub open spec fn usage_of(group: Seq<char>) -> Seq<char> {
    if group == "config"@ {
        "usage: runseal @tool cloudflare config get <key>|json"@
    } else if group == "api"@ {
        "usage: runseal @tool cloudflare api request <method> <path> [--query k=v]... [--json <json>]"@
    } else if group == "zone"@ {
        "usage: runseal @tool cloudflare zone get|ruleset|dns-record ..."@
    } else if group == "ruleset"@ {
        "usage: runseal @tool cloudflare zone ruleset list|get|create|rule ..."@
    } else if group == "rule"@ {
        "usage: runseal @tool cloudflare zone ruleset rule add|update ..."@
    } else if group == "dns"@ {
        "usage: runseal @tool cloudflare zone dns-record list|create|update ..."@
    } else if group == "account"@ {
        "usage: runseal @tool cloudflare account get|r2 bucket list ..."@
    } else {
        "usage: runseal @tool cloudflare redirect-rule exact ..."@
    }
}

/// The usage line of a command group.
fn usage(group: &str) -> (r: String)
    ensures
        r@ == usage_of(group@),
{
    if same(group, "config") {
        owned("usage: runseal @tool cloudflare config get <key>|json")
    } else if same(group, "api") {
        owned("usage: runseal @tool cloudflare api request <method> <path> [--query k=v]... [--json <json>]")
    } else if same(group, "zone") {
        owned("usage: runseal @tool cloudflare zone get|ruleset|dns-record ...")
    } else if same(group, "ruleset") {
        owned("usage: runseal @tool cloudflare zone ruleset list|get|create|rule ...")
    } else if same(group, "rule") {
        owned("usage: runseal @tool cloudflare zone ruleset rule add|update ...")
    } else if same(group, "dns") {
        owned("usage: runseal @tool cloudflare zone dns-record list|create|update ...")
    } else if same(group, "account") {
        owned("usage: runseal @tool cloudflare account get|r2 bucket list ...")
    } else {
        owned("usage: runseal @tool cloudflare redirect-rule exact ...")
    }
}


/// A GET of the API with no query and no body.
pub open spec fn get(path: Seq<char>, pick: PickModel) -> OrderModel {
    call("GET"@, path, seq![], None, pick)
}

/// `config get KEY` and `config json`.
pub open spec fn config_of(a: Seq<Seq<char>>) -> Result<OrderModel, Seq<char>> {
    if a.len() == 2 && a[0] == "get"@ {
        Ok(OrderModel::Key(a[1]))
    } else if a.len() == 1 && a[0] == "json"@ {
        Ok(OrderModel::Dump)
    } else {
        Err(usage_of("config"@))
    }
}

/// `api request METHOD PATH [OPTIONS]`.
pub open spec fn api_of(a: Seq<Seq<char>>, valid: Seq<bool>) -> Result<OrderModel, Seq<char>> {
    if a.len() < 3 || a[0] != "request"@ {
        Err(usage_of("api"@))
    } else {
        match options_from(a.skip(3), valid.skip(3), 0, seq![], None) {
            Ok((q, b)) => Ok(call(a[1], a[2], q, match b {
                Some(t) => Some(BodyModel::Raw(t)),
                None => None,
            }, PickModel::Whole)),
            Err(e) => Err(e),
        }
    }
}

/// A change of a ruleset's rules: `rule add` posts, `rule update` patches
/// one rule; `json_ok` tells whether `--json` parses.
pub open spec fn change_of(method: Seq<char>, r: Seq<Seq<char>>, id: Option<Seq<char>>, json_ok: bool) -> Result<OrderModel, Seq<char>> {
    match required_of(r, "--zone-id"@) {
        Err(e) => Err(e),
        Ok(z) => match required_of(r, "--ruleset-id"@) {
            Err(e) => Err(e),
            Ok(rs) => match required_of(r, "--json"@) {
                Err(e) => Err(e),
                Ok(j) => if !json_ok {
                    Err("invalid rule JSON"@)
                } else {
                    Ok(call(method, route_of(z, rs, id), seq![], Some(BodyModel::Raw(j)), PickModel::ResultOrNull))
                },
            },
        },
    }
}

/// `zone ruleset rule add|update`.
pub open spec fn rule_of(r: Seq<Seq<char>>, json_ok: bool) -> Result<OrderModel, Seq<char>> {
    if r.len() >= 1 && r[0] == "add"@ {
        change_of("POST"@, r.skip(1), None, json_ok)
    } else if r.len() >= 1 && r[0] == "update"@ {
        match required_of(r.skip(1), "--rule-id"@) {
            Ok(id) => change_of("PATCH"@, r.skip(1), Some(id), json_ok),
            Err(e) => Err(e),
        }
    } else {
        Err(usage_of("rule"@))
    }
}

/// The body of a new zone ruleset.
pub open spec fn ruleset_body(name: Seq<char>, phase: Seq<char>) -> BodyModel {
    BodyModel::Object(seq![("kind"@, FieldModel::Text("zone"@)), ("name"@, FieldModel::Text(name)),
        ("phase"@, FieldModel::Text(phase)), ("rules"@, FieldModel::Texts(seq![]))])
}

/// `zone ruleset list|get|create|rule`.
pub open spec fn ruleset_of(r: Seq<Seq<char>>, json_ok: bool) -> Result<OrderModel, Seq<char>> {
    if r.len() >= 1 && r[0] == "list"@ {
        match required_of(r.skip(1), "--zone-id"@) {
            Ok(z) => Ok(get("/zones/"@ + z + "/rulesets"@, PickModel::ResultOrList)),
            Err(e) => Err(e),
        }
    } else if r.len() >= 1 && r[0] == "get"@ {
        match required_of(r.skip(1), "--zone-id"@) {
            Err(e) => Err(e),
            Ok(z) => match required_of(r.skip(1), "--ruleset-id"@) {
                Ok(rs) => Ok(get("/zones/"@ + z + "/rulesets/"@ + rs, PickModel::ResultOrNull)),
                Err(e) => Err(e),
            },
        }
    } else if r.len() >= 1 && r[0] == "create"@ {
        match required_of(r.skip(1), "--zone-id"@) {
            Err(e) => Err(e),
            Ok(z) => match required_of(r.skip(1), "--phase"@) {
                Err(e) => Err(e),
                Ok(phase) => match required_of(r.skip(1), "--name"@) {
                    Err(e) => Err(e),
                    Ok(name) => Ok(call("POST"@, "/zones/"@ + z + "/rulesets"@, seq![], Some(ruleset_body(name, phase)),
                        PickModel::ResultOrNull)),
                },
            },
        }
    } else if r.len() >= 1 && r[0] == "rule"@ {
        rule_of(r.skip(1), json_ok)
    } else {
        Err(usage_of("ruleset"@))
    }
}

/// `zone dns-record list|create|update`.
pub open spec fn dns_of(c: Seq<char>, r: Seq<Seq<char>>, json_ok: bool) -> Result<OrderModel, Seq<char>> {
    if c == "list"@ {
        match required_of(r, "--zone-id"@) {
            Ok(z) => Ok(call("GET"@, "/zones/"@ + z + "/dns_records"@, match option_of(r, "--name"@) {
                Some(n) => seq![("name"@, n)],
                None => seq![],
            }, None, PickModel::ResultOrList)),
            Err(e) => Err(e),
        }
    } else if c == "create"@ {
        match required_of(r, "--zone-id"@) {
            Err(e) => Err(e),
            Ok(z) => match required_of(r, "--json"@) {
                Err(e) => Err(e),
                Ok(j) => if !json_ok {
                    Err("invalid DNS record JSON"@)
                } else {
                    Ok(call("POST"@, "/zones/"@ + z + "/dns_records"@, seq![], Some(BodyModel::Raw(j)), PickModel::ResultOrNull))
                },
            },
        }
    } else if c == "update"@ {
        match required_of(r, "--zone-id"@) {
            Err(e) => Err(e),
            Ok(z) => match required_of(r, "--record-id"@) {
                Err(e) => Err(e),
                Ok(rec) => match required_of(r, "--json"@) {
                    Err(e) => Err(e),
                    Ok(j) => if !json_ok {
                        Err("invalid DNS record JSON"@)
                    } else {
                        Ok(call("PATCH"@, "/zones/"@ + z + "/dns_records/"@ + rec, seq![], Some(BodyModel::Raw(j)),
                            PickModel::ResultOrNull))
                    },
                },
            },
        }
    } else {
        Err(usage_of("dns"@))
    }
}

/// `zone get|ruleset|dns-record`.
pub open spec fn zone_of(a: Seq<Seq<char>>, json_ok: bool) -> Result<OrderModel, Seq<char>> {
    if a.len() >= 1 && a[0] == "get"@ {
        match required_of(a.skip(1), "--name"@) {
            Ok(n) => Ok(call("GET"@, "/zones"@, seq![("name"@, n)], None, PickModel::Zone(n))),
            Err(e) => Err(e),
        }
    } else if a.len() >= 1 && a[0] == "ruleset"@ {
        ruleset_of(a.skip(1), json_ok)
    } else if a.len() >= 2 && a[0] == "dns-record"@ {
        dns_of(a[1], a.skip(2), json_ok)
    } else {
        Err(usage_of("zone"@))
    }
}

/// `account get` and `account r2 bucket list`.
pub open spec fn account_of(a: Seq<Seq<char>>) -> Result<OrderModel, Seq<char>> {
    if a.len() >= 1 && a[0] == "get"@ {
        match required_of(a.skip(1), "--account-id"@) {
            Ok(id) => Ok(get("/accounts/"@ + id, PickModel::ResultOrNull)),
            Err(e) => Err(e),
        }
    } else if a.len() >= 3 && a[0] == "r2"@ && a[1] == "bucket"@ && a[2] == "list"@ {
        match required_of(a.skip(3), "--account-id"@) {
            Ok(id) => Ok(get("/accounts/"@ + id + "/r2/buckets"@, PickModel::Buckets)),
            Err(e) => Err(e),
        }
    } else {
        Err(usage_of("account"@))
    }
}

/// `redirect-rule exact`: the rule, with `--status-code` 302 by default.
pub open spec fn redirect_of(a: Seq<Seq<char>>) -> Result<OrderModel, Seq<char>> {
    if a.len() == 0 || a[0] != "exact"@ {
        Err(usage_of("redirect"@))
    } else {
        let r = a.skip(1);
        match required_of(r, "--ref"@) {
            Err(e) => Err(e),
            Ok(reference) => match required_of(r, "--description"@) {
                Err(e) => Err(e),
                Ok(description) => match required_of(r, "--host"@) {
                    Err(e) => Err(e),
                    Ok(host) => match required_of(r, "--path"@) {
                        Err(e) => Err(e),
                        Ok(path) => match required_of(r, "--target-url"@) {
                            Err(e) => Err(e),
                            Ok(url) => {
                                let status = match option_of(r, "--status-code"@) {
                                    Some(s) => s,
                                    None => "302"@,
                                };
                                match number(status) {
                                    Some(n) => if n <= 65535 {
                                        Ok(OrderModel::Redirect {
                                            reference,
                                            description,
                                            expression: expression_of(host, path),
                                            url,
                                            status: n,
                                        })
                                    } else {
                                        Err("invalid redirect status code"@)
                                    },
                                    None => Err("invalid redirect status code"@),
                                }
                            },
                        },
                    },
                },
            },
        }
    }
}

/// What a command does; `valid[i]` tells whether argument `i` parses as
/// JSON, and `json_ok` whether the value of `--json` does.
pub open spec fn decide_of(command: Seq<char>, a: Seq<Seq<char>>, valid: Seq<bool>, json_ok: bool) -> Result<OrderModel, Seq<char>> {
    if command == "config"@ {
        config_of(a)
    } else if command == "api"@ {
        api_of(a, valid)
    } else if command == "zone"@ {
        zone_of(a, json_ok)
    } else if command == "account"@ {
        account_of(a)
    } else if command == "redirect-rule"@ {
        redirect_of(a)
    } else {
        Err("unknown tool command: cloudflare "@ + command)
    }
}

/// Whether a result is the decided one.
pub open spec fn meets(r: Result<Order, String>, m: Result<OrderModel, Seq<char>>) -> bool {
    match r {
        Ok(o) => m == Ok::<OrderModel, Seq<char>>(o.model()),
        Err(e) => m == Err::<OrderModel, Seq<char>>(e@),
    }
}

/// A GET of the API with no query and no body.
fn get_order(path: String, pick: Pick) -> (r: Result<Order, String>)
    ensures
        meets(r, Ok(get(path@, pick.model()))),
{
    let q: Vec<(String, String)> = Vec::new();
    assert(query_view(q@) =~= seq![]);
    Ok(Order::Call { method: owned("GET"), path, query: q, body: None, pick })
}

fn config_cmd(a: &[String]) -> (r: Result<Order, String>)
    ensures
        meets(r, config_of(views(a@))),
{
    let ghost v = views(a@);
    if a.len() >= 1 {
        assert(v[0] == a@[0]@);
    }
    if a.len() == 2 && same(a[0].as_str(), "get") {
        assert(v[1] == a@[1]@);
        Ok(Order::Key(a[1].clone()))
    } else if a.len() == 1 && same(a[0].as_str(), "json") {
        Ok(Order::Dump)
    } else {
        Err(usage("config"))
    }
}

fn api_cmd(a: &[String], valid: &[bool]) -> (r: Result<Order, String>)
    requires
        valid@.len() == a@.len(),
    ensures
        meets(r, api_of(views(a@), valid@)),
{
    let ghost v = views(a@);
    if a.len() >= 1 {
        assert(v[0] == a@[0]@);
    }
    if a.len() < 3 || !same(a[0].as_str(), "request") {
        return Err(usage("api"));
    }
    assert(v[1] == a@[1]@ && v[2] == a@[2]@);
    let o = rest_from(a, 3);
    let ok = bools_from(valid, 3);
    let (query, body) = parse_options(o.as_slice(), ok.as_slice())?;
    let body = match body {
        Some(t) => Some(Body::Raw(t)),
        None => None,
    };
    Ok(Order::Call { method: a[1].clone(), path: a[2].clone(), query, body, pick: Pick::Whole })
}

fn change_cmd(method: &str, r: &[String], id: Option<String>, json_ok: bool) -> (x: Result<Order, String>)
    ensures
        meets(x, change_of(method@, views(r@), match id {
            Some(s) => Some(s@),
            None => None,
        }, json_ok)),
{
    let z = required_option(r, "--zone-id")?;
    let rs = required_option(r, "--ruleset-id")?;
    let j = required_option(r, "--json")?;
    if !json_ok {
        return Err(owned("invalid rule JSON"));
    }
    let path = route(z.as_str(), rs.as_str(), id);
    let q: Vec<(String, String)> = Vec::new();
    assert(query_view(q@) =~= seq![]);
    Ok(Order::Call { method: owned(method), path, query: q, body: Some(Body::Raw(j)), pick: Pick::ResultOrNull })
}

fn rule_cmd(r: &[String], json_ok: bool) -> (x: Result<Order, String>)
    ensures
        meets(x, rule_of(views(r@), json_ok)),
{
    let ghost v = views(r@);
    if r.len() >= 1 {
        assert(v[0] == r@[0]@);
    }
    if r.len() >= 1 && same(r[0].as_str(), "add") {
        let rest = rest_from(r, 1);
        change_cmd("POST", rest.as_slice(), None, json_ok)
    } else if r.len() >= 1 && same(r[0].as_str(), "update") {
        let rest = rest_from(r, 1);
        let id = required_option(rest.as_slice(), "--rule-id")?;
        change_cmd("PATCH", rest.as_slice(), Some(id), json_ok)
    } else {
        Err(usage("rule"))
    }
}

/// `/zones/ZONE` and a tail.
fn zoned(zone: &str, tail: &str) -> (r: String)
    ensures
        r@ == "/zones/"@ + zone@ + tail@,
{
    let mut out = owned("/zones/");
    out.append(zone);
    out.append(tail);
    out
}

fn ruleset_cmd(r: &[String], json_ok: bool) -> (x: Result<Order, String>)
    ensures
        meets(x, ruleset_of(views(r@), json_ok)),
{
    let ghost v = views(r@);
    if r.len() >= 1 {
        assert(v[0] == r@[0]@);
    }
    if r.len() >= 1 && same(r[0].as_str(), "list") {
        let rest = rest_from(r, 1);
        let z = required_option(rest.as_slice(), "--zone-id")?;
        get_order(zoned(z.as_str(), "/rulesets"), Pick::ResultOrList)
    } else if r.len() >= 1 && same(r[0].as_str(), "get") {
        let rest = rest_from(r, 1);
        let z = required_option(rest.as_slice(), "--zone-id")?;
        let rs = required_option(rest.as_slice(), "--ruleset-id")?;
        let mut path = zoned(z.as_str(), "/rulesets/");
        path.append(rs.as_str());
        get_order(path, Pick::ResultOrNull)
    } else if r.len() >= 1 && same(r[0].as_str(), "create") {
        let rest = rest_from(r, 1);
        let z = required_option(rest.as_slice(), "--zone-id")?;
        let phase = required_option(rest.as_slice(), "--phase")?;
        let name = required_option(rest.as_slice(), "--name")?;
        let mut v2: Vec<(String, Field)> = Vec::new();
        v2.push((owned("kind"), Field::Text(owned("zone"))));
        v2.push((owned("name"), Field::Text(name)));
        v2.push((owned("phase"), Field::Text(phase)));
        let none: Vec<String> = Vec::new();
        assert(views(none@) =~= seq![]);
        v2.push((owned("rules"), Field::Texts(none)));
        assert(fields(v2@) =~= seq![("kind"@, FieldModel::Text("zone"@)), ("name"@, FieldModel::Text(v2@[1].1->Text_0@)),
            ("phase"@, FieldModel::Text(v2@[2].1->Text_0@)), ("rules"@, FieldModel::Texts(seq![]))]);
        let q: Vec<(String, String)> = Vec::new();
        assert(query_view(q@) =~= seq![]);
        Ok(Order::Call { method: owned("POST"), path: zoned(z.as_str(), "/rulesets"), query: q, body: Some(Body::Object(v2)),
            pick: Pick::ResultOrNull })
    } else if r.len() >= 1 && same(r[0].as_str(), "rule") {
        let rest = rest_from(r, 1);
        rule_cmd(rest.as_slice(), json_ok)
    } else {
        Err(usage("ruleset"))
    }
}

fn dns_cmd(c: &str, r: &[String], json_ok: bool) -> (x: Result<Order, String>)
    ensures
        meets(x, dns_of(c@, views(r@), json_ok)),
{
    if same(c, "list") {
        let z = required_option(r, "--zone-id")?;
        let mut q: Vec<(String, String)> = Vec::new();
        if let Some(n) = optional_option(r, "--name") {
            q.push((owned("name"), n));
        }
        assert(query_view(q@) =~= match option_of(views(r@), "--name"@) {
            Some(n) => seq![("name"@, n)],
            None => seq![],
        });
        Ok(Order::Call { method: owned("GET"), path: zoned(z.as_str(), "/dns_records"), query: q, body: None,
            pick: Pick::ResultOrList })
    } else if same(c, "create") {
        let z = required_option(r, "--zone-id")?;
        let j = required_option(r, "--json")?;
        if !json_ok {
            return Err(owned("invalid DNS record JSON"));
        }
        let q: Vec<(String, String)> = Vec::new();
        assert(query_view(q@) =~= seq![]);
        Ok(Order::Call { method: owned("POST"), path: zoned(z.as_str(), "/dns_records"), query: q,
            body: Some(Body::Raw(j)), pick: Pick::ResultOrNull })
    } else if same(c, "update") {
        let z = required_option(r, "--zone-id")?;
        let rec = required_option(r, "--record-id")?;
        let j = required_option(r, "--json")?;
        if !json_ok {
            return Err(owned("invalid DNS record JSON"));
        }
        let mut path = zoned(z.as_str(), "/dns_records/");
        path.append(rec.as_str());
        let q: Vec<(String, String)> = Vec::new();
        assert(query_view(q@) =~= seq![]);
        Ok(Order::Call { method: owned("PATCH"), path, query: q, body: Some(Body::Raw(j)), pick: Pick::ResultOrNull })
    } else {
        Err(usage("dns"))
    }
}

fn zone_cmd(a: &[String], json_ok: bool) -> (x: Result<Order, String>)
    ensures
        meets(x, zone_of(views(a@), json_ok)),
{
    let ghost v = views(a@);
    if a.len() >= 1 {
        assert(v[0] == a@[0]@);
    }
    if a.len() >= 1 && same(a[0].as_str(), "get") {
        let rest = rest_from(a, 1);
        let n = required_option(rest.as_slice(), "--name")?;
        let mut q: Vec<(String, String)> = Vec::new();
        q.push((owned("name"), n.clone()));
        assert(query_view(q@) =~= seq![("name"@, n@)]);
        Ok(Order::Call { method: owned("GET"), path: owned("/zones"), query: q, body: None, pick: Pick::Zone(n) })
    } else if a.len() >= 1 && same(a[0].as_str(), "ruleset") {
        let rest = rest_from(a, 1);
        ruleset_cmd(rest.as_slice(), json_ok)
    } else if a.len() >= 2 && same(a[0].as_str(), "dns-record") {
        assert(v[1] == a@[1]@);
        let rest = rest_from(a, 2);
        dns_cmd(a[1].as_str(), rest.as_slice(), json_ok)
    } else {
        Err(usage("zone"))
    }
}

fn account_cmd(a: &[String]) -> (x: Result<Order, String>)
    ensures
        meets(x, account_of(views(a@))),
{
    let ghost v = views(a@);
    if a.len() >= 1 {
        assert(v[0] == a@[0]@);
    }
    if a.len() >= 3 {
        assert(v[1] == a@[1]@ && v[2] == a@[2]@);
    }
    if a.len() >= 1 && same(a[0].as_str(), "get") {
        let rest = rest_from(a, 1);
        let id = required_option(rest.as_slice(), "--account-id")?;
        let mut path = owned("/accounts/");
        path.append(id.as_str());
        get_order(path, Pick::ResultOrNull)
    } else if a.len() >= 3 && same(a[0].as_str(), "r2") && same(a[1].as_str(), "bucket") && same(a[2].as_str(), "list") {
        let rest = rest_from(a, 3);
        let id = required_option(rest.as_slice(), "--account-id")?;
        let mut path = owned("/accounts/");
        path.append(id.as_str());
        path.append("/r2/buckets");
        get_order(path, Pick::Buckets)
    } else {
        Err(usage("account"))
    }
}

fn redirect_cmd(a: &[String]) -> (x: Result<Order, String>)
    ensures
        meets(x, redirect_of(views(a@))),
{
    let ghost v = views(a@);
    if a.len() >= 1 {
        assert(v[0] == a@[0]@);
    }
    if a.len() == 0 || !same(a[0].as_str(), "exact") {
        return Err(usage("redirect"));
    }
    let r = rest_from(a, 1);
    let reference = required_option(r.as_slice(), "--ref")?;
    let description = required_option(r.as_slice(), "--description")?;
    let host = required_option(r.as_slice(), "--host")?;
    let path = required_option(r.as_slice(), "--path")?;
    let url = required_option(r.as_slice(), "--target-url")?;
    let status = match optional_option(r.as_slice(), "--status-code") {
        Some(s) => s,
        None => owned("302"),
    };
    let code = match parse_u64(status.as_str()) {
        Some(n) => {
            if n <= 65535 {
                n as u16
            } else {
                return Err(owned("invalid redirect status code"));
            }
        },
        None => {
            return Err(owned("invalid redirect status code"));
        },
    };
    let mut expression = owned("(http.host eq \"");
    expression.append(host.as_str());
    expression.append("\" and http.request.uri.path eq \"");
    expression.append(path.as_str());
    expression.append("\")");
    Ok(Order::Redirect(Rule { reference, description, expression, url, status: code }))
}

/// What a command does, given for each argument whether it parses as JSON
/// and whether the value of `--json` does.
pub fn decide(command: &str, args: &[String], valid: &[bool], json_ok: bool) -> (r: Result<Order, String>)
    requires
        valid@.len() == args@.len(),
    ensures
        meets(r, decide_of(command@, views(args@), valid@, json_ok)),
{
    if same(command, "config") {
        config_cmd(args)
    } else if same(command, "api") {
        api_cmd(args, valid)
    } else if same(command, "zone") {
        zone_cmd(args, json_ok)
    } else if same(command, "account") {
        account_cmd(args)
    } else if same(command, "redirect-rule") {
        redirect_cmd(args)
    } else {
        let mut e = owned("unknown tool command: cloudflare ");
        e.append(command);
        Err(e)
    }
}

/// Whether each argument parses as JSON.
pub open spec fn json_each(a: Seq<Seq<char>>) -> Seq<bool> {
    a.map_values(|t: Seq<char>| json_parses(t))
}

/// Whether the value of `--json`, when there is one, parses as JSON.
pub open spec fn json_option(a: Seq<Seq<char>>) -> bool {
    match option_of(a, "--json"@) {
        Some(t) => json_parses(t),
        None => true,
    }
}

/// What a `@tool cloudflare` command does, checking its JSON text with
/// `serde_json`.
pub fn eval(command: &str, args: &[String]) -> (r: Result<Order, String>)
    ensures
        meets(r, decide_of(command@, views(args@), json_each(views(args@)), json_option(views(args@)))),
{
    let mut valid: Vec<bool> = Vec::new();
    let mut i: usize = 0;
    while i < args.len()
        invariant
            i <= args@.len(),
            valid@ == json_each(views(args@)).take(i as int),
        decreases args@.len() - i,
    {
        let ok = parses(args[i].as_str());
        valid.push(ok);
        assert(valid@ =~= json_each(views(args@)).take(i + 1));
        i += 1;
    }
    assert(json_each(views(args@)).take(args@.len() as int) =~= json_each(views(args@)));
    let json_ok = match optional_option(args, "--json") {
        Some(t) => parses(t.as_str()),
        None => true,
    };
    decide(command, args, valid.as_slice(), json_ok)
}


/// The text of the values of a table.
pub open spec fn texts(t: Map<Seq<char>, String>) -> Map<Seq<char>, Seq<char>> {
    t.map_values(|v: String| v@)
}

/// A value of the secrets file without its surrounding quotes.
pub open spec fn unquoted(v: Seq<char>) -> Seq<char> {
    trim_all(trim_all(trim(v), "\""@), "'"@)
}

/// The `KEY=VALUE` lines of the secrets file from line `i` on, added to
/// `acc`: blank lines and `#` comments are skipped, keys and values
/// trimmed, values unquoted, and a later key wins.
pub open spec fn entries_from(lines: Seq<Seq<char>>, i: int, path: Seq<char>, acc: Map<Seq<char>, Seq<char>>)
    -> Result<Map<Seq<char>, Seq<char>>, Seq<char>>
    decreases lines.len() - i,
{
    if i < 0 || i >= lines.len() {
        Ok(acc)
    } else {
        let l = trim(lines[i]);
        if l.len() == 0 || (l.len() > 0 && l[0] == '#') {
            entries_from(lines, i + 1, path, acc)
        } else {
            match split_once(l, "="@) {
                Some((k, v)) => entries_from(lines, i + 1, path, acc.insert(trim(k), unquoted(v))),
                None => Err("invalid line in "@ + path + ": "@ + l),
            }
        }
    }
}

/// The entries of the secrets file; `path` names it in errors.
pub open spec fn env_file_of(text: Seq<char>, path: Seq<char>) -> Result<Map<Seq<char>, Seq<char>>, Seq<char>> {
    entries_from(split(text, "\n"@), 0, path, Map::empty())
}

/// Reads the entries of the secrets file.
pub fn parse_env_file(text: &str, path: &str) -> (r: Result<Table<String>, String>)
    ensures
        match env_file_of(text@, path@) {
            Ok(m) => r matches Ok(t) && texts(t@) == m,
            Err(e) => r matches Err(x) && x@ == e,
        },
{
    proof {
        reveal_strlit("\n");
    }
    let lines = split_by(text, "\n");
    let mut values: Table<String> = Table::new();
    assert(texts(values@) =~= Map::empty());
    let mut i: usize = 0;
    while i < lines.len()
        invariant
            i <= lines@.len(),
            views(lines@) == split(text@, "\n"@),
            env_file_of(text@, path@) == entries_from(views(lines@), i as int, path@, texts(values@)),
        decreases lines@.len() - i,
    {
        assert(views(lines@)[i as int] == lines@[i as int]@);
        let line = trimmed(lines[i].as_str());
        let n = line.as_str().unicode_len();
        if n == 0 || line.as_str().get_char(0) == '#' {
            i += 1;
            continue;
        }
        match split_once_at(line.as_str(), "=") {
            Some((k, v)) => {
                let key = trimmed(k.as_str());
                let t = trimmed(v.as_str());
                let q = trim_matches(t.as_str(), "\"");
                let value = trim_matches(q.as_str(), "'");
                let ghost before = texts(values@);
                let ghost kv = key@;
                let ghost vv = value@;
                values.insert(key, value);
                assert(texts(values@) =~= before.insert(kv, vv));
            },
            None => {
                let mut e = owned("invalid line in ");
                e.append(path);
                e.append(": ");
                e.append(line.as_str());
                return Err(e);
            },
        }
        i += 1;
    }
    Ok(values)
}

/// The path of the secrets file: `cloudflare.env` in the secrets directory,
/// `.local/secrets` unless `RUNSEAL_REPO_SECRETS_DIR` names another.
pub open spec fn token_file_of(dir: Option<Seq<char>>) -> Seq<char> {
    join(match dir {
        Some(d) => d,
        None => ".local/secrets"@,
    }, "cloudflare.env"@)
}

/// The path of the secrets file.
pub fn token_file(dir: Option<&str>) -> (r: String)
    ensures
        r@ == token_file_of(match dir {
            Some(d) => Some(d@),
            None => None,
        }),
{
    match dir {
        Some(d) => joined(d, "cloudflare.env"),
        None => joined(".local/secrets", "cloudflare.env"),
    }
}

/// The configuration of the `@tool cloudflare` commands.
pub struct Config {
    pub account_id: String,
    pub api_token: String,
    pub zone_name: String,
    pub manage_host: String,
    pub manage_origin_host: String,
    pub manage_redirect_prefix: String,
}

/// The configuration, in text.
pub struct ConfigModel {
    pub account_id: Seq<char>,
    pub api_token: Seq<char>,
    pub zone_name: Seq<char>,
    pub manage_host: Seq<char>,
    pub manage_origin_host: Seq<char>,
    pub manage_redirect_prefix: Seq<char>,
}

impl Config {
    /// The configuration in text.
    pub open spec fn model(&self) -> ConfigModel {
        ConfigModel {
            account_id: self.account_id@,
            api_token: self.api_token@,
            zone_name: self.zone_name@,
            manage_host: self.manage_host@,
            manage_origin_host: self.manage_origin_host@,
            manage_redirect_prefix: self.manage_redirect_prefix@,
        }
    }
}

/// A non-empty entry, else the default.
pub open spec fn or_default(m: Map<Seq<char>, Seq<char>>, key: Seq<char>, fallback: Seq<char>) -> Seq<char> {
    if m.contains_key(key) && m[key].len() > 0 {
        m[key]
    } else {
        fallback
    }
}

/// The configuration that the entries of the secrets file give; `file` names
/// the file in errors.
pub open spec fn settings_of(m: Map<Seq<char>, Seq<char>>, file: Seq<char>) -> Result<ConfigModel, Seq<char>> {
    if !(m.contains_key("CLOUDFLARE_ACCOUNT_ID"@) && m["CLOUDFLARE_ACCOUNT_ID"@].len() > 0) {
        Err("missing required key(s) in "@ + file + ": "@ + "CLOUDFLARE_ACCOUNT_ID"@)
    } else if !(m.contains_key("CLOUDFLARE_API_TOKEN"@) && m["CLOUDFLARE_API_TOKEN"@].len() > 0) {
        Err("missing required key(s) in "@ + file + ": "@ + "CLOUDFLARE_API_TOKEN"@)
    } else {
        Ok(ConfigModel {
            account_id: m["CLOUDFLARE_ACCOUNT_ID"@],
            api_token: m["CLOUDFLARE_API_TOKEN"@],
            zone_name: or_default(m, "CLOUDFLARE_ZONE_NAME"@, "perish.uk"@),
            manage_host: or_default(m, "CLOUDFLARE_MANAGE_HOST"@, "runseal.perish.uk"@),
            manage_origin_host: or_default(m, "CLOUDFLARE_MANAGE_ORIGIN_HOST"@, "releases.runseal.perish.uk"@),
            manage_redirect_prefix: if m.contains_key("CLOUDFLARE_MANAGE_REDIRECT_PREFIX"@) {
                trim_all(m["CLOUDFLARE_MANAGE_REDIRECT_PREFIX"@], "/"@)
            } else {
                seq![]
            },
        })
    }
}

/// A required entry of the secrets file.
fn required_config_value(values: &Table<String>, key: &str, file: &str) -> (r: Result<String, String>)
    ensures
        r matches Ok(v) ==> texts(values@).contains_key(key@) && texts(values@)[key@] == v@ && v@.len() > 0,
        r matches Err(e) ==> !(texts(values@).contains_key(key@) && texts(values@)[key@].len() > 0)
            && e@ == "missing required key(s) in "@ + file@ + ": "@ + key@,
{
    match values.get(key) {
        Some(v) => {
            if v.as_str().unicode_len() > 0 {
                return Ok(v.clone());
            }
        },
        None => {},
    }
    let mut e = owned("missing required key(s) in ");
    e.append(file);
    e.append(": ");
    e.append(key);
    Err(e)
}

/// A non-empty entry, else the default.
fn value_or(values: &Table<String>, key: &str, fallback: &str) -> (r: String)
    ensures
        r@ == or_default(texts(values@), key@, fallback@),
{
    match values.get(key) {
        Some(v) => {
            if v.as_str().unicode_len() > 0 {
                return v.clone();
            }
        },
        None => {},
    }
    owned(fallback)
}

/// The configuration that the entries of the secrets file give.
pub fn load_config(values: &Table<String>, file: &str) -> (r: Result<Config, String>)
    ensures
        match settings_of(texts(values@), file@) {
            Ok(c) => r matches Ok(x) && x.model() == c,
            Err(e) => r matches Err(m) && m@ == e,
        },
{
    let account_id = required_config_value(values, "CLOUDFLARE_ACCOUNT_ID", file)?;
    let api_token = required_config_value(values, "CLOUDFLARE_API_TOKEN", file)?;
    let manage_redirect_prefix = match values.get("CLOUDFLARE_MANAGE_REDIRECT_PREFIX") {
        Some(v) => trim_matches(v.as_str(), "/"),
        None => String::new(),
    };
    Ok(Config {
        account_id,
        api_token,
        zone_name: value_or(values, "CLOUDFLARE_ZONE_NAME", "perish.uk"),
        manage_host: value_or(values, "CLOUDFLARE_MANAGE_HOST", "runseal.perish.uk"),
        manage_origin_host: value_or(values, "CLOUDFLARE_MANAGE_ORIGIN_HOST", "releases.runseal.perish.uk"),
        manage_redirect_prefix,
    })
}

/// One value of the configuration, by key.
pub open spec fn value_of(c: ConfigModel, key: Seq<char>) -> Result<Seq<char>, Seq<char>> {
    if key == "account_id"@ {
        Ok(c.account_id)
    } else if key == "zone_name"@ {
        Ok(c.zone_name)
    } else if key == "manage_host"@ {
        Ok(c.manage_host)
    } else if key == "manage_origin_host"@ {
        Ok(c.manage_origin_host)
    } else if key == "manage_redirect_prefix"@ {
        Ok(c.manage_redirect_prefix)
    } else {
        Err("unknown Cloudflare config key: "@ + key)
    }
}

/// One value of the configuration, by key; the API token is not one of them.
pub fn value(config: Config, key: &str) -> (r: Result<String, String>)
    ensures
        match value_of(config.model(), key@) {
            Ok(v) => r matches Ok(x) && x@ == v,
            Err(e) => r matches Err(m) && m@ == e,
        },
{
    if same(key, "account_id") {
        Ok(config.account_id)
    } else if same(key, "zone_name") {
        Ok(config.zone_name)
    } else if same(key, "manage_host") {
        Ok(config.manage_host)
    } else if same(key, "manage_origin_host") {
        Ok(config.manage_origin_host)
    } else if same(key, "manage_redirect_prefix") {
        Ok(config.manage_redirect_prefix)
    } else {
        let mut e = owned("unknown Cloudflare config key: ");
        e.append(key);
        Err(e)
    }
}

/// The check of a `zone get` reply: its `result` array (when there is one)
/// must hold exactly one zone.
pub open spec fn zone_pick_of(name: Seq<char>, count: Option<nat>) -> Result<(), Seq<char>> {
    match count {
        None => Err("Cloudflare zone response missing result array"@),
        Some(n) => if n == 0 {
            Err("zone not found for name: "@ + name)
        } else if n != 1 {
            Err("expected one zone for "@ + name + ", found "@ + decimal(n))
        } else {
            Ok(())
        },
    }
}

/// Checks a `zone get` reply by the length of its `result` array.
pub fn zone_pick(name: &str, count: Option<u64>) -> (r: Result<(), String>)
    ensures
        match zone_pick_of(name@, match count {
            Some(n) => Some(n as nat),
            None => None,
        }) {
            Ok(()) => r is Ok,
            Err(e) => r matches Err(m) && m@ == e,
        },
{
    match count {
        None => Err(owned("Cloudflare zone response missing result array")),
        Some(n) => {
            if n == 0 {
                let mut e = owned("zone not found for name: ");
                e.append(name);
                Err(e)
            } else if n != 1 {
                let mut e = owned("expected one zone for ");
                e.append(name);
                e.append(", found ");
                let d = crate::text::decimal_of(n);
                e.append(d.as_str());
                Err(e)
            } else {
                Ok(())
            }
        },
    }
}

/// The URL of an API path: the base (`RUNSEAL_CLOUDFLARE_API_BASE`, else
/// the public API) and the path with a leading `/`.
pub open spec fn api_url_of(base: Option<Seq<char>>, path: Seq<char>) -> Seq<char> {
    (match base {
        Some(b) => b,
        None => "https://api.cloudflare.com/client/v4"@,
    }) + (if path.len() > 0 && path[0] == '/' {
        path
    } else {
        "/"@ + path
    })
}

/// The URL of an API path.
pub fn api_url(base: Option<&str>, path: &str) -> (r: String)
    ensures
        r@ == api_url_of(match base {
            Some(b) => Some(b@),
            None => None,
        }, path@),
{
    let mut out = match base {
        Some(b) => owned(b),
        None => owned("https://api.cloudflare.com/client/v4"),
    };
    if path.unicode_len() > 0 && path.get_char(0) == '/' {
        out.append(path);
    } else {
        out.append("/");
        out.append(path);
    }
    out
}

/// The part of an API reply that a command prints.
pub enum Picked<'a> {
    /// This value.
    Found(&'a Json),
    /// `null`.
    Null,
    /// `[]`.
    NoRows,
}

/// The part of a reply that a pick prints, or why the reply is refused.
pub open spec fn picked_of<'a>(pick: PickModel, v: Json, r: Result<Picked<'a>, String>) -> bool {
    match pick {
        PickModel::Whole => r matches Ok(Picked::Found(x)) && *x == v,
        PickModel::ResultOrNull => match v.member("result"@) {
            Some(m) => r matches Ok(Picked::Found(x)) && *x == m,
            None => r matches Ok(Picked::Null),
        },
        PickModel::ResultOrList => match v.member("result"@) {
            Some(m) => r matches Ok(Picked::Found(x)) && *x == m,
            None => r matches Ok(Picked::NoRows),
        },
        PickModel::Buckets => match v.member("result"@) {
            Some(m) => match m.member("buckets"@) {
                Some(b) => r matches Ok(Picked::Found(x)) && *x == b,
                None => r matches Ok(Picked::NoRows),
            },
            None => r matches Ok(Picked::NoRows),
        },
        PickModel::Zone(name) => match v.member("result"@) {
            Some(m) => match m.kind {
                Kind::Array(rows) => if rows@.len() == 1 {
                    r matches Ok(Picked::Found(x)) && *x == rows@[0]
                } else {
                    r matches Err(e) && zone_pick_of(name, Some(rows@.len())) == Err::<(), Seq<char>>(e@)
                },
                _ => r matches Err(e) && e@ == "Cloudflare zone response missing result array"@,
            },
            None => r matches Err(e) && e@ == "Cloudflare zone response missing result array"@,
        },
    }
}

/// Reads the part of an API reply that a command prints.
pub fn pick_reply<'a>(pick: &Pick, v: &'a Json) -> (r: Result<Picked<'a>, String>)
    ensures
        picked_of(pick.model(), *v, r),
{
    match pick {
        Pick::Whole => Ok(Picked::Found(v)),
        Pick::ResultOrNull => match member(v, "result") {
            Some(m) => Ok(Picked::Found(m)),
            None => Ok(Picked::Null),
        },
        Pick::ResultOrList => match member(v, "result") {
            Some(m) => Ok(Picked::Found(m)),
            None => Ok(Picked::NoRows),
        },
        Pick::Buckets => match member(v, "result") {
            Some(m) => match member(m, "buckets") {
                Some(b) => Ok(Picked::Found(b)),
                None => Ok(Picked::NoRows),
            },
            None => Ok(Picked::NoRows),
        },
        Pick::Zone(name) => match member(v, "result") {
            Some(m) => match &m.kind {
                Kind::Array(rows) => {
                    if rows.len() == 1 {
                        Ok(Picked::Found(&rows[0]))
                    } else {
                        match zone_pick(name.as_str(), Some(rows.len() as u64)) {
                            Ok(()) => Ok(Picked::Found(&rows[0])),
                            Err(e) => Err(e),
                        }
                    }
                },
                _ => Err(owned("Cloudflare zone response missing result array")),
            },
            None => Err(owned("Cloudflare zone response missing result array")),
        },
    }
}

/// The `config json` dump: the configuration's values other than the token,
/// as an object of strings in key order.
pub fn config_json(c: Config) -> (r: Json)
    ensures
        crate::json::strings_body(r, seq![
            ("account_id"@, c.account_id@),
            ("manage_host"@, c.manage_host@),
            ("manage_origin_host"@, c.manage_origin_host@),
            ("manage_redirect_prefix"@, c.manage_redirect_prefix@),
            ("zone_name"@, c.zone_name@),
        ]),
{
    let mut f: Vec<(String, Json)> = Vec::new();
    f.push((owned("account_id"), crate::json::text_value(c.account_id)));
    f.push((owned("manage_host"), crate::json::text_value(c.manage_host)));
    f.push((owned("manage_origin_host"), crate::json::text_value(c.manage_origin_host)));
    f.push((owned("manage_redirect_prefix"), crate::json::text_value(c.manage_redirect_prefix)));
    f.push((owned("zone_name"), crate::json::text_value(c.zone_name)));
    crate::json::object(f)
}

/// `v` is the object of one member `key` holding `inner`, with its text.
pub open spec fn single(v: Json, key: Seq<char>, inner: Json) -> bool {
    v.kind matches Kind::Object(f) && f@.len() == 1 && f@[0].0@ == key && f@[0].1 == inner && v.text@
        == crate::json::object_text(f@)
}

/// `v` is a JSON string holding `t`, with its text.
pub open spec fn text_json(v: Json, t: Seq<char>) -> bool {
    v.as_text() == Some(t) && v.text@ == crate::reply::json_text(t)
}

/// The JSON of a redirect rule: `action` `redirect`, `action_parameters`
/// `{from_value: {preserve_query_string: false, status_code: STATUS,
/// target_url: {value: URL}}}`, the description, `enabled` true, the
/// expression and the reference, each object's members in key order.
pub open spec fn redirect_json(rule: Rule, v: Json) -> bool {
    v.kind matches Kind::Object(f) && f@.len() == 6 && v.text@ == crate::json::object_text(f@)
        && f@[0].0@ == "action"@ && text_json(f@[0].1, "redirect"@)
        && f@[1].0@ == "action_parameters"@ && (f@[1].1.kind matches Kind::Object(p) && p@.len() == 1
            && f@[1].1.text@ == crate::json::object_text(p@) && p@[0].0@ == "from_value"@ && (p@[0].1.kind matches Kind::Object(
            g,
        ) && g@.len() == 3 && p@[0].1.text@ == crate::json::object_text(g@) && g@[0].0@ == "preserve_query_string"@
            && g@[0].1.kind == Kind::Bool(false) && g@[0].1.text@ == "false"@ && g@[1].0@ == "status_code"@
            && g@[1].1.kind == Kind::Number(Some(rule.status as u64)) && g@[1].1.text@ == decimal(rule.status as nat)
            && g@[2].0@ == "target_url"@ && (g@[2].1.kind matches Kind::Object(t) && t@.len() == 1 && g@[2].1.text@
            == crate::json::object_text(t@) && t@[0].0@ == "value"@ && text_json(t@[0].1, rule.url@))))
        && f@[2].0@ == "description"@ && text_json(f@[2].1, rule.description@)
        && f@[3].0@ == "enabled"@ && f@[3].1.kind == Kind::Bool(true) && f@[3].1.text@ == "true"@
        && f@[4].0@ == "expression"@ && text_json(f@[4].1, rule.expression@)
        && f@[5].0@ == "ref"@ && text_json(f@[5].1, rule.reference@)
}

/// The JSON of a redirect rule.
pub fn redirect_rule_json(rule: Rule) -> (r: Json)
    ensures
        redirect_json(rule, r),
{
    let mut t: Vec<(String, Json)> = Vec::new();
    t.push((owned("value"), crate::json::text_value(rule.url)));
    let target = crate::json::object(t);
    let mut from: Vec<(String, Json)> = Vec::new();
    from.push((owned("preserve_query_string"), crate::json::bool_value(false)));
    from.push((owned("status_code"), crate::json::count_value(rule.status as u64)));
    from.push((owned("target_url"), target));
    let from_value = crate::json::object(from);
    let mut p: Vec<(String, Json)> = Vec::new();
    p.push((owned("from_value"), from_value));
    let params = crate::json::object(p);
    let mut f: Vec<(String, Json)> = Vec::new();
    f.push((owned("action"), crate::json::text_value(owned("redirect"))));
    f.push((owned("action_parameters"), params));
    f.push((owned("description"), crate::json::text_value(rule.description)));
    f.push((owned("enabled"), crate::json::bool_value(true)));
    f.push((owned("expression"), crate::json::text_value(rule.expression)));
    f.push((owned("ref"), crate::json::text_value(rule.reference)));
    crate::json::object(f)
}

/// `zone dns-record update` addresses the record it updates: a `PATCH` of
/// `/zones/ZONE/dns_records/RECORD` with `--zone-id` as ZONE and
/// `--record-id` as RECORD (so the route ends with the record's ID), whose
/// body is the `--json` text.
pub proof fn lemma_dns_update_addresses_record(a: Seq<Seq<char>>, valid: Seq<bool>, json_ok: bool)
    requires
        a.len() >= 2,
        a[0] == "dns-record"@,
        a[1] == "update"@,
        decide_of("zone"@, a, valid, json_ok) is Ok,
    ensures
        decide_of("zone"@, a, valid, json_ok) matches Ok(OrderModel::Call { method, path, body, .. }) && {
            let r = a.skip(2);
            &&& method == "PATCH"@
            &&& option_of(r, "--zone-id"@) matches Some(z) && option_of(r, "--record-id"@) matches Some(rec)
                && path == "/zones/"@ + z + "/dns_records/"@ + rec && path.subrange(path.len() - rec.len(), path.len() as int) == rec
            &&& option_of(r, "--json"@) matches Some(j) && body == Some(BodyModel::Raw(j))
        },
{
    reveal_strlit("zone");
    reveal_strlit("config");
    reveal_strlit("api");
    reveal_strlit("get");
    reveal_strlit("ruleset");
    reveal_strlit("dns-record");
    reveal_strlit("update");
    reveal_strlit("list");
    reveal_strlit("create");
    assert("zone"@.len() == 4 && "config"@.len() == 6 && "api"@.len() == 3);
    assert("dns-record"@.len() == 10 && "get"@.len() == 3 && "ruleset"@.len() == 7);
    assert("update"@[0] == 'u' && "list"@.len() == 4 && "create"@[0] == 'c');
    assert(decide_of("zone"@, a, valid, json_ok) == dns_of("update"@, a.skip(2), json_ok));
    let r = a.skip(2);
    match dns_of("update"@, r, json_ok) {
        Ok(OrderModel::Call { path, .. }) => {
            let z = option_of(r, "--zone-id"@)->0;
            let rec = option_of(r, "--record-id"@)->0;
            assert(path == ("/zones/"@ + z + "/dns_records/"@) + rec);
            assert(path.subrange(path.len() - rec.len(), path.len() as int) =~= rec);
        },
        _ => {},
    }
}

} // verus!
