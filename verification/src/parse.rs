//! The shared option line of the native tools.
use vstd::prelude::*;

use crate::table::Table;
use crate::text::{is_prefix, number, owned, parse_usize, same, starts_with, trim_start_all, trim_start_matches};

verus! {

/// The parsed option line.
pub struct Line {
    pub json: bool,
    pub watch: bool,
    pub url: Option<String>,
    pub file: Option<String>,
    pub repo: Option<String>,
    pub limit: Option<usize>,
    pub flags: Table<String>,
    pub rest: Vec<String>,
}

/// The meaning of an option line.
pub struct LineModel {
    pub json: bool,
    pub watch: bool,
    pub url: Option<Seq<char>>,
    pub file: Option<Seq<char>>,
    pub repo: Option<Seq<char>>,
    pub limit: Option<nat>,
    pub flags: Map<Seq<char>, Seq<char>>,
    pub rest: Seq<Seq<char>>,
}

/// The error for an option given without its value.
pub open spec fn needs_value(flag: Seq<char>) -> Seq<char> {
    flag + " requires a value"@
}

/// The optional text view of an optional string.
pub open spec fn opt(o: Option<String>) -> Option<Seq<char>> {
    match o {
        Some(s) => Some(s@),
        None => None,
    }
}

/// Reads the arguments from index `i` onward into `acc`.
pub open spec fn scan(argv: Seq<Seq<char>>, i: int, acc: LineModel) -> Result<LineModel, Seq<char>>
    decreases argv.len() - i,
{
    if i < 0 || i >= argv.len() {
        Ok(acc)
    } else {
        let arg = argv[i];
        let has_next = i + 1 < argv.len();
        let next = argv[i + 1];
        if arg == "--json"@ {
            scan(argv, i + 1, LineModel { json: true, ..acc })
        } else if arg == "--watch"@ {
            scan(argv, i + 1, LineModel { watch: true, ..acc })
        } else if arg == "--url"@ || arg == "--token-file"@ || arg == "--repo"@ || arg == "--limit"@
            || is_prefix("--"@, arg) {
            if !has_next {
                Err(needs_value(arg))
            } else if arg == "--url"@ {
                scan(argv, i + 2, LineModel { url: Some(next), ..acc })
            } else if arg == "--token-file"@ {
                scan(argv, i + 2, LineModel { file: Some(next), ..acc })
            } else if arg == "--repo"@ {
                scan(argv, i + 2, LineModel { repo: Some(next), ..acc })
            } else if arg == "--limit"@ {
                match number(next) {
                    Some(n) => if n <= usize::MAX {
                        scan(argv, i + 2, LineModel { limit: Some(n), ..acc })
                    } else {
                        Err("invalid --limit"@)
                    },
                    None => Err("invalid --limit"@),
                }
            } else {
                scan(
                    argv,
                    i + 2,
                    LineModel { flags: acc.flags.insert(trim_start_all(arg, "-"@), next), ..acc },
                )
            }
        } else {
            scan(argv, i + 1, LineModel { rest: acc.rest.push(arg), ..acc })
        }
    }
}

/// The empty option line.
pub open spec fn blank() -> LineModel {
    LineModel {
        json: false,
        watch: false,
        url: None,
        file: None,
        repo: None,
        limit: None,
        flags: Map::empty(),
        rest: Seq::empty(),
    }
}

/// The meaning of `argv` as an option line.
pub open spec fn line_of(argv: Seq<Seq<char>>) -> Result<LineModel, Seq<char>> {
    scan(argv, 0, blank())
}

impl Line {
    /// The meaning of a parsed line.
    pub open spec fn model(&self) -> LineModel {
        LineModel {
            json: self.json,
            watch: self.watch,
            url: opt(self.url),
            file: opt(self.file),
            repo: opt(self.repo),
            limit: match self.limit {
                Some(n) => Some(n as nat),
                None => None,
            },
            flags: self.flags@.map_values(|v: String| v@),
            rest: crate::text::views(self.rest@),
        }
    }

    /// Parses the option line of a native tool: the known options, any other
    /// `--name value` pair as a flag, and every other argument in order.
    pub fn take(argv: &[String]) -> (r: Result<Self, String>)
        ensures
            r matches Ok(l) ==> line_of(crate::text::views(argv@)) == Ok::<LineModel, Seq<char>>(l.model()),
            r matches Err(e) ==> line_of(crate::text::views(argv@)) == Err::<LineModel, Seq<char>>(e@),
    {
        let mut held = Line {
            json: false,
            watch: false,
            url: None,
            file: None,
            repo: None,
            limit: None,
            flags: Table::new(),
            rest: Vec::new(),
        };
        let ghost args = crate::text::views(argv@);
        assert(held.flags@.map_values(|v: String| v@) =~= Map::empty());
        assert(crate::text::views(held.rest@) =~= Seq::empty());
        let mut i: usize = 0;
        while i < argv.len()
            invariant
                i <= argv@.len(),
                args == crate::text::views(argv@),
                line_of(args) == scan(args, i as int, held.model()),
            decreases argv@.len() - i,
        {
            i = held.step(argv, i)?;
        }
        Ok(held)
    }

    /// The value of flag `name`.
    pub fn flag(&self, name: &str) -> (r: Option<&str>)
        ensures
            r matches Some(v) ==> self.model().flags.contains_key(name@) && v@ == self.model().flags[name@],
            r is None ==> !self.model().flags.contains_key(name@),
    {
        match self.flags.get(name) {
            Some(v) => Some(v.as_str()),
            None => None,
        }
    }

    /// Reads the argument at `at`, with its value when it takes one; returns
    /// where the next argument starts.
    pub fn step(&mut self, argv: &[String], at: usize) -> (r: Result<usize, String>)
        requires
            at < argv@.len(),
        ensures
            ({
                let args = crate::text::views(argv@);
                match r {
                    Ok(n) => at < n <= argv@.len() && scan(args, at as int, old(self).model())
                        == scan(args, n as int, final(self).model()),
                    Err(e) => scan(args, at as int, old(self).model()) == Err::<LineModel, Seq<char>>(e@),
                }
            }),
    {
        let ghost args = crate::text::views(argv@);
        let arg = argv[at].as_str();
        assert(args[at as int] == arg@);
        let has_next = at + 1 < argv.len();
        if has_next {
            assert(args[at + 1] == argv@[at + 1]@);
        }
        if same(arg, "--json") {
            self.json = true;
            proof {
                assert(self.model() == LineModel { json: true, ..old(self).model() });
            }
            return Ok(at + 1);
        }
        if same(arg, "--watch") {
            self.watch = true;
            proof {
                assert(self.model() == LineModel { watch: true, ..old(self).model() });
            }
            return Ok(at + 1);
        }
        let named = same(arg, "--url") || same(arg, "--token-file") || same(arg, "--repo") || same(
            arg,
            "--limit",
        );
        if !named && !starts_with(arg, "--") {
            let ghost before = crate::text::views(self.rest@);
            self.rest.push(owned(arg));
            proof {
                assert(crate::text::views(self.rest@) =~= before.push(arg@));
                assert(self.model() == LineModel { rest: old(self).model().rest.push(arg@), ..old(self).model() });
            }
            return Ok(at + 1);
        }
        if !has_next {
            let mut e = owned(arg);
            e.append(" requires a value");
            return Err(e);
        }
        let next = argv[at + 1].as_str();
        if same(arg, "--url") {
            self.url = Some(owned(next));
            proof {
                assert(self.model() == LineModel { url: Some(next@), ..old(self).model() });
            }
        } else if same(arg, "--token-file") {
            self.file = Some(owned(next));
            proof {
                assert(self.model() == LineModel { file: Some(next@), ..old(self).model() });
            }
        } else if same(arg, "--repo") {
            self.repo = Some(owned(next));
            proof {
                assert(self.model() == LineModel { repo: Some(next@), ..old(self).model() });
            }
        } else if same(arg, "--limit") {
            match parse_usize(next) {
                Some(n) => {
                    self.limit = Some(n);
                    proof {
                        assert(self.model() == LineModel { limit: Some(n as nat), ..old(self).model() });
                    }
                },
                None => {
                    return Err(owned("invalid --limit"));
                },
            }
        } else {
            let name = trim_start_matches(arg, "-");
            let ghost before = self.flags@;
            self.flags.insert(name, owned(next));
            proof {
                assert(self.flags@.map_values(|v: String| v@) =~= before.map_values(|v: String| v@).insert(
                    trim_start_all(arg@, "-"@),
                    next@,
                ));
                assert(self.model() == LineModel {
                    flags: old(self).model().flags.insert(trim_start_all(arg@, "-"@), next@),
                    ..old(self).model()
                });
            }
        }
        Ok(at + 2)
    }
}

/// The error when an option lacks its value.
pub fn need(argv: &[String], at: usize, flag: &str) -> (r: Result<String, String>)
    ensures
        at < argv@.len() ==> (r matches Ok(v) && v@ == argv@[at as int]@),
        at >= argv@.len() ==> (r matches Err(e) && e@ == needs_value(flag@)),
{
    if at < argv.len() {
        Ok(argv[at].clone())
    } else {
        let mut e = owned(flag);
        e.append(" requires a value");
        Err(e)
    }
}

/// The `--json` form of a reply: the object `{"version": 1, KIND: VALUE}`
/// with its members in key order, as `serde_json` writes a map (a kind
/// named `version` replaces the 1).
pub fn dump(kind: &str, value: crate::json::Json) -> (r: crate::json::Json)
    ensures
        r.kind matches crate::json::Kind::Object(g) && r.text@ == crate::json::object_text(g@) && (if kind@ == "version"@ {
            g@.len() == 1 && g@[0].0@ == "version"@ && g@[0].1 == value
        } else {
            g@.len() == 2 && ({
                let (first, second) = if crate::table::before(kind@, "version"@) {
                    (0int, 1int)
                } else {
                    (1int, 0int)
                };
                &&& g@[first].0@ == kind@ && g@[first].1 == value
                &&& g@[second].0@ == "version"@ && g@[second].1.text@ == "1"@
                &&& g@[second].1.kind == crate::json::Kind::Number(Some(1))
            })
        }),
{
    let mut fields: Vec<(String, crate::json::Json)> = Vec::new();
    if same(kind, "version") {
        fields.push((owned("version"), value));
    } else {
        let one = crate::json::Json { text: owned("1"), kind: crate::json::Kind::Number(Some(1)) };
        if crate::table::rank(kind, "version") == crate::table::Rank::Below {
            fields.push((owned(kind), value));
            fields.push((owned("version"), one));
        } else {
            fields.push((owned("version"), one));
            fields.push((owned(kind), value));
        }
    }
    crate::json::object(fields)
}

} // verus!
