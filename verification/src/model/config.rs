//! Where a profile comes from.
use vstd::prelude::*;

use super::app::{Env, Process};
use super::path::{absolute, absolutize, absolutized, ancestors, ancestors_of, join, joined, parent, parent_of};
use super::symbol::{valid, valid_name};
use crate::text::{owned, views};

verus! {

/// The resolved run configuration.
pub struct Config {
    pub command: Vec<String>,
    pub home: String,
    pub name: Option<String>,
    pub path: Option<String>,
    pub root: String,
}

/// The label of an optional profile name.
pub open spec fn label_of(name: Option<String>) -> Seq<char> {
    match name {
        Some(n) => n@,
        None => "default"@,
    }
}

/// The profile file looked for in the working directory and its ancestors.
pub open spec fn file_for(name: Option<String>) -> Seq<char> {
    match name {
        Some(n) => "runseal."@ + n@ + ".toml"@,
        None => "runseal.toml"@,
    }
}

/// The flat profile file in the home directory.
pub open spec fn flat_for(home: Seq<char>, name: Option<String>) -> Seq<char> {
    join(
        join(home, "profiles"@),
        match name {
            Some(n) => n@ + ".toml"@,
            None => "default.toml"@,
        },
    )
}

/// The nested profile file in the home directory.
pub open spec fn nested_for(home: Seq<char>, name: Option<String>) -> Seq<char> {
    join(join(join(home, "profiles"@), label_of(name)), "runseal.toml"@)
}

/// Every place a profile is looked for, in order: the working directory and
/// its ancestors, then the flat and the nested file in the home directory.
pub open spec fn candidates_for(cwd: Seq<char>, home: Seq<char>, name: Option<String>) -> Seq<
    Seq<char>,
> {
    ancestors(cwd).map_values(|a: Seq<char>| join(a, file_for(name))) + seq![
        flat_for(home, name),
        nested_for(home, name),
    ]
}

/// The index of the first candidate that is an existing file.
pub open spec fn first_present(cands: Seq<Seq<char>>, files: Seq<Seq<char>>) -> Option<int>
    decreases cands.len(),
{
    if cands.len() == 0 {
        None
    } else if files.contains(cands[0]) {
        Some(0)
    } else {
        match first_present(cands.drop_first(), files) {
            Some(i) => Some(i + 1),
            None => None,
        }
    }
}

/// The home directory chosen from the environment: `RUNSEAL_HOME` when set
/// and non-empty, else `$HOME/.runseal`, else `.runseal`.
pub open spec fn home_choice(env: Map<Seq<char>, String>) -> Seq<char> {
    if env.contains_key("RUNSEAL_HOME"@) && env["RUNSEAL_HOME"@]@.len() > 0 {
        env["RUNSEAL_HOME"@]@
    } else if env.contains_key("HOME"@) && env["HOME"@]@.len() > 0 {
        join(env["HOME"@]@, ".runseal"@)
    } else {
        ".runseal"@
    }
}

/// The error for a named profile that no candidate holds.
pub open spec fn missing_text(name: Seq<char>, cwd: Seq<char>, flat: Seq<char>, nested: Seq<char>) -> Seq<char> {
    "named profile not found: :"@ + name + "; expected runseal."@ + name + ".toml from "@ + cwd
        + " upward, "@ + flat + ", or "@ + nested
}

impl Config {
    /// The profile label: its name, or `default`.
    pub fn label(&self) -> (r: &str)
        ensures
            r@ == label_of(self.name),
    {
        match &self.name {
            Some(n) => n.as_str(),
            None => "default",
        }
    }

    /// Builds the configuration for profile `name` run from `cwd`, given the
    /// environment snapshot `env` and the candidate paths that are existing
    /// files (`files`; see [`Seek::candidates`]).
    pub fn build(
        name: Option<String>,
        command: Vec<String>,
        cwd: &str,
        env: &Process,
        files: &Vec<String>,
    ) -> (r: Result<Self, String>)
        requires
            absolute(cwd@),
        ensures
            r matches Ok(c) ==> absolute(c.root@),
            name matches Some(n) ==> (!valid_name(n@) ==> (r matches Err(e) && e@
                == "invalid profile name: :"@ + n@)),
            (name matches Some(n) ==> valid_name(n@)) ==> ({
                let here = absolutized(cwd@, cwd@);
                let home = absolutized(home_choice(env@), here);
                let cands = candidates_for(here, home, name);
                match first_present(cands, views(files@)) {
                    Some(i) => r matches Ok(c) && c.path matches Some(p) && p@ == absolutized(
                        cands[i],
                        here,
                    ) && c.home@ == home && c.name == name && c.command == command && c.root@ == (
                    match parent(p@) {
                        Some(q) => q,
                        None => here,
                    }),
                    None => match name {
                        Some(n) => r matches Err(e) && e@ == missing_text(
                            n@,
                            here,
                            flat_for(home, name),
                            nested_for(home, name),
                        ),
                        None => r matches Ok(c) && c.path is None && c.root@ == here && c.home@
                            == home && c.name == name && c.command == command,
                    },
                }
            }),
    {
        if let Some(n) = &name {
            if valid(n.as_str()).is_err() {
                let mut e = owned("invalid profile name: :");
                e.append(n.as_str());
                return Err(e);
            }
        }
        let here = absolutize(cwd, cwd);
        let home = home_of(here.as_str(), env);
        let seek = Seek { name: name.clone(), cwd: here.clone(), home: home.clone() };
        let path = seek.find(files)?;
        let root = match &path {
            Some(p) => match parent_of(p.as_str()) {
                Some(q) => q,
                None => here,
            },
            None => here,
        };
        Ok(Config { command, home, name, path, root })
    }
}

/// The home directory for a working directory `cwd` and environment `env`.
pub fn home_of(cwd: &str, env: &Process) -> (r: String)
    requires
        absolute(cwd@),
    ensures
        absolute(r@),
        r@ == absolutized(home_choice(env@), cwd@),
{
    let selected = match env.var("RUNSEAL_HOME") {
        Some(v) if v.as_str().unicode_len() > 0 => v,
        _ => match env.var("HOME") {
            Some(h) if h.as_str().unicode_len() > 0 => joined(h.as_str(), ".runseal"),
            _ => owned(".runseal"),
        },
    };
    absolutize(selected.as_str(), cwd)
}

/// The search for a profile file.
pub struct Seek {
    pub name: Option<String>,
    pub cwd: String,
    pub home: String,
}

impl Seek {
    /// The profile file name looked for upward from the working directory.
    pub fn file(&self) -> (r: String)
        ensures
            r@ == file_for(self.name),
    {
        match &self.name {
            None => owned("runseal.toml"),
            Some(n) => {
                let mut f = owned("runseal.");
                f.append(n.as_str());
                f.append(".toml");
                f
            },
        }
    }

    /// The profile files in the working directory and its ancestors.
    pub fn walk(&self) -> (r: Vec<String>)
        ensures
            views(r@) == ancestors(self.cwd@).map_values(|a: Seq<char>| join(a, file_for(self.name))),
    {
        let file = self.file();
        let roots = ancestors_of(self.cwd.as_str());
        let mut out: Vec<String> = Vec::new();
        let mut i: usize = 0;
        while i < roots.len()
            invariant
                i <= roots@.len(),
                out@.len() == i,
                file@ == file_for(self.name),
                views(roots@) == ancestors(self.cwd@),
                views(out@) == ancestors(self.cwd@).take(i as int).map_values(
                    |a: Seq<char>| join(a, file_for(self.name)),
                ),
            decreases roots@.len() - i,
        {
            let p = joined(roots[i].as_str(), file.as_str());
            proof {
                assert(views(roots@)[i as int] == roots@[i as int]@);
                let want = ancestors(self.cwd@).take(i + 1).map_values(
                    |a: Seq<char>| join(a, file_for(self.name)),
                );
                let before = ancestors(self.cwd@).take(i as int).map_values(
                    |a: Seq<char>| join(a, file_for(self.name)),
                );
                assert forall|k: int| 0 <= k < i + 1 implies #[trigger] views(out@.push(p))[k] == want[k] by {
                    if k < i {
                        assert(views(out@.push(p))[k] == views(out@)[k]);
                        assert(want[k] == before[k]);
                    }
                }
                assert(views(out@.push(p)) =~= want);
            }
            out.push(p);
            i += 1;
        }
        assert(ancestors(self.cwd@).take(roots@.len() as int) =~= ancestors(self.cwd@));
        out
    }

    /// The flat profile file in the home directory.
    pub fn flat(&self) -> (r: String)
        ensures
            r@ == flat_for(self.home@, self.name),
    {
        let dir = joined(self.home.as_str(), "profiles");
        let file = match &self.name {
            None => owned("default.toml"),
            Some(n) => {
                let mut f = owned(n.as_str());
                f.append(".toml");
                f
            },
        };
        joined(dir.as_str(), file.as_str())
    }

    /// The nested profile file in the home directory.
    pub fn nested(&self) -> (r: String)
        ensures
            r@ == nested_for(self.home@, self.name),
    {
        let dir = match &self.name {
            Some(n) => n.as_str(),
            None => "default",
        };
        let base = joined(self.home.as_str(), "profiles");
        let inner = joined(base.as_str(), dir);
        joined(inner.as_str(), "runseal.toml")
    }

    /// Every candidate, in the order they are tried.
    pub fn candidates(&self) -> (r: Vec<String>)
        ensures
            views(r@) == candidates_for(self.cwd@, self.home@, self.name),
    {
        let mut out = self.walk();
        let ghost w = views(out@);
        out.push(self.flat());
        out.push(self.nested());
        assert(views(out@) =~= w + seq![flat_for(self.home@, self.name), nested_for(self.home@, self.name)]);
        out
    }

    /// `path` made absolute against the working directory when it is one of
    /// the existing files.
    pub fn held(&self, path: &str, files: &Vec<String>) -> (r: Option<String>)
        requires
            absolute(self.cwd@),
        ensures
            r matches Some(p) ==> absolute(p@),
            views(files@).contains(path@) ==> (r matches Some(p) && p@ == absolutized(path@, self.cwd@)),
            !views(files@).contains(path@) ==> r is None,
    {
        let mut i: usize = 0;
        while i < files.len()
            invariant
                i <= files@.len(),
                absolute(self.cwd@),
                forall|k: int| 0 <= k < i ==> files@[k]@ != path@,
            decreases files@.len() - i,
        {
            if crate::text::same(files[i].as_str(), path) {
                assert(views(files@)[i as int] == path@);
                return Some(absolutize(path, self.cwd.as_str()));
            }
            i += 1;
        }
        proof {
            if views(files@).contains(path@) {
                let k = choose|k: int| 0 <= k < views(files@).len() && views(files@)[k] == path@;
                assert(files@[k]@ == path@);
            }
        }
        None
    }

    /// The outcome when no candidate exists: nothing for the default
    /// profile, an error for a named one.
    pub fn missing(&self) -> (r: Result<Option<String>, String>)
        ensures
            self.name is None ==> r == Ok::<Option<String>, String>(None),
            self.name matches Some(n) ==> r matches Err(e) && e@ == missing_text(
                n@,
                self.cwd@,
                flat_for(self.home@, self.name),
                nested_for(self.home@, self.name),
            ),
    {
        match &self.name {
            None => Ok(None),
            Some(n) => {
                let mut e = owned("named profile not found: :");
                e.append(n.as_str());
                e.append("; expected runseal.");
                e.append(n.as_str());
                e.append(".toml from ");
                e.append(self.cwd.as_str());
                e.append(" upward, ");
                let f = self.flat();
                e.append(f.as_str());
                e.append(", or ");
                let d = self.nested();
                e.append(d.as_str());
                Err(e)
            },
        }
    }

    /// The first candidate that is an existing file, made absolute.
    pub fn find(&self, files: &Vec<String>) -> (r: Result<Option<String>, String>)
        requires
            absolute(self.cwd@),
        ensures
            r matches Ok(Some(p)) ==> absolute(p@),
            ({
                let cands = candidates_for(self.cwd@, self.home@, self.name);
                match first_present(cands, views(files@)) {
                    Some(i) => r matches Ok(Some(p)) && p@ == absolutized(cands[i], self.cwd@),
                    None => match self.name {
                        Some(n) => r matches Err(e) && e@ == missing_text(
                            n@,
                            self.cwd@,
                            flat_for(self.home@, self.name),
                            nested_for(self.home@, self.name),
                        ),
                        None => r == Ok::<Option<String>, String>(None),
                    },
                }
            }),
    {
        let cands = self.candidates();
        let ghost all = views(cands@);
        let mut i: usize = 0;
        assert(all.skip(0) =~= all);
        while i < cands.len()
            invariant
                i <= cands@.len(),
                all == views(cands@),
                all == candidates_for(self.cwd@, self.home@, self.name),
                absolute(self.cwd@),
                first_present(all, views(files@)) == match first_present(all.skip(i as int), views(files@)) {
                    Some(j) => Some(j + i),
                    None => None,
                },
            decreases cands@.len() - i,
        {
            assert(all.skip(i as int)[0] == cands@[i as int]@);
            assert(all.skip(i as int).drop_first() =~= all.skip(i + 1));
            if let Some(p) = self.held(cands[i].as_str(), files) {
                return Ok(Some(p));
            }
            i += 1;
        }
        assert(all.skip(i as int).len() == 0);
        self.missing()
    }
}

/// What the first present candidate is: an existing file with none before
/// it; none when no candidate exists.
pub proof fn lemma_first_present(cands: Seq<Seq<char>>, files: Seq<Seq<char>>)
    ensures
        match first_present(cands, files) {
            Some(i) => 0 <= i < cands.len() && files.contains(cands[i]) && forall|j: int|
                0 <= j < i ==> !files.contains(#[trigger] cands[j]),
            None => forall|j: int| 0 <= j < cands.len() ==> !files.contains(#[trigger] cands[j]),
        },
    decreases cands.len(),
{
    if cands.len() > 0 {
        let rest = cands.drop_first();
        lemma_first_present(rest, files);
        assert forall|j: int| 1 <= j < cands.len() implies cands[j] == rest[j - 1] by {}
    }
}

/// Profile discovery finds a profile wherever it looks: if the profile file
/// is in the working directory or one of its ancestors, or the home
/// directory holds the flat or the nested profile file, a file is found
/// (so the not-found refusal names only places that hold none); and when
/// only the nested home file exists, it is the one found.
pub proof fn lemma_profile_found_where_named(cwd: Seq<char>, home: Seq<char>, name: Option<String>, files: Seq<Seq<char>>)
    ensures
        (files.contains(flat_for(home, name)) || files.contains(nested_for(home, name)) || exists|a: Seq<char>|
            ancestors(cwd).contains(a) && files.contains(#[trigger] join(a, file_for(name))))
            ==> first_present(candidates_for(cwd, home, name), files) is Some,
        (!files.contains(flat_for(home, name)) && files.contains(nested_for(home, name)) && forall|a: Seq<char>|
            ancestors(cwd).contains(a) ==> !files.contains(#[trigger] join(a, file_for(name))))
            ==> (first_present(candidates_for(cwd, home, name), files) matches Some(i) && candidates_for(cwd, home, name)[i]
            == nested_for(home, name)),
{
    let c = candidates_for(cwd, home, name);
    let up = ancestors(cwd).map_values(|a: Seq<char>| join(a, file_for(name)));
    let m = up.len() as int;
    assert(c[m] == flat_for(home, name));
    assert(c[m + 1] == nested_for(home, name));
    assert(c.len() == m + 2);
    lemma_first_present(c, files);
    if exists|a: Seq<char>| ancestors(cwd).contains(a) && files.contains(#[trigger] join(a, file_for(name))) {
        let a = choose|a: Seq<char>| ancestors(cwd).contains(a) && files.contains(#[trigger] join(a, file_for(name)));
        let k = choose|k: int| 0 <= k < ancestors(cwd).len() && ancestors(cwd)[k] == a;
        assert(c[k] == join(a, file_for(name)));
    }
    if !files.contains(flat_for(home, name)) && files.contains(nested_for(home, name)) && forall|a: Seq<char>|
        ancestors(cwd).contains(a) ==> !files.contains(#[trigger] join(a, file_for(name))) {
        assert forall|j: int| 0 <= j < m + 1 implies !files.contains(#[trigger] c[j]) by {
            if j < m {
                assert(ancestors(cwd).contains(ancestors(cwd)[j]));
                assert(c[j] == join(ancestors(cwd)[j], file_for(name)));
            }
        }
    }
}

} // verus!
