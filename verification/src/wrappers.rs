//! Profile wrappers (`:name`): where they are searched, which files count as
//! wrappers, and the names they are listed under.
use vstd::prelude::*;

use crate::model::path::{absolutize, absolutized, join, joined, normal, parent, parent_of};
use crate::model::symbol::{valid, valid_name};
use crate::text::{occurs, owned, same, split, split_by, views};

verus! {

/// The components of a Unix path (`Path::components`): `/` for the root,
/// `.` for a leading current directory, then the named parts.
pub open spec fn components(p: Seq<char>) -> Seq<Seq<char>> {
    (if p.len() > 0 && p[0] == '/' {
        seq!["/"@]
    } else if p == "."@ || (p.len() >= 2 && p[0] == '.' && p[1] == '/') {
        seq!["."@]
    } else {
        seq![]
    }) + normal(split(p, "/"@))
}

/// The last part of a path, unless the path ends in `..` or has none
/// (`Path::file_name`).
pub open spec fn file_name(p: Seq<char>) -> Option<Seq<char>> {
    let n = normal(split(p, "/"@));
    if n.len() == 0 || n.last() == ".."@ {
        None
    } else {
        Some(n.last())
    }
}

/// Whether a file name has an extension: a `.` after its first character.
pub open spec fn dotted(f: Seq<char>) -> bool {
    exists|i: int| 0 < i < f.len() && f[i] == '.'
}

/// The index of the last `.` of a file name.
pub open spec fn last_dot(f: Seq<char>) -> int {
    choose|i: int| 0 < i < f.len() && f[i] == '.' && forall|j: int| i < j < f.len() ==> f[j] != '.'
}

/// The extension of a path (`Path::extension`): what follows the last `.`
/// of its file name, when that `.` is not the name's first character.
pub open spec fn extension(p: Seq<char>) -> Option<Seq<char>> {
    match file_name(p) {
        Some(f) => if f != ".."@ && dotted(f) {
            Some(f.skip(last_dot(f) + 1))
        } else {
            None
        },
        None => None,
    }
}

/// The stem of a path (`Path::file_stem`): its file name without the
/// extension.
pub open spec fn stem(p: Seq<char>) -> Option<Seq<char>> {
    match file_name(p) {
        Some(f) => if f != ".."@ && dotted(f) {
            Some(f.take(last_dot(f)))
        } else {
            Some(f)
        },
        None => None,
    }
}

/// The named parts of a path.
fn normal_parts(p: &str) -> (r: Vec<String>)
    ensures
        views(r@) == normal(split(p@, "/"@)),
{
    proof {
        reveal_strlit("/");
    }
    let parts = split_by(p, "/");
    let mut out: Vec<String> = Vec::new();
    let mut i: usize = 0;
    while i < parts.len()
        invariant
            i <= parts@.len(),
            views(parts@) == split(p@, "/"@),
            views(out@) == normal(views(parts@).take(i as int)),
        decreases parts@.len() - i,
    {
        let ghost v = views(parts@);
        assert(v.take(i + 1).drop_last() =~= v.take(i as int));
        assert(v.take(i + 1).last() == parts@[i as int]@);
        let ghost before = views(out@);
        if parts[i].as_str().unicode_len() > 0 && !same(parts[i].as_str(), ".") {
            out.push(parts[i].clone());
            assert(views(out@) =~= before + seq![parts@[i as int]@]);
        } else {
            assert(views(out@) =~= before + seq![]);
        }
        i += 1;
    }
    assert(views(parts@).take(parts@.len() as int) =~= views(parts@));
    out
}

/// The file name of a path.
pub fn file_name_of(p: &str) -> (r: Option<String>)
    ensures
        match file_name(p@) {
            Some(f) => r matches Some(s) && s@ == f,
            None => r is None,
        },
{
    let n = normal_parts(p);
    if n.len() == 0 {
        return None;
    }
    assert(views(n@).last() == n@[n@.len() - 1]@);
    if same(n[n.len() - 1].as_str(), "..") {
        return None;
    }
    Some(n[n.len() - 1].clone())
}

/// The index of the last `.` of a file name that is not its first
/// character.
fn dot_at(f: &str) -> (r: Option<usize>)
    ensures
        match r {
            Some(i) => dotted(f@) && i == last_dot(f@) && 0 < i < f@.len(),
            None => !dotted(f@),
        },
{
    let n = f.unicode_len();
    let mut i = n;
    while i > 1
        invariant
            n == f@.len(),
            i <= n,
            forall|j: int| i <= j < n && j > 0 ==> f@[j] != '.',
        decreases i,
    {
        if f.get_char(i - 1) == '.' {
            proof {
                let k = (i - 1) as int;
                assert(0 < k < f@.len() && f@[k] == '.' && forall|j: int| k < j < f@.len() ==> f@[j] != '.');
                let c = last_dot(f@);
                assert(c == k) by {
                    if c < k {
                        assert(f@[k] != '.');
                    }
                    if k < c {
                        assert(f@[c] != '.');
                    }
                }
            }
            return Some(i - 1);
        }
        i -= 1;
    }
    None
}

/// The extension and the stem of a path.
pub fn split_name(p: &str) -> (r: (Option<String>, Option<String>))
    ensures
        match extension(p@) {
            Some(x) => r.0 matches Some(s) && s@ == x,
            None => r.0 is None,
        },
        match stem(p@) {
            Some(x) => r.1 matches Some(s) && s@ == x,
            None => r.1 is None,
        },
{
    match file_name_of(p) {
        None => (None, None),
        Some(f) => {
            if same(f.as_str(), "..") {
                return (None, Some(f));
            }
            match dot_at(f.as_str()) {
                Some(i) => {
                    let n = f.as_str().unicode_len();
                    let ext = crate::text::slice(f.as_str(), i + 1, n);
                    let st = crate::text::slice(f.as_str(), 0, i);
                    (Some(ext), Some(st))
                },
                None => (None, Some(f)),
            }
        },
    }
}

/// Whether a wrapper runs with Deno: its extension is `ts`.
pub fn is_deno(p: &str) -> (r: bool)
    ensures
        r == (extension(p@) == Some("ts"@)),
{
    match split_name(p).0 {
        Some(x) => same(x.as_str(), "ts"),
        None => false,
    }
}

/// The files a wrapper name may be in one directory: the name itself when it
/// has an extension, else the name with `.ts`, then with `.sh`.
pub open spec fn candidates_of(dir: Seq<char>, name: Seq<char>) -> Seq<Seq<char>> {
    if extension(name) is Some {
        seq![join(dir, name)]
    } else {
        seq![join(dir, name + ".ts"@), join(dir, name + ".sh"@)]
    }
}

/// The files a wrapper name may be in one directory.
pub fn candidates(dir: &str, name: &str) -> (r: Vec<String>)
    ensures
        views(r@) == candidates_of(dir@, name@),
{
    let mut out: Vec<String> = Vec::new();
    if split_name(name).0.is_some() {
        out.push(joined(dir, name));
        assert(views(out@) =~= candidates_of(dir@, name@));
    } else {
        let mut ts = owned(name);
        ts.append(".ts");
        let mut sh = owned(name);
        sh.append(".sh");
        out.push(joined(dir, ts.as_str()));
        out.push(joined(dir, sh.as_str()));
        assert(views(out@) =~= candidates_of(dir@, name@));
    }
    out
}

/// The wrapper directories: `.runseal/wrappers` beside the profile file
/// (`.` when it has no parent), then `wrappers` in the Runseal home.
pub open spec fn dirs_of(profile: Seq<char>, home: Seq<char>) -> Seq<Seq<char>> {
    seq![join(join(match parent(profile) {
        Some(p) => p,
        None => "."@,
    }, ".runseal"@), "wrappers"@), join(home, "wrappers"@)]
}

/// The wrapper directories.
pub fn dirs(profile: &str, home: &str) -> (r: Vec<String>)
    ensures
        views(r@) == dirs_of(profile@, home@),
{
    let root = match parent_of(profile) {
        Some(p) => p,
        None => owned("."),
    };
    let a = joined(root.as_str(), ".runseal");
    let mut out: Vec<String> = Vec::new();
    out.push(joined(a.as_str(), "wrappers"));
    out.push(joined(home, "wrappers"));
    assert(views(out@) =~= dirs_of(profile@, home@));
    out
}

/// Every file a wrapper name may be in, directory by directory.
pub open spec fn paths_of(profile: Seq<char>, home: Seq<char>, name: Seq<char>) -> Seq<Seq<char>> {
    candidates_of(dirs_of(profile, home)[0], name) + candidates_of(dirs_of(profile, home)[1], name)
}

/// Every file a wrapper name may be in, in search order.
pub fn paths(profile: &str, home: &str, name: &str) -> (r: Vec<String>)
    ensures
        views(r@) == paths_of(profile@, home@, name@),
{
    let d = dirs(profile, home);
    assert(views(d@).len() == 2);
    assert(views(d@)[0] == d@[0]@ && views(d@)[1] == d@[1]@);
    let mut first = candidates(d[0].as_str(), name);
    let second = candidates(d[1].as_str(), name);
    let ghost a = views(first@);
    let mut i: usize = 0;
    while i < second.len()
        invariant
            i <= second@.len(),
            views(first@) == a + views(second@).take(i as int),
        decreases second@.len() - i,
    {
        let ghost before = views(first@);
        first.push(second[i].clone());
        assert(views(first@) =~= before.push(second@[i as int]@));
        assert(views(second@).take(i + 1) =~= views(second@).take(i as int).push(second@[i as int]@));
        assert(views(first@) =~= a + views(second@).take(i + 1));
        i += 1;
    }
    assert(views(second@).take(second@.len() as int) =~= views(second@));
    first
}

/// The refusal when no candidate runs: the name and every file searched.
pub open spec fn not_found_of(name: Seq<char>, searched: Seq<Seq<char>>) -> Seq<char> {
    "wrapper not found: :"@ + name + "\nsearched:\n"@ + crate::text::join(searched.map_values(|p: Seq<char>| "- "@ + p), "\n"@)
}

/// The refusal when no candidate runs.
pub fn not_found(name: &str, searched: &[String]) -> (r: String)
    ensures
        r@ == not_found_of(name@, views(searched@)),
{
    let mut lines: Vec<String> = Vec::new();
    let mut i: usize = 0;
    while i < searched.len()
        invariant
            i <= searched@.len(),
            views(lines@) == views(searched@).take(i as int).map_values(|p: Seq<char>| "- "@ + p),
        decreases searched@.len() - i,
    {
        let mut l = owned("- ");
        l.append(searched[i].as_str());
        let ghost before = views(lines@);
        lines.push(l);
        assert(views(lines@) =~= before.push("- "@ + searched@[i as int]@));
        assert(views(searched@).take(i + 1).map_values(|p: Seq<char>| "- "@ + p) =~= views(searched@).take(
            i as int,
        ).map_values(|p: Seq<char>| "- "@ + p).push("- "@ + searched@[i as int]@));
        i += 1;
    }
    assert(views(searched@).take(searched@.len() as int) =~= views(searched@));
    let body = crate::text::join_with(lines.as_slice(), "\n");
    let mut e = owned("wrapper not found: :");
    e.append(name);
    e.append("\nsearched:\n");
    e.append(body.as_str());
    e
}

/// The absolute path of the first candidate that runs (`found` is its
/// index), made absolute against `cwd`; else the refusal that lists every
/// candidate.
pub fn resolve(name: &str, searched: &[String], found: Option<usize>, cwd: &str) -> (r: Result<String, String>)
    requires
        found matches Some(i) ==> i < searched@.len(),
        crate::model::path::absolute(cwd@),
    ensures
        match found {
            Some(i) => r matches Ok(p) && p@ == absolutized(searched@[i as int]@, cwd@),
            None => r matches Err(e) && e@ == not_found_of(name@, views(searched@)),
        },
{
    match found {
        Some(i) => Ok(absolutize(searched[i].as_str(), cwd)),
        None => Err(not_found(name, searched)),
    }
}

/// The name a file is listed under: the stem of a `.sh` or `.ts` file that
/// is a valid name.
pub open spec fn label_of(p: Seq<char>) -> Option<Seq<char>> {
    if (extension(p) == Some("sh"@) || extension(p) == Some("ts"@)) && (stem(p) matches Some(s) && valid_name(s)) {
        stem(p)
    } else {
        None
    }
}

/// The name a file is listed under.
pub fn label(p: &str) -> (r: Option<String>)
    ensures
        match label_of(p@) {
            Some(s) => r matches Some(x) && x@ == s,
            None => r is None,
        },
{
    let (ext, st) = split_name(p);
    let fits = match &ext {
        Some(x) => same(x.as_str(), "sh") || same(x.as_str(), "ts"),
        None => false,
    };
    if !fits {
        return None;
    }
    match st {
        Some(s) => {
            if valid(s.as_str()).is_ok() {
                Some(s)
            } else {
                None
            }
        },
        None => None,
    }
}

/// Whether a component list starts with another (`Path::starts_with`).
pub open spec fn starts(file: Seq<char>, dir: Seq<char>) -> bool {
    let a = components(file);
    let b = components(dir);
    b.len() <= a.len() && a.take(b.len() as int) == b
}

/// Whether a listed wrapper comes from the profile's directory or from the
/// Runseal home.
pub open spec fn source_of(file: Seq<char>, profile_dir: Seq<char>) -> Seq<char> {
    if starts(file, profile_dir) {
        "profile"@
    } else {
        "home"@
    }
}

/// The components of a path.
fn components_of(p: &str) -> (r: Vec<String>)
    ensures
        views(r@) == components(p@),
{
    let mut out: Vec<String> = Vec::new();
    let n = p.unicode_len();
    if n > 0 && p.get_char(0) == '/' {
        out.push(owned("/"));
    } else if same(p, ".") || (n >= 2 && p.get_char(0) == '.' && p.get_char(1) == '/') {
        out.push(owned("."));
    }
    let rest = normal_parts(p);
    let ghost head = views(out@);
    assert(head =~= (if p@.len() > 0 && p@[0] == '/' {
        seq!["/"@]
    } else if p@ == "."@ || (p@.len() >= 2 && p@[0] == '.' && p@[1] == '/') {
        seq!["."@]
    } else {
        seq![]
    }));
    let mut i: usize = 0;
    while i < rest.len()
        invariant
            i <= rest@.len(),
            views(out@) == head + views(rest@).take(i as int),
        decreases rest@.len() - i,
    {
        let ghost before = views(out@);
        out.push(rest[i].clone());
        assert(views(out@) =~= before.push(rest@[i as int]@));
        assert(views(rest@).take(i + 1) =~= views(rest@).take(i as int).push(rest@[i as int]@));
        assert(views(out@) =~= head + views(rest@).take(i + 1));
        i += 1;
    }
    assert(views(rest@).take(rest@.len() as int) =~= views(rest@));
    out
}

/// Whether a listed wrapper comes from the profile's directory or from the
/// Runseal home.
pub fn source(file: &str, profile_dir: &str) -> (r: &'static str)
    ensures
        r@ == source_of(file@, profile_dir@),
{
    let a = components_of(file);
    let b = components_of(profile_dir);
    assert(views(a@).len() == a@.len() && views(b@).len() == b@.len());
    if b.len() > a.len() {
        return "home";
    }
    let mut i: usize = 0;
    while i < b.len()
        invariant
            views(a@) == components(file@),
            views(b@) == components(profile_dir@),
            views(a@).len() == a@.len() && views(b@).len() == b@.len(),
            b@.len() <= a@.len(),
            i <= b@.len(),
            forall|j: int| 0 <= j < i ==> views(a@)[j] == views(b@)[j],
        decreases b@.len() - i,
    {
        assert(views(a@)[i as int] == a@[i as int]@ && views(b@)[i as int] == b@[i as int]@);
        if !same(a[i].as_str(), b[i].as_str()) {
            assert(views(a@).take(b@.len() as int)[i as int] != views(b@)[i as int]);
            return "home";
        }
        i += 1;
    }
    assert(views(a@).take(b@.len() as int) =~= views(b@));
    "profile"
}

/// `RUNSEAL_WRAPPER_PATH`: the wrapper directories joined with `:`, refused
/// when one of them holds a `:` (`std::env::join_paths` on Unix).
pub fn path_env(dirs: &[String]) -> (r: Result<String, String>)
    ensures
        (forall|i: int| 0 <= i < dirs@.len() ==> !occurs(#[trigger] dirs@[i]@, ":"@)) ==> (r matches Ok(s) && s@
            == crate::text::join(views(dirs@), ":"@)),
        (exists|i: int| 0 <= i < dirs@.len() && occurs(#[trigger] dirs@[i]@, ":"@)) ==> (r matches Err(e) && e@
            == "failed to build RUNSEAL_WRAPPER_PATH"@),
{
    let mut i: usize = 0;
    while i < dirs.len()
        invariant
            i <= dirs@.len(),
            forall|j: int| 0 <= j < i ==> !occurs(#[trigger] dirs@[j]@, ":"@),
        decreases dirs@.len() - i,
    {
        if crate::text::contains(dirs[i].as_str(), ":") {
            return Err(owned("failed to build RUNSEAL_WRAPPER_PATH"));
        }
        i += 1;
    }
    Ok(crate::text::join_with(dirs, ":"))
}

} // verus!
