//! Profiles and their `resource://` and `local://` URIs.
use vstd::prelude::*;

use super::path::{
    absolute, absolutize, absolutized, clean_part, join, joined, lemma_normal_clean, lemma_normal_concat, normal, plain_absolute,
};
use crate::table::{before, has_key, lemma_before_irreflexive, sorted, Table};
use crate::text::{contains, lemma_join_split, lemma_split_concat, lemma_split_whole, occurs, occurs_at, owned, same, split, split_by, starts_with, strip_prefix, strip_prefix_of, views};

verus! {

/// One profile: environment, argv injections and symlinks.
pub struct Profile {
    pub env: Env,
    pub argv: Table<Vec<String>>,
    pub symlink: Vec<Symlink>,
}

/// The environment part of a profile.
pub struct Env {
    pub vars: Table<String>,
    pub unset: Vec<String>,
}

/// A symlink to create for the run and remove after it.
pub struct Symlink {
    pub source: String,
    pub target: String,
}

/// Why one segment of a URI path is refused, if it is.
pub open spec fn segment_fault(seg: Seq<char>) -> Option<Seq<char>> {
    if seg.len() == 0 {
        Some("profile URI path segment must not be empty"@)
    } else if seg == "."@ || seg == ".."@ {
        Some("profile URI path must not contain '.' or '..'"@)
    } else if occurs(seg, ":"@) {
        Some("profile URI path segment must not contain ':'"@)
    } else {
        None
    }
}

/// The fault of the first refused segment.
pub open spec fn first_fault(segs: Seq<Seq<char>>) -> Option<Seq<char>>
    decreases segs.len(),
{
    if segs.len() == 0 {
        None
    } else {
        match segment_fault(segs[0]) {
            Some(e) => Some(e),
            None => first_fault(segs.drop_first()),
        }
    }
}

/// The relative path that a URI's path part denotes, or why it is refused.
pub open spec fn uri_path(raw: Seq<char>) -> Result<Seq<char>, Seq<char>> {
    if raw.len() == 0 || raw == "."@ {
        Ok(Seq::empty())
    } else if occurs(raw, "\\"@) {
        Err("profile URI path must use '/' separators"@)
    } else {
        match first_fault(split(raw, "/"@)) {
            Some(e) => Err(e),
            None => Ok(crate::text::join(split(raw, "/"@), "/"@)),
        }
    }
}

/// The directory that a URI scheme is rooted at, for a repository `root`.
pub open spec fn seat_dir(root: Seq<char>, uri: Seq<char>) -> Option<(Seq<char>, Seq<char>)> {
    match strip_prefix(uri, "resource://"@) {
        Some(raw) => Some((join(root, ".runseal/resources"@), raw)),
        None => match strip_prefix(uri, "local://"@) {
            Some(raw) => Some((join(root, ".local"@), raw)),
            None => None,
        },
    }
}

/// The path that a `resource://` or `local://` URI resolves to.
pub open spec fn resolution(root: Seq<char>, uri: Seq<char>) -> Result<Seq<char>, Seq<char>> {
    match seat_dir(root, uri) {
        None => Err("expected a resource:// or local:// URI"@),
        Some((dir, raw)) => match uri_path(raw) {
            Ok(rel) => Ok(absolutized(join(dir, rel), root)),
            Err(e) => Err(e),
        },
    }
}

/// A URI that profile values may hold.
pub open spec fn is_uri(held: Seq<char>) -> bool {
    crate::text::is_prefix("resource://"@, held) || crate::text::is_prefix("local://"@, held)
}

/// A profile value after normalization: URIs resolved, anything else kept.
pub open spec fn value_of(root: Seq<char>, held: Seq<char>) -> Result<Seq<char>, Seq<char>> {
    if is_uri(held) {
        resolution(root, held)
    } else {
        Ok(held)
    }
}

/// A symlink path after normalization: URIs resolved, anything else made
/// absolute against `root`.
pub open spec fn seat_of(root: Seq<char>, path: Seq<char>) -> Result<Seq<char>, Seq<char>> {
    if is_uri(path) {
        resolution(root, path)
    } else {
        Ok(absolutized(path, root))
    }
}

/// No accepted URI path climbs out of its directory: every segment is
/// non-empty, neither `.` nor `..`, and holds no `:`; the path holds no `\`.
pub proof fn lemma_uri_path_clean(raw: Seq<char>)
    requires
        uri_path(raw) is Ok,
        raw.len() > 0,
        raw != "."@,
    ensures
        !occurs(raw, "\\"@),
        forall|i: int| 0 <= i < split(raw, "/"@).len() ==> segment_fault(#[trigger] split(raw, "/"@)[i]) is None,
{
    lemma_no_fault(split(raw, "/"@));
}

/// A repository root as the configuration holds it: an absolute path whose
/// parts after the leading `/` are neither empty, `.` nor `..`.
pub open spec fn canonical(root: Seq<char>) -> bool {
    root.len() > 1 && root[0] == '/' && forall|i: int|
        0 <= i < split(root.skip(1), "/"@).len() ==> clean_part(#[trigger] split(root.skip(1), "/"@)[i])
}

/// A relative path under a directory: the directory itself for an empty one.
pub open spec fn under(dir: Seq<char>, rel: Seq<char>) -> Seq<char> {
    if rel.len() == 0 {
        dir
    } else {
        dir + "/"@ + rel
    }
}

/// A text whose `/`-separated parts are all kept neither starts nor ends
/// with `/`.
proof fn lemma_no_edge_slash(s: Seq<char>)
    requires
        s.len() > 0,
        forall|i: int| 0 <= i < split(s, "/"@).len() ==> clean_part(#[trigger] split(s, "/"@)[i]),
    ensures
        s[0] != '/',
        s.last() != '/',
{
    reveal_strlit("/");
    assert(split(Seq::<char>::empty(), "/"@) == seq![Seq::<char>::empty()]) by {
        assert(!occurs(Seq::<char>::empty(), "/"@));
    }
    if s[0] == '/' {
        let rest = s.skip(1);
        assert(Seq::<char>::empty() + "/"@ + rest =~= s);
        lemma_split_concat(Seq::<char>::empty(), rest);
        assert(split(s, "/"@)[0] == Seq::<char>::empty());
        assert(!clean_part(split(s, "/"@)[0]));
    }
    if s.last() == '/' {
        let init = s.drop_last();
        assert(init + "/"@ + Seq::<char>::empty() =~= s);
        lemma_split_concat(init, Seq::<char>::empty());
        let n = split(s, "/"@).len();
        assert(split(s, "/"@)[n - 1] == Seq::<char>::empty());
        assert(!clean_part(split(s, "/"@)[n - 1]));
    }
}

/// The parts of an accepted URI path are kept by `Path::components`, and
/// the path is the text of the URI.
pub proof fn lemma_uri_path_keeps_raw(raw: Seq<char>)
    requires
        uri_path(raw) is Ok,
        raw.len() > 0,
        raw != "."@,
    ensures
        uri_path(raw) == Ok::<Seq<char>, Seq<char>>(raw),
        forall|i: int| 0 <= i < split(raw, "/"@).len() ==> clean_part(#[trigger] split(raw, "/"@)[i]),
{
    lemma_uri_path_clean(raw);
    lemma_join_split(raw);
    reveal_strlit(".");
    reveal_strlit("..");
    assert forall|i: int| 0 <= i < split(raw, "/"@).len() implies clean_part(#[trigger] split(raw, "/"@)[i]) by {
        assert(segment_fault(split(raw, "/"@)[i]) is None);
    }
}

/// The directory of a scheme under a canonical root is `root/sub`, and is
/// canonical too.
pub proof fn lemma_scheme_dir(root: Seq<char>, sub: Seq<char>)
    requires
        canonical(root),
        sub == ".runseal/resources"@ || sub == ".local"@,
    ensures
        join(root, sub) == root + "/"@ + sub,
        canonical(join(root, sub)),
{
    reveal_strlit("/");
    reveal_strlit(".");
    reveal_strlit("..");
    reveal_strlit(".runseal/resources");
    reveal_strlit(".runseal");
    reveal_strlit("resources");
    reveal_strlit(".local");
    let a = root.skip(1);
    lemma_no_edge_slash(a);
    assert(root.last() == a.last());
    assert(!crate::text::is_prefix("/"@, sub)) by {
        assert(sub.subrange(0, 1)[0] == '.');
    }
    let dir = root + "/"@ + sub;
    assert(join(root, sub) == dir);
    let sub_parts: Seq<Seq<char>> = if sub == ".local"@ {
        seq![".local"@]
    } else {
        seq![".runseal"@, "resources"@]
    };
    if sub == ".local"@ {
        lemma_split_whole(sub);
    } else {
        assert(sub =~= ".runseal"@ + "/"@ + "resources"@);
        lemma_split_concat(".runseal"@, "resources"@);
        lemma_split_whole(".runseal"@);
        lemma_split_whole("resources"@);
    }
    assert(split(sub, "/"@) =~= sub_parts);
    assert(dir.skip(1) =~= a + "/"@ + sub);
    lemma_split_concat(a, sub);
    let dparts = split(dir.skip(1), "/"@);
    assert(dparts == split(a, "/"@) + sub_parts);
    assert forall|i: int| 0 <= i < dparts.len() implies clean_part(#[trigger] dparts[i]) by {
        if i >= split(a, "/"@).len() {
            assert(dparts[i] == sub_parts[i - split(a, "/"@).len()]);
        }
    }
}

/// The facts of a canonical directory that joining onto it uses.
proof fn lemma_dir_parts(dir: Seq<char>)
    requires
        canonical(dir),
    ensures
        dir.last() != '/',
        dir =~= "/"@ + dir.skip(1),
        crate::text::join(split(dir.skip(1), "/"@), "/"@) == dir.skip(1),
{
    reveal_strlit("/");
    lemma_no_edge_slash(dir.skip(1));
    assert(dir.last() == dir.skip(1).last());
    lemma_join_split(dir.skip(1));
}

/// A trailing `/` adds an empty last part.
proof fn lemma_split_trailing(d: Seq<char>)
    ensures
        split(d + "/"@, "/"@) == split(d, "/"@) + seq![Seq::<char>::empty()],
{
    reveal_strlit("/");
    let e = Seq::<char>::empty();
    assert(split(e, "/"@) == seq![e]) by {
        assert(!occurs(e, "/"@));
    }
    assert(d + "/"@ =~= d + "/"@ + e);
    lemma_split_concat(d, e);
}

/// An empty last part is no component.
proof fn lemma_normal_trailing(parts: Seq<Seq<char>>)
    ensures
        normal(parts + seq![Seq::<char>::empty()]) == normal(parts),
{
    let all = parts + seq![Seq::<char>::empty()];
    assert(all.drop_last() =~= parts);
    assert(all.last() == Seq::<char>::empty());
    assert(normal(all) == normal(all.drop_last()) + Seq::<Seq<char>>::empty());
    assert(normal(parts) + Seq::<Seq<char>>::empty() =~= normal(parts));
}

/// The scheme directory of a URI, relative to the root.
pub open spec fn scheme_sub(uri: Seq<char>) -> Option<Seq<char>> {
    if strip_prefix(uri, "resource://"@) is Some {
        Some(".runseal/resources"@)
    } else if strip_prefix(uri, "local://"@) is Some {
        Some(".local"@)
    } else {
        None
    }
}

/// Where an accepted URI path `rel` lands for the scheme directory `sub`
/// under `root`: `/`, then the root's components, the scheme directory's
/// parts and the path's segments, joined with `/`.
pub open spec fn landing(root: Seq<char>, sub: Seq<char>, rel: Seq<char>) -> Seq<char> {
    "/"@ + crate::text::join(
        normal(split(root.skip(1), "/"@)) + split(sub, "/"@) + (if rel.len() == 0 {
            Seq::<Seq<char>>::empty()
        } else {
            split(rel, "/"@)
        }),
        "/"@,
    )
}

/// The facts of a scheme directory that joining uses.
proof fn lemma_sub_facts(sub: Seq<char>)
    requires
        sub == ".runseal/resources"@ || sub == ".local"@,
    ensures
        sub.len() > 0,
        sub.last() != '/',
        !crate::text::is_prefix("/"@, sub),
        forall|i: int| 0 <= i < split(sub, "/"@).len() ==> clean_part(#[trigger] split(sub, "/"@)[i]),
{
    reveal_strlit("/");
    reveal_strlit(".");
    reveal_strlit("..");
    reveal_strlit(".runseal/resources");
    reveal_strlit(".runseal");
    reveal_strlit("resources");
    reveal_strlit(".local");
    assert(sub.subrange(0, 1)[0] == '.');
    if sub == ".local"@ {
        lemma_split_whole(sub);
        assert(split(sub, "/"@) =~= seq![".local"@]);
    } else {
        assert(sub =~= ".runseal"@ + "/"@ + "resources"@);
        lemma_split_concat(".runseal"@, "resources"@);
        lemma_split_whole(".runseal"@);
        lemma_split_whole("resources"@);
        assert(split(sub, "/"@) =~= seq![".runseal"@, "resources"@]);
    }
}

/// Joining a scheme directory onto an absolute root without `..` parts:
/// the parts of the result after its leading `/` are parts whose components
/// are the root's, then the scheme directory's parts, none of them `..`.
#[verifier::spinoff_prover]
#[verifier::rlimit(40)]
proof fn lemma_dir_join(root: Seq<char>, sub: Seq<char>) -> (front: Seq<Seq<char>>)
    requires
        plain_absolute(root),
        sub == ".runseal/resources"@ || sub == ".local"@,
    ensures
        join(root, sub).len() > 1,
        join(root, sub)[0] == '/',
        join(root, sub).last() != '/',
        split(join(root, sub).skip(1), "/"@) == front + split(sub, "/"@),
        normal(front) == normal(split(root.skip(1), "/"@)),
        forall|i: int| 0 <= i < front.len() ==> #[trigger] front[i] != ".."@,
{
    reveal_strlit("/");
    lemma_sub_facts(sub);
    let d = root.skip(1);
    let e = Seq::<char>::empty();
    assert(split(e, "/"@) == seq![e]) by {
        assert(!occurs(e, "/"@));
    }
    if root.last() == '/' {
        let dir = root + sub;
        assert(join(root, sub) == dir);
        if d.len() == 0 {
            assert(root =~= "/"@);
            assert(dir.skip(1) =~= sub);
            assert(d =~= e);
            assert(split(d, "/"@) == seq![e]);
            assert(normal(seq![e]) =~= Seq::<Seq<char>>::empty()) by {
                let one = seq![e];
                assert(one.drop_last() =~= Seq::<Seq<char>>::empty());
                assert(one.last() == e);
                assert(normal(one.drop_last()) == Seq::<Seq<char>>::empty());
            }
            let front = Seq::<Seq<char>>::empty();
            assert(front + split(sub, "/"@) =~= split(sub, "/"@));
            front
        } else {
            let dd = d.drop_last();
            assert(d.last() == root.last());
            assert(d =~= dd + "/"@);
            assert(dir.skip(1) =~= dd + "/"@ + sub);
            lemma_split_concat(dd, sub);
            lemma_split_trailing(dd);
            lemma_normal_trailing(split(dd, "/"@));
            let front = split(dd, "/"@);
            assert forall|i: int| 0 <= i < front.len() implies #[trigger] front[i] != ".."@ by {
                assert(split(d, "/"@)[i] == front[i]);
            }
            front
        }
    } else {
        let dir = root + "/"@ + sub;
        assert(join(root, sub) == dir);
        assert(dir.skip(1) =~= d + "/"@ + sub);
        lemma_split_concat(d, sub);
        split(d, "/"@)
    }
}

/// Under an absolute root without `..` parts, the joined path of an accepted
/// URI has no `..` part, and its components are those of [`landing`].
#[verifier::spinoff_prover]
#[verifier::rlimit(40)]
proof fn lemma_landing(root: Seq<char>, sub: Seq<char>, rel: Seq<char>)
    requires
        plain_absolute(root),
        sub == ".runseal/resources"@ || sub == ".local"@,
        rel.len() > 0 ==> forall|i: int| 0 <= i < split(rel, "/"@).len() ==> clean_part(#[trigger] split(rel, "/"@)[i]),
    ensures
        plain_absolute(join(join(root, sub), rel)),
        "/"@ + crate::text::join(normal(split(join(join(root, sub), rel).skip(1), "/"@)), "/"@) == landing(root, sub, rel),
{
    reveal_strlit("/");
    reveal_strlit("..");
    lemma_sub_facts(sub);
    let front = lemma_dir_join(root, sub);
    let dir = join(root, sub);
    let s = split(sub, "/"@);
    let head = dir.skip(1);
    let r = if rel.len() == 0 {
        Seq::<Seq<char>>::empty()
    } else {
        split(rel, "/"@)
    };
    let parts = split(join(dir, rel).skip(1), "/"@);
    if rel.len() == 0 {
        let full = dir + "/"@;
        assert(join(dir, rel) =~= full);
        assert(full.skip(1) =~= head + "/"@);
        lemma_split_trailing(head);
        assert(parts == front + s + seq![Seq::<char>::empty()]);
        lemma_normal_trailing(front + s);
        assert(front + s + r =~= front + s);
    } else {
        lemma_no_edge_slash(rel);
        assert(!crate::text::is_prefix("/"@, rel)) by {
            assert(rel.subrange(0, 1)[0] == rel[0]);
        }
        let full = dir + "/"@ + rel;
        assert(join(dir, rel) == full);
        assert(full.skip(1) =~= head + "/"@ + rel);
        lemma_split_concat(head, rel);
        assert(parts == front + s + r);
        lemma_normal_clean(r);
    }
    assert(normal(front + s + r) == normal(front) + s + r) by {
        lemma_normal_concat(front + s, r);
        lemma_normal_concat(front, s);
        lemma_normal_clean(s);
        if rel.len() > 0 {
            lemma_normal_clean(r);
        } else {
            assert(normal(r) =~= r);
        }
    }
    assert(normal(parts) == normal(front + s + r)) by {
        if rel.len() == 0 {
            lemma_normal_trailing(front + s);
        }
    }
    assert forall|i: int| 0 <= i < parts.len() implies #[trigger] parts[i] != ".."@ by {
        if rel.len() == 0 {
            let all = front + s + seq![Seq::<char>::empty()];
            if i < front.len() {
                assert(all[i] == front[i]);
            } else if i < front.len() + s.len() {
                assert(all[i] == s[i - front.len()]);
                assert(clean_part(s[i - front.len()]));
            } else {
                assert(all[i] == Seq::<char>::empty());
            }
        } else {
            let all = front + s + r;
            if i < front.len() {
                assert(all[i] == front[i]);
            } else if i < front.len() + s.len() {
                assert(all[i] == s[i - front.len()]);
                assert(clean_part(s[i - front.len()]));
            } else {
                assert(all[i] == r[i - front.len() - s.len()]);
                assert(clean_part(r[i - front.len() - s.len()]));
            }
        }
    }
    assert(join(dir, rel)[0] == '/');
}

/// Joining nothing onto a canonical directory gives a path that
/// absolutizes to the directory.
proof fn lemma_under_empty(dir: Seq<char>)
    requires
        canonical(dir),
    ensures
        plain_absolute(join(dir, Seq::empty())),
        "/"@ + crate::text::join(normal(split(join(dir, Seq::empty()).skip(1), "/"@)), "/"@) == dir,
{
    reveal_strlit("/");
    reveal_strlit("..");
    let d = dir.skip(1);
    let dparts = split(d, "/"@);
    lemma_dir_parts(dir);
    let full = dir + "/"@;
    assert(join(dir, Seq::empty()) =~= full);
    assert(full.skip(1) =~= d + "/"@);
    lemma_split_trailing(d);
    let parts = split(full.skip(1), "/"@);
    assert(parts == dparts + seq![Seq::<char>::empty()]);
    assert forall|i: int| 0 <= i < parts.len() implies #[trigger] parts[i] != ".."@ by {
        if i < dparts.len() {
            assert(parts[i] == dparts[i]);
            assert(clean_part(dparts[i]));
        } else {
            assert(parts[i] == Seq::<char>::empty());
        }
    }
    assert(plain_absolute(full));
    lemma_normal_trailing(dparts);
    lemma_normal_clean(dparts);
}

/// Joining a relative path of kept parts onto a canonical directory gives a
/// path that absolutizes to itself.
proof fn lemma_under_rel(dir: Seq<char>, rel: Seq<char>)
    requires
        canonical(dir),
        rel.len() > 0,
        forall|i: int| 0 <= i < split(rel, "/"@).len() ==> clean_part(#[trigger] split(rel, "/"@)[i]),
    ensures
        plain_absolute(join(dir, rel)),
        "/"@ + crate::text::join(normal(split(join(dir, rel).skip(1), "/"@)), "/"@) == dir + "/"@ + rel,
{
    reveal_strlit("/");
    reveal_strlit("..");
    let d = dir.skip(1);
    let dparts = split(d, "/"@);
    lemma_dir_parts(dir);
    lemma_no_edge_slash(rel);
    assert(!crate::text::is_prefix("/"@, rel)) by {
        assert(rel.subrange(0, 1)[0] == rel[0]);
    }
    let full = dir + "/"@ + rel;
    assert(join(dir, rel) == full);
    assert(full.skip(1) =~= d + "/"@ + rel);
    lemma_split_concat(d, rel);
    let parts = split(full.skip(1), "/"@);
    assert(parts == dparts + split(rel, "/"@));
    assert forall|i: int| 0 <= i < parts.len() implies clean_part(#[trigger] parts[i]) by {
        if i >= dparts.len() {
            assert(parts[i] == split(rel, "/"@)[i - dparts.len()]);
        }
    }
    assert forall|i: int| 0 <= i < parts.len() implies #[trigger] parts[i] != ".."@ by {
        assert(clean_part(parts[i]));
    }
    assert(plain_absolute(full));
    lemma_normal_clean(parts);
    lemma_join_split(full.skip(1));
    assert(full =~= "/"@ + full.skip(1));
}

/// A segment with a fault makes the sequence's first fault exist.
pub proof fn lemma_fault_found(segs: Seq<Seq<char>>, i: int)
    requires
        0 <= i < segs.len(),
        segment_fault(segs[i]) is Some,
    ensures
        first_fault(segs) is Some,
    decreases segs.len(),
{
    if i > 0 && segment_fault(segs[0]) is None {
        assert(segs.drop_first()[i - 1] == segs[i]);
        lemma_fault_found(segs.drop_first(), i - 1);
    }
}

/// Traversal is refused: a URI path with a `..` segment never resolves.
pub proof fn lemma_traversal_refused(raw: Seq<char>, i: int)
    requires
        0 <= i < split(raw, "/"@).len(),
        split(raw, "/"@)[i] == ".."@,
    ensures
        uri_path(raw) is Err,
{
    reveal_strlit("..");
    reveal_strlit(".");
    reveal_strlit("/");
    if raw.len() == 0 {
        assert(!occurs(raw, "/"@));
        assert(split(raw, "/"@) == seq![raw]);
        assert(false);
    } else if raw == "."@ {
        assert forall|k: int| !occurs_at(raw, "/"@, k) by {
            if 0 <= k && k + 1 <= raw.len() {
                assert(raw.subrange(k, k + 1)[0] == raw[k]);
                assert("/"@[0] == '/');
            }
        }
        assert(!occurs(raw, "/"@));
        assert(split(raw, "/"@) == seq![raw]);
        assert(false);
    } else if !occurs(raw, "\\"@) {
        assert(segment_fault(split(raw, "/"@)[i]) is Some);
        lemma_fault_found(split(raw, "/"@), i);
    }
}

/// No segment of a sequence without a first fault has a fault.
pub proof fn lemma_no_fault(segs: Seq<Seq<char>>)
    requires
        first_fault(segs) is None,
    ensures
        forall|i: int| 0 <= i < segs.len() ==> segment_fault(#[trigger] segs[i]) is None,
    decreases segs.len(),
{
    if segs.len() > 0 {
        lemma_no_fault(segs.drop_first());
        assert forall|i: int| 0 <= i < segs.len() implies segment_fault(#[trigger] segs[i]) is None by {
            if i > 0 {
                assert(segs[i] == segs.drop_first()[i - 1]);
            }
        }
    }
}

fn fault(seg: &str) -> (r: Option<String>)
    ensures
        r matches Some(e) ==> segment_fault(seg@) == Some(e@),
        r is None ==> segment_fault(seg@) is None,
{
    if seg.unicode_len() == 0 {
        Some(owned("profile URI path segment must not be empty"))
    } else if same(seg, ".") || same(seg, "..") {
        Some(owned("profile URI path must not contain '.' or '..'"))
    } else if contains(seg, ":") {
        Some(owned("profile URI path segment must not contain ':'"))
    } else {
        None
    }
}

/// Reads the path part of a profile URI into a relative path.
pub fn parse(raw: &str) -> (r: Result<String, String>)
    ensures
        r matches Ok(p) ==> uri_path(raw@) == Ok::<Seq<char>, Seq<char>>(p@),
        r matches Err(e) ==> uri_path(raw@) == Err::<Seq<char>, Seq<char>>(e@),
{
    if raw.unicode_len() == 0 || same(raw, ".") {
        return Ok(String::new());
    }
    if contains(raw, "\\") {
        return Err(owned("profile URI path must use '/' separators"));
    }
    proof {
        reveal_strlit("/");
    }
    let segs = split_by(raw, "/");
    let ghost all = views(segs@);
    let mut path = String::new();
    let mut i: usize = 0;
    assert(all.skip(0) =~= all);
    while i < segs.len()
        invariant
            i <= segs@.len(),
            all == views(segs@),
            all == split(raw@, "/"@),
            raw@.len() > 0,
            raw@ != "."@,
            !occurs(raw@, "\\"@),
            first_fault(all) == first_fault(all.skip(i as int)),
            path@ == crate::text::join(all.take(i as int), "/"@),
        decreases segs@.len() - i,
    {
        let seg = segs[i].as_str();
        assert(all[i as int] == seg@);
        assert(all.skip(i as int)[0] == seg@);
        assert(all.skip(i as int).drop_first() =~= all.skip(i + 1));
        if let Some(e) = fault(seg) {
            return Err(e);
        }
        assert(all.take(i + 1).drop_last() =~= all.take(i as int));
        if i > 0 {
            path.append("/");
        } else {
            assert(all.take(1) =~= seq![seg@]);
        }
        path.append(seg);
        i += 1;
    }
    assert(all.take(segs@.len() as int) =~= all);
    assert(all.skip(i as int).len() == 0);
    Ok(path)
}

/// Resolves a `resource://` or `local://` URI against the repository `root`.
/// Under a canonical root, `resource://PATH` is `ROOT/.runseal/resources/PATH`
/// and `local://PATH` is `ROOT/.local/PATH` exactly (see
/// [`lemma_scheme_dir`] and [`lemma_uri_path_keeps_raw`]); under any absolute
/// root without `..` parts (`/`, or one with a trailing `/`), it is the
/// normalized form of the same: see [`landing`].
pub fn resolve(root: &str, uri: &str) -> (r: Result<String, String>)
    requires
        absolute(root@),
    ensures
        r matches Ok(p) ==> resolution(root@, uri@) == Ok::<Seq<char>, Seq<char>>(p@),
        r matches Err(e) ==> resolution(root@, uri@) == Err::<Seq<char>, Seq<char>>(e@),
        canonical(root@) ==> match seat_dir(root@, uri@) {
            Some((dir, raw)) => (uri_path(raw) matches Ok(rel) ==> (r matches Ok(p) && p@ == under(dir, rel))),
            None => true,
        },
        plain_absolute(root@) ==> match (scheme_sub(uri@), seat_dir(root@, uri@)) {
            (Some(sub), Some((_, raw))) => (uri_path(raw) matches Ok(rel) ==> (r matches Ok(p) && p@ == landing(
                root@,
                sub,
                rel,
            ))),
            _ => true,
        },
{
    let ghost sub: Seq<char>;
    let (dir, raw) = match strip_prefix_of(uri, "resource://") {
        Some(raw) => {
            proof {
                sub = ".runseal/resources"@;
            }
            (joined(root, ".runseal/resources"), raw)
        },
        None => match strip_prefix_of(uri, "local://") {
            Some(raw) => {
                proof {
                    sub = ".local"@;
                }
                (joined(root, ".local"), raw)
            },
            None => {
                return Err(owned("expected a resource:// or local:// URI"));
            },
        },
    };
    let relative = parse(raw.as_str())?;
    let full = joined(dir.as_str(), relative.as_str());
    proof {
        if canonical(root@) {
            lemma_scheme_dir(root@, sub);
            if relative@.len() == 0 {
                lemma_under_empty(dir@);
            } else {
                reveal_strlit(".");
                if raw@.len() == 0 || raw@ == "."@ {
                    assert(relative@.len() == 0);
                }
                lemma_uri_path_keeps_raw(raw@);
                lemma_under_rel(dir@, relative@);
            }
        }
        if plain_absolute(root@) {
            reveal_strlit(".");
            if relative@.len() > 0 {
                if raw@.len() == 0 || raw@ == "."@ {
                    assert(relative@.len() == 0);
                }
                lemma_uri_path_keeps_raw(raw@);
            }
            lemma_landing(root@, sub, relative@);
        }
    }
    Ok(absolutize(full.as_str(), root))
}

/// Normalizes one profile value.
pub fn value(root: &str, held: &str) -> (r: Result<String, String>)
    requires
        absolute(root@),
    ensures
        r matches Ok(p) ==> value_of(root@, held@) == Ok::<Seq<char>, Seq<char>>(p@),
        r matches Err(e) ==> value_of(root@, held@) == Err::<Seq<char>, Seq<char>>(e@),
{
    if !starts_with(held, "resource://") && !starts_with(held, "local://") {
        return Ok(owned(held));
    }
    resolve(root, held)
}

/// Normalizes one symlink path.
pub fn seat(path: &str, root: &str) -> (r: Result<String, String>)
    requires
        absolute(root@),
    ensures
        r matches Ok(p) ==> seat_of(root@, path@) == Ok::<Seq<char>, Seq<char>>(p@),
        r matches Err(e) ==> seat_of(root@, path@) == Err::<Seq<char>, Seq<char>>(e@),
{
    if starts_with(path, "resource://") || starts_with(path, "local://") {
        resolve(root, path)
    } else {
        Ok(absolutize(path, root))
    }
}

/// Every entry of a sorted sequence has its own key.
proof fn lemma_distinct_keys<V>(s: Seq<(String, V)>, i: int, j: int)
    requires
        sorted(s),
        0 <= i < s.len(),
        0 <= j < s.len(),
        i != j,
    ensures
        s[i].0@ != s[j].0@,
{
    lemma_before_irreflexive(s[i].0@);
    if i < j {
        assert(before(s[i].0@, s[j].0@));
    } else {
        assert(before(s[j].0@, s[i].0@));
    }
}

/// The variables normalized against `root`: same keys, each value normalized.
pub open spec fn vars_normalized(
    root: Seq<char>,
    old: Map<Seq<char>, String>,
    new: Map<Seq<char>, String>,
) -> bool {
    &&& new.dom() == old.dom()
    &&& forall|k: Seq<char>| #[trigger] old.contains_key(k) ==> value_of(root, old[k]@) == Ok::<Seq<char>, Seq<char>>(new[k]@)
}

/// Some variable fails to normalize with error `e`.
pub open spec fn vars_fault(root: Seq<char>, old: Map<Seq<char>, String>, e: Seq<char>) -> bool {
    exists|k: Seq<char>| #[trigger] old.contains_key(k) && value_of(root, old[k]@) == Err::<Seq<char>, Seq<char>>(e)
}

/// Normalizes every value of a variable table.
pub fn normalize_vars(root: &str, vars: &Table<String>) -> (r: Result<Table<String>, String>)
    requires
        absolute(root@),
    ensures
        r matches Ok(t) ==> vars_normalized(root@, vars@, t@),
        r matches Err(e) ==> vars_fault(root@, vars@, e@),
        r is Err <==> exists|k: Seq<char>| #[trigger] vars@.contains_key(k) && value_of(root@, vars@[k]@) is Err,
{
    let entries = vars.entries();
    let mut out: Table<String> = Table::new();
    let mut i: usize = 0;
    while i < entries.len()
        invariant
            absolute(root@),
            i <= entries@.len(),
            sorted(entries@),
            forall|k: Seq<char>| #[trigger] vars@.contains_key(k) <==> has_key(entries@, k),
            forall|j: int| 0 <= j < entries@.len() ==> #[trigger] vars@[entries@[j].0@] == entries@[j].1,
            forall|j: int| 0 <= j < i ==> value_of(root@, #[trigger] entries@[j].1@) is Ok,
            forall|j: int|
                0 <= j < i ==> out@.contains_key(#[trigger] entries@[j].0@) && value_of(
                    root@,
                    entries@[j].1@,
                ) == Ok::<Seq<char>, Seq<char>>(out@[entries@[j].0@]@),
            forall|k: Seq<char>| #[trigger] out@.contains_key(k) ==> exists|j: int| 0 <= j < i && entries@[j].0@ == k,
        decreases entries@.len() - i,
    {
        let key = &entries[i].0;
        let held = &entries[i].1;
        match value(root, held.as_str()) {
            Ok(v) => {
                let ghost before_insert = out@;
                out.insert(key.clone(), v);
                proof {
                    assert forall|j: int| 0 <= j < i + 1 implies out@.contains_key(#[trigger] entries@[j].0@) && value_of(
                        root@,
                        entries@[j].1@,
                    ) == Ok::<Seq<char>, Seq<char>>(out@[entries@[j].0@]@) by {
                        if j < i {
                            lemma_distinct_keys(entries@, j, i as int);
                        }
                    }
                    assert forall|k: Seq<char>| #[trigger] out@.contains_key(k) implies exists|j: int| 0 <= j < i + 1 && entries@[j].0@ == k by {
                        if k != key@ {
                            assert(before_insert.contains_key(k));
                        }
                    }
                }
            },
            Err(e) => {
                proof {
                    assert(vars@.contains_key(entries@[i as int].0@)) by {
                        assert(has_key(entries@, entries@[i as int].0@));
                    }
                }
                return Err(e);
            },
        }
        i += 1;
    }
    proof {
        assert(out@.dom() =~= vars@.dom()) by {
            assert forall|k: Seq<char>| out@.contains_key(k) <==> vars@.contains_key(k) by {
                if vars@.contains_key(k) {
                    let j = choose|j: int| 0 <= j < entries@.len() && #[trigger] entries@[j].0@ == k;
                    assert(out@.contains_key(entries@[j].0@));
                }
                if out@.contains_key(k) {
                    let j = choose|j: int| 0 <= j < i && entries@[j].0@ == k;
                    assert(has_key(entries@, k));
                }
            }
        }
        assert forall|k: Seq<char>| #[trigger] vars@.contains_key(k) implies value_of(root@, vars@[k]@) == Ok::<Seq<char>, Seq<char>>(out@[k]@) by {
            let j = choose|j: int| 0 <= j < entries@.len() && #[trigger] entries@[j].0@ == k;
            assert(out@.contains_key(entries@[j].0@));
        }
        assert forall|k: Seq<char>| #[trigger] vars@.contains_key(k) implies value_of(root@, vars@[k]@) is Ok by {
            let j = choose|j: int| 0 <= j < entries@.len() && #[trigger] entries@[j].0@ == k;
            assert(value_of(root@, entries@[j].1@) is Ok);
        }
    }
    Ok(out)
}

/// A list of argv values normalized against `root`.
pub open spec fn list_normalized(root: Seq<char>, old: Seq<String>, new: Seq<String>) -> bool {
    &&& new.len() == old.len()
    &&& forall|i: int| 0 <= i < old.len() ==> value_of(root, #[trigger] old[i]@) == Ok::<Seq<char>, Seq<char>>(new[i]@)
}

/// Some argv value fails to normalize with error `e`.
pub open spec fn list_fault(root: Seq<char>, old: Seq<String>, e: Seq<char>) -> bool {
    exists|i: int| 0 <= i < old.len() && value_of(root, #[trigger] old[i]@) == Err::<Seq<char>, Seq<char>>(e)
}

/// Normalizes every value of one argv injection.
pub fn normalize_args(root: &str, args: &Vec<String>) -> (r: Result<Vec<String>, String>)
    requires
        absolute(root@),
    ensures
        r matches Ok(v) ==> list_normalized(root@, args@, v@),
        r matches Err(e) ==> list_fault(root@, args@, e@),
{
    let mut out: Vec<String> = Vec::new();
    let mut i: usize = 0;
    while i < args.len()
        invariant
            absolute(root@),
            i <= args@.len(),
            out@.len() == i,
            forall|j: int| 0 <= j < i ==> value_of(root@, #[trigger] args@[j]@) == Ok::<Seq<char>, Seq<char>>(out@[j]@),
        decreases args@.len() - i,
    {
        let v = value(root, args[i].as_str())?;
        out.push(v);
        i += 1;
    }
    Ok(out)
}

/// The argv injections normalized against `root`: same commands, each list
/// normalized.
pub open spec fn argv_normalized(
    root: Seq<char>,
    old: Map<Seq<char>, Vec<String>>,
    new: Map<Seq<char>, Vec<String>>,
) -> bool {
    &&& new.dom() == old.dom()
    &&& forall|k: Seq<char>| #[trigger] old.contains_key(k) ==> list_normalized(root, old[k]@, new[k]@)
}

/// Normalizes every argv injection.
pub fn normalize_argv(root: &str, argv: &Table<Vec<String>>) -> (r: Result<Table<Vec<String>>, String>)
    requires
        absolute(root@),
    ensures
        r matches Ok(t) ==> argv_normalized(root@, argv@, t@),
        r matches Err(e) ==> exists|k: Seq<char>| #[trigger] argv@.contains_key(k) && list_fault(root@, argv@[k]@, e@),
{
    let entries = argv.entries();
    let mut out: Table<Vec<String>> = Table::new();
    let mut i: usize = 0;
    while i < entries.len()
        invariant
            absolute(root@),
            i <= entries@.len(),
            sorted(entries@),
            forall|k: Seq<char>| #[trigger] argv@.contains_key(k) <==> has_key(entries@, k),
            forall|j: int| 0 <= j < entries@.len() ==> #[trigger] argv@[entries@[j].0@] == entries@[j].1,
            forall|j: int|
                0 <= j < i ==> out@.contains_key(#[trigger] entries@[j].0@) && list_normalized(
                    root@,
                    entries@[j].1@,
                    out@[entries@[j].0@]@,
                ),
            forall|k: Seq<char>| #[trigger] out@.contains_key(k) ==> exists|j: int| 0 <= j < i && entries@[j].0@ == k,
        decreases entries@.len() - i,
    {
        let key = &entries[i].0;
        match normalize_args(root, &entries[i].1) {
            Ok(v) => {
                let ghost before_insert = out@;
                out.insert(key.clone(), v);
                proof {
                    assert forall|j: int| 0 <= j < i + 1 implies out@.contains_key(#[trigger] entries@[j].0@) && list_normalized(
                        root@,
                        entries@[j].1@,
                        out@[entries@[j].0@]@,
                    ) by {
                        if j < i {
                            lemma_distinct_keys(entries@, j, i as int);
                        }
                    }
                    assert forall|k: Seq<char>| #[trigger] out@.contains_key(k) implies exists|j: int| 0 <= j < i + 1 && entries@[j].0@ == k by {
                        if k != key@ {
                            assert(before_insert.contains_key(k));
                        }
                    }
                }
            },
            Err(e) => {
                proof {
                    assert(argv@.contains_key(entries@[i as int].0@)) by {
                        assert(has_key(entries@, entries@[i as int].0@));
                    }
                }
                return Err(e);
            },
        }
        i += 1;
    }
    proof {
        assert(out@.dom() =~= argv@.dom()) by {
            assert forall|k: Seq<char>| out@.contains_key(k) <==> argv@.contains_key(k) by {
                if argv@.contains_key(k) {
                    let j = choose|j: int| 0 <= j < entries@.len() && #[trigger] entries@[j].0@ == k;
                    assert(out@.contains_key(entries@[j].0@));
                }
                if out@.contains_key(k) {
                    let j = choose|j: int| 0 <= j < i && entries@[j].0@ == k;
                    assert(has_key(entries@, k));
                }
            }
        }
        assert forall|k: Seq<char>| #[trigger] argv@.contains_key(k) implies list_normalized(root@, argv@[k]@, out@[k]@) by {
            let j = choose|j: int| 0 <= j < entries@.len() && #[trigger] entries@[j].0@ == k;
            assert(out@.contains_key(entries@[j].0@));
        }
    }
    Ok(out)
}

/// Symlinks normalized against `root`.
pub open spec fn links_normalized(root: Seq<char>, old: Seq<Symlink>, new: Seq<Symlink>) -> bool {
    &&& new.len() == old.len()
    &&& forall|i: int|
        0 <= i < old.len() ==> seat_of(root, #[trigger] old[i].source@) == Ok::<Seq<char>, Seq<char>>(new[i].source@)
            && seat_of(root, old[i].target@) == Ok::<Seq<char>, Seq<char>>(new[i].target@)
}

/// Normalizes every symlink's source and target.
pub fn normalize_links(root: &str, links: &Vec<Symlink>) -> (r: Result<Vec<Symlink>, String>)
    requires
        absolute(root@),
    ensures
        r matches Ok(v) ==> links_normalized(root@, links@, v@),
        r matches Err(e) ==> exists|i: int| 0 <= i < links@.len() && (seat_of(root@, #[trigger] links@[i].source@) == Err::<Seq<char>, Seq<char>>(e@) || seat_of(root@, links@[i].target@) == Err::<Seq<char>, Seq<char>>(e@)),
{
    let mut out: Vec<Symlink> = Vec::new();
    let mut i: usize = 0;
    while i < links.len()
        invariant
            absolute(root@),
            i <= links@.len(),
            out@.len() == i,
            forall|j: int|
                0 <= j < i ==> seat_of(root@, #[trigger] links@[j].source@) == Ok::<Seq<char>, Seq<char>>(out@[j].source@)
                    && seat_of(root@, links@[j].target@) == Ok::<Seq<char>, Seq<char>>(out@[j].target@),
        decreases links@.len() - i,
    {
        let source = seat(links[i].source.as_str(), root)?;
        let target = seat(links[i].target.as_str(), root)?;
        out.push(Symlink { source, target });
        i += 1;
    }
    Ok(out)
}

impl Profile {
    /// Resolves every URI held by the profile against the repository `root`
    /// and makes symlink paths absolute.
    pub fn normalize(&mut self, root: &str) -> (r: Result<(), String>)
        requires
            absolute(root@),
        ensures
            r is Ok ==> vars_normalized(root@, old(self).env.vars@, final(self).env.vars@)
                && argv_normalized(root@, old(self).argv@, final(self).argv@)
                && links_normalized(root@, old(self).symlink@, final(self).symlink@)
                && final(self).env.unset@ == old(self).env.unset@,
            r matches Err(e) ==> vars_fault(root@, old(self).env.vars@, e@)
                || (exists|k: Seq<char>| #[trigger] old(self).argv@.contains_key(k) && list_fault(root@, old(self).argv@[k]@, e@))
                || (exists|i: int| 0 <= i < old(self).symlink@.len() && (seat_of(root@, #[trigger] old(self).symlink@[i].source@) == Err::<Seq<char>, Seq<char>>(e@) || seat_of(root@, old(self).symlink@[i].target@) == Err::<Seq<char>, Seq<char>>(e@))),
    {
        let vars = normalize_vars(root, &self.env.vars)?;
        let argv = normalize_argv(root, &self.argv)?;
        let links = normalize_links(root, &self.symlink)?;
        self.env.vars = vars;
        self.argv = argv;
        self.symlink = links;
        Ok(())
    }
}

} // verus!
