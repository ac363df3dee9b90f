//! Paths as text, with `/` as the separator.
use path_absolutize::Absolutize;
use vstd::prelude::*;

use crate::text::{is_prefix, owned, push_char};

verus! {

/// What `path_absolutize::Absolutize::absolutize_from(path, cwd)` yields:
/// `path` made absolute against `cwd`, with `.` and `..` resolved lexically.
pub uninterp spec fn absolutized(path: Seq<char>, cwd: Seq<char>) -> Seq<char>;

/// The components of a Unix path that are neither empty nor `.`, from the
/// text parts between `/` (what `Path::components` keeps of them).
pub open spec fn normal(parts: Seq<Seq<char>>) -> Seq<Seq<char>>
    decreases parts.len(),
{
    if parts.len() == 0 {
        seq![]
    } else {
        normal(parts.drop_last()) + if parts.last().len() == 0 || parts.last() == "."@ {
            seq![]
        } else {
            seq![parts.last()]
        }
    }
}

/// A part that `Path::components` keeps as it is: not empty, `.` or `..`.
pub open spec fn clean_part(s: Seq<char>) -> bool {
    s.len() > 0 && s != "."@ && s != ".."@
}

/// The normal components of two lists of parts are those of each.
pub proof fn lemma_normal_concat(a: Seq<Seq<char>>, b: Seq<Seq<char>>)
    ensures
        normal(a + b) == normal(a) + normal(b),
    decreases b.len(),
{
    if b.len() == 0 {
        assert(a + b =~= a);
        assert(normal(a) + normal(b) =~= normal(a));
    } else {
        assert((a + b).drop_last() =~= a + b.drop_last());
        assert((a + b).last() == b.last());
        lemma_normal_concat(a, b.drop_last());
        let tail = if b.last().len() == 0 || b.last() == "."@ {
            Seq::<Seq<char>>::empty()
        } else {
            seq![b.last()]
        };
        assert(normal(a + b) == normal(a + b.drop_last()) + tail);
        assert(normal(b) == normal(b.drop_last()) + tail);
        assert(normal(a) + normal(b.drop_last()) + tail =~= normal(a) + (normal(b.drop_last()) + tail));
    }
}

/// Parts that are all kept are their own normal components.
pub proof fn lemma_normal_clean(a: Seq<Seq<char>>)
    requires
        forall|i: int| 0 <= i < a.len() ==> clean_part(#[trigger] a[i]),
    ensures
        normal(a) == a,
    decreases a.len(),
{
    if a.len() > 0 {
        assert(clean_part(a[a.len() - 1]));
        lemma_normal_clean(a.drop_last());
        assert(a.drop_last().push(a.last()) =~= a);
        assert(a.drop_last() + seq![a.last()] =~= a);
    }
}

/// An absolute path: one that starts at the root.
pub open spec fn absolute(p: Seq<char>) -> bool {
    p.len() > 0 && p[0] == '/'
}

/// An absolute path none of whose parts is `..`.
pub open spec fn plain_absolute(p: Seq<char>) -> bool {
    p.len() > 0 && p[0] == '/' && forall|i: int|
        0 <= i < crate::text::split(p.skip(1), "/"@).len() ==> #[trigger] crate::text::split(p.skip(1), "/"@)[i]
            != ".."@
}

/// `path_absolutize::Absolutize::absolutize_from` on `Path`s given as text.
/// Claims that the result is the crate's lexical absolutization of `path`
/// against `cwd` (named [`absolutized`]), and one short fact of its source:
/// an absolute path without `..` parts comes back as `/` followed by its
/// components joined with `/` (the root, then each normal component, with
/// empty and `.` parts dropped as `Path::components` drops them). Against an
/// absolute `cwd` the result is absolute too: the crate starts every rebuilt
/// path at the root it takes from `cwd`, and gives back `cwd` itself for an
/// empty path. `cwd` must be absolute: against a relative one the crate can
/// end with no components at all and then panics. On Unix the crate's
/// function always returns `Ok`.
#[verifier::external_body]
pub(crate) fn absolutize(path: &str, cwd: &str) -> (r: String)
    requires
        absolute(cwd@),
    ensures
        r@ == absolutized(path@, cwd@),
        absolute(r@),
        plain_absolute(path@) ==> r@ == "/"@ + crate::text::join(normal(crate::text::split(path@.skip(1), "/"@)), "/"@),
{
    match std::path::Path::new(path).absolutize_from(cwd) {
        Ok(done) => done.to_string_lossy().into_owned(),
        Err(_) => String::new(),
    }
}

/// `Path::join` on Unix: an absolute `b` replaces `a`; otherwise `b` is added
/// after a separator unless `a` is empty or already ends with one.
pub open spec fn join(a: Seq<char>, b: Seq<char>) -> Seq<char> {
    if is_prefix("/"@, b) {
        b
    } else if a.len() == 0 || a.last() == '/' {
        a + b
    } else {
        a + seq!['/'] + b
    }
}

/// `Path::join` on Unix.
pub fn joined(a: &str, b: &str) -> (r: String)
    ensures
        r@ == join(a@, b@),
{
    if crate::text::starts_with(b, "/") {
        return owned(b);
    }
    let mut out = owned(a);
    let n = a.unicode_len();
    if n > 0 && a.get_char(n - 1) != '/' {
        push_char(&mut out, '/');
    }
    out.append(b);
    out
}

} // verus!

verus! {

/// The parent of a path given as text (`Path::parent` on a normalized
/// Unix path): `None` for `/` and the empty path, `Some("")` for a single
/// relative component, otherwise everything before the last `/` (or `/`).
pub open spec fn parent(p: Seq<char>) -> Option<Seq<char>> {
    if p.len() == 0 || p == "/"@ {
        None
    } else if !crate::text::occurs(p, "/"@) {
        Some(Seq::empty())
    } else if crate::text::last(p, "/"@) == 0 {
        Some("/"@)
    } else {
        Some(p.subrange(0, crate::text::last(p, "/"@)))
    }
}

/// `Path::parent` on a normalized Unix path.
pub fn parent_of(p: &str) -> (r: Option<String>)
    ensures
        r matches Some(q) ==> parent(p@) == Some(q@) && q@.len() < p@.len() && (absolute(p@) ==> absolute(q@)),
        r is None ==> parent(p@) is None,
{
    let n = p.unicode_len();
    if n == 0 || crate::text::same(p, "/") {
        return None;
    }
    proof {
        reveal_strlit("/");
    }
    match crate::text::rfind(p, "/") {
        None => {
            proof {
                if absolute(p@) {
                    assert(p@.subrange(0, 1) =~= "/"@);
                    assert(crate::text::occurs_at(p@, "/"@, 0));
                }
            }
            let r = String::new();
            assert(parent(p@) == Some(r@));
            Some(r)
        },
        Some(i) => {
            if i == 0 {
                let r = owned("/");
                assert(r@.len() == 1);
                assert(p@ != "/"@);
                if n == 1 {
                    assert(p@.subrange(0, 1) =~= p@);
                }
                assert(parent(p@) == Some(r@));
                Some(r)
            } else {
                Some(crate::text::slice(p, 0, i))
            }
        },
    }
}

/// The ancestors of a path, itself first (`Path::ancestors`).
pub open spec fn ancestors(p: Seq<char>) -> Seq<Seq<char>>
    decreases p.len(),
{
    match parent(p) {
        Some(q) => if q.len() < p.len() {
            seq![p] + ancestors(q)
        } else {
            seq![p]
        },
        None => seq![p],
    }
}

/// `Path::ancestors` on a normalized Unix path.
pub fn ancestors_of(p: &str) -> (r: Vec<String>)
    ensures
        crate::text::views(r@) == ancestors(p@),
{
    let mut out: Vec<String> = Vec::new();
    let mut cur = owned(p);
    loop
        invariant
            ancestors(p@) == crate::text::views(out@) + ancestors(cur@),
        decreases cur@.len(),
    {
        let next = parent_of(cur.as_str());
        proof {
            assert(crate::text::views(out@.push(cur)) =~= crate::text::views(out@).push(cur@));
        }
        match next {
            Some(q) => {
                assert(ancestors(cur@) == seq![cur@] + ancestors(q@));
                assert(crate::text::views(out@) + ancestors(cur@) =~= crate::text::views(out@).push(cur@) + ancestors(q@));
                out.push(cur);
                cur = q;
            },
            None => {
                assert(ancestors(cur@) == seq![cur@]);
                assert(crate::text::views(out@) + ancestors(cur@) =~= crate::text::views(out@).push(cur@));
                out.push(cur);
                return out;
            },
        }
    }
}

} // verus!
