//! Environment operations applied on top of a profile's variables.
use vstd::prelude::*;

use crate::model::app::{App, Context, Env};
use crate::table::{as_map, sorted, Table};
use crate::text::{join, join_with, owned, push_char, same, split, split_by, trim, trimmed, views};

verus! {

/// One environment operation.
pub enum EnvOp {
    Assign { key: String, value: String },
    AssignIfAbsent { key: String, value: String },
    Prepend { key: String, value: String, separator: Option<String>, dedup: bool },
    Append { key: String, value: String, separator: Option<String>, dedup: bool },
    Unset { key: String },
}

/// Variables and the operations applied after them.
pub struct EnvProfile {
    pub vars: Table<String>,
    pub ops: Vec<EnvOp>,
}

/// The text view of a string-valued map.
pub open spec fn texts(m: Map<Seq<char>, String>) -> Map<Seq<char>, Seq<char>> {
    m.map_values(|v: String| v@)
}

/// The parts of a list that are not empty, in order.
pub open spec fn nonempty(ps: Seq<Seq<char>>) -> Seq<Seq<char>>
    decreases ps.len(),
{
    if ps.len() == 0 {
        seq![]
    } else if ps.last().len() > 0 {
        nonempty(ps.drop_last()).push(ps.last())
    } else {
        nonempty(ps.drop_last())
    }
}

/// The parts of a list with later repeats dropped, in order of first
/// appearance.
pub open spec fn unique(ps: Seq<Seq<char>>) -> Seq<Seq<char>>
    decreases ps.len(),
{
    if ps.len() == 0 {
        seq![]
    } else if unique(ps.drop_last()).contains(ps.last()) {
        unique(ps.drop_last())
    } else {
        unique(ps.drop_last()).push(ps.last())
    }
}

/// The non-empty pieces of `s` between occurrences of `sep` (`str::split`
/// filtered); with an empty separator, each character on its own.
pub open spec fn pieces(s: Seq<char>, sep: Seq<char>) -> Seq<Seq<char>> {
    if sep.len() == 0 {
        Seq::new(s.len(), |i: int| seq![s[i]])
    } else {
        nonempty(split(s, sep))
    }
}

/// Two values merged as lists separated by `sep`.
pub open spec fn merged(l: Seq<char>, r: Seq<char>, sep: Seq<char>, dedup: bool) -> Seq<char> {
    let parts = pieces(l, sep) + pieces(r, sep);
    if dedup {
        join(unique(parts), sep)
    } else {
        join(parts, sep)
    }
}

/// The separator that an operation names: the OS path-list separator `:`
/// when none is given or `os` is given.
pub open spec fn separator_of(separator: Option<String>) -> Seq<char> {
    match separator {
        None => ":"@,
        Some(s) => if s@ == "os"@ {
            ":"@
        } else {
            s@
        },
    }
}

/// The value an operation merges with: the current one, else the process
/// environment's, else empty.
pub open spec fn base_of(
    ambient: Map<Seq<char>, Seq<char>>,
    env: Map<Seq<char>, Seq<char>>,
    key: Seq<char>,
) -> Seq<char> {
    if env.contains_key(key) {
        env[key]
    } else if ambient.contains_key(key) {
        ambient[key]
    } else {
        Seq::empty()
    }
}

/// Setting `key` unless it is set here or in the process environment.
pub open spec fn absent_step(
    ambient: Map<Seq<char>, Seq<char>>,
    env: Map<Seq<char>, Seq<char>>,
    key: Seq<char>,
    value: Seq<char>,
) -> Map<Seq<char>, Seq<char>> {
    if !env.contains_key(key) && !ambient.contains_key(key) {
        env.insert(key, value)
    } else {
        env
    }
}

/// Prepending (or appending) `value` to the list held under `key`.
pub open spec fn merge_step(
    ambient: Map<Seq<char>, Seq<char>>,
    env: Map<Seq<char>, Seq<char>>,
    key: Seq<char>,
    value: Seq<char>,
    separator: Option<String>,
    dedup: bool,
    prepend: bool,
) -> Map<Seq<char>, Seq<char>> {
    let base = base_of(ambient, env, key);
    let sep = separator_of(separator);
    env.insert(
        key,
        if prepend {
            merged(value, base, sep, dedup)
        } else {
            merged(base, value, sep, dedup)
        },
    )
}

/// The effect of one operation.
pub open spec fn step(
    ambient: Map<Seq<char>, Seq<char>>,
    env: Map<Seq<char>, Seq<char>>,
    op: EnvOp,
) -> Map<Seq<char>, Seq<char>> {
    match op {
        EnvOp::Assign { key, value } => env.insert(key@, value@),
        EnvOp::AssignIfAbsent { key, value } => absent_step(ambient, env, key@, value@),
        EnvOp::Prepend { key, value, separator, dedup } => merge_step(
            ambient,
            env,
            key@,
            value@,
            separator,
            dedup,
            true,
        ),
        EnvOp::Append { key, value, separator, dedup } => merge_step(
            ambient,
            env,
            key@,
            value@,
            separator,
            dedup,
            false,
        ),
        EnvOp::Unset { key } => env.remove(key@),
    }
}

/// The effect of a list of operations, applied in order.
pub open spec fn steps(
    ambient: Map<Seq<char>, Seq<char>>,
    env: Map<Seq<char>, Seq<char>>,
    ops: Seq<EnvOp>,
) -> Map<Seq<char>, Seq<char>>
    decreases ops.len(),
{
    if ops.len() == 0 {
        env
    } else {
        step(ambient, steps(ambient, env, ops.drop_last()), ops.last())
    }
}

/// `unique` leaves no part twice.
pub proof fn lemma_unique_distinct(ps: Seq<Seq<char>>)
    ensures
        unique(ps).no_duplicates(),
    decreases ps.len(),
{
    if ps.len() > 0 {
        lemma_unique_distinct(ps.drop_last());
    }
}

/// `unique` keeps exactly the parts that were there.
pub proof fn lemma_unique_members(ps: Seq<Seq<char>>)
    ensures
        forall|x: Seq<char>| #[trigger] unique(ps).contains(x) <==> ps.contains(x),
    decreases ps.len(),
{
    if ps.len() > 0 {
        let t = ps.drop_last();
        lemma_unique_members(t);
        let u = unique(t);
        let l = ps.last();
        assert forall|x: Seq<char>| #[trigger] unique(ps).contains(x) <==> ps.contains(x) by {
            if ps.contains(x) {
                let i = choose|i: int| 0 <= i < ps.len() && ps[i] == x;
                if i < ps.len() - 1 {
                    assert(t[i] == x);
                    assert(t.contains(x));
                    assert(u.contains(x));
                    let j = choose|j: int| 0 <= j < u.len() && u[j] == x;
                    if !u.contains(l) {
                        assert(u.push(l)[j] == x);
                    }
                } else {
                    assert(x == l);
                    if !u.contains(l) {
                        assert(u.push(l)[u.len() as int] == x);
                    }
                }
            }
            if unique(ps).contains(x) {
                if u.contains(x) {
                    assert(t.contains(x));
                    let i = choose|i: int| 0 <= i < t.len() && t[i] == x;
                    assert(ps[i] == x);
                } else {
                    let j = choose|j: int| 0 <= j < unique(ps).len() && unique(ps)[j] == x;
                    assert(j == u.len());
                    assert(x == l);
                    assert(ps[ps.len() - 1] == x);
                }
            }
        }
    }
}

/// Whether `out` already holds `entry`.
fn holds(out: &Vec<String>, entry: &str) -> (r: bool)
    ensures
        r == views(out@).contains(entry@),
{
    let mut i: usize = 0;
    while i < out.len()
        invariant
            i <= out@.len(),
            forall|k: int| 0 <= k < i ==> out@[k]@ != entry@,
        decreases out@.len() - i,
    {
        if same(out[i].as_str(), entry) {
            assert(views(out@)[i as int] == entry@);
            return true;
        }
        i += 1;
    }
    proof {
        if views(out@).contains(entry@) {
            let k = choose|k: int| 0 <= k < views(out@).len() && views(out@)[k] == entry@;
            assert(out@[k]@ == entry@);
        }
    }
    false
}

/// Adds `entry` unless `out` already holds it.
pub fn push(out: &mut Vec<String>, entry: String)
    ensures
        views(final(out)@) == if views(old(out)@).contains(entry@) {
            views(old(out)@)
        } else {
            views(old(out)@).push(entry@)
        },
{
    if !holds(out, entry.as_str()) {
        let ghost before = views(out@);
        out.push(entry);
        assert(views(out@) =~= before.push(entry@));
    }
}

/// Keeps the first appearance of every entry, in order.
pub fn unique_of(entries: Vec<String>) -> (r: Vec<String>)
    ensures
        views(r@) == unique(views(entries@)),
{
    let mut out: Vec<String> = Vec::new();
    let mut i: usize = 0;
    while i < entries.len()
        invariant
            i <= entries@.len(),
            views(out@) == unique(views(entries@).take(i as int)),
        decreases entries@.len() - i,
    {
        assert(views(entries@).take(i + 1).drop_last() =~= views(entries@).take(i as int));
        assert(views(entries@).take(i + 1).last() == entries@[i as int]@);
        push(&mut out, entries[i].clone());
        i += 1;
    }
    assert(views(entries@).take(entries@.len() as int) =~= views(entries@));
    out
}

/// The non-empty pieces of `value` between separators.
pub fn split_parts(value: &str, separator: &str) -> (r: Vec<String>)
    ensures
        views(r@) == pieces(value@, separator@),
{
    let mut out: Vec<String> = Vec::new();
    if separator.unicode_len() == 0 {
        let n = value.unicode_len();
        let mut i: usize = 0;
        while i < n
            invariant
                n == value@.len(),
                i <= n,
                views(out@) =~= Seq::new(i as nat, |k: int| seq![value@[k]]),
            decreases n - i,
        {
            let mut one = String::new();
            push_char(&mut one, value.get_char(i));
            assert(one@ =~= seq![value@[i as int]]);
            assert(views(out@.push(one)) =~= views(out@).push(one@));
            out.push(one);
            i += 1;
        }
        return out;
    }
    let parts = split_by(value, separator);
    let mut i: usize = 0;
    while i < parts.len()
        invariant
            i <= parts@.len(),
            views(out@) == nonempty(views(parts@).take(i as int)),
        decreases parts@.len() - i,
    {
        assert(views(parts@).take(i + 1).drop_last() =~= views(parts@).take(i as int));
        assert(views(parts@).take(i + 1).last() == parts@[i as int]@);
        if parts[i].as_str().unicode_len() > 0 {
            let ghost before = views(out@);
            out.push(parts[i].clone());
            assert(views(out@) =~= before.push(parts@[i as int]@));
        }
        i += 1;
    }
    assert(views(parts@).take(parts@.len() as int) =~= views(parts@));
    out
}

/// Merges two list values, optionally dropping repeated entries.
pub fn merge_values(left: &str, right: &str, separator: &str, dedup: bool) -> (r: String)
    ensures
        r@ == merged(left@, right@, separator@, dedup),
{
    let mut out = split_parts(left, separator);
    let mut tail = split_parts(right, separator);
    let ghost l = views(out@);
    let ghost t = views(tail@);
    out.append(&mut tail);
    assert(views(out@) =~= l + t);
    if dedup {
        let kept = unique_of(out);
        return join_with(kept.as_slice(), separator);
    }
    join_with(out.as_slice(), separator)
}

/// The OS path-list separator.
pub fn os_separator() -> (r: &'static str)
    ensures
        r@ == ":"@,
{
    ":"
}

/// The separator an operation uses.
pub fn separator_value(separator: &Option<String>) -> (r: &str)
    ensures
        r@ == separator_of(*separator),
{
    match separator {
        None => os_separator(),
        Some(custom) => {
            if same(custom.as_str(), "os") {
                os_separator()
            } else {
                custom.as_str()
            }
        },
    }
}

/// The value that a prepend or append produces.
pub fn merge_env_op(
    app: &App,
    env: &Table<String>,
    key: &str,
    value: &str,
    separator: &Option<String>,
    dedup: bool,
    prepend: bool,
) -> (r: String)
    ensures
        ({
            let base = base_of(texts(app.env_of()@), texts(env@), key@);
            r@ == if prepend {
                merged(value@, base, separator_of(*separator), dedup)
            } else {
                merged(base, value@, separator_of(*separator), dedup)
            }
        }),
{
    let sep = separator_value(separator);
    let base = match env.get(key) {
        Some(v) => v.clone(),
        None => match app.env().var(key) {
            Some(v) => v,
            None => String::new(),
        },
    };
    if prepend {
        merge_values(value, base.as_str(), sep, dedup)
    } else {
        merge_values(base.as_str(), value, sep, dedup)
    }
}

/// Sets `key` to `value`.
pub fn set(env: &mut Table<String>, key: &str, value: &str)
    ensures
        texts(final(env)@) == texts(old(env)@).insert(key@, value@),
{
    env.insert(owned(key), owned(value));
    assert(texts(env@) =~= texts(old(env)@).insert(key@, value@));
}

/// Sets `key` to `value` unless the variable is set here or in the process
/// environment.
pub fn set_absent(app: &App, env: &mut Table<String>, key: &str, value: &str)
    ensures
        texts(final(env)@) == absent_step(texts(app.env_of()@), texts(old(env)@), key@, value@),
{
    if !env.contains(key) && app.env().var(key).is_none() {
        set(env, key, value);
    }
}

/// Replaces the list under `key` with its merge with `value`.
pub fn set_merged(
    app: &App,
    env: &mut Table<String>,
    key: &str,
    value: &str,
    separator: &Option<String>,
    dedup: bool,
    prepend: bool,
)
    ensures
        texts(final(env)@) == merge_step(texts(app.env_of()@), texts(old(env)@), key@, value@, *separator, dedup, prepend),
{
    let merged = merge_env_op(app, env, key, value, separator, dedup, prepend);
    env.insert(owned(key), merged);
    assert(texts(env@) =~= merge_step(texts(app.env_of()@), texts(old(env)@), key@, value@, *separator, dedup, prepend));
}

/// Removes `key`.
pub fn unset(env: &mut Table<String>, key: &str)
    ensures
        texts(final(env)@) == texts(old(env)@).remove(key@),
{
    env.remove(key);
    assert(texts(env@) =~= texts(old(env)@).remove(key@));
}

/// Applies one operation.
pub fn apply_op(app: &App, env: &mut Table<String>, op: &EnvOp)
    ensures
        texts(final(env)@) == step(texts(app.env_of()@), texts(old(env)@), *op),
{
    match op {
        EnvOp::Assign { key, value } => set(env, key.as_str(), value.as_str()),
        EnvOp::AssignIfAbsent { key, value } => set_absent(app, env, key.as_str(), value.as_str()),
        EnvOp::Prepend { key, value, separator, dedup } => set_merged(
            app,
            env,
            key.as_str(),
            value.as_str(),
            separator,
            *dedup,
            true,
        ),
        EnvOp::Append { key, value, separator, dedup } => set_merged(
            app,
            env,
            key.as_str(),
            value.as_str(),
            separator,
            *dedup,
            false,
        ),
        EnvOp::Unset { key } => unset(env, key.as_str()),
    }
}

/// Applies operations in order.
pub fn apply_ops(app: &App, env: &mut Table<String>, ops: &Vec<EnvOp>) -> (r: Result<(), String>)
    ensures
        r is Ok,
        texts(final(env)@) == steps(texts(app.env_of()@), texts(old(env)@), ops@),
{
    let mut i: usize = 0;
    while i < ops.len()
        invariant
            i <= ops@.len(),
            texts(env@) == steps(texts(app.env_of()@), texts(old(env)@), ops@.take(i as int)),
        decreases ops@.len() - i,
    {
        assert(ops@.take(i + 1).drop_last() =~= ops@.take(i as int));
        apply_op(app, env, &ops[i]);
        i += 1;
    }
    assert(ops@.take(ops@.len() as int) =~= ops@);
    Ok(())
}

/// Why a key is refused, if it is.
pub open spec fn key_fault(key: Seq<char>) -> Option<Seq<char>> {
    if trim(key).len() == 0 {
        Some("env var key must not be empty"@)
    } else {
        None
    }
}

/// Why a key and value are refused, if they are.
pub open spec fn pair_fault(key: Seq<char>, value: Seq<char>) -> Option<Seq<char>> {
    if key_fault(key) is Some {
        key_fault(key)
    } else if trim(value).len() == 0 {
        Some("env var value must not be empty"@)
    } else {
        None
    }
}

/// Why a separator is refused, if it is.
pub open spec fn separator_fault(separator: Option<String>) -> Option<Seq<char>> {
    match separator {
        Some(s) => if s@.len() == 0 {
            Some("separator must not be empty"@)
        } else {
            None
        },
        None => None,
    }
}

/// Why an operation is refused, if it is.
pub open spec fn op_fault(op: EnvOp) -> Option<Seq<char>> {
    match op {
        EnvOp::Assign { key, value } => pair_fault(key@, value@),
        EnvOp::AssignIfAbsent { key, value } => pair_fault(key@, value@),
        EnvOp::Prepend { key, value, separator, .. } => if pair_fault(key@, value@) is Some {
            pair_fault(key@, value@)
        } else {
            separator_fault(separator)
        },
        EnvOp::Append { key, value, separator, .. } => if pair_fault(key@, value@) is Some {
            pair_fault(key@, value@)
        } else {
            separator_fault(separator)
        },
        EnvOp::Unset { key } => key_fault(key@),
    }
}

/// Checks a variable name.
pub fn validate_key(key: &str) -> (r: Result<(), String>)
    ensures
        r is Ok <==> key_fault(key@) is None,
        r matches Err(e) ==> key_fault(key@) == Some(e@),
{
    if trimmed(key).as_str().unicode_len() == 0 {
        return Err(owned("env var key must not be empty"));
    }
    Ok(())
}

/// Checks a variable name and value.
pub fn validate_key_value(key: &str, value: &str) -> (r: Result<(), String>)
    ensures
        r is Ok <==> pair_fault(key@, value@) is None,
        r matches Err(e) ==> pair_fault(key@, value@) == Some(e@),
{
    validate_key(key)?;
    if trimmed(value).as_str().unicode_len() == 0 {
        return Err(owned("env var value must not be empty"));
    }
    Ok(())
}

/// Checks a list separator.
pub fn validate_separator(separator: &Option<String>) -> (r: Result<(), String>)
    ensures
        r is Ok <==> separator_fault(*separator) is None,
        r matches Err(e) ==> separator_fault(*separator) == Some(e@),
{
    if let Some(s) = separator {
        if s.as_str().unicode_len() == 0 {
            return Err(owned("separator must not be empty"));
        }
    }
    Ok(())
}

/// Checks a prepend or append.
pub fn validate_merge(key: &str, value: &str, separator: &Option<String>) -> (r: Result<(), String>)
    ensures
        r is Ok <==> pair_fault(key@, value@) is None && separator_fault(*separator) is None,
        r matches Err(e) ==> if pair_fault(key@, value@) is Some {
            pair_fault(key@, value@) == Some(e@)
        } else {
            separator_fault(*separator) == Some(e@)
        },
{
    validate_key_value(key, value)?;
    validate_separator(separator)
}

/// Checks one operation.
pub fn validate_op(op: &EnvOp) -> (r: Result<(), String>)
    ensures
        r is Ok <==> op_fault(*op) is None,
        r matches Err(e) ==> op_fault(*op) == Some(e@),
{
    match op {
        EnvOp::Assign { key, value } => validate_key_value(key.as_str(), value.as_str()),
        EnvOp::AssignIfAbsent { key, value } => validate_key_value(key.as_str(), value.as_str()),
        EnvOp::Prepend { key, value, separator, .. } => validate_merge(key.as_str(), value.as_str(), separator),
        EnvOp::Append { key, value, separator, .. } => validate_merge(key.as_str(), value.as_str(), separator),
        EnvOp::Unset { key } => validate_key(key.as_str()),
    }
}

/// The environment injection of one run.
pub struct EnvInjection {
    cfg: EnvProfile,
}

/// Every key and operation of a profile is accepted.
pub open spec fn accepted(cfg: EnvProfile) -> bool {
    &&& forall|k: Seq<char>| #[trigger] cfg.vars@.contains_key(k) ==> key_fault(k) is None
    &&& forall|i: int| 0 <= i < cfg.ops@.len() ==> op_fault(#[trigger] cfg.ops@[i]) is None
}

/// Some key or operation of a profile is refused with error `e`.
pub open spec fn refused(cfg: EnvProfile, e: Seq<char>) -> bool {
    ||| exists|k: Seq<char>| #[trigger] cfg.vars@.contains_key(k) && key_fault(k) == Some(e)
    ||| exists|i: int| 0 <= i < cfg.ops@.len() && op_fault(#[trigger] cfg.ops@[i]) == Some(e)
}

impl EnvInjection {
    /// The injection of `cfg`.
    pub fn new(cfg: EnvProfile) -> (r: Self)
        ensures
            r.cfg() == cfg,
    {
        EnvInjection { cfg }
    }

    /// The profile part this injection applies.
    pub closed spec fn cfg(&self) -> EnvProfile {
        self.cfg
    }

    /// The injection's name.
    pub fn name(&self) -> (r: &'static str)
        ensures
            r@ == "env"@,
    {
        "env"
    }

    /// Checks every key, then every operation, in order.
    pub fn validate(&self) -> (r: Result<(), String>)
        ensures
            r is Ok <==> accepted(self.cfg()),
            r matches Err(e) ==> refused(self.cfg(), e@),
    {
        let entries = self.cfg.vars.entries();
        let mut i: usize = 0;
        while i < entries.len()
            invariant
                i <= entries@.len(),
                forall|k: Seq<char>| #[trigger] self.cfg.vars@.contains_key(k) <==> crate::table::has_key(entries@, k),
                forall|j: int| 0 <= j < i ==> key_fault(#[trigger] entries@[j].0@) is None,
            decreases entries@.len() - i,
        {
            if let Err(e) = validate_key(entries[i].0.as_str()) {
                assert(crate::table::has_key(entries@, entries@[i as int].0@));
                assert(self.cfg.vars@.contains_key(entries@[i as int].0@));
                assert(key_fault(entries@[i as int].0@) == Some(e@));
                return Err(e);
            }
            i += 1;
        }
        assert forall|k: Seq<char>| #[trigger] self.cfg.vars@.contains_key(k) implies key_fault(k) is None by {
            let j = choose|j: int| 0 <= j < entries@.len() && #[trigger] entries@[j].0@ == k;
        }
        let mut j: usize = 0;
        while j < self.cfg.ops.len()
            invariant
                j <= self.cfg.ops@.len(),
                forall|k: Seq<char>| #[trigger] self.cfg.vars@.contains_key(k) ==> key_fault(k) is None,
                forall|m: int| 0 <= m < j ==> op_fault(#[trigger] self.cfg.ops@[m]) is None,
            decreases self.cfg.ops@.len() - j,
        {
            validate_op(&self.cfg.ops[j])?;
            j += 1;
        }
        Ok(())
    }

    /// Nothing to set up.
    pub fn register(&mut self) -> (r: Result<(), String>)
        ensures
            r is Ok,
            final(self).cfg() == old(self).cfg(),
    {
        Ok(())
    }

    /// The variables to set for the child, in key order: the profile's
    /// variables with its operations applied.
    pub fn export(&self, app: &App) -> (r: Result<Vec<(String, String)>, String>)
        ensures
            r matches Ok(v) && sorted(v@) && texts(as_map(v@)) == steps(
                texts(app.env_of()@),
                texts(self.cfg().vars@),
                self.cfg().ops@,
            ),
    {
        let mut env = self.cfg.vars.duplicate();
        let _ = apply_ops(app, &mut env, &self.cfg.ops);
        Ok(env.pairs())
    }

    /// Nothing to tear down.
    pub fn shutdown(&mut self) -> (r: Result<(), String>)
        ensures
            r is Ok,
            final(self).cfg() == old(self).cfg(),
    {
        Ok(())
    }
}

} // verus!
