//! Progressive help of the native tools: `@tool <path...> --help` prints the
//! entry of the dotted path.
use vstd::prelude::*;

use crate::text::{join, join_with, owned, push_char, same, views};

verus! {

/// A titled list of names and their descriptions.
pub struct Section {
    pub title: String,
    pub items: Vec<(String, String)>,
}

/// A help entry.
pub struct Entry {
    pub key: String,
    pub usage: String,
    pub about: Option<String>,
    pub sections: Vec<Section>,
    pub examples: Vec<String>,
}

/// A section, in text.
pub struct SectionModel {
    pub title: Seq<char>,
    pub items: Seq<(Seq<char>, Seq<char>)>,
}

/// A help entry, in text.
pub struct EntryModel {
    pub key: Seq<char>,
    pub usage: Seq<char>,
    pub about: Option<Seq<char>>,
    pub sections: Seq<SectionModel>,
    pub examples: Seq<Seq<char>>,
}

/// The text of pairs of strings.
pub open spec fn pairs(v: Seq<(String, String)>) -> Seq<(Seq<char>, Seq<char>)> {
    v.map_values(|p: (String, String)| (p.0@, p.1@))
}

impl Section {
    /// The section in text.
    pub open spec fn model(&self) -> SectionModel {
        SectionModel { title: self.title@, items: pairs(self.items@) }
    }
}

impl Entry {
    /// The sections in text.
    pub open spec fn sections_model(v: Seq<Section>) -> Seq<SectionModel> {
        v.map_values(|s: Section| s.model())
    }

    /// The entry in text.
    pub open spec fn model(&self) -> EntryModel {
        EntryModel {
            key: self.key@,
            usage: self.usage@,
            about: match self.about {
                Some(a) => Some(a@),
                None => None,
            },
            sections: Entry::sections_model(self.sections@),
            examples: views(self.examples@),
        }
    }
}

/// The help of `@tool` itself.
pub open spec fn top_text() -> Seq<char> {
    "Usage: runseal @tool <namespace> <command> [args]\n\nRun an atomic runseal tool command.\n\nTools:\n  forgejo ...                            forgejo repository and actions helpers\n  github ...                             github helpers\n  cloudflare ...                         cloudflare helpers\n"@
}

/// The help of `@tool` itself.
pub fn top() -> (r: &'static str)
    ensures
        r@ == top_text(),
{
    "Usage: runseal @tool <namespace> <command> [args]\n\nRun an atomic runseal tool command.\n\nTools:\n  forgejo ...                            forgejo repository and actions helpers\n  github ...                             github helpers\n  cloudflare ...                         cloudflare helpers\n"
}

/// `n` spaces.
pub open spec fn spaces(n: nat) -> Seq<char> {
    Seq::new(n, |i: int| ' ')
}

/// The gap after an item's name: up to column 44 (in UTF-8 bytes), and at
/// least two spaces.
pub open spec fn gap(name: Seq<char>) -> nat {
    let w = vstd::utf8::encode_utf8(name).len();
    if w + 2 <= 44 {
        (44 - w) as nat
    } else {
        2
    }
}

/// One item line of a section.
pub open spec fn item_line(p: (Seq<char>, Seq<char>)) -> Seq<char> {
    "  "@ + p.0 + spaces(gap(p.0)) + p.1 + "\n"@
}

/// The item lines of a section.
pub open spec fn items_text(v: Seq<(Seq<char>, Seq<char>)>) -> Seq<char>
    decreases v.len(),
{
    if v.len() == 0 {
        seq![]
    } else {
        items_text(v.drop_last()) + item_line(v.last())
    }
}

/// One section: a blank line, its title, its items.
pub open spec fn section_text(s: SectionModel) -> Seq<char> {
    "\n"@ + s.title + ":\n"@ + items_text(s.items)
}

/// The sections of an entry.
pub open spec fn sections_text(v: Seq<SectionModel>) -> Seq<char>
    decreases v.len(),
{
    if v.len() == 0 {
        seq![]
    } else {
        sections_text(v.drop_last()) + section_text(v.last())
    }
}

/// The example lines of an entry.
pub open spec fn example_lines(v: Seq<Seq<char>>) -> Seq<char>
    decreases v.len(),
{
    if v.len() == 0 {
        seq![]
    } else {
        example_lines(v.drop_last()) + "  "@ + v.last() + "\n"@
    }
}

/// The text of a help entry: a bare usage line when there is nothing more,
/// else the usage, the description, the sections and the examples.
pub open spec fn render_of(e: EntryModel) -> Seq<char> {
    if e.about is None && e.sections.len() == 0 && e.examples.len() == 0 {
        "usage: "@ + e.usage
    } else {
        "Usage: "@ + e.usage + "\n"@ + (match e.about {
            Some(a) => "\n"@ + a + "\n"@,
            None => seq![],
        }) + sections_text(e.sections) + (if e.examples.len() == 0 {
            seq![]
        } else {
            "\n"@ + "Examples:\n"@ + example_lines(e.examples)
        })
    }
}

/// Appends `n` spaces.
fn pad(out: &mut String, n: usize)
    ensures
        final(out)@ == old(out)@ + spaces(n as nat),
{
    let mut i: usize = 0;
    while i < n
        invariant
            i <= n,
            out@ == old(out)@ + spaces(i as nat),
        decreases n - i,
    {
        push_char(out, ' ');
        assert(out@ =~= old(out)@ + spaces((i + 1) as nat));
        i += 1;
    }
}

/// Appends one section.
fn section(out: &mut String, s: &Section)
    ensures
        final(out)@ == old(out)@ + section_text(s.model()),
{
    out.append("\n");
    out.append(s.title.as_str());
    out.append(":\n");
    let ghost head = out@;
    let mut i: usize = 0;
    while i < s.items.len()
        invariant
            i <= s.items@.len(),
            head == old(out)@ + "\n"@ + s.title@ + ":\n"@,
            out@ == head + items_text(pairs(s.items@).take(i as int)),
        decreases s.items@.len() - i,
    {
        let (name, desc) = (&s.items[i].0, &s.items[i].1);
        out.append("  ");
        out.append(name.as_str());
        let w = name.as_str().as_bytes().len();
        let n = if w <= 42 { 44 - w } else { 2 };
        pad(out, n);
        out.append(desc.as_str());
        out.append("\n");
        proof {
            let v = pairs(s.items@);
            assert(v.take(i + 1).drop_last() =~= v.take(i as int));
            assert(v[i as int] == (name@, desc@));
        }
        i += 1;
    }
    assert(pairs(s.items@).take(s.items@.len() as int) =~= pairs(s.items@));
}

/// Renders a help entry.
pub fn render(e: &Entry) -> (r: String)
    ensures
        r@ == render_of(e.model()),
{
    if e.about.is_none() && e.sections.len() == 0 && e.examples.len() == 0 {
        let mut out = owned("usage: ");
        out.append(e.usage.as_str());
        return out;
    }
    let mut out = owned("Usage: ");
    out.append(e.usage.as_str());
    out.append("\n");
    if let Some(about) = &e.about {
        out.append("\n");
        out.append(about.as_str());
        out.append("\n");
    }
    let ghost head = out@;
    let mut i: usize = 0;
    while i < e.sections.len()
        invariant
            i <= e.sections@.len(),
            out@ == head + sections_text(Entry::sections_model(e.sections@).take(i as int)),
        decreases e.sections@.len() - i,
    {
        section(&mut out, &e.sections[i]);
        proof {
            let v = Entry::sections_model(e.sections@);
            assert(v.take(i + 1).drop_last() =~= v.take(i as int));
        }
        i += 1;
    }
    assert(Entry::sections_model(e.sections@).take(e.sections@.len() as int) =~= Entry::sections_model(e.sections@));
    if e.examples.len() > 0 {
        out.append("\n");
        out.append("Examples:\n");
        let ghost mid = out@;
        let mut k: usize = 0;
        while k < e.examples.len()
            invariant
                k <= e.examples@.len(),
                out@ == mid + example_lines(views(e.examples@).take(k as int)),
            decreases e.examples@.len() - k,
        {
            out.append("  ");
            out.append(e.examples[k].as_str());
            out.append("\n");
            proof {
                let v = views(e.examples@);
                assert(v.take(k + 1).drop_last() =~= v.take(k as int));
            }
            k += 1;
        }
        assert(views(e.examples@).take(e.examples@.len() as int) =~= views(e.examples@));
    }
    out
}

/// Whether an argument asks for help.
pub open spec fn asks_help(a: Seq<char>) -> bool {
    a == "-h"@ || a == "--help"@ || a == "help"@
}

/// Progressive help: when the last argument asks for help, the entry of the
/// path before it (`@tool` itself for an empty path), if there is one.
pub open spec fn progressive_of(args: Seq<Seq<char>>) -> Option<Seq<char>> {
    if args.len() == 0 || !asks_help(args.last()) {
        None
    } else if args.len() == 1 {
        Some(top_text())
    } else {
        match entry_of(join(args.drop_last(), "."@)) {
            Some(e) => Some(render_of(e)),
            None => None,
        }
    }
}

/// Progressive help of a tool path.
pub fn progressive(args: &[String]) -> (r: Option<String>)
    ensures
        match progressive_of(views(args@)) {
            Some(t) => r matches Some(s) && s@ == t,
            None => r is None,
        },
{
    let n = args.len();
    if n == 0 {
        return None;
    }
    let last = args[n - 1].as_str();
    assert(views(args@).last() == last@);
    if !same(last, "-h") && !same(last, "--help") && !same(last, "help") {
        return None;
    }
    if n == 1 {
        return Some(owned(top()));
    }
    let path = slice_front(args, n - 1);
    assert(views(path@) =~= views(args@).drop_last());
    let key = join_with(path.as_slice(), ".");
    match entry(key.as_str()) {
        Some(e) => Some(render(&e)),
        None => None,
    }
}

/// The first `k` arguments.
fn slice_front(args: &[String], k: usize) -> (r: Vec<String>)
    requires
        k <= args@.len(),
    ensures
        r@ == args@.take(k as int),
{
    let mut out: Vec<String> = Vec::new();
    let mut i: usize = 0;
    while i < k
        invariant
            i <= k,
            k <= args@.len(),
            out@ == args@.take(i as int),
        decreases k - i,
    {
        out.push(args[i].clone());
        assert(out@ =~= args@.take(i + 1));
        i += 1;
    }
    out
}

/// The help entry `forgejo`.
pub open spec fn page_forgejo() -> EntryModel {
    EntryModel {
        key: "forgejo"@,
        usage: "runseal @tool forgejo <scope> <command> [args]"@,
        about: Some("Forgejo API helpers backed by Tea login or CI environment credentials."@),
        sections: seq![SectionModel { title: "Forgejo helpers"@, items: seq![("repo get|create"@, "query or create a repository"@), ("pr find|create|get|merge|guard"@, "manage pull requests and wait for guard"@), ("secret upsert"@, "create or update a repository Actions secret"@), ("variable upsert"@, "create or update a repository Actions variable"@), ("workflow dispatch"@, "dispatch one workflow and return its run"@), ("run list|get|watch|cancel"@, "inspect or wait for Actions runs"@)] }],
        examples: seq!["runseal @tool forgejo repo get --repo PerishFire/runseal"@],
    }
}

fn build_forgejo() -> (r: Entry)
    ensures
        r.model() == page_forgejo(),
{
    let mut sections: Vec<Section> = Vec::new();
    let mut items0: Vec<(String, String)> = Vec::new();
    items0.push((owned("repo get|create"), owned("query or create a repository")));
    items0.push((owned("pr find|create|get|merge|guard"), owned("manage pull requests and wait for guard")));
    items0.push((owned("secret upsert"), owned("create or update a repository Actions secret")));
    items0.push((owned("variable upsert"), owned("create or update a repository Actions variable")));
    items0.push((owned("workflow dispatch"), owned("dispatch one workflow and return its run")));
    items0.push((owned("run list|get|watch|cancel"), owned("inspect or wait for Actions runs")));
    assert(pairs(items0@) =~= seq![("repo get|create"@, "query or create a repository"@), ("pr find|create|get|merge|guard"@, "manage pull requests and wait for guard"@), ("secret upsert"@, "create or update a repository Actions secret"@), ("variable upsert"@, "create or update a repository Actions variable"@), ("workflow dispatch"@, "dispatch one workflow and return its run"@), ("run list|get|watch|cancel"@, "inspect or wait for Actions runs"@)]);
    sections.push(Section { title: owned("Forgejo helpers"), items: items0 });
    assert(Entry::sections_model(sections@) =~= page_forgejo().sections);
    let mut examples: Vec<String> = Vec::new();
    examples.push(owned("runseal @tool forgejo repo get --repo PerishFire/runseal"));
    assert(views(examples@) =~= page_forgejo().examples);
    Entry { key: owned("forgejo"), usage: owned("runseal @tool forgejo <scope> <command> [args]"), about: Some(owned("Forgejo API helpers backed by Tea login or CI environment credentials.")), sections, examples }
}

/// The help entry `forgejo.repo`.
pub open spec fn page_forgejo_repo() -> EntryModel {
    EntryModel {
        key: "forgejo.repo"@,
        usage: "runseal @tool forgejo repo get|create [args]"@,
        about: None,
        sections: seq![],
        examples: seq![],
    }
}

fn build_forgejo_repo() -> (r: Entry)
    ensures
        r.model() == page_forgejo_repo(),
{
    let mut sections: Vec<Section> = Vec::new();
    assert(Entry::sections_model(sections@) =~= page_forgejo_repo().sections);
    let mut examples: Vec<String> = Vec::new();
    assert(views(examples@) =~= page_forgejo_repo().examples);
    Entry { key: owned("forgejo.repo"), usage: owned("runseal @tool forgejo repo get|create [args]"), about: None, sections, examples }
}

/// The help entry `forgejo.repo.get`.
pub open spec fn page_forgejo_repo_get() -> EntryModel {
    EntryModel {
        key: "forgejo.repo.get"@,
        usage: "runseal @tool forgejo repo get --repo <owner/name> [--login <name>]"@,
        about: None,
        sections: seq![],
        examples: seq![],
    }
}

fn build_forgejo_repo_get() -> (r: Entry)
    ensures
        r.model() == page_forgejo_repo_get(),
{
    let mut sections: Vec<Section> = Vec::new();
    assert(Entry::sections_model(sections@) =~= page_forgejo_repo_get().sections);
    let mut examples: Vec<String> = Vec::new();
    assert(views(examples@) =~= page_forgejo_repo_get().examples);
    Entry { key: owned("forgejo.repo.get"), usage: owned("runseal @tool forgejo repo get --repo <owner/name> [--login <name>]"), about: None, sections, examples }
}

/// The help entry `forgejo.repo.create`.
pub open spec fn page_forgejo_repo_create() -> EntryModel {
    EntryModel {
        key: "forgejo.repo.create"@,
        usage: "runseal @tool forgejo repo create --owner <owner|@me> --name <name> [--private <true|false>] [--description <text>]"@,
        about: None,
        sections: seq![],
        examples: seq![],
    }
}

fn build_forgejo_repo_create() -> (r: Entry)
    ensures
        r.model() == page_forgejo_repo_create(),
{
    let mut sections: Vec<Section> = Vec::new();
    assert(Entry::sections_model(sections@) =~= page_forgejo_repo_create().sections);
    let mut examples: Vec<String> = Vec::new();
    assert(views(examples@) =~= page_forgejo_repo_create().examples);
    Entry { key: owned("forgejo.repo.create"), usage: owned("runseal @tool forgejo repo create --owner <owner|@me> --name <name> [--private <true|false>] [--description <text>]"), about: None, sections, examples }
}

/// The help entry `forgejo.pr`.
pub open spec fn page_forgejo_pr() -> EntryModel {
    EntryModel {
        key: "forgejo.pr"@,
        usage: "runseal @tool forgejo pr find|create|get|merge|guard [args]"@,
        about: None,
        sections: seq![],
        examples: seq![],
    }
}

fn build_forgejo_pr() -> (r: Entry)
    ensures
        r.model() == page_forgejo_pr(),
{
    let mut sections: Vec<Section> = Vec::new();
    assert(Entry::sections_model(sections@) =~= page_forgejo_pr().sections);
    let mut examples: Vec<String> = Vec::new();
    assert(views(examples@) =~= page_forgejo_pr().examples);
    Entry { key: owned("forgejo.pr"), usage: owned("runseal @tool forgejo pr find|create|get|merge|guard [args]"), about: None, sections, examples }
}

/// The help entry `forgejo.pr.find`.
pub open spec fn page_forgejo_pr_find() -> EntryModel {
    EntryModel {
        key: "forgejo.pr.find"@,
        usage: "runseal @tool forgejo pr find --repo <owner/name> --head <branch> --base <branch>"@,
        about: None,
        sections: seq![],
        examples: seq![],
    }
}

fn build_forgejo_pr_find() -> (r: Entry)
    ensures
        r.model() == page_forgejo_pr_find(),
{
    let mut sections: Vec<Section> = Vec::new();
    assert(Entry::sections_model(sections@) =~= page_forgejo_pr_find().sections);
    let mut examples: Vec<String> = Vec::new();
    assert(views(examples@) =~= page_forgejo_pr_find().examples);
    Entry { key: owned("forgejo.pr.find"), usage: owned("runseal @tool forgejo pr find --repo <owner/name> --head <branch> --base <branch>"), about: None, sections, examples }
}

/// The help entry `forgejo.pr.create`.
pub open spec fn page_forgejo_pr_create() -> EntryModel {
    EntryModel {
        key: "forgejo.pr.create"@,
        usage: "runseal @tool forgejo pr create --repo <owner/name> --head <branch> --base <branch> --title <text> [--body <text>]"@,
        about: None,
        sections: seq![],
        examples: seq![],
    }
}

fn build_forgejo_pr_create() -> (r: Entry)
    ensures
        r.model() == page_forgejo_pr_create(),
{
    let mut sections: Vec<Section> = Vec::new();
    assert(Entry::sections_model(sections@) =~= page_forgejo_pr_create().sections);
    let mut examples: Vec<String> = Vec::new();
    assert(views(examples@) =~= page_forgejo_pr_create().examples);
    Entry { key: owned("forgejo.pr.create"), usage: owned("runseal @tool forgejo pr create --repo <owner/name> --head <branch> --base <branch> --title <text> [--body <text>]"), about: None, sections, examples }
}

/// The help entry `forgejo.pr.get`.
pub open spec fn page_forgejo_pr_get() -> EntryModel {
    EntryModel {
        key: "forgejo.pr.get"@,
        usage: "runseal @tool forgejo pr get --repo <owner/name> --number <n>"@,
        about: None,
        sections: seq![],
        examples: seq![],
    }
}

fn build_forgejo_pr_get() -> (r: Entry)
    ensures
        r.model() == page_forgejo_pr_get(),
{
    let mut sections: Vec<Section> = Vec::new();
    assert(Entry::sections_model(sections@) =~= page_forgejo_pr_get().sections);
    let mut examples: Vec<String> = Vec::new();
    assert(views(examples@) =~= page_forgejo_pr_get().examples);
    Entry { key: owned("forgejo.pr.get"), usage: owned("runseal @tool forgejo pr get --repo <owner/name> --number <n>"), about: None, sections, examples }
}

/// The help entry `forgejo.pr.merge`.
pub open spec fn page_forgejo_pr_merge() -> EntryModel {
    EntryModel {
        key: "forgejo.pr.merge"@,
        usage: "runseal @tool forgejo pr merge --repo <owner/name> --number <n> --head <guarded-sha> [--delete-branch <true|false>]"@,
        about: Some("Squash-merge one pull request after the caller has verified its guard."@),
        sections: seq![],
        examples: seq![],
    }
}

fn build_forgejo_pr_merge() -> (r: Entry)
    ensures
        r.model() == page_forgejo_pr_merge(),
{
    let mut sections: Vec<Section> = Vec::new();
    assert(Entry::sections_model(sections@) =~= page_forgejo_pr_merge().sections);
    let mut examples: Vec<String> = Vec::new();
    assert(views(examples@) =~= page_forgejo_pr_merge().examples);
    Entry { key: owned("forgejo.pr.merge"), usage: owned("runseal @tool forgejo pr merge --repo <owner/name> --number <n> --head <guarded-sha> [--delete-branch <true|false>]"), about: Some(owned("Squash-merge one pull request after the caller has verified its guard.")), sections, examples }
}

/// The help entry `forgejo.pr.guard`.
pub open spec fn page_forgejo_pr_guard() -> EntryModel {
    EntryModel {
        key: "forgejo.pr.guard"@,
        usage: "runseal @tool forgejo pr guard --repo <owner/name> --number <n> [--workflow guard.yml] [--interval <seconds>] [--timeout <seconds>]"@,
        about: Some("Wait for the pull request head's Forgejo Actions guard run and fail closed."@),
        sections: seq![],
        examples: seq![],
    }
}

fn build_forgejo_pr_guard() -> (r: Entry)
    ensures
        r.model() == page_forgejo_pr_guard(),
{
    let mut sections: Vec<Section> = Vec::new();
    assert(Entry::sections_model(sections@) =~= page_forgejo_pr_guard().sections);
    let mut examples: Vec<String> = Vec::new();
    assert(views(examples@) =~= page_forgejo_pr_guard().examples);
    Entry { key: owned("forgejo.pr.guard"), usage: owned("runseal @tool forgejo pr guard --repo <owner/name> --number <n> [--workflow guard.yml] [--interval <seconds>] [--timeout <seconds>]"), about: Some(owned("Wait for the pull request head's Forgejo Actions guard run and fail closed.")), sections, examples }
}

/// The help entry `forgejo.secret`.
pub open spec fn page_forgejo_secret() -> EntryModel {
    EntryModel {
        key: "forgejo.secret"@,
        usage: "runseal @tool forgejo secret upsert [args]"@,
        about: None,
        sections: seq![],
        examples: seq![],
    }
}

fn build_forgejo_secret() -> (r: Entry)
    ensures
        r.model() == page_forgejo_secret(),
{
    let mut sections: Vec<Section> = Vec::new();
    assert(Entry::sections_model(sections@) =~= page_forgejo_secret().sections);
    let mut examples: Vec<String> = Vec::new();
    assert(views(examples@) =~= page_forgejo_secret().examples);
    Entry { key: owned("forgejo.secret"), usage: owned("runseal @tool forgejo secret upsert [args]"), about: None, sections, examples }
}

/// The help entry `forgejo.secret.upsert`.
pub open spec fn page_forgejo_secret_upsert() -> EntryModel {
    EntryModel {
        key: "forgejo.secret.upsert"@,
        usage: "runseal @tool forgejo secret upsert --repo <owner/name> --name <name> (--value <text>|--value-env <name>|--value-file <path>)"@,
        about: Some("Prefer --value-env or --value-file so secret data is not exposed in process arguments."@),
        sections: seq![],
        examples: seq![],
    }
}

fn build_forgejo_secret_upsert() -> (r: Entry)
    ensures
        r.model() == page_forgejo_secret_upsert(),
{
    let mut sections: Vec<Section> = Vec::new();
    assert(Entry::sections_model(sections@) =~= page_forgejo_secret_upsert().sections);
    let mut examples: Vec<String> = Vec::new();
    assert(views(examples@) =~= page_forgejo_secret_upsert().examples);
    Entry { key: owned("forgejo.secret.upsert"), usage: owned("runseal @tool forgejo secret upsert --repo <owner/name> --name <name> (--value <text>|--value-env <name>|--value-file <path>)"), about: Some(owned("Prefer --value-env or --value-file so secret data is not exposed in process arguments.")), sections, examples }
}

/// The help entry `forgejo.variable`.
pub open spec fn page_forgejo_variable() -> EntryModel {
    EntryModel {
        key: "forgejo.variable"@,
        usage: "runseal @tool forgejo variable upsert [args]"@,
        about: None,
        sections: seq![],
        examples: seq![],
    }
}

fn build_forgejo_variable() -> (r: Entry)
    ensures
        r.model() == page_forgejo_variable(),
{
    let mut sections: Vec<Section> = Vec::new();
    assert(Entry::sections_model(sections@) =~= page_forgejo_variable().sections);
    let mut examples: Vec<String> = Vec::new();
    assert(views(examples@) =~= page_forgejo_variable().examples);
    Entry { key: owned("forgejo.variable"), usage: owned("runseal @tool forgejo variable upsert [args]"), about: None, sections, examples }
}

/// The help entry `forgejo.variable.upsert`.
pub open spec fn page_forgejo_variable_upsert() -> EntryModel {
    EntryModel {
        key: "forgejo.variable.upsert"@,
        usage: "runseal @tool forgejo variable upsert --repo <owner/name> --name <name> (--value <text>|--value-env <name>|--value-file <path>)"@,
        about: None,
        sections: seq![],
        examples: seq![],
    }
}

fn build_forgejo_variable_upsert() -> (r: Entry)
    ensures
        r.model() == page_forgejo_variable_upsert(),
{
    let mut sections: Vec<Section> = Vec::new();
    assert(Entry::sections_model(sections@) =~= page_forgejo_variable_upsert().sections);
    let mut examples: Vec<String> = Vec::new();
    assert(views(examples@) =~= page_forgejo_variable_upsert().examples);
    Entry { key: owned("forgejo.variable.upsert"), usage: owned("runseal @tool forgejo variable upsert --repo <owner/name> --name <name> (--value <text>|--value-env <name>|--value-file <path>)"), about: None, sections, examples }
}

/// The help entry `forgejo.workflow`.
pub open spec fn page_forgejo_workflow() -> EntryModel {
    EntryModel {
        key: "forgejo.workflow"@,
        usage: "runseal @tool forgejo workflow dispatch [args]"@,
        about: None,
        sections: seq![],
        examples: seq![],
    }
}

fn build_forgejo_workflow() -> (r: Entry)
    ensures
        r.model() == page_forgejo_workflow(),
{
    let mut sections: Vec<Section> = Vec::new();
    assert(Entry::sections_model(sections@) =~= page_forgejo_workflow().sections);
    let mut examples: Vec<String> = Vec::new();
    assert(views(examples@) =~= page_forgejo_workflow().examples);
    Entry { key: owned("forgejo.workflow"), usage: owned("runseal @tool forgejo workflow dispatch [args]"), about: None, sections, examples }
}

/// The help entry `forgejo.workflow.dispatch`.
pub open spec fn page_forgejo_workflow_dispatch() -> EntryModel {
    EntryModel {
        key: "forgejo.workflow.dispatch"@,
        usage: "runseal @tool forgejo workflow dispatch --repo <owner/name> --workflow <file> --ref <ref> [--input <key=value>]..."@,
        about: Some("Dispatch a workflow with return_run_info enabled and print the run JSON."@),
        sections: seq![],
        examples: seq![],
    }
}

fn build_forgejo_workflow_dispatch() -> (r: Entry)
    ensures
        r.model() == page_forgejo_workflow_dispatch(),
{
    let mut sections: Vec<Section> = Vec::new();
    assert(Entry::sections_model(sections@) =~= page_forgejo_workflow_dispatch().sections);
    let mut examples: Vec<String> = Vec::new();
    assert(views(examples@) =~= page_forgejo_workflow_dispatch().examples);
    Entry { key: owned("forgejo.workflow.dispatch"), usage: owned("runseal @tool forgejo workflow dispatch --repo <owner/name> --workflow <file> --ref <ref> [--input <key=value>]..."), about: Some(owned("Dispatch a workflow with return_run_info enabled and print the run JSON.")), sections, examples }
}

/// The help entry `forgejo.run`.
pub open spec fn page_forgejo_run() -> EntryModel {
    EntryModel {
        key: "forgejo.run"@,
        usage: "runseal @tool forgejo run list|get|watch|cancel [args]"@,
        about: None,
        sections: seq![],
        examples: seq![],
    }
}

fn build_forgejo_run() -> (r: Entry)
    ensures
        r.model() == page_forgejo_run(),
{
    let mut sections: Vec<Section> = Vec::new();
    assert(Entry::sections_model(sections@) =~= page_forgejo_run().sections);
    let mut examples: Vec<String> = Vec::new();
    assert(views(examples@) =~= page_forgejo_run().examples);
    Entry { key: owned("forgejo.run"), usage: owned("runseal @tool forgejo run list|get|watch|cancel [args]"), about: None, sections, examples }
}

/// The help entry `forgejo.run.list`.
pub open spec fn page_forgejo_run_list() -> EntryModel {
    EntryModel {
        key: "forgejo.run.list"@,
        usage: "runseal @tool forgejo run list --repo <owner/name> [--workflow <file>] [--event <event>] [--status <status>] [--sha <sha>] [--ref <ref>] [--number <n>] [--limit <n>]"@,
        about: None,
        sections: seq![],
        examples: seq![],
    }
}

fn build_forgejo_run_list() -> (r: Entry)
    ensures
        r.model() == page_forgejo_run_list(),
{
    let mut sections: Vec<Section> = Vec::new();
    assert(Entry::sections_model(sections@) =~= page_forgejo_run_list().sections);
    let mut examples: Vec<String> = Vec::new();
    assert(views(examples@) =~= page_forgejo_run_list().examples);
    Entry { key: owned("forgejo.run.list"), usage: owned("runseal @tool forgejo run list --repo <owner/name> [--workflow <file>] [--event <event>] [--status <status>] [--sha <sha>] [--ref <ref>] [--number <n>] [--limit <n>]"), about: None, sections, examples }
}

/// The help entry `forgejo.run.get`.
pub open spec fn page_forgejo_run_get() -> EntryModel {
    EntryModel {
        key: "forgejo.run.get"@,
        usage: "runseal @tool forgejo run get --repo <owner/name> --id <id>"@,
        about: None,
        sections: seq![],
        examples: seq![],
    }
}

fn build_forgejo_run_get() -> (r: Entry)
    ensures
        r.model() == page_forgejo_run_get(),
{
    let mut sections: Vec<Section> = Vec::new();
    assert(Entry::sections_model(sections@) =~= page_forgejo_run_get().sections);
    let mut examples: Vec<String> = Vec::new();
    assert(views(examples@) =~= page_forgejo_run_get().examples);
    Entry { key: owned("forgejo.run.get"), usage: owned("runseal @tool forgejo run get --repo <owner/name> --id <id>"), about: None, sections, examples }
}

/// The help entry `forgejo.run.watch`.
pub open spec fn page_forgejo_run_watch() -> EntryModel {
    EntryModel {
        key: "forgejo.run.watch"@,
        usage: "runseal @tool forgejo run watch --repo <owner/name> --id <id> [--interval <seconds>] [--timeout <seconds>]"@,
        about: None,
        sections: seq![],
        examples: seq![],
    }
}

fn build_forgejo_run_watch() -> (r: Entry)
    ensures
        r.model() == page_forgejo_run_watch(),
{
    let mut sections: Vec<Section> = Vec::new();
    assert(Entry::sections_model(sections@) =~= page_forgejo_run_watch().sections);
    let mut examples: Vec<String> = Vec::new();
    assert(views(examples@) =~= page_forgejo_run_watch().examples);
    Entry { key: owned("forgejo.run.watch"), usage: owned("runseal @tool forgejo run watch --repo <owner/name> --id <id> [--interval <seconds>] [--timeout <seconds>]"), about: None, sections, examples }
}

/// The help entry `forgejo.run.cancel`.
pub open spec fn page_forgejo_run_cancel() -> EntryModel {
    EntryModel {
        key: "forgejo.run.cancel"@,
        usage: "runseal @tool forgejo run cancel"@,
        about: Some("Unsupported on Forgejo v15 because no workflow cancel REST endpoint exists."@),
        sections: seq![],
        examples: seq![],
    }
}

fn build_forgejo_run_cancel() -> (r: Entry)
    ensures
        r.model() == page_forgejo_run_cancel(),
{
    let mut sections: Vec<Section> = Vec::new();
    assert(Entry::sections_model(sections@) =~= page_forgejo_run_cancel().sections);
    let mut examples: Vec<String> = Vec::new();
    assert(views(examples@) =~= page_forgejo_run_cancel().examples);
    Entry { key: owned("forgejo.run.cancel"), usage: owned("runseal @tool forgejo run cancel"), about: Some(owned("Unsupported on Forgejo v15 because no workflow cancel REST endpoint exists.")), sections, examples }
}

/// The help entry `github`.
pub open spec fn page_github() -> EntryModel {
    EntryModel {
        key: "github"@,
        usage: "runseal @tool github <scope> <command> [args]"@,
        about: Some("GitHub helpers for collaboration rules that need more than plain gh ergonomics."@),
        sections: seq![SectionModel { title: "GitHub helpers"@, items: seq![("issue create"@, "create one issue with optional body shaping"@), ("issue comment create"@, "create one issue-style comment; also applies to top-level PR comments"@), ("issue body update"@, "update one issue-style body; also applies to top-level PR bodies"@), ("pr checks probe"@, "probe whether a PR head has checks before watching"@)] }],
        examples: seq![],
    }
}

fn build_github() -> (r: Entry)
    ensures
        r.model() == page_github(),
{
    let mut sections: Vec<Section> = Vec::new();
    let mut items0: Vec<(String, String)> = Vec::new();
    items0.push((owned("issue create"), owned("create one issue with optional body shaping")));
    items0.push((owned("issue comment create"), owned("create one issue-style comment; also applies to top-level PR comments")));
    items0.push((owned("issue body update"), owned("update one issue-style body; also applies to top-level PR bodies")));
    items0.push((owned("pr checks probe"), owned("probe whether a PR head has checks before watching")));
    assert(pairs(items0@) =~= seq![("issue create"@, "create one issue with optional body shaping"@), ("issue comment create"@, "create one issue-style comment; also applies to top-level PR comments"@), ("issue body update"@, "update one issue-style body; also applies to top-level PR bodies"@), ("pr checks probe"@, "probe whether a PR head has checks before watching"@)]);
    sections.push(Section { title: owned("GitHub helpers"), items: items0 });
    assert(Entry::sections_model(sections@) =~= page_github().sections);
    let mut examples: Vec<String> = Vec::new();
    assert(views(examples@) =~= page_github().examples);
    Entry { key: owned("github"), usage: owned("runseal @tool github <scope> <command> [args]"), about: Some(owned("GitHub helpers for collaboration rules that need more than plain gh ergonomics.")), sections, examples }
}

/// The help entry `github.issue`.
pub open spec fn page_github_issue() -> EntryModel {
    EntryModel {
        key: "github.issue"@,
        usage: "runseal @tool github issue <scope> <command> [args]"@,
        about: Some("GitHub issue-style write helpers. GitHub PR top-level bodies and timeline comments also use this issue model."@),
        sections: seq![SectionModel { title: "GitHub issue helpers"@, items: seq![("create"@, "create one issue"@), ("comment create"@, "create one issue-style comment"@), ("body update"@, "update one issue-style body"@)] }],
        examples: seq![],
    }
}

fn build_github_issue() -> (r: Entry)
    ensures
        r.model() == page_github_issue(),
{
    let mut sections: Vec<Section> = Vec::new();
    let mut items0: Vec<(String, String)> = Vec::new();
    items0.push((owned("create"), owned("create one issue")));
    items0.push((owned("comment create"), owned("create one issue-style comment")));
    items0.push((owned("body update"), owned("update one issue-style body")));
    assert(pairs(items0@) =~= seq![("create"@, "create one issue"@), ("comment create"@, "create one issue-style comment"@), ("body update"@, "update one issue-style body"@)]);
    sections.push(Section { title: owned("GitHub issue helpers"), items: items0 });
    assert(Entry::sections_model(sections@) =~= page_github_issue().sections);
    let mut examples: Vec<String> = Vec::new();
    assert(views(examples@) =~= page_github_issue().examples);
    Entry { key: owned("github.issue"), usage: owned("runseal @tool github issue <scope> <command> [args]"), about: Some(owned("GitHub issue-style write helpers. GitHub PR top-level bodies and timeline comments also use this issue model.")), sections, examples }
}

/// The help entry `github.issue.create`.
pub open spec fn page_github_issue_create() -> EntryModel {
    EntryModel {
        key: "github.issue.create"@,
        usage: "runseal @tool github issue create --repo <owner/name> --title <text> [--body <text>|--body-file <path>] [--body-max <n>] [--prefix-enable=<true|false>] [--token <text>|--token-file <path>|--token-env <name>]"@,
        about: Some("Create one GitHub issue and print the API response JSON. Body is optional. Default `--body-max` is `0`, which means unlimited."@),
        sections: seq![SectionModel { title: "Flags"@, items: seq![("--repo <owner/name>"@, "target GitHub repository"@), ("--title <text>"@, "issue title"@), ("--body <text>"@, "inline body text"@), ("--body-file <path>"@, "read body text from one file"@), ("--body-max <n>"@, "maximum user-body length; `0` disables the limit; default `0`"@), ("--prefix-enable=<true|false>"@, "prepend requested-by metadata for matching cross-repo writes"@), ("--token <text>"@, "explicit GitHub token"@), ("--token-file <path>"@, "env-style file containing `GITHUB_TOKEN`"@), ("--token-env <name>"@, "read the token from one named environment variable; default fallback is `GITHUB_TOKEN`"@)] }],
        examples: seq!["runseal @tool github issue create --repo PerishCode/runseal --title demo --body-file body.md --prefix-enable=true"@],
    }
}

fn build_github_issue_create() -> (r: Entry)
    ensures
        r.model() == page_github_issue_create(),
{
    let mut sections: Vec<Section> = Vec::new();
    let mut items0: Vec<(String, String)> = Vec::new();
    items0.push((owned("--repo <owner/name>"), owned("target GitHub repository")));
    items0.push((owned("--title <text>"), owned("issue title")));
    items0.push((owned("--body <text>"), owned("inline body text")));
    items0.push((owned("--body-file <path>"), owned("read body text from one file")));
    items0.push((owned("--body-max <n>"), owned("maximum user-body length; `0` disables the limit; default `0`")));
    items0.push((owned("--prefix-enable=<true|false>"), owned("prepend requested-by metadata for matching cross-repo writes")));
    items0.push((owned("--token <text>"), owned("explicit GitHub token")));
    items0.push((owned("--token-file <path>"), owned("env-style file containing `GITHUB_TOKEN`")));
    items0.push((owned("--token-env <name>"), owned("read the token from one named environment variable; default fallback is `GITHUB_TOKEN`")));
    assert(pairs(items0@) =~= seq![("--repo <owner/name>"@, "target GitHub repository"@), ("--title <text>"@, "issue title"@), ("--body <text>"@, "inline body text"@), ("--body-file <path>"@, "read body text from one file"@), ("--body-max <n>"@, "maximum user-body length; `0` disables the limit; default `0`"@), ("--prefix-enable=<true|false>"@, "prepend requested-by metadata for matching cross-repo writes"@), ("--token <text>"@, "explicit GitHub token"@), ("--token-file <path>"@, "env-style file containing `GITHUB_TOKEN`"@), ("--token-env <name>"@, "read the token from one named environment variable; default fallback is `GITHUB_TOKEN`"@)]);
    sections.push(Section { title: owned("Flags"), items: items0 });
    assert(Entry::sections_model(sections@) =~= page_github_issue_create().sections);
    let mut examples: Vec<String> = Vec::new();
    examples.push(owned("runseal @tool github issue create --repo PerishCode/runseal --title demo --body-file body.md --prefix-enable=true"));
    assert(views(examples@) =~= page_github_issue_create().examples);
    Entry { key: owned("github.issue.create"), usage: owned("runseal @tool github issue create --repo <owner/name> --title <text> [--body <text>|--body-file <path>] [--body-max <n>] [--prefix-enable=<true|false>] [--token <text>|--token-file <path>|--token-env <name>]"), about: Some(owned("Create one GitHub issue and print the API response JSON. Body is optional. Default `--body-max` is `0`, which means unlimited.")), sections, examples }
}

/// The help entry `github.issue.comment`.
pub open spec fn page_github_issue_comment() -> EntryModel {
    EntryModel {
        key: "github.issue.comment"@,
        usage: "runseal @tool github issue comment create [args]"@,
        about: None,
        sections: seq![SectionModel { title: "GitHub issue comment helpers"@, items: seq![("create"@, "create one issue-style comment"@)] }],
        examples: seq![],
    }
}

fn build_github_issue_comment() -> (r: Entry)
    ensures
        r.model() == page_github_issue_comment(),
{
    let mut sections: Vec<Section> = Vec::new();
    let mut items0: Vec<(String, String)> = Vec::new();
    items0.push((owned("create"), owned("create one issue-style comment")));
    assert(pairs(items0@) =~= seq![("create"@, "create one issue-style comment"@)]);
    sections.push(Section { title: owned("GitHub issue comment helpers"), items: items0 });
    assert(Entry::sections_model(sections@) =~= page_github_issue_comment().sections);
    let mut examples: Vec<String> = Vec::new();
    assert(views(examples@) =~= page_github_issue_comment().examples);
    Entry { key: owned("github.issue.comment"), usage: owned("runseal @tool github issue comment create [args]"), about: None, sections, examples }
}

/// The help entry `github.issue.comment.create`.
pub open spec fn page_github_issue_comment_create() -> EntryModel {
    EntryModel {
        key: "github.issue.comment.create"@,
        usage: "runseal @tool github issue comment create --repo <owner/name> --number <n> (--body <text>|--body-file <path>) [--body-max <n>] [--prefix-enable=<true|false>] [--token <text>|--token-file <path>|--token-env <name>]"@,
        about: Some("Create one GitHub issue-style comment and print the API response JSON. Default `--body-max` is `100`; over-limit bodies fail fast."@),
        sections: seq![SectionModel { title: "Flags"@, items: seq![("--repo <owner/name>"@, "target GitHub repository"@), ("--number <n>"@, "issue or pull request number"@), ("--body <text>"@, "inline comment body"@), ("--body-file <path>"@, "read comment body from one file"@), ("--body-max <n>"@, "maximum user-body length; `0` disables the limit; default `100`"@), ("--prefix-enable=<true|false>"@, "prepend requested-by metadata for matching cross-repo writes"@), ("--token <text>"@, "explicit GitHub token"@), ("--token-file <path>"@, "env-style file containing `GITHUB_TOKEN`"@), ("--token-env <name>"@, "read the token from one named environment variable; default fallback is `GITHUB_TOKEN`"@)] }],
        examples: seq!["runseal @tool github issue comment create --repo PerishCode/runseal --number 46 --body-file body.md --prefix-enable=true"@],
    }
}

fn build_github_issue_comment_create() -> (r: Entry)
    ensures
        r.model() == page_github_issue_comment_create(),
{
    let mut sections: Vec<Section> = Vec::new();
    let mut items0: Vec<(String, String)> = Vec::new();
    items0.push((owned("--repo <owner/name>"), owned("target GitHub repository")));
    items0.push((owned("--number <n>"), owned("issue or pull request number")));
    items0.push((owned("--body <text>"), owned("inline comment body")));
    items0.push((owned("--body-file <path>"), owned("read comment body from one file")));
    items0.push((owned("--body-max <n>"), owned("maximum user-body length; `0` disables the limit; default `100`")));
    items0.push((owned("--prefix-enable=<true|false>"), owned("prepend requested-by metadata for matching cross-repo writes")));
    items0.push((owned("--token <text>"), owned("explicit GitHub token")));
    items0.push((owned("--token-file <path>"), owned("env-style file containing `GITHUB_TOKEN`")));
    items0.push((owned("--token-env <name>"), owned("read the token from one named environment variable; default fallback is `GITHUB_TOKEN`")));
    assert(pairs(items0@) =~= seq![("--repo <owner/name>"@, "target GitHub repository"@), ("--number <n>"@, "issue or pull request number"@), ("--body <text>"@, "inline comment body"@), ("--body-file <path>"@, "read comment body from one file"@), ("--body-max <n>"@, "maximum user-body length; `0` disables the limit; default `100`"@), ("--prefix-enable=<true|false>"@, "prepend requested-by metadata for matching cross-repo writes"@), ("--token <text>"@, "explicit GitHub token"@), ("--token-file <path>"@, "env-style file containing `GITHUB_TOKEN`"@), ("--token-env <name>"@, "read the token from one named environment variable; default fallback is `GITHUB_TOKEN`"@)]);
    sections.push(Section { title: owned("Flags"), items: items0 });
    assert(Entry::sections_model(sections@) =~= page_github_issue_comment_create().sections);
    let mut examples: Vec<String> = Vec::new();
    examples.push(owned("runseal @tool github issue comment create --repo PerishCode/runseal --number 46 --body-file body.md --prefix-enable=true"));
    assert(views(examples@) =~= page_github_issue_comment_create().examples);
    Entry { key: owned("github.issue.comment.create"), usage: owned("runseal @tool github issue comment create --repo <owner/name> --number <n> (--body <text>|--body-file <path>) [--body-max <n>] [--prefix-enable=<true|false>] [--token <text>|--token-file <path>|--token-env <name>]"), about: Some(owned("Create one GitHub issue-style comment and print the API response JSON. Default `--body-max` is `100`; over-limit bodies fail fast.")), sections, examples }
}

/// The help entry `github.issue.body`.
pub open spec fn page_github_issue_body() -> EntryModel {
    EntryModel {
        key: "github.issue.body"@,
        usage: "runseal @tool github issue body update [args]"@,
        about: None,
        sections: seq![SectionModel { title: "GitHub issue body helpers"@, items: seq![("update"@, "update one issue-style body"@)] }],
        examples: seq![],
    }
}

fn build_github_issue_body() -> (r: Entry)
    ensures
        r.model() == page_github_issue_body(),
{
    let mut sections: Vec<Section> = Vec::new();
    let mut items0: Vec<(String, String)> = Vec::new();
    items0.push((owned("update"), owned("update one issue-style body")));
    assert(pairs(items0@) =~= seq![("update"@, "update one issue-style body"@)]);
    sections.push(Section { title: owned("GitHub issue body helpers"), items: items0 });
    assert(Entry::sections_model(sections@) =~= page_github_issue_body().sections);
    let mut examples: Vec<String> = Vec::new();
    assert(views(examples@) =~= page_github_issue_body().examples);
    Entry { key: owned("github.issue.body"), usage: owned("runseal @tool github issue body update [args]"), about: None, sections, examples }
}

/// The help entry `github.issue.body.update`.
pub open spec fn page_github_issue_body_update() -> EntryModel {
    EntryModel {
        key: "github.issue.body.update"@,
        usage: "runseal @tool github issue body update --repo <owner/name> --number <n> (--body <text>|--body-file <path>) [--body-max <n>] [--prefix-enable=<true|false>] [--token <text>|--token-file <path>|--token-env <name>]"@,
        about: Some("Update one GitHub issue-style body and print the API response JSON. Default `--body-max` is `0`, which means unlimited."@),
        sections: seq![SectionModel { title: "Flags"@, items: seq![("--repo <owner/name>"@, "target GitHub repository"@), ("--number <n>"@, "issue or pull request number"@), ("--body <text>"@, "inline body text"@), ("--body-file <path>"@, "read body text from one file"@), ("--body-max <n>"@, "maximum user-body length; `0` disables the limit; default `0`"@), ("--prefix-enable=<true|false>"@, "prepend requested-by metadata for matching cross-repo writes"@), ("--token <text>"@, "explicit GitHub token"@), ("--token-file <path>"@, "env-style file containing `GITHUB_TOKEN`"@), ("--token-env <name>"@, "read the token from one named environment variable; default fallback is `GITHUB_TOKEN`"@)] }],
        examples: seq!["runseal @tool github issue body update --repo PerishCode/runseal --number 46 --body-file body.md --prefix-enable=true"@],
    }
}

fn build_github_issue_body_update() -> (r: Entry)
    ensures
        r.model() == page_github_issue_body_update(),
{
    let mut sections: Vec<Section> = Vec::new();
    let mut items0: Vec<(String, String)> = Vec::new();
    items0.push((owned("--repo <owner/name>"), owned("target GitHub repository")));
    items0.push((owned("--number <n>"), owned("issue or pull request number")));
    items0.push((owned("--body <text>"), owned("inline body text")));
    items0.push((owned("--body-file <path>"), owned("read body text from one file")));
    items0.push((owned("--body-max <n>"), owned("maximum user-body length; `0` disables the limit; default `0`")));
    items0.push((owned("--prefix-enable=<true|false>"), owned("prepend requested-by metadata for matching cross-repo writes")));
    items0.push((owned("--token <text>"), owned("explicit GitHub token")));
    items0.push((owned("--token-file <path>"), owned("env-style file containing `GITHUB_TOKEN`")));
    items0.push((owned("--token-env <name>"), owned("read the token from one named environment variable; default fallback is `GITHUB_TOKEN`")));
    assert(pairs(items0@) =~= seq![("--repo <owner/name>"@, "target GitHub repository"@), ("--number <n>"@, "issue or pull request number"@), ("--body <text>"@, "inline body text"@), ("--body-file <path>"@, "read body text from one file"@), ("--body-max <n>"@, "maximum user-body length; `0` disables the limit; default `0`"@), ("--prefix-enable=<true|false>"@, "prepend requested-by metadata for matching cross-repo writes"@), ("--token <text>"@, "explicit GitHub token"@), ("--token-file <path>"@, "env-style file containing `GITHUB_TOKEN`"@), ("--token-env <name>"@, "read the token from one named environment variable; default fallback is `GITHUB_TOKEN`"@)]);
    sections.push(Section { title: owned("Flags"), items: items0 });
    assert(Entry::sections_model(sections@) =~= page_github_issue_body_update().sections);
    let mut examples: Vec<String> = Vec::new();
    examples.push(owned("runseal @tool github issue body update --repo PerishCode/runseal --number 46 --body-file body.md --prefix-enable=true"));
    assert(views(examples@) =~= page_github_issue_body_update().examples);
    Entry { key: owned("github.issue.body.update"), usage: owned("runseal @tool github issue body update --repo <owner/name> --number <n> (--body <text>|--body-file <path>) [--body-max <n>] [--prefix-enable=<true|false>] [--token <text>|--token-file <path>|--token-env <name>]"), about: Some(owned("Update one GitHub issue-style body and print the API response JSON. Default `--body-max` is `0`, which means unlimited.")), sections, examples }
}

/// The help entry `github.pr`.
pub open spec fn page_github_pr() -> EntryModel {
    EntryModel {
        key: "github.pr"@,
        usage: "runseal @tool github pr <scope> <command> [args]"@,
        about: Some("GitHub pull request helper atoms. These are intentionally narrow and are usually called from wrappers."@),
        sections: seq![SectionModel { title: "GitHub PR helpers"@, items: seq![("checks probe <number>"@, "print whether a PR head already has check runs or commit statuses"@)] }],
        examples: seq![],
    }
}

fn build_github_pr() -> (r: Entry)
    ensures
        r.model() == page_github_pr(),
{
    let mut sections: Vec<Section> = Vec::new();
    let mut items0: Vec<(String, String)> = Vec::new();
    items0.push((owned("checks probe <number>"), owned("print whether a PR head already has check runs or commit statuses")));
    assert(pairs(items0@) =~= seq![("checks probe <number>"@, "print whether a PR head already has check runs or commit statuses"@)]);
    sections.push(Section { title: owned("GitHub PR helpers"), items: items0 });
    assert(Entry::sections_model(sections@) =~= page_github_pr().sections);
    let mut examples: Vec<String> = Vec::new();
    assert(views(examples@) =~= page_github_pr().examples);
    Entry { key: owned("github.pr"), usage: owned("runseal @tool github pr <scope> <command> [args]"), about: Some(owned("GitHub pull request helper atoms. These are intentionally narrow and are usually called from wrappers.")), sections, examples }
}

/// The help entry `github.pr.checks`.
pub open spec fn page_github_pr_checks() -> EntryModel {
    EntryModel {
        key: "github.pr.checks"@,
        usage: "runseal @tool github pr checks <command> [args]"@,
        about: None,
        sections: seq![SectionModel { title: "GitHub PR check helpers"@, items: seq![("probe <number>"@, "print whether a PR head already has check runs or commit statuses"@)] }],
        examples: seq![],
    }
}

fn build_github_pr_checks() -> (r: Entry)
    ensures
        r.model() == page_github_pr_checks(),
{
    let mut sections: Vec<Section> = Vec::new();
    let mut items0: Vec<(String, String)> = Vec::new();
    items0.push((owned("probe <number>"), owned("print whether a PR head already has check runs or commit statuses")));
    assert(pairs(items0@) =~= seq![("probe <number>"@, "print whether a PR head already has check runs or commit statuses"@)]);
    sections.push(Section { title: owned("GitHub PR check helpers"), items: items0 });
    assert(Entry::sections_model(sections@) =~= page_github_pr_checks().sections);
    let mut examples: Vec<String> = Vec::new();
    assert(views(examples@) =~= page_github_pr_checks().examples);
    Entry { key: owned("github.pr.checks"), usage: owned("runseal @tool github pr checks <command> [args]"), about: None, sections, examples }
}

/// The help entry `github.pr.checks.probe`.
pub open spec fn page_github_pr_checks_probe() -> EntryModel {
    EntryModel {
        key: "github.pr.checks.probe"@,
        usage: "runseal @tool github pr checks probe <number> [--token <text>|--token-file <path>|--token-env <name>]"@,
        about: Some("Probe the current repository PR head commit for check runs or commit statuses. Prints `true` or `false`; on API probe failure, prints `true` so wrapper flows do not incorrectly skip check watching."@),
        sections: seq![SectionModel { title: "Flags"@, items: seq![("--token <text>"@, "explicit GitHub token"@), ("--token-file <path>"@, "env-style file containing `GITHUB_TOKEN`"@), ("--token-env <name>"@, "read the token from one named environment variable; default fallback is `GITHUB_TOKEN`"@)] }],
        examples: seq!["runseal @tool github pr checks probe 46 --token-env RUNSEAL_GITHUB_TOKEN"@],
    }
}

fn build_github_pr_checks_probe() -> (r: Entry)
    ensures
        r.model() == page_github_pr_checks_probe(),
{
    let mut sections: Vec<Section> = Vec::new();
    let mut items0: Vec<(String, String)> = Vec::new();
    items0.push((owned("--token <text>"), owned("explicit GitHub token")));
    items0.push((owned("--token-file <path>"), owned("env-style file containing `GITHUB_TOKEN`")));
    items0.push((owned("--token-env <name>"), owned("read the token from one named environment variable; default fallback is `GITHUB_TOKEN`")));
    assert(pairs(items0@) =~= seq![("--token <text>"@, "explicit GitHub token"@), ("--token-file <path>"@, "env-style file containing `GITHUB_TOKEN`"@), ("--token-env <name>"@, "read the token from one named environment variable; default fallback is `GITHUB_TOKEN`"@)]);
    sections.push(Section { title: owned("Flags"), items: items0 });
    assert(Entry::sections_model(sections@) =~= page_github_pr_checks_probe().sections);
    let mut examples: Vec<String> = Vec::new();
    examples.push(owned("runseal @tool github pr checks probe 46 --token-env RUNSEAL_GITHUB_TOKEN"));
    assert(views(examples@) =~= page_github_pr_checks_probe().examples);
    Entry { key: owned("github.pr.checks.probe"), usage: owned("runseal @tool github pr checks probe <number> [--token <text>|--token-file <path>|--token-env <name>]"), about: Some(owned("Probe the current repository PR head commit for check runs or commit statuses. Prints `true` or `false`; on API probe failure, prints `true` so wrapper flows do not incorrectly skip check watching.")), sections, examples }
}

/// The help entry of a dotted key.
pub open spec fn entry_of(key: Seq<char>) -> Option<EntryModel> {
    if key == "forgejo"@ {
        Some(page_forgejo())
    } else if key == "forgejo.repo"@ {
        Some(page_forgejo_repo())
    } else if key == "forgejo.repo.get"@ {
        Some(page_forgejo_repo_get())
    } else if key == "forgejo.repo.create"@ {
        Some(page_forgejo_repo_create())
    } else if key == "forgejo.pr"@ {
        Some(page_forgejo_pr())
    } else if key == "forgejo.pr.find"@ {
        Some(page_forgejo_pr_find())
    } else if key == "forgejo.pr.create"@ {
        Some(page_forgejo_pr_create())
    } else if key == "forgejo.pr.get"@ {
        Some(page_forgejo_pr_get())
    } else if key == "forgejo.pr.merge"@ {
        Some(page_forgejo_pr_merge())
    } else if key == "forgejo.pr.guard"@ {
        Some(page_forgejo_pr_guard())
    } else if key == "forgejo.secret"@ {
        Some(page_forgejo_secret())
    } else if key == "forgejo.secret.upsert"@ {
        Some(page_forgejo_secret_upsert())
    } else if key == "forgejo.variable"@ {
        Some(page_forgejo_variable())
    } else if key == "forgejo.variable.upsert"@ {
        Some(page_forgejo_variable_upsert())
    } else if key == "forgejo.workflow"@ {
        Some(page_forgejo_workflow())
    } else if key == "forgejo.workflow.dispatch"@ {
        Some(page_forgejo_workflow_dispatch())
    } else if key == "forgejo.run"@ {
        Some(page_forgejo_run())
    } else if key == "forgejo.run.list"@ {
        Some(page_forgejo_run_list())
    } else if key == "forgejo.run.get"@ {
        Some(page_forgejo_run_get())
    } else if key == "forgejo.run.watch"@ {
        Some(page_forgejo_run_watch())
    } else if key == "forgejo.run.cancel"@ {
        Some(page_forgejo_run_cancel())
    } else if key == "github"@ {
        Some(page_github())
    } else if key == "github.issue"@ {
        Some(page_github_issue())
    } else if key == "github.issue.create"@ {
        Some(page_github_issue_create())
    } else if key == "github.issue.comment"@ {
        Some(page_github_issue_comment())
    } else if key == "github.issue.comment.create"@ {
        Some(page_github_issue_comment_create())
    } else if key == "github.issue.body"@ {
        Some(page_github_issue_body())
    } else if key == "github.issue.body.update"@ {
        Some(page_github_issue_body_update())
    } else if key == "github.pr"@ {
        Some(page_github_pr())
    } else if key == "github.pr.checks"@ {
        Some(page_github_pr_checks())
    } else if key == "github.pr.checks.probe"@ {
        Some(page_github_pr_checks_probe())
    } else {
        None
    }
}

/// The help entry of a dotted key.
pub fn entry(key: &str) -> (r: Option<Entry>)
    ensures
        match entry_of(key@) {
            Some(m) => r matches Some(e) && e.model() == m,
            None => r is None,
        },
{
    if same(key, "forgejo") {
        return Some(build_forgejo());
    }
    if same(key, "forgejo.repo") {
        return Some(build_forgejo_repo());
    }
    if same(key, "forgejo.repo.get") {
        return Some(build_forgejo_repo_get());
    }
    if same(key, "forgejo.repo.create") {
        return Some(build_forgejo_repo_create());
    }
    if same(key, "forgejo.pr") {
        return Some(build_forgejo_pr());
    }
    if same(key, "forgejo.pr.find") {
        return Some(build_forgejo_pr_find());
    }
    if same(key, "forgejo.pr.create") {
        return Some(build_forgejo_pr_create());
    }
    if same(key, "forgejo.pr.get") {
        return Some(build_forgejo_pr_get());
    }
    if same(key, "forgejo.pr.merge") {
        return Some(build_forgejo_pr_merge());
    }
    if same(key, "forgejo.pr.guard") {
        return Some(build_forgejo_pr_guard());
    }
    if same(key, "forgejo.secret") {
        return Some(build_forgejo_secret());
    }
    if same(key, "forgejo.secret.upsert") {
        return Some(build_forgejo_secret_upsert());
    }
    if same(key, "forgejo.variable") {
        return Some(build_forgejo_variable());
    }
    if same(key, "forgejo.variable.upsert") {
        return Some(build_forgejo_variable_upsert());
    }
    if same(key, "forgejo.workflow") {
        return Some(build_forgejo_workflow());
    }
    if same(key, "forgejo.workflow.dispatch") {
        return Some(build_forgejo_workflow_dispatch());
    }
    if same(key, "forgejo.run") {
        return Some(build_forgejo_run());
    }
    if same(key, "forgejo.run.list") {
        return Some(build_forgejo_run_list());
    }
    if same(key, "forgejo.run.get") {
        return Some(build_forgejo_run_get());
    }
    if same(key, "forgejo.run.watch") {
        return Some(build_forgejo_run_watch());
    }
    if same(key, "forgejo.run.cancel") {
        return Some(build_forgejo_run_cancel());
    }
    if same(key, "github") {
        return Some(build_github());
    }
    if same(key, "github.issue") {
        return Some(build_github_issue());
    }
    if same(key, "github.issue.create") {
        return Some(build_github_issue_create());
    }
    if same(key, "github.issue.comment") {
        return Some(build_github_issue_comment());
    }
    if same(key, "github.issue.comment.create") {
        return Some(build_github_issue_comment_create());
    }
    if same(key, "github.issue.body") {
        return Some(build_github_issue_body());
    }
    if same(key, "github.issue.body.update") {
        return Some(build_github_issue_body_update());
    }
    if same(key, "github.pr") {
        return Some(build_github_pr());
    }
    if same(key, "github.pr.checks") {
        return Some(build_github_pr_checks());
    }
    if same(key, "github.pr.checks.probe") {
        return Some(build_github_pr_checks_probe());
    }
    None
}
} // verus!
