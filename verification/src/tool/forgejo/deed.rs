//! The resource verbs of the structured `@forgejo` call.
use vstd::prelude::*;

use crate::text::{owned, shaped, views};

verus! {

/// What a verb does to a resource.
pub enum Kind {
    Show(String),
    List,
    Create,
    Edit(String),
    Merge(String),
    Drop(String),
    Put(String),
}

/// What a verb does to a resource, in text.
pub enum KindModel {
    Show(Seq<char>),
    List,
    Create,
    Edit(Seq<char>),
    Merge(Seq<char>),
    Drop(Seq<char>),
    Put(Seq<char>),
}

impl Kind {
    /// The verb in text.
    pub open spec fn model(&self) -> KindModel {
        match self {
            Kind::Show(i) => KindModel::Show(i@),
            Kind::List => KindModel::List,
            Kind::Create => KindModel::Create,
            Kind::Edit(i) => KindModel::Edit(i@),
            Kind::Merge(i) => KindModel::Merge(i@),
            Kind::Drop(i) => KindModel::Drop(i@),
            Kind::Put(i) => KindModel::Put(i@),
        }
    }
}

/// A resource verb.
pub enum Deed {
    User,
    Show(String),
    List,
    Create,
    Edit(String),
    Notes(String),
    Comment(String),
    Pull(Kind),
    Status(String),
    Branch(Kind),
    Guard(Kind),
    Repo(Kind),
    Secret(Kind),
    Flow(String),
    Run(String),
    Job(String, String),
    Task(String),
    Review(Kind),
    Label,
    Fetch(String),
}

/// A resource verb, in text.
pub enum DeedModel {
    User,
    Show(Seq<char>),
    List,
    Create,
    Edit(Seq<char>),
    Notes(Seq<char>),
    Comment(Seq<char>),
    Pull(KindModel),
    Status(Seq<char>),
    Branch(KindModel),
    Guard(KindModel),
    Repo(KindModel),
    Secret(KindModel),
    Flow(Seq<char>),
    Run(Seq<char>),
    Job(Seq<char>, Seq<char>),
    Task(Seq<char>),
    Review(KindModel),
    Label,
    Fetch(Seq<char>),
}

impl Deed {
    /// The verb in text.
    pub open spec fn model(&self) -> DeedModel {
        match self {
            Deed::User => DeedModel::User,
            Deed::Show(i) => DeedModel::Show(i@),
            Deed::List => DeedModel::List,
            Deed::Create => DeedModel::Create,
            Deed::Edit(i) => DeedModel::Edit(i@),
            Deed::Notes(i) => DeedModel::Notes(i@),
            Deed::Comment(i) => DeedModel::Comment(i@),
            Deed::Pull(k) => DeedModel::Pull(k.model()),
            Deed::Status(i) => DeedModel::Status(i@),
            Deed::Branch(k) => DeedModel::Branch(k.model()),
            Deed::Guard(k) => DeedModel::Guard(k.model()),
            Deed::Repo(k) => DeedModel::Repo(k.model()),
            Deed::Secret(k) => DeedModel::Secret(k.model()),
            Deed::Flow(i) => DeedModel::Flow(i@),
            Deed::Run(i) => DeedModel::Run(i@),
            Deed::Job(r, j) => DeedModel::Job(r@, j@),
            Deed::Task(r) => DeedModel::Task(r@),
            Deed::Review(k) => DeedModel::Review(k.model()),
            Deed::Label => DeedModel::Label,
            Deed::Fetch(u) => DeedModel::Fetch(u@),
        }
    }
}

/// The resource verb that the remaining arguments name.
pub open spec fn deed_of(a: Seq<Seq<char>>) -> Option<DeedModel> {
    if a.len() == 2 && a[0] == "user"@ && a[1] == "show"@ {
        Some(DeedModel::User)
    } else if a.len() == 2 && a[0] == "issue"@ && a[1] == "list"@ {
        Some(DeedModel::List)
    } else if a.len() == 2 && a[0] == "issue"@ && a[1] == "create"@ {
        Some(DeedModel::Create)
    } else if a.len() == 3 && a[0] == "issue"@ && a[1] == "show"@ {
        Some(DeedModel::Show(a[2]))
    } else if a.len() == 3 && a[0] == "issue"@ && a[1] == "edit"@ {
        Some(DeedModel::Edit(a[2]))
    } else if a.len() == 4 && a[0] == "issue"@ && a[1] == "comment"@ && a[2] == "list"@ {
        Some(DeedModel::Notes(a[3]))
    } else if a.len() == 4 && a[0] == "issue"@ && a[1] == "comment"@ && a[2] == "create"@ {
        Some(DeedModel::Comment(a[3]))
    } else if a.len() == 2 && a[0] == "pull"@ && a[1] == "list"@ {
        Some(DeedModel::Pull(KindModel::List))
    } else if a.len() == 2 && a[0] == "pull"@ && a[1] == "create"@ {
        Some(DeedModel::Pull(KindModel::Create))
    } else if a.len() == 3 && a[0] == "pull"@ && a[1] == "show"@ {
        Some(DeedModel::Pull(KindModel::Show(a[2])))
    } else if a.len() == 3 && a[0] == "pull"@ && a[1] == "edit"@ {
        Some(DeedModel::Pull(KindModel::Edit(a[2])))
    } else if a.len() == 3 && a[0] == "pull"@ && a[1] == "merge"@ {
        Some(DeedModel::Pull(KindModel::Merge(a[2])))
    } else if a.len() == 3 && a[0] == "status"@ && a[1] == "show"@ {
        Some(DeedModel::Status(a[2]))
    } else if a.len() == 3 && a[0] == "branch"@ && a[1] == "create"@ {
        Some(DeedModel::Branch(KindModel::Put(a[2])))
    } else if a.len() == 3 && a[0] == "branch"@ && a[1] == "show"@ {
        Some(DeedModel::Branch(KindModel::Show(a[2])))
    } else if a.len() == 2 && a[0] == "protection"@ && a[1] == "create"@ {
        Some(DeedModel::Guard(KindModel::Create))
    } else if a.len() == 3 && a[0] == "protection"@ && a[1] == "show"@ {
        Some(DeedModel::Guard(KindModel::Show(a[2])))
    } else if a.len() == 3 && a[0] == "protection"@ && a[1] == "edit"@ {
        Some(DeedModel::Guard(KindModel::Edit(a[2])))
    } else if a.len() == 2 && a[0] == "repo"@ && a[1] == "show"@ {
        Some(DeedModel::Repo(KindModel::Show(Seq::empty())))
    } else if a.len() == 2 && a[0] == "repo"@ && a[1] == "edit"@ {
        Some(DeedModel::Repo(KindModel::Edit(Seq::empty())))
    } else if a.len() == 2 && a[0] == "repo"@ && a[1] == "delete"@ {
        Some(DeedModel::Repo(KindModel::Drop(Seq::empty())))
    } else if a.len() == 2 && a[0] == "secret"@ && a[1] == "list"@ {
        Some(DeedModel::Secret(KindModel::List))
    } else if a.len() == 3 && a[0] == "secret"@ && a[1] == "set"@ {
        Some(DeedModel::Secret(KindModel::Put(a[2])))
    } else if a.len() == 3 && a[0] == "secret"@ && a[1] == "delete"@ {
        Some(DeedModel::Secret(KindModel::Drop(a[2])))
    } else if a.len() == 3 && a[0] == "workflow"@ && a[1] == "dispatch"@ {
        Some(DeedModel::Flow(a[2]))
    } else if a.len() == 3 && a[0] == "run"@ && a[1] == "show"@ {
        Some(DeedModel::Run(a[2]))
    } else if a.len() == 4 && a[0] == "job"@ && a[1] == "log"@ {
        Some(DeedModel::Job(a[2], a[3]))
    } else if a.len() == 3 && a[0] == "task"@ && a[1] == "list"@ {
        Some(DeedModel::Task(a[2]))
    } else if a.len() == 3 && a[0] == "review"@ && a[1] == "list"@ {
        Some(DeedModel::Review(KindModel::Show(a[2])))
    } else if a.len() == 3 && a[0] == "review"@ && a[1] == "create"@ {
        Some(DeedModel::Review(KindModel::Put(a[2])))
    } else if a.len() == 2 && a[0] == "label"@ && a[1] == "list"@ {
        Some(DeedModel::Label)
    } else if a.len() == 2 && a[0] == "get"@ {
        Some(DeedModel::Fetch(a[1]))
    } else {
        None
    }
}

/// Reads the resource verb from the remaining arguments.
pub fn deed(args: &[String]) -> (r: Result<Deed, String>)
    ensures
        match deed_of(views(args@)) {
            Some(d) => r matches Ok(x) && x.model() == d,
            None => r matches Err(e) && e@ == "@forgejo expected a known resource verb"@,
        },
{
    let ghost v = views(args@);
    assert forall|i: int| 0 <= i < args.len() implies v[i] == #[trigger] args@[i]@ by {}
    if shaped(args, &["user", "show"], 0) {
        return Ok(Deed::User);
    }
    if shaped(args, &["issue", "list"], 0) {
        return Ok(Deed::List);
    }
    if shaped(args, &["issue", "create"], 0) {
        return Ok(Deed::Create);
    }
    if shaped(args, &["issue", "show"], 1) {
        return Ok(Deed::Show(args[2].clone()));
    }
    if shaped(args, &["issue", "edit"], 1) {
        return Ok(Deed::Edit(args[2].clone()));
    }
    if shaped(args, &["issue", "comment", "list"], 1) {
        return Ok(Deed::Notes(args[3].clone()));
    }
    if shaped(args, &["issue", "comment", "create"], 1) {
        return Ok(Deed::Comment(args[3].clone()));
    }
    if shaped(args, &["pull", "list"], 0) {
        return Ok(Deed::Pull(Kind::List));
    }
    if shaped(args, &["pull", "create"], 0) {
        return Ok(Deed::Pull(Kind::Create));
    }
    if shaped(args, &["pull", "show"], 1) {
        return Ok(Deed::Pull(Kind::Show(args[2].clone())));
    }
    if shaped(args, &["pull", "edit"], 1) {
        return Ok(Deed::Pull(Kind::Edit(args[2].clone())));
    }
    if shaped(args, &["pull", "merge"], 1) {
        return Ok(Deed::Pull(Kind::Merge(args[2].clone())));
    }
    if shaped(args, &["status", "show"], 1) {
        return Ok(Deed::Status(args[2].clone()));
    }
    if shaped(args, &["branch", "create"], 1) {
        return Ok(Deed::Branch(Kind::Put(args[2].clone())));
    }
    if shaped(args, &["branch", "show"], 1) {
        return Ok(Deed::Branch(Kind::Show(args[2].clone())));
    }
    if shaped(args, &["protection", "create"], 0) {
        return Ok(Deed::Guard(Kind::Create));
    }
    if shaped(args, &["protection", "show"], 1) {
        return Ok(Deed::Guard(Kind::Show(args[2].clone())));
    }
    if shaped(args, &["protection", "edit"], 1) {
        return Ok(Deed::Guard(Kind::Edit(args[2].clone())));
    }
    if shaped(args, &["repo", "show"], 0) {
        return Ok(Deed::Repo(Kind::Show(String::new())));
    }
    if shaped(args, &["repo", "edit"], 0) {
        return Ok(Deed::Repo(Kind::Edit(String::new())));
    }
    if shaped(args, &["repo", "delete"], 0) {
        return Ok(Deed::Repo(Kind::Drop(String::new())));
    }
    if shaped(args, &["secret", "list"], 0) {
        return Ok(Deed::Secret(Kind::List));
    }
    if shaped(args, &["secret", "set"], 1) {
        return Ok(Deed::Secret(Kind::Put(args[2].clone())));
    }
    if shaped(args, &["secret", "delete"], 1) {
        return Ok(Deed::Secret(Kind::Drop(args[2].clone())));
    }
    if shaped(args, &["workflow", "dispatch"], 1) {
        return Ok(Deed::Flow(args[2].clone()));
    }
    if shaped(args, &["run", "show"], 1) {
        return Ok(Deed::Run(args[2].clone()));
    }
    if shaped(args, &["job", "log"], 2) {
        return Ok(Deed::Job(args[2].clone(), args[3].clone()));
    }
    if shaped(args, &["task", "list"], 1) {
        return Ok(Deed::Task(args[2].clone()));
    }
    if shaped(args, &["review", "list"], 1) {
        return Ok(Deed::Review(Kind::Show(args[2].clone())));
    }
    if shaped(args, &["review", "create"], 1) {
        return Ok(Deed::Review(Kind::Put(args[2].clone())));
    }
    if shaped(args, &["label", "list"], 0) {
        return Ok(Deed::Label);
    }
    if shaped(args, &["get"], 1) {
        return Ok(Deed::Fetch(args[1].clone()));
    }
    Err(owned("@forgejo expected a known resource verb"))
}

/// The kind of the reply in the JSON envelope.
pub open spec fn kind_of(d: DeedModel) -> Seq<char> {
    match d {
        DeedModel::User => "user"@,
        DeedModel::Show(_) | DeedModel::Create | DeedModel::Edit(_) => "issue"@,
        DeedModel::List => "issues"@,
        DeedModel::Notes(_) => "comments"@,
        DeedModel::Comment(_) => "comment"@,
        DeedModel::Pull(KindModel::List) => "pulls"@,
        DeedModel::Pull(_) => "pull"@,
        DeedModel::Status(_) => "status"@,
        DeedModel::Branch(_) => "branch"@,
        DeedModel::Guard(_) => "protection"@,
        DeedModel::Repo(_) => "repo"@,
        DeedModel::Secret(KindModel::List) => "secrets"@,
        DeedModel::Secret(_) => "secret"@,
        DeedModel::Flow(_) | DeedModel::Run(_) => "run"@,
        DeedModel::Job(_, _) => "log"@,
        DeedModel::Task(_) => "tasks"@,
        DeedModel::Review(KindModel::Show(_)) => "reviews"@,
        DeedModel::Review(_) => "review"@,
        DeedModel::Label => "labels"@,
        DeedModel::Fetch(_) => "value"@,
    }
}

/// The kind of the reply in the JSON envelope.
pub fn kind(deed: &Deed) -> (r: &'static str)
    ensures
        r@ == kind_of(deed.model()),
{
    match deed {
        Deed::User => "user",
        Deed::Show(_) | Deed::Create | Deed::Edit(_) => "issue",
        Deed::List => "issues",
        Deed::Notes(_) => "comments",
        Deed::Comment(_) => "comment",
        Deed::Pull(Kind::List) => "pulls",
        Deed::Pull(_) => "pull",
        Deed::Status(_) => "status",
        Deed::Branch(_) => "branch",
        Deed::Guard(_) => "protection",
        Deed::Repo(_) => "repo",
        Deed::Secret(Kind::List) => "secrets",
        Deed::Secret(_) => "secret",
        Deed::Flow(_) | Deed::Run(_) => "run",
        Deed::Job(_, _) => "log",
        Deed::Task(_) => "tasks",
        Deed::Review(Kind::Show(_)) => "reviews",
        Deed::Review(_) => "review",
        Deed::Label => "labels",
        Deed::Fetch(_) => "value",
    }
}

} // verus!
