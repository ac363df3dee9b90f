//! Profile mode: which command runs, with which argv and environment.
use vstd::prelude::*;

use crate::model::config::{label_of, Config};
use crate::model::profile::Profile;
use crate::model::symbol::{valid, valid_name};
use crate::table::as_map;
use crate::text::{owned, strip_prefix, strip_prefix_of, views};

verus! {

/// The result of a run: the child's exit code, when there is one.
pub struct Outcome {
    pub code: Option<i32>,
}

/// What profile mode runs: an external program, or a native tool with the
/// arguments after its name.
pub enum Command {
    External(Vec<String>),
    Native(crate::tool::Tool, Vec<String>),
}

/// What profile mode runs, in text.
pub enum CommandModel {
    External(Seq<Seq<char>>),
    Native(crate::tool::Tool, Seq<Seq<char>>),
}

impl Command {
    /// The command in text.
    pub open spec fn model(&self) -> CommandModel {
        match self {
            Command::External(v) => CommandModel::External(views(v@)),
            Command::Native(t, v) => CommandModel::Native(*t, views(v@)),
        }
    }
}

/// `command` with the profile's argv injection for its first token placed
/// right after that token.
pub open spec fn injected(command: Seq<Seq<char>>, argv: Map<Seq<char>, Vec<String>>) -> Result<Seq<Seq<char>>, Seq<char>> {
    if !argv.contains_key(command[0]) {
        Ok(command)
    } else if argv[command[0]]@.len() == 0 {
        Err("argv injection for "@ + command[0] + " must not be empty"@)
    } else {
        Ok(seq![command[0]] + views(argv[command[0]]@) + command.skip(1))
    }
}

/// What profile mode makes of a command line: after argv injection, a first
/// word `@NAME` runs the native tool `NAME` with the words after it; any
/// other first word is an external program.
pub open spec fn resolution(command: Seq<Seq<char>>, argv: Map<Seq<char>, Vec<String>>) -> Result<CommandModel, Seq<char>> {
    if command.len() == 0 {
        Err("profile mode requires a command or @tool"@)
    } else {
        match injected(command, argv) {
            Err(e) => Err(e),
            Ok(line) => match strip_prefix(line[0], "@"@) {
                None => Ok(CommandModel::External(line)),
                Some(name) => if name.len() == 0 {
                    Err("@tool name must not be empty"@)
                } else if !valid_name(name) {
                    Err("invalid @tool name: @"@ + name)
                } else {
                    match crate::tool::tool_of(name) {
                        Some(t) => Ok(CommandModel::Native(t, line.skip(1))),
                        None => Err("unknown Runseal tool: @"@ + name),
                    }
                },
            },
        }
    }
}

/// Applies argv injection.
pub struct Args;

impl Args {
    /// Inserts the profile's argv values for the command's first token right
    /// after that token.
    pub fn apply(command: &[String], profile: &Profile) -> (r: Result<Vec<String>, String>)
        requires
            command@.len() > 0,
        ensures
            r matches Ok(v) ==> injected(views(command@), profile.argv@) == Ok::<Seq<Seq<char>>, Seq<char>>(views(v@)),
            r matches Err(e) ==> injected(views(command@), profile.argv@) == Err::<Seq<Seq<char>>, Seq<char>>(e@),
    {
        let ghost c = views(command@);
        assert(c[0] == command@[0]@);
        let injected = match profile.argv.get(command[0].as_str()) {
            None => {
                let mut out: Vec<String> = Vec::new();
                let mut i: usize = 0;
                while i < command.len()
                    invariant
                        i <= command@.len(),
                        views(out@) == views(command@).take(i as int),
                    decreases command@.len() - i,
                {
                    let x = command[i].clone();
                    let ghost before = views(out@);
                    out.push(x);
                    assert(views(out@) =~= before.push(command@[i as int]@));
                    assert(views(command@).take(i + 1) =~= views(command@).take(i as int).push(command@[i as int]@));
                    i += 1;
                }
                assert(views(command@).take(command@.len() as int) =~= views(command@));
                return Ok(out);
            },
            Some(v) => v,
        };
        if injected.len() == 0 {
            let mut e = owned("argv injection for ");
            e.append(command[0].as_str());
            e.append(" must not be empty");
            return Err(e);
        }
        let mut out: Vec<String> = Vec::new();
        out.push(command[0].clone());
        assert(views(out@) =~= seq![command@[0]@] + views(injected@).take(0));
        let mut i: usize = 0;
        while i < injected.len()
            invariant
                i <= injected@.len(),
                command@.len() > 0,
                views(out@) == seq![command@[0]@] + views(injected@).take(i as int),
            decreases injected@.len() - i,
        {
            let x = injected[i].clone();
            let ghost before = views(out@);
            out.push(x);
            assert(views(out@) =~= before.push(injected@[i as int]@));
            assert(views(injected@).take(i + 1) =~= views(injected@).take(i as int).push(injected@[i as int]@));
            assert(views(out@) =~= seq![command@[0]@] + views(injected@).take(i + 1));
            i += 1;
        }
        assert(views(injected@).take(injected@.len() as int) =~= views(injected@));
        let ghost head = views(out@);
        let mut j: usize = 1;
        while j < command.len()
            invariant
                1 <= j <= command@.len(),
                views(out@) == head + views(command@).subrange(1, j as int),
            decreases command@.len() - j,
        {
            let x = command[j].clone();
            let ghost before = views(out@);
            out.push(x);
            assert(views(out@) =~= before.push(command@[j as int]@));
            assert(views(command@).subrange(1, j + 1) =~= views(command@).subrange(1, j as int).push(command@[j as int]@));
            assert(views(out@) =~= head + views(command@).subrange(1, j + 1));
            j += 1;
        }
        assert(views(command@).subrange(1, command@.len() as int) =~= c.skip(1));
        Ok(out)
    }
}

impl Command {
    /// Resolves a profile-mode command line into the command to run.
    pub fn resolve(command: &[String], profile: &Profile) -> (r: Result<Self, String>)
        ensures
            match resolution(views(command@), profile.argv@) {
                Ok(m) => r matches Ok(x) && x.model() == m,
                Err(e) => r matches Err(x) && x@ == e,
            },
    {
        if command.len() == 0 {
            return Err(owned("profile mode requires a command or @tool"));
        }
        let argv = Args::apply(command, profile)?;
        assert(views(argv@).len() > 0);
        assert(views(argv@)[0] == argv@[0]@);
        let name = match strip_prefix_of(argv[0].as_str(), "@") {
            None => {
                return Ok(Command::External(argv));
            },
            Some(n) => n,
        };
        if name.as_str().unicode_len() == 0 {
            return Err(owned("@tool name must not be empty"));
        }
        if valid(name.as_str()).is_err() {
            let mut e = owned("invalid @tool name: @");
            e.append(name.as_str());
            return Err(e);
        }
        let tool = crate::tool::run(name.as_str())?;
        Ok(Command::Native(tool, crate::text::rest_from(argv.as_slice(), 1)))
    }
}

/// The exit code that profile mode reports: the child's code, else 128 plus
/// the terminating signal, else 1.
pub open spec fn exit_code_of(code: Option<i32>, signal: Option<i32>) -> int {
    match code {
        Some(c) => c as int,
        None => match signal {
            Some(s) => 128 + s,
            None => 1,
        },
    }
}

/// Runs an external command.
pub struct Runner;

impl Runner {
    /// Checks that there is a command to run.
    pub fn check(argv: &[String]) -> (r: Result<(), String>)
        ensures
            r is Ok <==> argv@.len() > 0,
            r matches Err(e) ==> e@ == "profile mode requires a command"@,
    {
        if argv.len() == 0 {
            return Err(owned("profile mode requires a command"));
        }
        Ok(())
    }

    /// The exit code for a child that exited with `code` or was killed by
    /// `signal`.
    pub fn exit_code(code: Option<i32>, signal: Option<i32>) -> (r: i32)
        requires
            signal matches Some(s) ==> s <= i32::MAX - 128,
        ensures
            r as int == exit_code_of(code, signal),
    {
        match code {
            Some(c) => c,
            None => match signal {
                Some(s) => 128 + s,
                None => 1,
            },
        }
    }

    /// The run variables for the child: `RUNSEAL_HOME`, `RUNSEAL_PROFILE` and
    /// `RUNSEAL_ROOT`, then `RUNSEAL_PROFILE_PATH` when there is a profile
    /// file.
    pub fn run_vars(config: &Config) -> (r: Vec<(String, String)>)
        ensures
            r@.len() == if config.path is Some { 4int } else { 3int },
            r@[0].0@ == "RUNSEAL_HOME"@ && r@[0].1@ == config.home@,
            r@[1].0@ == "RUNSEAL_PROFILE"@ && r@[1].1@ == label_of(config.name),
            r@[2].0@ == "RUNSEAL_ROOT"@ && r@[2].1@ == config.root@,
            config.path matches Some(p) ==> r@[3].0@ == "RUNSEAL_PROFILE_PATH"@ && r@[3].1@ == p@,
    {
        let mut out: Vec<(String, String)> = Vec::new();
        out.push((owned("RUNSEAL_HOME"), config.home.clone()));
        out.push((owned("RUNSEAL_PROFILE"), owned(config.label())));
        out.push((owned("RUNSEAL_ROOT"), config.root.clone()));
        if let Some(p) = &config.path {
            out.push((owned("RUNSEAL_PROFILE_PATH"), p.clone()));
        }
        out
    }

    /// The names cleared before the run variables are set.
    pub fn cleared() -> (r: Vec<String>)
        ensures
            views(r@) == seq!["RUNSEAL_HOME"@, "RUNSEAL_PROFILE"@, "RUNSEAL_PROFILE_PATH"@, "RUNSEAL_ROOT"@],
    {
        let mut out: Vec<String> = Vec::new();
        out.push(owned("RUNSEAL_HOME"));
        out.push(owned("RUNSEAL_PROFILE"));
        out.push(owned("RUNSEAL_PROFILE_PATH"));
        out.push(owned("RUNSEAL_ROOT"));
        assert(views(out@) =~= seq!["RUNSEAL_HOME"@, "RUNSEAL_PROFILE"@, "RUNSEAL_PROFILE_PATH"@, "RUNSEAL_ROOT"@]);
        out
    }
}


/// One change of the child's environment.
pub enum Step {
    Remove(String),
    Put(String, String),
}

/// One change of the child's environment, in text: a name and, for a
/// value that is set, the value.
pub open spec fn step_view(s: Step) -> (Seq<char>, Option<Seq<char>>) {
    match s {
        Step::Remove(k) => (k@, None),
        Step::Put(k, v) => (k@, Some(v@)),
    }
}

/// The changes of the child's environment, in text.
pub open spec fn steps_view(v: Seq<Step>) -> Seq<(Seq<char>, Option<Seq<char>>)> {
    v.map_values(|s: Step| step_view(s))
}

/// The environment after the changes, in order.
pub open spec fn applied(env: Map<Seq<char>, Seq<char>>, steps: Seq<(Seq<char>, Option<Seq<char>>)>) -> Map<Seq<char>, Seq<char>>
    decreases steps.len(),
{
    if steps.len() == 0 {
        env
    } else {
        let last = steps.last();
        let before = applied(env, steps.drop_last());
        match last.1 {
            Some(v) => before.insert(last.0, v),
            None => before.remove(last.0),
        }
    }
}

/// The run variables of a configuration, as changes.
pub open spec fn run_steps(config: Config) -> Seq<(Seq<char>, Option<Seq<char>>)> {
    seq![("RUNSEAL_HOME"@, Some(config.home@)), ("RUNSEAL_PROFILE"@, Some(label_of(config.name))),
        ("RUNSEAL_ROOT"@, Some(config.root@))] + match config.path {
        Some(p) => seq![("RUNSEAL_PROFILE_PATH"@, Some(p@))],
        None => seq![],
    }
}

/// The names that the run variables replace.
pub open spec fn cleared_steps() -> Seq<(Seq<char>, Option<Seq<char>>)> {
    seq![("RUNSEAL_HOME"@, None), ("RUNSEAL_PROFILE"@, None), ("RUNSEAL_PROFILE_PATH"@, None), ("RUNSEAL_ROOT"@, None)]
}

/// The changes of the child's environment: the profile's names unset, its
/// variables set, then the run variables put in place of whatever was there.
pub open spec fn launch_steps(patch: crate::injections::Patch, config: Config) -> Seq<(Seq<char>, Option<Seq<char>>)> {
    patch.unset@.map_values(|k: String| (k@, None::<Seq<char>>)) + patch.set@.map_values(
        |p: (String, String)| (p.0@, Some(p.1@)),
    ) + cleared_steps() + run_steps(config)
}

/// How the child process starts.
pub struct Launch {
    pub program: String,
    pub args: Vec<String>,
    pub steps: Vec<Step>,
}

impl Runner {
    /// How the child starts: the first token is the program, the rest its
    /// arguments, with the environment changes of [`launch_steps`].
    pub fn launch(config: &Config, argv: &[String], patch: &crate::injections::Patch) -> (r: Result<Launch, String>)
        ensures
            argv@.len() == 0 ==> (r matches Err(e) && e@ == "profile mode requires a command"@),
            argv@.len() > 0 ==> (r matches Ok(l) && l.program@ == argv@[0]@ && views(l.args@) == views(argv@).skip(1)
                && steps_view(l.steps@) == launch_steps(*patch, *config)),
    {
        Runner::check(argv)?;
        let mut steps: Vec<Step> = Vec::new();
        let mut i: usize = 0;
        while i < patch.unset.len()
            invariant
                i <= patch.unset@.len(),
                steps_view(steps@) == patch.unset@.take(i as int).map_values(|k: String| (k@, None::<Seq<char>>)),
            decreases patch.unset@.len() - i,
        {
            steps.push(Step::Remove(patch.unset[i].clone()));
            assert(patch.unset@.take(i + 1).map_values(|k: String| (k@, None::<Seq<char>>)) =~= patch.unset@.take(
                i as int,
            ).map_values(|k: String| (k@, None::<Seq<char>>)).push((patch.unset@[i as int]@, None)));
            assert(steps_view(steps@) =~= steps_view(steps@.drop_last()).push(step_view(steps@.last())));
            i += 1;
        }
        assert(patch.unset@.take(patch.unset@.len() as int) =~= patch.unset@);
        let ghost head = steps_view(steps@);
        let mut j: usize = 0;
        while j < patch.set.len()
            invariant
                j <= patch.set@.len(),
                steps_view(steps@) == head + patch.set@.take(j as int).map_values(|p: (String, String)| (p.0@, Some(p.1@))),
            decreases patch.set@.len() - j,
        {
            let ghost before = steps_view(steps@);
            steps.push(Step::Put(patch.set[j].0.clone(), patch.set[j].1.clone()));
            let ghost x = (patch.set@[j as int].0@, Some(patch.set@[j as int].1@));
            let ghost done = patch.set@.take(j as int).map_values(|p: (String, String)| (p.0@, Some(p.1@)));
            assert(patch.set@.take(j + 1).map_values(|p: (String, String)| (p.0@, Some(p.1@))) =~= done.push(x));
            assert(steps_view(steps@) =~= before.push(x));
            assert(head + done.push(x) =~= (head + done).push(x));
            j += 1;
        }
        assert(patch.set@.take(patch.set@.len() as int) =~= patch.set@);
        let ghost mid = steps_view(steps@);
        let names = Runner::cleared();
        assert(views(names@).len() == 4);
        let mut k: usize = 0;
        while k < names.len()
            invariant
                k <= names@.len(),
                names@.len() == 4,
                views(names@) == seq!["RUNSEAL_HOME"@, "RUNSEAL_PROFILE"@, "RUNSEAL_PROFILE_PATH"@, "RUNSEAL_ROOT"@],
                steps_view(steps@) == mid + cleared_steps().take(k as int),
            decreases names@.len() - k,
        {
            assert(views(names@)[k as int] == names@[k as int]@);
            let ghost before = steps_view(steps@);
            steps.push(Step::Remove(names[k].clone()));
            let ghost x = cleared_steps()[k as int];
            assert(cleared_steps().take(k + 1) =~= cleared_steps().take(k as int).push(x));
            assert(steps_view(steps@) =~= before.push(x));
            assert(mid + cleared_steps().take(k as int).push(x) =~= (mid + cleared_steps().take(k as int)).push(x));
            k += 1;
        }
        assert(cleared_steps().take(4) =~= cleared_steps());
        let ghost tail = steps_view(steps@);
        let vars = Runner::run_vars(config);
        let mut m: usize = 0;
        while m < vars.len()
            invariant
                m <= vars@.len(),
                vars@.len() == if config.path is Some { 4int } else { 3int },
                forall|x: int| 0 <= x < vars@.len() ==> (vars@[x].0@, Some(vars@[x].1@)) == #[trigger] run_steps(*config)[x],
                run_steps(*config).len() == vars@.len(),
                steps_view(steps@) == tail + run_steps(*config).take(m as int),
            decreases vars@.len() - m,
        {
            let ghost before = steps_view(steps@);
            steps.push(Step::Put(vars[m].0.clone(), vars[m].1.clone()));
            let ghost x = run_steps(*config)[m as int];
            assert(run_steps(*config).take(m + 1) =~= run_steps(*config).take(m as int).push(x));
            assert(steps_view(steps@) =~= before.push(x));
            assert(tail + run_steps(*config).take(m as int).push(x) =~= (tail + run_steps(*config).take(m as int)).push(x));
            m += 1;
        }
        assert(run_steps(*config).take(vars@.len() as int) =~= run_steps(*config));
        assert(steps_view(steps@) == tail + run_steps(*config));
        assert(tail == mid + cleared_steps());
        assert(mid == head + patch.set@.map_values(|p: (String, String)| (p.0@, Some(p.1@))));
        assert(head == patch.unset@.map_values(|k: String| (k@, None::<Seq<char>>)));
        assert(steps_view(steps@) =~= launch_steps(*patch, *config));
        let args = crate::text::rest_from(argv, 1);
        Ok(Launch { program: argv[0].clone(), args, steps })
    }
}


/// Applying changes one after the other.
pub proof fn lemma_applied_concat(env: Map<Seq<char>, Seq<char>>, a: Seq<(Seq<char>, Option<Seq<char>>)>, b: Seq<(Seq<char>, Option<Seq<char>>)>)
    ensures
        applied(env, a + b) == applied(applied(env, a), b),
    decreases b.len(),
{
    if b.len() == 0 {
        assert(a + b =~= a);
    } else {
        lemma_applied_concat(env, a, b.drop_last());
        assert((a + b).drop_last() =~= a + b.drop_last());
        assert((a + b).last() == b.last());
    }
}

/// Whatever the profile sets or unsets, the child sees this run's
/// `RUNSEAL_HOME`, `RUNSEAL_PROFILE` and `RUNSEAL_ROOT`, and
/// `RUNSEAL_PROFILE_PATH` exactly when the run has a profile file, with its
/// path.
pub proof fn lemma_run_vars_win(env: Map<Seq<char>, Seq<char>>, patch: crate::injections::Patch, config: Config)
    ensures
        ({
            let e = applied(env, launch_steps(patch, config));
            &&& e.contains_key("RUNSEAL_HOME"@) && e["RUNSEAL_HOME"@] == config.home@
            &&& e.contains_key("RUNSEAL_PROFILE"@) && e["RUNSEAL_PROFILE"@] == label_of(config.name)
            &&& e.contains_key("RUNSEAL_ROOT"@) && e["RUNSEAL_ROOT"@] == config.root@
            &&& config.path is None ==> !e.contains_key("RUNSEAL_PROFILE_PATH"@)
            &&& config.path matches Some(p) ==> e.contains_key("RUNSEAL_PROFILE_PATH"@) && e["RUNSEAL_PROFILE_PATH"@] == p@
        }),
{
    let front = patch.unset@.map_values(|k: String| (k@, None::<Seq<char>>)) + patch.set@.map_values(
        |p: (String, String)| (p.0@, Some(p.1@)),
    );
    let m = applied(env, front);
    assert(launch_steps(patch, config) =~= front + (cleared_steps() + run_steps(config)));
    lemma_applied_concat(env, front, cleared_steps() + run_steps(config));
    lemma_applied_concat(m, cleared_steps(), run_steps(config));
    reveal_with_fuel(applied, 5);
    let c = applied(m, cleared_steps());
    assert(cleared_steps().drop_last() =~= seq![("RUNSEAL_HOME"@, None::<Seq<char>>), ("RUNSEAL_PROFILE"@, None), ("RUNSEAL_PROFILE_PATH"@, None)]);
    assert(c == m.remove("RUNSEAL_HOME"@).remove("RUNSEAL_PROFILE"@).remove("RUNSEAL_PROFILE_PATH"@).remove("RUNSEAL_ROOT"@)) by {
        let s3 = seq![("RUNSEAL_HOME"@, None::<Seq<char>>), ("RUNSEAL_PROFILE"@, None), ("RUNSEAL_PROFILE_PATH"@, None)];
        assert(s3.drop_last() =~= seq![("RUNSEAL_HOME"@, None::<Seq<char>>), ("RUNSEAL_PROFILE"@, None)]);
        assert(s3.drop_last().drop_last() =~= seq![("RUNSEAL_HOME"@, None::<Seq<char>>)]);
        assert(s3.drop_last().drop_last().drop_last() =~= Seq::<(Seq<char>, Option<Seq<char>>)>::empty());
    }
    let base = seq![("RUNSEAL_HOME"@, Some(config.home@)), ("RUNSEAL_PROFILE"@, Some(label_of(config.name))),
        ("RUNSEAL_ROOT"@, Some(config.root@))];
    assert(base.drop_last() =~= seq![("RUNSEAL_HOME"@, Some(config.home@)), ("RUNSEAL_PROFILE"@, Some(label_of(config.name)))]);
    assert(base.drop_last().drop_last() =~= seq![("RUNSEAL_HOME"@, Some(config.home@))]);
    assert(base.drop_last().drop_last().drop_last() =~= Seq::<(Seq<char>, Option<Seq<char>>)>::empty());
    reveal_strlit("RUNSEAL_HOME");
    reveal_strlit("RUNSEAL_PROFILE");
    reveal_strlit("RUNSEAL_ROOT");
    reveal_strlit("RUNSEAL_PROFILE_PATH");
    assert("RUNSEAL_HOME"@.len() == 12);
    assert("RUNSEAL_PROFILE"@.len() == 15);
    assert("RUNSEAL_ROOT"@.len() == 12);
    assert("RUNSEAL_PROFILE_PATH"@.len() == 20);
    assert("RUNSEAL_HOME"@ != "RUNSEAL_PROFILE_PATH"@);
    assert("RUNSEAL_PROFILE"@ != "RUNSEAL_PROFILE_PATH"@);
    assert("RUNSEAL_ROOT"@ != "RUNSEAL_PROFILE_PATH"@);
    assert("RUNSEAL_HOME"@[8] == 'H' && "RUNSEAL_ROOT"@[8] == 'R');
    assert("RUNSEAL_HOME"@ != "RUNSEAL_ROOT"@);
    assert("RUNSEAL_HOME"@ != "RUNSEAL_PROFILE"@);
    assert("RUNSEAL_PROFILE"@ != "RUNSEAL_ROOT"@);
    let r = applied(c, base);
    assert(r == c.insert("RUNSEAL_HOME"@, config.home@).insert("RUNSEAL_PROFILE"@, label_of(config.name)).insert(
        "RUNSEAL_ROOT"@, config.root@));
    match config.path {
        Some(p) => {
            assert(run_steps(config) =~= base.push(("RUNSEAL_PROFILE_PATH"@, Some(p@))));
            assert(run_steps(config).drop_last() =~= base);
            assert(applied(c, run_steps(config)) == r.insert("RUNSEAL_PROFILE_PATH"@, p@));
            let e = applied(env, launch_steps(patch, config));
            assert(e == r.insert("RUNSEAL_PROFILE_PATH"@, p@));
            assert(e["RUNSEAL_HOME"@] == config.home@);
            assert(e["RUNSEAL_PROFILE"@] == label_of(config.name));
            assert(e["RUNSEAL_ROOT"@] == config.root@);
            assert(e["RUNSEAL_PROFILE_PATH"@] == p@);
            assert(e.contains_key("RUNSEAL_HOME"@) && e.contains_key("RUNSEAL_PROFILE"@) && e.contains_key("RUNSEAL_ROOT"@)
                && e.contains_key("RUNSEAL_PROFILE_PATH"@));
        },
        None => {
            assert(run_steps(config) =~= base);
            let e = applied(env, launch_steps(patch, config));
            assert(e == r);
            assert(e["RUNSEAL_HOME"@] == config.home@);
            assert(!e.contains_key("RUNSEAL_PROFILE_PATH"@));
        },
    }
}

/// What a run starts with: the command line, the environment patch, and the
/// symlink machine with its first step.
pub struct Start {
    pub command: Command,
    pub patch: crate::injections::Patch,
    pub life: crate::injections::Lifecycle,
    pub first: crate::injections::Action,
}

/// Prepares a profile-mode run of the loaded profile: the command to run
/// (see [`resolution`]), then the environment patch and the symlink machine
/// (see `Lifecycle::with`).
pub fn run(config: &Config, profile: &Profile) -> (r: Result<Start, String>)
    ensures
        resolution(views(config.command@), profile.argv@) matches Err(e) ==> (r matches Err(m) && m@ == e),
        r matches Ok(s) ==> resolution(views(config.command@), profile.argv@) == Ok::<CommandModel, Seq<char>>(s.command.model())
            && s.life.wf() && s.life.count == profile.symlink@.len()
            && as_map(s.patch.set@) == profile.env.vars@ && s.patch.unset@ == profile.env.unset@
            && (profile.symlink@.len() > 0 ==> s.life.stage == crate::injections::Stage::Validate(0)
                && s.first == crate::injections::Action::Validate(0))
            && (profile.symlink@.len() == 0 ==> s.life.stage == crate::injections::Stage::Run
                && s.first == crate::injections::Action::Run),
        resolution(views(config.command@), profile.argv@) is Ok ==> (r is Ok <==> (forall|k: Seq<char>|
            #[trigger] profile.env.vars@.contains_key(k) ==> crate::injections::env::key_fault(k) is None) && (forall|i: int|
            0 <= i < profile.env.unset@.len() ==> crate::injections::env::key_fault(#[trigger] profile.env.unset@[i]@) is None)),
{
    let command = Command::resolve(config.command.as_slice(), profile)?;
    let (patch, life, first) = crate::injections::Lifecycle::with(profile)?;
    Ok(Start { command, patch, life, first })
}

/// The command line as typed, without a `--` right after its first word.
pub open spec fn normalized(command: Seq<Seq<char>>) -> Seq<Seq<char>> {
    if command.len() > 1 && command[1] == "--"@ {
        command.remove(1)
    } else {
        command
    }
}

/// Drops a `--` that directly follows the first word of the command line.
pub fn normalize(command: Vec<String>) -> (r: Vec<String>)
    ensures
        views(r@) == normalized(views(command@)),
{
    let ghost before = command@;
    let mut command = command;
    if command.len() > 1 && crate::text::same(command[1].as_str(), "--") {
        command.remove(1);
        assert(views(command@) =~= views(before).remove(1));
    }
    command
}

/// The lines that describe a loaded profile without applying it.
pub open spec fn inspection(config: Config, profile: Profile) -> Seq<Seq<char>> {
    seq!["RUNSEAL_HOME="@ + config.home@, "RUNSEAL_PROFILE="@ + label_of(config.name), "RUNSEAL_ROOT="@ + config.root@]
        + match config.path {
        Some(p) => seq!["RUNSEAL_PROFILE_PATH="@ + p@],
        None => Seq::empty(),
    } + seq![
        "RUNSEAL_ENV="@ + crate::text::decimal(profile.env.vars.list().len()),
        "RUNSEAL_ARGV="@ + crate::text::decimal(profile.argv.list().len()),
        "RUNSEAL_SYMLINK="@ + crate::text::decimal(profile.symlink@.len()),
    ]
}

/// One `KEY=value` line.
fn line(key: &str, value: &str) -> (r: String)
    ensures
        r@ == key@ + "="@ + value@,
{
    let mut out = owned(key);
    out.append("=");
    out.append(value);
    out
}

/// The paths and sizes of a loaded profile, one `KEY=value` line each.
pub fn inspect(config: &Config, profile: &Profile) -> (r: Vec<String>)
    ensures
        views(r@) == inspection(*config, *profile),
{
    proof {
        reveal_strlit("RUNSEAL_HOME");
        reveal_strlit("RUNSEAL_PROFILE");
        reveal_strlit("RUNSEAL_ROOT");
        reveal_strlit("RUNSEAL_PROFILE_PATH");
        reveal_strlit("RUNSEAL_HOME=");
        reveal_strlit("RUNSEAL_PROFILE=");
        reveal_strlit("RUNSEAL_ROOT=");
        reveal_strlit("RUNSEAL_PROFILE_PATH=");
        reveal_strlit("=");
        assert("RUNSEAL_HOME"@ + "="@ =~= "RUNSEAL_HOME="@);
        assert("RUNSEAL_PROFILE"@ + "="@ =~= "RUNSEAL_PROFILE="@);
        assert("RUNSEAL_ROOT"@ + "="@ =~= "RUNSEAL_ROOT="@);
        assert("RUNSEAL_PROFILE_PATH"@ + "="@ =~= "RUNSEAL_PROFILE_PATH="@);
    }
    let mut out: Vec<String> = Vec::new();
    out.push(line("RUNSEAL_HOME", config.home.as_str()));
    out.push(line("RUNSEAL_PROFILE", config.label()));
    out.push(line("RUNSEAL_ROOT", config.root.as_str()));
    let ghost head = seq!["RUNSEAL_HOME="@ + config.home@, "RUNSEAL_PROFILE="@ + label_of(config.name), "RUNSEAL_ROOT="@ + config.root@];
    assert(views(out@) =~= head);
    if let Some(path) = &config.path {
        out.push(line("RUNSEAL_PROFILE_PATH", path.as_str()));
        assert(views(out@) =~= head + seq!["RUNSEAL_PROFILE_PATH="@ + path@]);
    } else {
        assert(views(out@) =~= head + Seq::empty());
    }
    out.push(line("RUNSEAL_ENV", crate::text::decimal_of(profile.env.vars.len() as u64).as_str()));
    out.push(line("RUNSEAL_ARGV", crate::text::decimal_of(profile.argv.len() as u64).as_str()));
    out.push(line("RUNSEAL_SYMLINK", crate::text::decimal_of(profile.symlink.len() as u64).as_str()));
    proof {
        reveal_strlit("RUNSEAL_ENV");
        reveal_strlit("RUNSEAL_ARGV");
        reveal_strlit("RUNSEAL_SYMLINK");
        reveal_strlit("RUNSEAL_ENV=");
        reveal_strlit("RUNSEAL_ARGV=");
        reveal_strlit("RUNSEAL_SYMLINK=");
        reveal_strlit("=");
        assert("RUNSEAL_ENV"@ + "="@ =~= "RUNSEAL_ENV="@);
        assert("RUNSEAL_ARGV"@ + "="@ =~= "RUNSEAL_ARGV="@);
        assert("RUNSEAL_SYMLINK"@ + "="@ =~= "RUNSEAL_SYMLINK="@);
    }
    assert(views(out@) =~= inspection(*config, *profile));
    out
}

/// Resolves URIs in order until one is refused: the paths resolved before
/// it, and its error (`None` when every URI resolved).
pub fn resolve_all(config: &Config, uris: &[String]) -> (r: (Vec<String>, Option<String>))
    requires
        crate::model::path::absolute(config.root@),
    ensures
        r.0@.len() <= uris@.len(),
        forall|j: int| 0 <= j < r.0@.len() ==> crate::model::profile::resolution(config.root@, #[trigger] uris@[j]@)
            == Ok::<Seq<char>, Seq<char>>(r.0@[j]@),
        r.1 is None ==> r.0@.len() == uris@.len(),
        r.1 matches Some(e) ==> r.0@.len() < uris@.len() && crate::model::profile::resolution(
            config.root@,
            uris@[r.0@.len() as int]@,
        ) == Err::<Seq<char>, Seq<char>>(e@),
{
    let mut done: Vec<String> = Vec::new();
    let mut i: usize = 0;
    while i < uris.len()
        invariant
            i <= uris@.len(),
            done@.len() == i,
            crate::model::path::absolute(config.root@),
            forall|j: int| 0 <= j < i ==> crate::model::profile::resolution(config.root@, #[trigger] uris@[j]@)
                == Ok::<Seq<char>, Seq<char>>(done@[j]@),
        decreases uris@.len() - i,
    {
        match crate::model::profile::resolve(config.root.as_str(), uris[i].as_str()) {
            Ok(p) => done.push(p),
            Err(e) => return (done, Some(e)),
        }
        i += 1;
    }
    (done, None)
}

/// Which plane a command line addresses.
pub enum Plane {
    /// `:NAME COMMAND...` (or `: COMMAND...` for the default profile).
    Profile { name: Option<String>, command: Vec<String> },
    /// `@tool NAMESPACE ARGS...`: a native tool.
    Tool(Vec<String>),
    /// Anything else: the control plane.
    Control(Vec<String>),
}

/// Which plane a command line addresses, in text.
pub enum PlaneModel {
    Profile { name: Option<Seq<char>>, command: Seq<Seq<char>> },
    Tool(Seq<Seq<char>>),
    Control(Seq<Seq<char>>),
}

impl Plane {
    /// The plane in text.
    pub open spec fn model(&self) -> PlaneModel {
        match self {
            Plane::Profile { name, command } => PlaneModel::Profile {
                name: match name {
                    Some(n) => Some(n@),
                    None => None,
                },
                command: views(command@),
            },
            Plane::Tool(v) => PlaneModel::Tool(views(v@)),
            Plane::Control(v) => PlaneModel::Control(views(v@)),
        }
    }
}

/// The plane of a command line: a first word that starts with `:` enters
/// profile mode with the profile it names (none for a bare `:`); `@tool`
/// runs a native tool; anything else is the control plane.
pub open spec fn plane_of(a: Seq<Seq<char>>) -> PlaneModel {
    if a.len() > 0 && a[0].len() > 0 && a[0][0] == ':' {
        PlaneModel::Profile {
            name: if a[0].len() == 1 { None } else { Some(a[0].skip(1)) },
            command: a.skip(1),
        }
    } else if a.len() > 0 && a[0] == "@tool"@ {
        PlaneModel::Tool(a.skip(1))
    } else {
        PlaneModel::Control(a)
    }
}

/// Splits a command line by the plane it addresses.
pub fn plane(argv: Vec<String>) -> (r: Plane)
    ensures
        r.model() == plane_of(views(argv@)),
{
    let ghost a = views(argv@);
    if argv.len() > 0 {
        assert(a[0] == argv@[0]@);
        let n = argv[0].as_str().unicode_len();
        if n > 0 && argv[0].as_str().get_char(0) == ':' {
            let name = if n == 1 {
                None
            } else {
                Some(crate::text::slice(argv[0].as_str(), 1, n))
            };
            let command = crate::text::rest_from(argv.as_slice(), 1);
            proof {
                if n > 1 {
                    assert(argv@[0]@.subrange(1, n as int) =~= a[0].skip(1));
                }
            }
            return Plane::Profile { name, command };
        }
        if crate::text::same(argv[0].as_str(), "@tool") {
            return Plane::Tool(crate::text::rest_from(argv.as_slice(), 1));
        }
    }
    Plane::Control(argv)
}

} // verus!
