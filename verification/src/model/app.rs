//! The application context: configuration plus the process environment.
use vstd::prelude::*;

use super::config::Config;
use crate::table::Table;

verus! {

/// Read access to environment variables.
pub trait Env {
    fn var(&self, key: &str) -> Option<String>;
}

/// What a command runs with: its configuration and its environment.
pub trait Context {
    fn config(&self) -> &Config;

    fn env(&self) -> &Process;
}

/// A snapshot of the process environment.
pub struct Process {
    vars: Table<String>,
}

impl Process {
    /// A snapshot holding `vars`.
    pub fn new(vars: Table<String>) -> (r: Self)
        ensures
            r@ == vars@,
    {
        Process { vars }
    }
}

impl View for Process {
    type V = Map<Seq<char>, String>;

    closed spec fn view(&self) -> Map<Seq<char>, String> {
        self.vars@
    }
}

impl Env for Process {
    fn var(&self, key: &str) -> (r: Option<String>)
        ensures
            r matches Some(v) ==> self@.contains_key(key@) && v@ == self@[key@]@,
            r is None ==> !self@.contains_key(key@),
    {
        match self.vars.get(key) {
            Some(v) => Some(v.clone()),
            None => None,
        }
    }
}

/// The running application.
pub struct App {
    config: Config,
    env: Process,
}

impl App {
    /// An application with `config` and the environment snapshot `env`.
    pub fn new(config: Config, env: Process) -> (r: Self)
        ensures
            r.config_of() == config,
            r.env_of()@ == env@,
    {
        App { config, env }
    }

    /// The configuration.
    pub closed spec fn config_of(&self) -> Config {
        self.config
    }

    /// The environment.
    pub closed spec fn env_of(&self) -> Process {
        self.env
    }
}

impl Context for App {
    fn config(&self) -> (r: &Config)
        ensures
            *r == self.config_of(),
    {
        &self.config
    }

    fn env(&self) -> (r: &Process)
        ensures
            r@ == self.env_of()@,
    {
        &self.env
    }
}

} // verus!
