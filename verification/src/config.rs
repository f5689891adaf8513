//! Effective configuration: the values read from the configuration file,
//! overridden first by the environment and then by the command line.

use vstd::prelude::*;

verus! {

/// The subcommand given on the command line.
pub enum Command {
    /// `test --list <VALUE>`
    Test { list: String },
    /// `new --name <NAME> --app-type <TAG>`
    New { name: String, app_type: String },
}

/// The parsed command line.
pub struct Cli {
    pub debug: bool,
    pub name: Option<String>,
    pub command: Option<Command>,
}

/// What the environment says about the configuration; `None` where the
/// variable is not set.
pub struct EnvOverrides {
    pub debug: Option<bool>,
}

pub struct MainConfig {
    pub debug: bool,
}

pub struct MyConfig {
    pub main: MainConfig,
}

/// The debug flag after the environment had its say.
pub open spec fn debug_after_env(file: bool, env: Option<bool>) -> bool {
    match env {
        Some(v) => v,
        None => file,
    }
}

/// The debug flag after the command line had its say: the flag can only
/// switch debugging on.
pub open spec fn debug_after_cli(current: bool, flag: bool) -> bool {
    current || flag
}

impl Default for MyConfig {
    fn default() -> (c: MyConfig)
        ensures
            !c.main.debug,
    {
        MyConfig { main: MainConfig { debug: false } }
    }
}

impl MyConfig {
    /// Overrides the configuration with what the environment sets.
    pub fn merge_env(&mut self, env: &EnvOverrides)
        ensures
            final(self).main.debug == debug_after_env(old(self).main.debug, env.debug),
    {
        match env.debug {
            Some(v) => {
                self.main.debug = v;
            },
            None => {},
        }
    }

    /// Overrides the configuration with the flags given on the command line.
    pub fn merge_cli(&mut self, cli: &Cli)
        ensures
            final(self).main.debug == debug_after_cli(old(self).main.debug, cli.debug),
    {
        if cli.debug {
            self.main.debug = true;
        }
    }
}

/// The command line wins over the environment, and the environment over the
/// file: a flag on the command line switches debugging on whatever the other
/// two say; without it a value in the environment decides; without both the
/// file does.
pub proof fn lemma_precedence(file: bool, env: Option<bool>, flag: bool)
    ensures
        flag ==> debug_after_cli(debug_after_env(file, env), flag),
        !flag && env is Some ==> debug_after_cli(debug_after_env(file, env), flag) == env->0,
        !flag && env is None ==> debug_after_cli(debug_after_env(file, env), flag) == file,
{
}

} // verus!
