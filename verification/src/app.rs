//! The state of the running application and its startup.

use crate::config::{Cli, Command, EnvOverrides, MyConfig};
use crate::hooks::{AppHooks, HookFailures, HookPoint};
use crate::template::{resolve, AppType};
use vstd::prelude::*;

verus! {

/// A number shared by whatever runs in the application.
pub struct Context {
    pub value: u64,
}

impl Context {
    pub fn new() -> (c: Self)
        ensures
            c.value == 0,
    {
        Self { value: 0 }
    }
}

/// Which sources may override the configuration at startup.
pub struct InitOptions {
    pub config_merge_env: bool,
    pub config_merge_cli: bool,
}

/// What a hook gets to read.
pub struct AppState {
    pub config: MyConfig,
    pub cli: Cli,
    pub context: Context,
}

pub struct RunTime<F> {
    pub state: AppState,
    pub hooks: AppHooks<F>,
}

/// What the command line asks the application to do.
#[derive(Debug)]
pub enum Job {
    /// Say hello and show `list`.
    Hello { list: String },
    /// Scaffold the project `name` from the variant `app_type`.
    Scaffold { name: String, app_type: AppType },
}

/// A command line that asks for nothing.
#[derive(Clone, Copy, Debug, PartialEq, Eq, Structural)]
pub enum UsageError {
    NoCommand,
}

impl UsageError {
    pub fn message(&self) -> (m: String)
        ensures
            m@ == "Please input the command"@,
    {
        "Please input the command".to_owned()
    }
}

/// The job that the command line names: without a subcommand there is none,
/// with or without a name.
pub fn dispatch(cli: &Cli) -> (r: Result<Job, UsageError>)
    ensures
        match cli.command {
            None => r == Err::<Job, UsageError>(UsageError::NoCommand),
            Some(Command::Test { list }) => r matches Ok(Job::Hello { list: l }) && l@ == list@,
            Some(Command::New { name, app_type }) => r matches Ok(
                Job::Scaffold { name: n, app_type: t },
            ) && n@ == name@ && t == resolve(app_type@),
        },
{
    match &cli.command {
        None => Err(UsageError::NoCommand),
        Some(Command::Test { list }) => Ok(Job::Hello { list: list.clone() }),
        Some(Command::New { name, app_type }) => Ok(
            Job::Scaffold { name: name.clone(), app_type: AppType::from(app_type.as_str()) },
        ),
    }
}

/// The debug flag once startup has merged what `options` lets in.
pub open spec fn effective_debug(
    file: bool,
    env: Option<bool>,
    flag: bool,
    options: InitOptions,
) -> bool {
    let after_env = if options.config_merge_env {
        crate::config::debug_after_env(file, env)
    } else {
        file
    };
    if options.config_merge_cli {
        crate::config::debug_after_cli(after_env, flag)
    } else {
        after_env
    }
}

impl<F: Fn(&AppState) -> Result<(), String>> RunTime<F> {
    /// A runtime with the given configuration and command line, no hooks and
    /// a fresh context.
    pub fn new(config: MyConfig, cli: Cli) -> (rt: Self)
        ensures
            rt.state.config == config,
            rt.state.cli == cli,
            rt.state.context.value == 0,
            rt.hooks.wf(),
            forall|point: HookPoint| rt.hooks.callbacks(point).len() == 0,
    {
        Self { state: AppState { config, cli, context: Context::new() }, hooks: AppHooks::new() }
    }

    /// Finishes the configuration, the environment first and the command
    /// line after it, then runs the hooks of `HookPoint::RunInit` on the
    /// finished state. Failing hooks are reported, never fatal: the state is
    /// final either way.
    pub fn do_init(&mut self, options: InitOptions, env: &EnvOverrides) -> (outcome: Result<
        (),
        HookFailures,
    >)
        requires
            old(self).hooks.wf(),
        ensures
            final(self).hooks == old(self).hooks,
            final(self).state.cli == old(self).state.cli,
            final(self).state.context == old(self).state.context,
            final(self).state.config.main.debug == effective_debug(
                old(self).state.config.main.debug,
                env.debug,
                old(self).state.cli.debug,
                options,
            ),
            exists|results: Seq<Result<(), String>>|
                crate::hooks::is_run_of(
                    final(self).hooks.callbacks(HookPoint::RunInit),
                    &final(self).state,
                    results,
                ) && crate::hooks::reports(outcome, results),
            final(self).hooks.callbacks(HookPoint::RunInit).len() == 0 ==> outcome is Ok,
    {
        if options.config_merge_env {
            self.state.config.merge_env(env);
        }
        if options.config_merge_cli {
            self.state.config.merge_cli(&self.state.cli);
        }
        self.hooks.run_hooks(HookPoint::RunInit, &self.state)
    }
}

} // verus!
