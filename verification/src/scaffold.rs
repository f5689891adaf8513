//! The scaffolding pipeline: clone the base template, rewrite the placeholder
//! in a fixed list of files, show the initialisation command.
//!
//! The pipeline decides and its driver acts: each step takes what the last
//! action came to and says what to do next.

use crate::strings::{join3, texts};
use crate::substitute::{replace_token, replaced};
use crate::template::aptos::AptosTemplate;
use crate::template::base::BaseTemplate;
use crate::template::evm::EvmTemplate;
use crate::template::solana::SolanaTemplate;
use crate::template::sui::SuiTemplate;
use crate::template::{AppType, Templated};
use vstd::prelude::*;

verus! {

/// The repository that every project starts from.
pub open spec fn base_repo() -> Seq<char> {
    "https://github.com/rustweb3/rustapp_template.git"@
}

/// The base template's own project name, which the new name replaces.
pub open spec fn placeholder() -> Seq<char> {
    "rustapp_template"@
}

/// How many files are rewritten.
pub open spec fn target_count() -> int {
    3
}

/// The files that are rewritten, relative to the project's directory.
pub open spec fn target_file(i: int) -> Seq<char> {
    if i == 0 {
        "Cargo.toml"@
    } else if i == 1 {
        "src/config.rs"@
    } else {
        "src/bin/main.rs"@
    }
}

/// The place of the `i`-th rewritten file in the project `name`.
pub open spec fn target_path(name: Seq<char>, i: int) -> Seq<char> {
    name + "/"@ + target_file(i)
}

/// Where the pipeline stands: what its last action was.
#[derive(Clone, Copy, Debug, PartialEq, Eq, Structural)]
pub enum Stage {
    /// The clone was asked for.
    Clone,
    /// The file of this index was asked for.
    Load(usize),
    /// The rewritten file of this index was handed out.
    Store(usize),
    /// The token of this index was handed out.
    Announce(usize),
    Finished,
    Aborted,
}

/// What the driver is to do next.
#[derive(Debug)]
pub enum Action {
    /// Clone the repository at `url` into the directory `dir`.
    CloneRepo { url: String, dir: String },
    /// Read the whole file at `path`.
    LoadFile { path: String },
    /// Overwrite the file at `path` with `content`.
    StoreFile { path: String, content: String },
    /// Show one token of the initialisation command.
    Announce { token: String },
    /// Nothing is left to do.
    Finish,
    /// Give up: the project's directory may be half rewritten.
    Abort { message: String },
}

/// What the last action came to.
#[derive(Debug)]
pub enum Event {
    /// The clone ended, well or not.
    Cloned { success: bool },
    /// The file was read.
    Loaded { content: String },
    /// The file was written.
    Stored,
    /// The token was shown.
    Announced,
    /// The file could not be read or written.
    IoFailed { message: String },
}

pub enum ActionView {
    CloneRepo { url: Seq<char>, dir: Seq<char> },
    LoadFile { path: Seq<char> },
    StoreFile { path: Seq<char>, content: Seq<char> },
    Announce { token: Seq<char> },
    Finish,
    Abort { message: Seq<char> },
}

pub enum EventView {
    Cloned { success: bool },
    Loaded { content: Seq<char> },
    Stored,
    Announced,
    IoFailed { message: Seq<char> },
}

impl View for Action {
    type V = ActionView;

    open spec fn view(&self) -> ActionView {
        match self {
            Action::CloneRepo { url, dir } => ActionView::CloneRepo { url: url@, dir: dir@ },
            Action::LoadFile { path } => ActionView::LoadFile { path: path@ },
            Action::StoreFile { path, content } => ActionView::StoreFile {
                path: path@,
                content: content@,
            },
            Action::Announce { token } => ActionView::Announce { token: token@ },
            Action::Finish => ActionView::Finish,
            Action::Abort { message } => ActionView::Abort { message: message@ },
        }
    }
}

impl View for Event {
    type V = EventView;

    open spec fn view(&self) -> EventView {
        match self {
            Event::Cloned { success } => EventView::Cloned { success: *success },
            Event::Loaded { content } => EventView::Loaded { content: content@ },
            Event::Stored => EventView::Stored,
            Event::Announced => EventView::Announced,
            Event::IoFailed { message } => EventView::IoFailed { message: message@ },
        }
    }
}

/// The pipeline of one scaffolding run.
pub struct Pipeline {
    pub name: String,
    pub init_shell: Vec<String>,
    pub stage: Stage,
}

/// The step that shows the token of index `j`, or the end where there is
/// none.
pub open spec fn announce_from(tokens: Seq<Seq<char>>, j: int) -> (Stage, ActionView) {
    if 0 <= j < tokens.len() && j <= usize::MAX {
        (Stage::Announce(j as usize), ActionView::Announce { token: tokens[j] })
    } else {
        (Stage::Finished, ActionView::Finish)
    }
}

/// The step that asks for the file of index `i`.
pub open spec fn load(name: Seq<char>, i: int) -> (Stage, ActionView) {
    (Stage::Load(i as usize), ActionView::LoadFile { path: target_path(name, i) })
}

/// The text that stands in an `Abort` after an event that the stage does not
/// wait for.
pub open spec fn unexpected() -> Seq<char> {
    "unexpected event"@
}

/// The pipeline's rule: the stage and the action that follow `event` at
/// `stage`, for the project `name` with the initialisation command `tokens`.
///
/// The clone's outcome changes nothing. A failure to read or write a file
/// ends the run. A finished pipeline stays finished.
pub open spec fn next(
    name: Seq<char>,
    tokens: Seq<Seq<char>>,
    stage: Stage,
    event: EventView,
) -> (Stage, ActionView) {
    match (stage, event) {
        (Stage::Finished, _) => (Stage::Finished, ActionView::Finish),
        (Stage::Clone, EventView::Cloned { success }) => load(name, 0),
        (Stage::Load(i), EventView::Loaded { content }) if i < target_count() => (
            Stage::Store(i),
            ActionView::StoreFile {
                path: target_path(name, i as int),
                content: replaced(content, placeholder(), name),
            },
        ),
        (Stage::Store(i), EventView::Stored) if i < target_count() => if i + 1 < target_count() {
            load(name, i + 1)
        } else {
            announce_from(tokens, 0)
        },
        (Stage::Load(i), EventView::IoFailed { message }) if i < target_count() => (
            Stage::Aborted,
            ActionView::Abort { message },
        ),
        (Stage::Store(i), EventView::IoFailed { message }) if i < target_count() => (
            Stage::Aborted,
            ActionView::Abort { message },
        ),
        (Stage::Announce(j), EventView::Announced) if j < tokens.len() => announce_from(
            tokens,
            j + 1,
        ),
        _ => (Stage::Aborted, ActionView::Abort { message: unexpected() }),
    }
}

/// Whether `stage` is one that a run with the command `tokens` can be at.
pub open spec fn stage_ok(stage: Stage, tokens: Seq<Seq<char>>) -> bool {
    match stage {
        Stage::Load(i) => i < target_count(),
        Stage::Store(i) => i < target_count(),
        Stage::Announce(j) => j < tokens.len(),
        _ => true,
    }
}

/// Whether a run at `stage` is over.
pub open spec fn is_terminal(stage: Stage) -> bool {
    stage == Stage::Finished || stage == Stage::Aborted
}

/// How far a run at `stage` has come.
pub open spec fn progress(stage: Stage, tokens: Seq<Seq<char>>) -> int {
    match stage {
        Stage::Clone => 0,
        Stage::Load(i) => 1 + 2 * i,
        Stage::Store(i) => 2 + 2 * i,
        Stage::Announce(j) => 1 + 2 * target_count() + j,
        Stage::Finished => 1 + 2 * target_count() + tokens.len(),
        Stage::Aborted => 1 + 2 * target_count() + tokens.len(),
    }
}

/// The pipeline never goes back: every step of a run that is not over
/// brings it further, so it is over after at most as many steps as there
/// are files to read and write and tokens to show, and one for the clone;
/// a run that is over stays where it is.
pub proof fn lemma_never_back(
    name: Seq<char>,
    tokens: Seq<Seq<char>>,
    stage: Stage,
    event: EventView,
)
    requires
        stage_ok(stage, tokens),
    ensures
        stage_ok(next(name, tokens, stage, event).0, tokens),
        is_terminal(stage) ==> next(name, tokens, stage, event).0 == stage,
        !is_terminal(stage) ==> progress(stage, tokens) < progress(
            next(name, tokens, stage, event).0,
            tokens,
        ) <= 1 + 2 * target_count() + tokens.len(),
{
}

/// How a run begins: with the clone, or, for `AppType::Unknown`, with its end.
pub open spec fn first(name: Seq<char>, app_type: AppType) -> (Stage, ActionView) {
    match app_type {
        AppType::Unknown => (Stage::Finished, ActionView::Finish),
        _ => (Stage::Clone, ActionView::CloneRepo { url: base_repo(), dir: name }),
    }
}

fn target_file_name(i: usize) -> (r: &'static str)
    ensures
        r@ == target_file(i as int),
{
    if i == 0 {
        "Cargo.toml"
    } else if i == 1 {
        "src/config.rs"
    } else {
        "src/bin/main.rs"
    }
}

impl Pipeline {
    /// The pipeline for `template`, and its first action: the clone.
    pub fn begin<T: Templated>(template: &T) -> (r: (Pipeline, Action))
        ensures
            r.0.name@ == template.name_text(),
            texts(r.0.init_shell@) == template.init_tokens(),
            r.0.stage == Stage::Clone,
            r.1@ == (ActionView::CloneRepo { url: base_repo(), dir: template.name_text() }),
            stage_ok(r.0.stage, texts(r.0.init_shell@)),
    {
        let name = template.name();
        let action = Action::CloneRepo {
            url: "https://github.com/rustweb3/rustapp_template.git".to_owned(),
            dir: name.clone(),
        };
        (Pipeline { name, init_shell: template.init_cmd_line(), stage: Stage::Clone }, action)
    }

    fn load_file(&mut self, i: usize) -> (action: Action)
        requires
            i < target_count(),
        ensures
            final(self).name == old(self).name,
            final(self).init_shell == old(self).init_shell,
            (final(self).stage, action@) == load(old(self).name@, i as int),
    {
        self.stage = Stage::Load(i);
        Action::LoadFile { path: join3(self.name.as_str(), "/", target_file_name(i)) }
    }

    fn announce(&mut self, j: usize) -> (action: Action)
        ensures
            final(self).name == old(self).name,
            final(self).init_shell == old(self).init_shell,
            (final(self).stage, action@) == announce_from(texts(old(self).init_shell@), j as int),
    {
        if j < self.init_shell.len() {
            self.stage = Stage::Announce(j);
            Action::Announce { token: self.init_shell[j].clone() }
        } else {
            self.stage = Stage::Finished;
            Action::Finish
        }
    }

    fn abort(&mut self, message: String) -> (action: Action)
        ensures
            final(self).name == old(self).name,
            final(self).init_shell == old(self).init_shell,
            final(self).stage == Stage::Aborted,
            action@ == (ActionView::Abort { message: message@ }),
    {
        self.stage = Stage::Aborted;
        Action::Abort { message }
    }

    /// Takes what the last action came to and says what to do next.
    pub fn step(&mut self, event: Event) -> (action: Action)
        ensures
            final(self).name == old(self).name,
            final(self).init_shell == old(self).init_shell,
            (final(self).stage, action@) == next(
                old(self).name@,
                texts(old(self).init_shell@),
                old(self).stage,
                event@,
            ),
            stage_ok(old(self).stage, texts(old(self).init_shell@)) ==> stage_ok(
                final(self).stage,
                texts(final(self).init_shell@),
            ),
    {
        proof {
            if stage_ok(self.stage, texts(self.init_shell@)) {
                lemma_never_back(self.name@, texts(self.init_shell@), self.stage, event@);
            }
        }
        match (self.stage, event) {
            (Stage::Finished, _) => Action::Finish,
            (Stage::Clone, Event::Cloned { success: _ }) => self.load_file(0),
            (Stage::Load(i), Event::Loaded { content }) if i < 3 => {
                let path = join3(self.name.as_str(), "/", target_file_name(i));
                let content = replace_token(
                    content.as_str(),
                    "rustapp_template",
                    self.name.as_str(),
                );
                self.stage = Stage::Store(i);
                Action::StoreFile { path, content }
            },
            (Stage::Store(i), Event::Stored) if i < 3 => {
                if i + 1 < 3 {
                    self.load_file(i + 1)
                } else {
                    self.announce(0)
                }
            },
            (Stage::Load(i), Event::IoFailed { message }) if i < 3 => self.abort(message),
            (Stage::Store(i), Event::IoFailed { message }) if i < 3 => self.abort(message),
            (Stage::Announce(j), Event::Announced) if j < self.init_shell.len() => self.announce(
                j + 1,
            ),
            _ => self.abort("unexpected event".to_owned()),
        }
    }

    /// Whether the run is over, well or not.
    pub fn is_over(&self) -> (b: bool)
        ensures
            b == (self.stage == Stage::Finished || self.stage == Stage::Aborted),
    {
        match self.stage {
            Stage::Finished => true,
            Stage::Aborted => true,
            _ => false,
        }
    }
}

/// Begins the scaffolding of the project `name` from the variant `app_type`:
/// the pipeline and its first action. For `AppType::Unknown` the run is over
/// before it began: nothing is cloned and nothing written.
pub fn new_app(name: &str, app_type: AppType) -> (r: (Pipeline, Action))
    ensures
        r.0.name@ == name@,
        texts(r.0.init_shell@) == app_type.init_tokens(),
        (r.0.stage, r.1@) == first(name@, app_type),
        stage_ok(r.0.stage, texts(r.0.init_shell@)),
{
    match app_type {
        AppType::Evm => Pipeline::begin(
            &EvmTemplate {
                name: name.to_owned(),
                version: "0.1".to_owned(),
                init_shell: app_type.init_shell(),
            },
        ),
        AppType::Solana => Pipeline::begin(
            &SolanaTemplate {
                name: name.to_owned(),
                version: "0.1".to_owned(),
                init_shell: app_type.init_shell(),
            },
        ),
        AppType::Aptos => Pipeline::begin(
            &AptosTemplate {
                name: name.to_owned(),
                version: "0.1".to_owned(),
                init_shell: app_type.init_shell(),
            },
        ),
        AppType::Sui => Pipeline::begin(
            &SuiTemplate {
                name: name.to_owned(),
                version: "0.1".to_owned(),
                init_shell: app_type.init_shell(),
            },
        ),
        AppType::Base => Pipeline::begin(
            &BaseTemplate {
                name: name.to_owned(),
                version: "0.1".to_owned(),
                init_shell: app_type.init_shell(),
            },
        ),
        AppType::Unknown => {
            let init_shell: Vec<String> = Vec::new();
            assert(texts(init_shell@) =~= app_type.init_tokens());
            (Pipeline { name: name.to_owned(), init_shell, stage: Stage::Finished }, Action::Finish)
        },
    }
}

} // verus!
