use rustapp::scaffold::{Action, Event, Pipeline, Stage};
use rustapp::template::aptos::AptosTemplate;
use rustapp::template::base::BaseTemplate;
use rustapp::template::evm::EvmTemplate;
use rustapp::template::solana::SolanaTemplate;
use rustapp::template::sui::SuiTemplate;
use rustapp::template::{new_app, AppType, Templated};
use std::collections::HashMap;

const REPO: &str = "https://github.com/rustweb3/rustapp_template.git";

/// What a run did to the files, and what it showed.
struct Trace {
    clones: Vec<(String, String)>,
    writes: Vec<String>,
    shown: Vec<String>,
    aborted: Option<String>,
    files: HashMap<String, String>,
}

fn drive(name: &str, app_type: AppType, files: HashMap<String, String>, clone_ok: bool) -> Trace {
    let mut t = Trace { clones: Vec::new(), writes: Vec::new(), shown: Vec::new(), aborted: None, files };
    let (mut pipeline, mut action) = new_app(name, app_type);
    let mut steps: usize = 0;
    loop {
        steps += 1;
        assert!(steps < 100);
        let event = match action {
            Action::CloneRepo { url, dir } => {
                t.clones.push((url, dir));
                Event::Cloned { success: clone_ok }
            }
            Action::LoadFile { path } => match t.files.get(&path) {
                Some(content) => Event::Loaded { content: content.clone() },
                None => Event::IoFailed { message: format!("cannot read {}", path) },
            },
            Action::StoreFile { path, content } => {
                t.writes.push(path.clone());
                t.files.insert(path, content);
                Event::Stored
            }
            Action::Announce { token } => {
                t.shown.push(token);
                Event::Announced
            }
            Action::Finish => {
                assert_eq!(pipeline.stage, Stage::Finished);
                assert!(pipeline.is_over());
                return t;
            }
            Action::Abort { message } => {
                assert_eq!(pipeline.stage, Stage::Aborted);
                assert!(pipeline.is_over());
                t.aborted = Some(message);
                return t;
            }
        };
        action = pipeline.step(event);
    }
}

fn cloned_files(name: &str) -> HashMap<String, String> {
    let mut files = HashMap::new();
    files.insert(
        format!("{}/Cargo.toml", name),
        "[package]\nname = \"rustapp_template\"\n[[bin]]\nname = \"rustapp_template\"\n".to_string(),
    );
    files.insert(format!("{}/src/config.rs", name), "pub const APP: &str = \"rustapp_template\";\n".to_string());
    files.insert(format!("{}/src/bin/main.rs", name), "use rustapp_template::run;\n".to_string());
    files.insert(format!("{}/README.md", name), "rustapp_template".to_string());
    files
}

#[test]
fn evm_project_is_cloned_and_rewritten() {
    let t = drive("myapp", AppType::Evm, cloned_files("myapp"), true);
    assert_eq!(t.aborted, None);
    assert_eq!(t.clones, vec![(REPO.to_string(), "myapp".to_string())]);
    assert_eq!(t.writes, vec!["myapp/Cargo.toml", "myapp/src/config.rs", "myapp/src/bin/main.rs"]);
    assert_eq!(t.files["myapp/Cargo.toml"], "[package]\nname = \"myapp\"\n[[bin]]\nname = \"myapp\"\n");
    assert_eq!(t.files["myapp/src/config.rs"], "pub const APP: &str = \"myapp\";\n");
    assert_eq!(t.files["myapp/src/bin/main.rs"], "use myapp::run;\n");
    assert_eq!(t.files["myapp/README.md"], "rustapp_template");
    assert_eq!(t.shown, vec!["evm", "init"]);
}

#[test]
fn every_variant_shows_its_own_command() {
    let cases = [
        (AppType::Evm, "evm"),
        (AppType::Solana, "solana"),
        (AppType::Aptos, "aptos"),
        (AppType::Sui, "sui"),
        (AppType::Base, "base"),
    ];
    for (app_type, tag) in cases {
        let t = drive("p", app_type, cloned_files("p"), true);
        assert_eq!(t.aborted, None);
        assert_eq!(t.clones.len(), 1);
        assert_eq!(t.writes.len(), 3);
        assert_eq!(t.shown, vec![tag, "init"]);
    }
}

#[test]
fn unknown_variant_does_nothing() {
    let before = cloned_files("myapp");
    let t = drive("myapp", AppType::Unknown, before.clone(), true);
    assert_eq!(t.aborted, None);
    assert!(t.clones.is_empty());
    assert!(t.writes.is_empty());
    assert!(t.shown.is_empty());
    assert_eq!(t.files, before);
    let (pipeline, action) = new_app("myapp", AppType::from("bogus"));
    assert!(matches!(action, Action::Finish));
    assert_eq!(pipeline.stage, Stage::Finished);
}

#[test]
fn failed_clone_does_not_stop_the_run() {
    let t = drive("myapp", AppType::Evm, cloned_files("myapp"), false);
    assert_eq!(t.aborted, None);
    assert_eq!(t.writes.len(), 3);
}

#[test]
fn missing_file_aborts_the_run() {
    let mut files = cloned_files("myapp");
    files.remove("myapp/src/config.rs");
    let t = drive("myapp", AppType::Evm, files, true);
    assert_eq!(t.aborted, Some("cannot read myapp/src/config.rs".to_string()));
    assert_eq!(t.writes, vec!["myapp/Cargo.toml"]);
    assert!(t.shown.is_empty());
    assert_eq!(t.files["myapp/src/bin/main.rs"], "use rustapp_template::run;\n");
}

#[test]
fn failed_write_aborts_the_run() {
    let (mut p, _) = new_app("myapp", AppType::Sui);
    let a = p.step(Event::Cloned { success: true });
    assert!(matches!(a, Action::LoadFile { .. }));
    let a = p.step(Event::Loaded { content: "rustapp_template".to_string() });
    match a {
        Action::StoreFile { path, content } => {
            assert_eq!(path, "myapp/Cargo.toml");
            assert_eq!(content, "myapp");
        }
        other => panic!("unexpected: {:?}", other),
    }
    assert_eq!(p.stage, Stage::Store(0));
    let a = p.step(Event::IoFailed { message: "disk full".to_string() });
    match a {
        Action::Abort { message } => assert_eq!(message, "disk full"),
        other => panic!("unexpected: {:?}", other),
    }
    assert_eq!(p.stage, Stage::Aborted);
    assert!(matches!(p.step(Event::Stored), Action::Abort { .. }));
    assert_eq!(p.stage, Stage::Aborted);
}

#[test]
fn stages_follow_one_another() {
    let (mut p, a) = new_app("n", AppType::Base);
    assert!(matches!(a, Action::CloneRepo { .. }));
    assert_eq!(p.stage, Stage::Clone);
    assert!(!p.is_over());
    let expected = ["n/Cargo.toml", "n/src/config.rs", "n/src/bin/main.rs"];
    let mut a = p.step(Event::Cloned { success: true });
    for (i, want) in expected.iter().enumerate() {
        assert_eq!(p.stage, Stage::Load(i));
        match a {
            Action::LoadFile { path } => assert_eq!(&path, want),
            other => panic!("unexpected: {:?}", other),
        }
        a = p.step(Event::Loaded { content: String::new() });
        assert_eq!(p.stage, Stage::Store(i));
        a = match a {
            Action::StoreFile { path, content } => {
                assert_eq!(&path, want);
                assert_eq!(content, "");
                p.step(Event::Stored)
            }
            other => panic!("unexpected: {:?}", other),
        };
    }
    assert_eq!(p.stage, Stage::Announce(0));
    match a {
        Action::Announce { token } => assert_eq!(token, "base"),
        other => panic!("unexpected: {:?}", other),
    }
    match p.step(Event::Announced) {
        Action::Announce { token } => assert_eq!(token, "init"),
        other => panic!("unexpected: {:?}", other),
    }
    assert_eq!(p.stage, Stage::Announce(1));
    assert!(matches!(p.step(Event::Announced), Action::Finish));
    assert_eq!(p.stage, Stage::Finished);
    assert!(matches!(p.step(Event::Stored), Action::Finish));
    assert_eq!(p.stage, Stage::Finished);
}

#[test]
fn unexpected_event_aborts_the_run() {
    let (mut p, _) = new_app("n", AppType::Evm);
    match p.step(Event::Stored) {
        Action::Abort { message } => assert_eq!(message, "unexpected event"),
        other => panic!("unexpected: {:?}", other),
    }
    assert_eq!(p.stage, Stage::Aborted);
    let mut q = Pipeline { name: "n".to_string(), init_shell: Vec::new(), stage: Stage::Load(7) };
    assert!(matches!(q.step(Event::Loaded { content: String::new() }), Action::Abort { .. }));
    let mut r = Pipeline { name: "n".to_string(), init_shell: Vec::new(), stage: Stage::Store(2) };
    assert!(matches!(r.step(Event::Stored), Action::Finish));
}

#[test]
fn tags_resolve_to_distinct_variants() {
    let tags = ["evm", "solana", "aptos", "sui", "base"];
    let variants = [AppType::Evm, AppType::Solana, AppType::Aptos, AppType::Sui, AppType::Base];
    for (i, tag) in tags.iter().enumerate() {
        let v = AppType::from(*tag);
        assert_eq!(v, variants[i]);
        assert_ne!(v, AppType::Unknown);
        for (j, other) in tags.iter().enumerate() {
            if i != j {
                assert_ne!(v, AppType::from(*other));
            }
        }
    }
}

#[test]
fn other_tags_resolve_to_unknown() {
    for tag in ["bogus", "", "EVM", "Evm", " evm", "evm ", "none", "solan", "basee"] {
        assert_eq!(AppType::from(tag), AppType::Unknown);
    }
}

#[test]
fn init_shell_of_each_variant() {
    assert_eq!(AppType::Evm.init_shell(), vec!["evm", "init"]);
    assert_eq!(AppType::Solana.init_shell(), vec!["solana", "init"]);
    assert_eq!(AppType::Aptos.init_shell(), vec!["aptos", "init"]);
    assert_eq!(AppType::Sui.init_shell(), vec!["sui", "init"]);
    assert_eq!(AppType::Base.init_shell(), vec!["base", "init"]);
    assert!(AppType::Unknown.init_shell().is_empty());
}

fn check_template<T: Templated>(t: &T, name: &str, shell: &[&str]) {
    assert_eq!(t.name(), name);
    assert_eq!(t.init_cmd_line(), shell);
    assert_eq!(t.init(), shell);
    assert_eq!(t.hello(), format!("Hello, world! {}", name));
    assert_eq!(t.project_file("Cargo.toml"), format!("{}/Cargo.toml", name));
    assert_eq!(t.project_file("src/bin/main.rs"), format!("{}/src/bin/main.rs", name));
    let (pipeline, action) = Pipeline::begin(t);
    assert_eq!(pipeline.name, name);
    assert_eq!(pipeline.init_shell, shell);
    assert_eq!(pipeline.stage, Stage::Clone);
    match action {
        Action::CloneRepo { url, dir } => {
            assert_eq!(url, REPO);
            assert_eq!(dir, name);
        }
        other => panic!("unexpected: {:?}", other),
    }
}

fn shell(tag: &str) -> Vec<String> {
    vec![tag.to_string(), "init".to_string()]
}

#[test]
fn templates_carry_name_and_command() {
    let v = "0.1".to_string();
    check_template(
        &EvmTemplate { name: "a".to_string(), version: v.clone(), init_shell: shell("evm") },
        "a",
        &["evm", "init"],
    );
    check_template(
        &SolanaTemplate { name: "b".to_string(), version: v.clone(), init_shell: shell("solana") },
        "b",
        &["solana", "init"],
    );
    check_template(
        &AptosTemplate { name: "c".to_string(), version: v.clone(), init_shell: shell("aptos") },
        "c",
        &["aptos", "init"],
    );
    check_template(
        &SuiTemplate { name: "d".to_string(), version: v.clone(), init_shell: shell("sui") },
        "d",
        &["sui", "init"],
    );
    check_template(
        &BaseTemplate { name: "e".to_string(), version: v, init_shell: Vec::new() },
        "e",
        &[],
    );
}
