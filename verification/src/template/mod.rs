//! The closed set of template variants and what each of them carries.

pub mod aptos;
pub mod base;
pub mod evm;
pub mod solana;
pub mod sui;

pub use crate::scaffold::new_app;
use crate::strings::{join3, same_text, texts};
use vstd::prelude::*;

verus! {

/// The supported target ecosystems, and `Unknown` for every tag that names
/// none of them.
#[derive(Clone, Copy, Debug, PartialEq, Eq, Structural)]
pub enum AppType {
    Evm,
    Solana,
    Aptos,
    Sui,
    Base,
    /// No variant: what every other tag names.
    Unknown,
}

/// The variant that `tag` names: an exact, case-sensitive match.
pub open spec fn resolve(tag: Seq<char>) -> AppType {
    if tag == "evm"@ {
        AppType::Evm
    } else if tag == "solana"@ {
        AppType::Solana
    } else if tag == "aptos"@ {
        AppType::Aptos
    } else if tag == "sui"@ {
        AppType::Sui
    } else if tag == "base"@ {
        AppType::Base
    } else {
        AppType::Unknown
    }
}

impl<'a> From<&'a str> for AppType {
    fn from(s: &'a str) -> (r: AppType) {
        if same_text(s, "evm") {
            AppType::Evm
        } else if same_text(s, "solana") {
            AppType::Solana
        } else if same_text(s, "aptos") {
            AppType::Aptos
        } else if same_text(s, "sui") {
            AppType::Sui
        } else if same_text(s, "base") {
            AppType::Base
        } else {
            AppType::Unknown
        }
    }
}

impl<'a> vstd::std_specs::convert::FromSpecImpl<&'a str> for AppType {
    open spec fn obeys_from_spec() -> bool {
        true
    }

    open spec fn from_spec(s: &'a str) -> AppType {
        resolve(s@)
    }
}

impl AppType {
    /// The tag that names this variant; `Unknown` has none.
    pub open spec fn tag(self) -> Seq<char> {
        match self {
            AppType::Evm => "evm"@,
            AppType::Solana => "solana"@,
            AppType::Aptos => "aptos"@,
            AppType::Sui => "sui"@,
            AppType::Base => "base"@,
            AppType::Unknown => Seq::empty(),
        }
    }

    /// The tokens of the command that initialises a project of this
    /// variant; `Unknown` has no command.
    pub open spec fn init_tokens(self) -> Seq<Seq<char>> {
        match self {
            AppType::Unknown => Seq::empty(),
            _ => seq![self.tag(), "init"@],
        }
    }

    /// The tokens of the command that initialises a project of this variant.
    pub fn init_shell(self) -> (r: Vec<String>)
        ensures
            texts(r@) == self.init_tokens(),
    {
        let mut r: Vec<String> = Vec::new();
        match self {
            AppType::Evm => r.push("evm".to_owned()),
            AppType::Solana => r.push("solana".to_owned()),
            AppType::Aptos => r.push("aptos".to_owned()),
            AppType::Sui => r.push("sui".to_owned()),
            AppType::Base => r.push("base".to_owned()),
            AppType::Unknown => {
                assert(texts(r@) =~= self.init_tokens());
                return r;
            },
        }
        r.push("init".to_owned());
        assert(texts(r@) =~= self.init_tokens());
        r
    }
}

/// The five tags name five different variants, none of them `Unknown`, and
/// every other tag names `Unknown`.
pub proof fn lemma_resolve_tags(tag: Seq<char>)
    ensures
        resolve("evm"@) == AppType::Evm,
        resolve("solana"@) == AppType::Solana,
        resolve("aptos"@) == AppType::Aptos,
        resolve("sui"@) == AppType::Sui,
        resolve("base"@) == AppType::Base,
        resolve(tag) != AppType::Unknown ==> resolve(tag).tag() == tag,
        resolve(tag) == AppType::Unknown <==> tag != "evm"@ && tag != "solana"@ && tag != "aptos"@
            && tag != "sui"@ && tag != "base"@,
{
    reveal_strlit("evm");
    reveal_strlit("solana");
    reveal_strlit("aptos");
    reveal_strlit("sui");
    reveal_strlit("base");
    assert("evm"@.len() == 3 && "sui"@.len() == 3 && "base"@.len() == 4 && "aptos"@.len() == 5
        && "solana"@.len() == 6);
    assert("evm"@[0] != "sui"@[0]);
}

/// What every template variant carries.
pub trait Templated {
    /// The display name: the project's directory and the text that takes
    /// the placeholder's place.
    spec fn name_text(&self) -> Seq<char>;

    /// The tokens of the initialisation command.
    spec fn init_tokens(&self) -> Seq<Seq<char>>;

    fn name(&self) -> (r: String)
        ensures
            r@ == self.name_text(),
    ;

    fn init_cmd_line(&self) -> (r: Vec<String>)
        ensures
            texts(r@) == self.init_tokens(),
    ;

    /// A greeting that holds the display name.
    fn hello(&self) -> (r: String)
        ensures
            r@ == "Hello, world! "@ + self.name_text(),
    {
        let n = self.name();
        let r = join3("Hello, world! ", n.as_str(), "");
        assert(r@ =~= "Hello, world! "@ + self.name_text()) by {
            reveal_strlit("");
        }
        r
    }

    /// The lines that the initialisation shows: the command's tokens, one
    /// per line.
    fn init(&self) -> (r: Vec<String>)
        ensures
            texts(r@) == self.init_tokens(),
    {
        self.init_cmd_line()
    }

    /// The place of `path` inside the project's directory.
    fn project_file(&self, path: &str) -> (r: String)
        ensures
            r@ == self.name_text() + "/"@ + path@,
    {
        let n = self.name();
        join3(n.as_str(), "/", path)
    }
}

} // verus!
