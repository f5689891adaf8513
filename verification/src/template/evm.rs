use crate::strings::{clone_strings, texts};
use crate::template::Templated;
use vstd::prelude::*;

verus! {

pub struct EvmTemplate {
    pub name: String,
    pub version: String,
    pub init_shell: Vec<String>,
}

impl Templated for EvmTemplate {
    open spec fn name_text(&self) -> Seq<char> {
        self.name@
    }

    open spec fn init_tokens(&self) -> Seq<Seq<char>> {
        texts(self.init_shell@)
    }

    fn name(&self) -> (r: String) {
        self.name.clone()
    }

    fn init_cmd_line(&self) -> (r: Vec<String>) {
        clone_strings(&self.init_shell)
    }
}

} // verus!
