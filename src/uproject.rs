//! The parts of an Unreal project description that the tool reads.
use vstd::prelude::*;
use crate::text::same_text;

verus! {

/// A module of a project.
pub struct Module {
    pub name: String,
    pub module_type: String,
    pub loading_phase: String,
}

/// A plugin that a project names.
pub struct Plugin {
    pub name: String,
    pub enabled: bool,
    pub target_allow_list: Option<Vec<String>>,
}

/// A project description.
pub struct Config {
    pub file_version: i32,
    pub engine_association: String,
    pub category: String,
    pub description: String,
    pub modules: Vec<Module>,
    pub plugins: Vec<Plugin>,
}

/// The module type of the editor's module.
pub const EDITOR_MODULE_TYPE: &'static str = "Editor";

/// The module is the editor's module.
pub open spec fn is_editor_module(m: Module) -> bool {
    m.module_type@ == EDITOR_MODULE_TYPE@
}

impl Config {
    /// The first module whose type is the editor's, if there is one.
    pub fn find_editor_module(&self) -> (r: Option<&Module>)
        ensures
            match r {
                Some(m) => exists|i: int|
                    0 <= i < self.modules@.len() && *m == self.modules@[i] && is_editor_module(
                        self.modules@[i],
                    ) && forall|j: int| 0 <= j < i ==> !is_editor_module(#[trigger] self.modules@[j]),
                None => forall|j: int|
                    0 <= j < self.modules@.len() ==> !is_editor_module(#[trigger] self.modules@[j]),
            },
    {
        let mut i: usize = 0;
        while i < self.modules.len()
            invariant
                i <= self.modules@.len(),
                forall|j: int| 0 <= j < i ==> !is_editor_module(#[trigger] self.modules@[j]),
            decreases self.modules@.len() - i,
        {
            if same_text(self.modules[i].module_type.as_str(), EDITOR_MODULE_TYPE) {
                return Some(&self.modules[i]);
            }
            i = i + 1;
        }
        None
    }
}

} // verus!
