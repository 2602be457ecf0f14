//! Editors and the registry the `open` command looks them up in.
pub mod editors;

use vstd::prelude::*;

use crate::domain::editor::editors::{Cursor, VsCode};
use crate::strings::str_eq;

verus! {

/// An editor: the name users pick it by and the command that launches it.
pub trait Editor {
    spec fn name_text(&self) -> Seq<char>;

    spec fn launch_cmd_text(&self) -> Seq<char>;

    fn name(&self) -> (r: &'static str)
        ensures
            r@ == self.name_text(),
    ;

    fn launch_cmd(&self) -> (r: &'static str)
        ensures
            r@ == self.launch_cmd_text(),
    ;
}

/// An editor held by the registry.
#[derive(Clone, Copy, Debug, PartialEq, Eq)]
pub enum RegisteredEditor {
    Cursor(Cursor),
    VsCode(VsCode),
}

impl Editor for RegisteredEditor {
    open spec fn name_text(&self) -> Seq<char> {
        match self {
            RegisteredEditor::Cursor(e) => e.name_text(),
            RegisteredEditor::VsCode(e) => e.name_text(),
        }
    }

    open spec fn launch_cmd_text(&self) -> Seq<char> {
        match self {
            RegisteredEditor::Cursor(e) => e.launch_cmd_text(),
            RegisteredEditor::VsCode(e) => e.launch_cmd_text(),
        }
    }

    fn name(&self) -> (r: &'static str) {
        match self {
            RegisteredEditor::Cursor(e) => e.name(),
            RegisteredEditor::VsCode(e) => e.name(),
        }
    }

    fn launch_cmd(&self) -> (r: &'static str) {
        match self {
            RegisteredEditor::Cursor(e) => e.launch_cmd(),
            RegisteredEditor::VsCode(e) => e.launch_cmd(),
        }
    }
}

/// The first index of `editors` whose editor has the name `name`, if any.
pub open spec fn first_named(editors: Seq<RegisteredEditor>, name: Seq<char>, i: int) -> bool {
    &&& 0 <= i < editors.len()
    &&& editors[i].name_text() == name
    &&& forall|j: int| 0 <= j < i ==> #[trigger] editors[j].name_text() != name
}

pub open spec fn has_named(editors: Seq<RegisteredEditor>, name: Seq<char>) -> bool {
    exists|i: int| 0 <= i < editors.len() && #[trigger] editors[i].name_text() == name
}

pub struct EditorRegistry {
    editors: Vec<RegisteredEditor>,
}

impl Default for EditorRegistry {
    /// A registry that knows no editor.
    fn default() -> (r: Self)
        ensures
            r.entries() == Seq::<RegisteredEditor>::empty(),
    {
        EditorRegistry { editors: Vec::new() }
    }
}

impl EditorRegistry {
    /// The registered editors, in lookup order.
    pub closed spec fn entries(&self) -> Seq<RegisteredEditor> {
        self.editors@
    }

    /// The registry of the editors the tool ships with: Cursor first, then VS Code.
    pub fn new() -> (r: Self)
        ensures
            r.entries() == seq![RegisteredEditor::Cursor(Cursor), RegisteredEditor::VsCode(VsCode)],
    {
        let mut editors: Vec<RegisteredEditor> = Vec::new();
        editors.push(RegisteredEditor::Cursor(Cursor));
        editors.push(RegisteredEditor::VsCode(VsCode));
        EditorRegistry { editors }
    }

    /// The first registered editor called `name`.
    pub fn find(&self, name: &str) -> (r: Option<&RegisteredEditor>)
        ensures
            r is None <==> !has_named(self.entries(), name@),
            r matches Some(e) ==> exists|i: int|
                first_named(self.entries(), name@, i) && *e == #[trigger] self.entries()[i],
    {
        let mut i: usize = 0;
        while i < self.editors.len()
            invariant
                i <= self.editors@.len(),
                forall|j: int| 0 <= j < i ==> #[trigger] self.editors@[j].name_text() != name@,
            decreases self.editors@.len() - i,
        {
            let e = &self.editors[i];
            if str_eq(e.name(), name) {
                assert(first_named(self.entries(), name@, i as int));
                return Some(e);
            }
            i = i + 1;
        }
        None
    }

    /// The editor called `name`, else the first registered one; nothing when
    /// the registry is empty.
    pub fn find_or_default(&self, name: &str) -> (r: Option<&RegisteredEditor>)
        ensures
            self.entries().len() == 0 ==> r is None,
            self.entries().len() > 0 && has_named(self.entries(), name@) ==> (r matches Some(e)
                && exists|i: int| first_named(self.entries(), name@, i) && *e == #[trigger] self.entries()[i]),
            self.entries().len() > 0 && !has_named(self.entries(), name@) ==> r == Some(
                &self.entries()[0],
            ),
    {
        if self.editors.len() == 0 {
            return None;
        }
        match self.find(name) {
            Some(e) => Some(e),
            None => Some(&self.editors[0]),
        }
    }
}

} // verus!
