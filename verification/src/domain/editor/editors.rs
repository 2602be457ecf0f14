//! The editors the tool knows how to launch.
use vstd::prelude::*;

use crate::domain::editor::Editor;

verus! {

#[derive(Clone, Copy, Debug, PartialEq, Eq)]
pub struct Cursor;

impl Editor for Cursor {
    open spec fn name_text(&self) -> Seq<char> {
        "cursor"@
    }

    open spec fn launch_cmd_text(&self) -> Seq<char> {
        "cursor"@
    }

    fn name(&self) -> (r: &'static str) {
        "cursor"
    }

    fn launch_cmd(&self) -> (r: &'static str) {
        "cursor"
    }
}

#[derive(Clone, Copy, Debug, PartialEq, Eq)]
pub struct VsCode;

impl Editor for VsCode {
    open spec fn name_text(&self) -> Seq<char> {
        "vscode"@
    }

    open spec fn launch_cmd_text(&self) -> Seq<char> {
        "code"@
    }

    fn name(&self) -> (r: &'static str) {
        "vscode"
    }

    fn launch_cmd(&self) -> (r: &'static str) {
        "code"
    }
}

} // verus!
