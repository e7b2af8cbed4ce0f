//! A command line: the program to start and the arguments to hand it.

use crate::text::texts;
use vstd::prelude::*;

verus! {

/// One run of an outside tool. Each argument reaches the tool as it stands;
/// no shell reads the line.
#[derive(Debug, Clone, PartialEq, Eq)]
pub struct Invocation {
    pub program: String,
    pub arguments: Vec<String>,
}

pub struct InvocationView {
    pub program: Seq<char>,
    pub arguments: Seq<Seq<char>>,
}

impl View for Invocation {
    type V = InvocationView;

    open spec fn view(&self) -> InvocationView {
        InvocationView { program: self.program@, arguments: texts(self.arguments@) }
    }
}

} // verus!
