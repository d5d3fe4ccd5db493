//! The structured generation plan: what one IR item contributes to the two
//! output artifacts before the final rendering pass.

use vstd::prelude::*;
use crate::thunks::CcThunk;
use crate::thunks::CcThunkSp;
use crate::thunks::ThunkDecl;
use crate::thunks::ThunkDeclSp;

verus! {

/// What one IR item contributes: its target-side text (or diagnostic
/// comment), the `extern` block entries it binds to, the C++ thunks it
/// defines, and the layout and capability assertions it demands.
#[derive(Debug)]
pub struct GenItem {
    pub rs_text: String,
    pub is_diagnostic: bool,
    pub thunk_decls: Vec<ThunkDecl>,
    pub cc_thunks: Vec<CcThunk>,
    pub assert_texts: Vec<String>,
}

/// The mathematical view of a [`GenItem`].
pub struct GenItemSp {
    pub rs_text: Seq<char>,
    pub is_diagnostic: bool,
    pub thunk_decls: Seq<ThunkDeclSp>,
    pub cc_thunks: Seq<CcThunkSp>,
    pub assert_texts: Seq<Seq<char>>,
}

impl View for GenItem {
    type V = GenItemSp;

    open spec fn view(&self) -> GenItemSp {
        GenItemSp {
            rs_text: self.rs_text@,
            is_diagnostic: self.is_diagnostic,
            thunk_decls: self.thunk_decls@.map_values(|d: ThunkDecl| d@),
            cc_thunks: self.cc_thunks@.map_values(|t: CcThunk| t@),
            assert_texts: self.assert_texts@.map_values(|s: String| s@),
        }
    }
}

/// Source code for generated bindings: the target-side binding module and
/// the C++ companion translation unit.
#[derive(Debug)]
pub struct Bindings {
    pub rs_api: String,
    pub rs_api_impl: String,
}

} // verus!
