//! Thunk bookkeeping: the decision whether a function can be linked
//! directly, the thunk symbol grammar, and the accumulator entries for the
//! target-side `extern` block and the C++ translation unit.

use vstd::prelude::*;
use crate::ir::Func;
use crate::ir::Item;
use crate::ir::IR;
use crate::ir::UnqualifiedIdentifier;
use crate::ir::ReferenceQualification;
use crate::types::is_nontrivial_by_value;
use crate::types::nontrivial_by_value;

verus! {

/// One entry of the target-side `extern` block: the thunk symbol it
/// declares, the direct-link directive if the thunk is skipped, and the
/// rendered declaration text.
#[derive(Debug)]
pub struct ThunkDecl {
    pub symbol: String,
    pub link_name: Option<String>,
    pub text: String,
}

/// The mathematical view of a [`ThunkDecl`].
pub struct ThunkDeclSp {
    pub symbol: Seq<char>,
    pub link_name: Option<Seq<char>>,
    pub text: Seq<char>,
}

/// One thunk of the C++ translation unit: its symbol and its rendered
/// definition.
#[derive(Debug)]
pub struct CcThunk {
    pub symbol: String,
    pub text: String,
}

/// The mathematical view of a [`CcThunk`].
pub struct CcThunkSp {
    pub symbol: Seq<char>,
    pub text: Seq<char>,
}

impl View for ThunkDecl {
    type V = ThunkDeclSp;

    open spec fn view(&self) -> ThunkDeclSp {
        ThunkDeclSp {
            symbol: self.symbol@,
            link_name: match self.link_name {
                Some(s) => Some(s@),
                None => None,
            },
            text: self.text@,
        }
    }
}

impl View for CcThunk {
    type V = CcThunkSp;

    open spec fn view(&self) -> CcThunkSp {
        CcThunkSp { symbol: self.symbol@, text: self.text@ }
    }
}

/// The thunk symbol derived from a symbol suffix.
pub open spec fn thunk_symbol(seed: Seq<char>) -> Seq<char> {
    "__rust_thunk__"@ + seed
}

/// Whether the ref-qualifier of `f`, if any, forces a thunk.
pub open spec fn ref_qualifier_needs_thunk(f: Func) -> bool {
    f.member_func_metadata matches Some(m) && m.instance_method_metadata matches Some(im)
        && !(im.reference is Unqualified)
}

/// The direct-link decision: a function is called through the C++
/// library's own symbol, with no thunk, exactly when it is not inline, is
/// neither a constructor nor a destructor, is not ref-qualified, and has no
/// non-trivial by-value parameter or return.
pub open spec fn can_skip_cc_thunk_spec(f: Func, items: Seq<Item>) -> bool {
    &&& !f.is_inline
    &&& f.name is Identifier
    &&& !ref_qualifier_needs_thunk(f)
    &&& !is_nontrivial_by_value(f.return_type.rs_type, items)
    &&& forall|i: int|
        0 <= i < f.params@.len() ==> !is_nontrivial_by_value(
            (#[trigger] f.params@[i]).type_.rs_type,
            items,
        )
}

/// The direct-link decision for `f` within `ir`.
pub fn can_skip_cc_thunk(f: &Func, ir: &IR) -> (b: bool)
    ensures
        b == can_skip_cc_thunk_spec(*f, ir.items@),
{
    if f.is_inline {
        return false;
    }
    match &f.name {
        UnqualifiedIdentifier::Identifier(_) => {},
        _ => {
            return false;
        },
    }
    match &f.member_func_metadata {
        Option::Some(m) => {
            match &m.instance_method_metadata {
                Option::Some(im) => {
                    match im.reference {
                        ReferenceQualification::Unqualified => {},
                        _ => {
                            return false;
                        },
                    }
                },
                Option::None => {},
            }
        },
        Option::None => {},
    }
    if nontrivial_by_value(&f.return_type.rs_type, ir) {
        return false;
    }
    let n = f.params.len();
    for i in 0..n
        invariant
            n == f.params@.len(),
            forall|j: int|
                0 <= j < i ==> !is_nontrivial_by_value(
                    (#[trigger] f.params@[j]).type_.rs_type,
                    ir.items@,
                ),
    {
        if nontrivial_by_value(&f.params[i].type_.rs_type, ir) {
            assert(is_nontrivial_by_value(f.params@[i as int].type_.rs_type, ir.items@));
            return false;
        }
    }
    true
}

/// The thunk symbol for `seed`, as an owned string.
pub fn thunk_symbol_string(seed: &str) -> (r: String)
    ensures
        r@ == thunk_symbol(seed@),
{
    let mut out: String = "__rust_thunk__".to_owned();
    out.append(seed);
    out
}

} // verus!
