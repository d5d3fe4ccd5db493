//! The type mapper: renders each side of a mapped type as target-language
//! or C++ text, and classifies how a value of the type crosses the
//! boundary.

use vstd::prelude::*;
use crate::ir::CcType;
use crate::ir::IR;
use crate::ir::Item;
use crate::ir::RsType;
use crate::ir::find_record_by_id;
use crate::ident::escaped_ident;
use crate::ident::push_escaped;
use crate::category::binding_category;
use crate::category::category_of;
use crate::category::is_pinned;
use crate::strfmt::str_eq;

verus! {

/// How a value of some type is passed across the boundary.
#[derive(Debug, PartialEq, Eq, Structural, Clone, Copy)]
pub enum PassingMode {
    ByValueTrivial,
    ByValueNontrivial,
    ByLRef,
    ByConstLRef,
    ByRRef,
    ByConstRRef,
    ByPointer,
    ByConstPointer,
}

/// The head name of a target-side type view: record references are
/// rendered escaped, primitive spellings verbatim.
pub open spec fn rs_head_text(t: RsType) -> Seq<char> {
    if t.decl_id is Some {
        escaped_ident(t.name@)
    } else {
        t.name@
    }
}

/// The target-side rendering of a type view.
pub open spec fn rs_type_text(t: RsType) -> Seq<char>
    decreases t,
{
    if t.name@ == "*mut"@ && t.type_params@.len() == 1 {
        "*mut "@ + rs_type_text(t.type_params@[0])
    } else if t.name@ == "*const"@ && t.type_params@.len() == 1 {
        "*const "@ + rs_type_text(t.type_params@[0])
    } else if t.name@ == "&"@ && t.type_params@.len() == 1 {
        "&"@ + rs_type_text(t.type_params@[0])
    } else if t.name@ == "&mut"@ && t.type_params@.len() == 1 {
        "&mut "@ + rs_type_text(t.type_params@[0])
    } else if t.name@ == "RvalueRef"@ && t.type_params@.len() == 1 {
        "::ctor::RvalueReference<"@ + rs_type_text(t.type_params@[0]) + ">"@
    } else if t.name@ == "ConstRvalueRef"@ && t.type_params@.len() == 1 {
        "::ctor::ConstRvalueReference<"@ + rs_type_text(t.type_params@[0]) + ">"@
    } else if t.type_params@.len() == 0 {
        rs_head_text(t)
    } else {
        rs_head_text(t) + "<"@ + rs_args_text(t.type_params@) + ">"@
    }
}

/// The comma-separated target-side rendering of a type parameter list.
pub open spec fn rs_args_text(ts: Seq<RsType>) -> Seq<char>
    decreases ts,
{
    if ts.len() == 0 {
        Seq::empty()
    } else if ts.len() == 1 {
        rs_type_text(ts[0])
    } else {
        rs_args_text(ts.drop_last()) + ", "@ + rs_type_text(ts.last())
    }
}

/// The C++-side rendering of a type view.
pub open spec fn cc_type_text(t: CcType) -> Seq<char>
    decreases t,
{
    if t.name@ == "*"@ && t.type_params@.len() == 1 {
        cc_type_text(t.type_params@[0]) + (if t.is_const {
            "* const"@
        } else {
            "*"@
        })
    } else if t.name@ == "&"@ && t.type_params@.len() == 1 {
        cc_type_text(t.type_params@[0]) + "&"@
    } else if t.name@ == "&&"@ && t.type_params@.len() == 1 {
        cc_type_text(t.type_params@[0]) + "&&"@
    } else if t.type_params@.len() == 0 {
        (if t.is_const {
            "const "@
        } else {
            Seq::<char>::empty()
        }) + t.name@
    } else {
        (if t.is_const {
            "const "@
        } else {
            Seq::<char>::empty()
        }) + t.name@ + "<"@ + cc_args_text(t.type_params@) + ">"@
    }
}

/// The comma-separated C++-side rendering of a type parameter list.
pub open spec fn cc_args_text(ts: Seq<CcType>) -> Seq<char>
    decreases ts,
{
    if ts.len() == 0 {
        Seq::empty()
    } else if ts.len() == 1 {
        cc_type_text(ts[0])
    } else {
        cc_args_text(ts.drop_last()) + ", "@ + cc_type_text(ts.last())
    }
}

/// The passing mode of a type occurrence with the given target-side view:
/// reference and pointer heads map to the matching reference modes, and a
/// by-value occurrence is non-trivial exactly when it refers to a record
/// bound in a pinned category.
pub open spec fn passing_mode_of(t: RsType, items: Seq<Item>) -> PassingMode {
    if t.name@ == "&"@ && t.type_params@.len() == 1 {
        PassingMode::ByConstLRef
    } else if t.name@ == "&mut"@ && t.type_params@.len() == 1 {
        PassingMode::ByLRef
    } else if t.name@ == "*mut"@ && t.type_params@.len() == 1 {
        PassingMode::ByPointer
    } else if t.name@ == "*const"@ && t.type_params@.len() == 1 {
        PassingMode::ByConstPointer
    } else if t.name@ == "RvalueRef"@ && t.type_params@.len() == 1 {
        PassingMode::ByRRef
    } else if t.name@ == "ConstRvalueRef"@ && t.type_params@.len() == 1 {
        PassingMode::ByConstRRef
    } else {
        match t.decl_id {
            Some(d) => match find_record_by_id(items, d.0) {
                Some(r) => if is_pinned(category_of(r)) {
                    PassingMode::ByValueNontrivial
                } else {
                    PassingMode::ByValueTrivial
                },
                None => PassingMode::ByValueTrivial,
            },
            None => PassingMode::ByValueTrivial,
        }
    }
}

/// Whether the occurrence is a by-value use of a pinned-category record.
pub open spec fn is_nontrivial_by_value(t: RsType, items: Seq<Item>) -> bool {
    passing_mode_of(t, items) is ByValueNontrivial
}

/// Appends the target-side rendering of `t` to `out`.
pub fn push_rs_type(out: &mut String, t: &RsType)
    ensures
        final(out)@ == old(out)@ + rs_type_text(*t),
    decreases *t,
{
    if str_eq(t.name.as_str(), "*mut") && t.type_params.len() == 1 {
        out.append("*mut ");
        push_rs_type(out, &t.type_params[0]);
    } else if str_eq(t.name.as_str(), "*const") && t.type_params.len() == 1 {
        out.append("*const ");
        push_rs_type(out, &t.type_params[0]);
    } else if str_eq(t.name.as_str(), "&") && t.type_params.len() == 1 {
        out.append("&");
        push_rs_type(out, &t.type_params[0]);
    } else if str_eq(t.name.as_str(), "&mut") && t.type_params.len() == 1 {
        out.append("&mut ");
        push_rs_type(out, &t.type_params[0]);
    } else if str_eq(t.name.as_str(), "RvalueRef") && t.type_params.len() == 1 {
        out.append("::ctor::RvalueReference<");
        push_rs_type(out, &t.type_params[0]);
        out.append(">");
    } else if str_eq(t.name.as_str(), "ConstRvalueRef") && t.type_params.len() == 1 {
        out.append("::ctor::ConstRvalueReference<");
        push_rs_type(out, &t.type_params[0]);
        out.append(">");
    } else {
        match &t.decl_id {
            Option::Some(_) => {
                push_escaped(out, t.name.as_str());
            },
            Option::None => {
                out.append(t.name.as_str());
            },
        }
        if t.type_params.len() > 0 {
            out.append("<");
            push_rs_args(out, &t.type_params);
            out.append(">");
        }
    }
}

/// Appends the comma-separated target-side renderings of `ts` to `out`.
fn push_rs_args(out: &mut String, ts: &Vec<RsType>)
    ensures
        final(out)@ == old(out)@ + rs_args_text(ts@),
    decreases ts@,
{
    let ghost base = out@;
    let n = ts.len();
    for i in 0..n
        invariant
            n == ts@.len(),
            out@ == base + rs_args_text(ts@.take(i as int)),
    {
        proof {
            assert(ts@.take(i + 1).drop_last() =~= ts@.take(i as int));
            assert(ts@.take(i + 1).last() == ts@[i as int]);
        }
        if i > 0 {
            out.append(", ");
        }
        push_rs_type(out, &ts[i]);
        proof {
            if i == 0 {
                assert(rs_args_text(ts@.take(1)) == rs_type_text(ts@[0]));
            }
        }
    }
    proof {
        assert(ts@.take(n as int) =~= ts@);
    }
}

/// Appends the C++-side rendering of `t` to `out`.
pub fn push_cc_type(out: &mut String, t: &CcType)
    ensures
        final(out)@ == old(out)@ + cc_type_text(*t),
    decreases *t,
{
    if str_eq(t.name.as_str(), "*") && t.type_params.len() == 1 {
        push_cc_type(out, &t.type_params[0]);
        if t.is_const {
            out.append("* const");
        } else {
            out.append("*");
        }
    } else if str_eq(t.name.as_str(), "&") && t.type_params.len() == 1 {
        push_cc_type(out, &t.type_params[0]);
        out.append("&");
    } else if str_eq(t.name.as_str(), "&&") && t.type_params.len() == 1 {
        push_cc_type(out, &t.type_params[0]);
        out.append("&&");
    } else {
        if t.is_const {
            out.append("const ");
        }
        out.append(t.name.as_str());
        if t.type_params.len() > 0 {
            out.append("<");
            push_cc_args(out, &t.type_params);
            out.append(">");
        }
    }
}

/// Appends the comma-separated C++-side renderings of `ts` to `out`.
fn push_cc_args(out: &mut String, ts: &Vec<CcType>)
    ensures
        final(out)@ == old(out)@ + cc_args_text(ts@),
    decreases ts@,
{
    let ghost base = out@;
    let n = ts.len();
    for i in 0..n
        invariant
            n == ts@.len(),
            out@ == base + cc_args_text(ts@.take(i as int)),
    {
        proof {
            assert(ts@.take(i + 1).drop_last() =~= ts@.take(i as int));
            assert(ts@.take(i + 1).last() == ts@[i as int]);
        }
        if i > 0 {
            out.append(", ");
        }
        push_cc_type(out, &ts[i]);
        proof {
            if i == 0 {
                assert(cc_args_text(ts@.take(1)) == cc_type_text(ts@[0]));
            }
        }
    }
    proof {
        assert(ts@.take(n as int) =~= ts@);
    }
}

/// The target-side rendering of `t`, as an owned string.
pub fn rs_type_string(t: &RsType) -> (r: String)
    ensures
        r@ == rs_type_text(*t),
{
    let mut out = String::new();
    push_rs_type(&mut out, t);
    out
}

/// The C++-side rendering of `t`, as an owned string.
pub fn cc_type_string(t: &CcType) -> (r: String)
    ensures
        r@ == cc_type_text(*t),
{
    let mut out = String::new();
    push_cc_type(&mut out, t);
    out
}

/// The passing mode of the occurrence whose target-side view is `t`.
pub fn passing_mode(t: &RsType, ir: &IR) -> (m: PassingMode)
    ensures
        m == passing_mode_of(*t, ir.items@),
{
    if str_eq(t.name.as_str(), "&") && t.type_params.len() == 1 {
        PassingMode::ByConstLRef
    } else if str_eq(t.name.as_str(), "&mut") && t.type_params.len() == 1 {
        PassingMode::ByLRef
    } else if str_eq(t.name.as_str(), "*mut") && t.type_params.len() == 1 {
        PassingMode::ByPointer
    } else if str_eq(t.name.as_str(), "*const") && t.type_params.len() == 1 {
        PassingMode::ByConstPointer
    } else if str_eq(t.name.as_str(), "RvalueRef") && t.type_params.len() == 1 {
        PassingMode::ByRRef
    } else if str_eq(t.name.as_str(), "ConstRvalueRef") && t.type_params.len() == 1 {
        PassingMode::ByConstRRef
    } else {
        match &t.decl_id {
            Option::Some(d) => match ir.record_by_id(d.0) {
                Option::Some(r) => {
                    let c = binding_category(r);
                    if matches!(
                        c,
                        crate::category::BindingCategory::Pinned
                            | crate::category::BindingCategory::PinnedNonmovable,
                    ) {
                        PassingMode::ByValueNontrivial
                    } else {
                        PassingMode::ByValueTrivial
                    }
                },
                Option::None => PassingMode::ByValueTrivial,
            },
            Option::None => PassingMode::ByValueTrivial,
        }
    }
}

/// Whether the occurrence is a by-value use of a pinned-category record.
pub fn nontrivial_by_value(t: &RsType, ir: &IR) -> (b: bool)
    ensures
        b == is_nontrivial_by_value(*t, ir.items@),
{
    matches!(passing_mode(t, ir), PassingMode::ByValueNontrivial)
}

} // verus!
