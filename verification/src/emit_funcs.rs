//! Emission of function items: target-side wrappers, `extern` block
//! declarations, and C++ thunk definitions.

use vstd::prelude::*;
use crate::ir::Func;
use crate::ir::FuncParam;
use crate::ir::IR;
use crate::ir::Item;
use crate::ir::UnqualifiedIdentifier;
use crate::ir::find_record_by_id;
use crate::ident::escaped_ident;
use crate::ident::push_escaped;
use crate::category::category_of;
use crate::category::BindingCategory;
use crate::types::is_nontrivial_by_value;
use crate::types::nontrivial_by_value;
use crate::types::rs_type_text;
use crate::types::cc_type_text;
use crate::types::push_rs_type;
use crate::types::push_cc_type;

verus! {

/// The escaped target-side spelling of a parameter name.
pub open spec fn param_name_text(p: FuncParam) -> Seq<char> {
    escaped_ident(p.identifier.identifier@)
}

/// The target-side declaration of one wrapper parameter: a pinned-category
/// by-value parameter is taken as an emplacement constructor.
pub open spec fn rs_param_decl(p: FuncParam, items: Seq<Item>) -> Seq<char> {
    if is_nontrivial_by_value(p.type_.rs_type, items) {
        param_name_text(p) + ": impl ::ctor::Ctor<Output = "@ + rs_type_text(p.type_.rs_type)
            + ">"@
    } else {
        param_name_text(p) + ": "@ + rs_type_text(p.type_.rs_type)
    }
}

/// The comma-separated target-side wrapper parameter list.
pub open spec fn rs_param_list(ps: Seq<FuncParam>, items: Seq<Item>) -> Seq<char>
    decreases ps.len(),
{
    if ps.len() == 0 {
        Seq::empty()
    } else if ps.len() == 1 {
        rs_param_decl(ps[0], items)
    } else {
        rs_param_list(ps.drop_last(), items) + ", "@ + rs_param_decl(ps.last(), items)
    }
}

/// The plain target-side declaration of one parameter, `name: type`.
pub open spec fn rs_plain_param_decl(p: FuncParam) -> Seq<char> {
    param_name_text(p) + ": "@ + rs_type_text(p.type_.rs_type)
}

/// The comma-separated plain target-side parameter list.
pub open spec fn rs_plain_param_list(ps: Seq<FuncParam>) -> Seq<char>
    decreases ps.len(),
{
    if ps.len() == 0 {
        Seq::empty()
    } else if ps.len() == 1 {
        rs_plain_param_decl(ps[0])
    } else {
        rs_plain_param_list(ps.drop_last()) + ", "@ + rs_plain_param_decl(ps.last())
    }
}

/// The comma-separated escaped parameter names.
pub open spec fn rs_name_list(ps: Seq<FuncParam>) -> Seq<char>
    decreases ps.len(),
{
    if ps.len() == 0 {
        Seq::empty()
    } else if ps.len() == 1 {
        param_name_text(ps[0])
    } else {
        rs_name_list(ps.drop_last()) + ", "@ + param_name_text(ps.last())
    }
}

/// The argument expression that the wrapper hands to the thunk for one
/// parameter: an emplaced pinned value is lowered to its storage pointer.
pub open spec fn rs_arg_expr(p: FuncParam, items: Seq<Item>) -> Seq<char> {
    if is_nontrivial_by_value(p.type_.rs_type, items) {
        "::std::pin::Pin::into_inner_unchecked("@ + param_name_text(p) + ")"@
    } else {
        param_name_text(p)
    }
}

/// The comma-separated wrapper-to-thunk argument list.
pub open spec fn rs_arg_list(ps: Seq<FuncParam>, items: Seq<Item>) -> Seq<char>
    decreases ps.len(),
{
    if ps.len() == 0 {
        Seq::empty()
    } else if ps.len() == 1 {
        rs_arg_expr(ps[0], items)
    } else {
        rs_arg_list(ps.drop_last(), items) + ", "@ + rs_arg_expr(ps.last(), items)
    }
}

/// The materialization statement for one pinned-category by-value
/// parameter, and nothing for the rest.
pub open spec fn emplace_line(p: FuncParam, items: Seq<Item>) -> Seq<char> {
    if is_nontrivial_by_value(p.type_.rs_type, items) {
        "    ::ctor::emplace!(let mut "@ + param_name_text(p) + " = "@ + param_name_text(p)
            + ");\n"@
    } else {
        Seq::empty()
    }
}

/// The materialization statements of a wrapper body, in parameter order.
pub open spec fn emplace_lines(ps: Seq<FuncParam>, items: Seq<Item>) -> Seq<char>
    decreases ps.len(),
{
    if ps.len() == 0 {
        Seq::empty()
    } else {
        emplace_lines(ps.drop_last(), items) + emplace_line(ps.last(), items)
    }
}

/// The `extern` block declaration of one parameter: a pinned-category
/// by-value parameter is lowered to a mutable pointer.
pub open spec fn extern_param_decl(p: FuncParam, items: Seq<Item>) -> Seq<char> {
    if is_nontrivial_by_value(p.type_.rs_type, items) {
        param_name_text(p) + ": *mut "@ + rs_type_text(p.type_.rs_type)
    } else {
        param_name_text(p) + ": "@ + rs_type_text(p.type_.rs_type)
    }
}

/// The comma-separated `extern` block parameter list.
pub open spec fn extern_param_list(ps: Seq<FuncParam>, items: Seq<Item>) -> Seq<char>
    decreases ps.len(),
{
    if ps.len() == 0 {
        Seq::empty()
    } else if ps.len() == 1 {
        extern_param_decl(ps[0], items)
    } else {
        extern_param_list(ps.drop_last(), items) + ", "@ + extern_param_decl(ps.last(), items)
    }
}

/// The C++ thunk declaration of one parameter: a pinned-category by-value
/// parameter is lowered to a pointer.
pub open spec fn cc_param_decl(p: FuncParam, items: Seq<Item>) -> Seq<char> {
    if is_nontrivial_by_value(p.type_.rs_type, items) {
        cc_type_text(p.type_.cc_type) + "* "@ + p.identifier.identifier@
    } else {
        cc_type_text(p.type_.cc_type) + " "@ + p.identifier.identifier@
    }
}

/// The comma-separated C++ thunk parameter list.
pub open spec fn cc_param_list(ps: Seq<FuncParam>, items: Seq<Item>) -> Seq<char>
    decreases ps.len(),
{
    if ps.len() == 0 {
        Seq::empty()
    } else if ps.len() == 1 {
        cc_param_decl(ps[0], items)
    } else {
        cc_param_list(ps.drop_last(), items) + ", "@ + cc_param_decl(ps.last(), items)
    }
}

/// The plain C++ declaration of one parameter, `type name`.
pub open spec fn cc_plain_param_decl(p: FuncParam) -> Seq<char> {
    cc_type_text(p.type_.cc_type) + " "@ + p.identifier.identifier@
}

/// The comma-separated plain C++ parameter list.
pub open spec fn cc_plain_param_list(ps: Seq<FuncParam>) -> Seq<char>
    decreases ps.len(),
{
    if ps.len() == 0 {
        Seq::empty()
    } else if ps.len() == 1 {
        cc_plain_param_decl(ps[0])
    } else {
        cc_plain_param_list(ps.drop_last()) + ", "@ + cc_plain_param_decl(ps.last())
    }
}

/// The comma-separated verbatim parameter names, for the C++ side.
pub open spec fn cc_name_list(ps: Seq<FuncParam>) -> Seq<char>
    decreases ps.len(),
{
    if ps.len() == 0 {
        Seq::empty()
    } else if ps.len() == 1 {
        ps[0].identifier.identifier@
    } else {
        cc_name_list(ps.drop_last()) + ", "@ + ps.last().identifier.identifier@
    }
}

/// The argument expression of the C++ call for one parameter: an emplaced
/// by-value argument arrives as a pointer and is moved out of its slot.
pub open spec fn cc_arg_expr(p: FuncParam, items: Seq<Item>) -> Seq<char> {
    if is_nontrivial_by_value(p.type_.rs_type, items) {
        "std::move(*"@ + p.identifier.identifier@ + ")"@
    } else {
        p.identifier.identifier@
    }
}

/// The comma-separated C++ call argument list.
pub open spec fn cc_arg_list(ps: Seq<FuncParam>, items: Seq<Item>) -> Seq<char>
    decreases ps.len(),
{
    if ps.len() == 0 {
        Seq::empty()
    } else if ps.len() == 1 {
        cc_arg_expr(ps[0], items)
    } else {
        cc_arg_list(ps.drop_last(), items) + ", "@ + cc_arg_expr(ps.last(), items)
    }
}

/// Appends the target-side wrapper parameter declaration of `p` to `out`.
fn push_rs_param_decl(out: &mut String, p: &FuncParam, ir: &IR)
    ensures
        final(out)@ == old(out)@ + rs_param_decl(*p, ir.items@),
{
    push_escaped(out, p.identifier.identifier.as_str());
    if nontrivial_by_value(&p.type_.rs_type, ir) {
        out.append(": impl ::ctor::Ctor<Output = ");
        push_rs_type(out, &p.type_.rs_type);
        out.append(">");
    } else {
        out.append(": ");
        push_rs_type(out, &p.type_.rs_type);
    }
}

/// Appends the target-side wrapper parameter list of `ps` to `out`.
pub fn push_rs_param_list(out: &mut String, ps: &Vec<FuncParam>, ir: &IR)
    ensures
        final(out)@ == old(out)@ + rs_param_list(ps@, ir.items@),
{
    let ghost base = out@;
    let n = ps.len();
    for i in 0..n
        invariant
            n == ps@.len(),
            out@ == base + rs_param_list(ps@.take(i as int), ir.items@),
    {
        proof {
            assert(ps@.take(i + 1).drop_last() =~= ps@.take(i as int));
            assert(ps@.take(i + 1).last() == ps@[i as int]);
        }
        if i > 0 {
            out.append(", ");
        }
        push_rs_param_decl(out, &ps[i], ir);
    }
    proof {
        assert(ps@.take(n as int) =~= ps@);
    }
}

/// Appends the plain target-side parameter list of `ps` to `out`.
pub fn push_rs_plain_param_list(out: &mut String, ps: &Vec<FuncParam>)
    ensures
        final(out)@ == old(out)@ + rs_plain_param_list(ps@),
{
    let ghost base = out@;
    let n = ps.len();
    for i in 0..n
        invariant
            n == ps@.len(),
            out@ == base + rs_plain_param_list(ps@.take(i as int)),
    {
        proof {
            assert(ps@.take(i + 1).drop_last() =~= ps@.take(i as int));
            assert(ps@.take(i + 1).last() == ps@[i as int]);
        }
        if i > 0 {
            out.append(", ");
        }
        push_escaped(out, ps[i].identifier.identifier.as_str());
        out.append(": ");
        push_rs_type(out, &ps[i].type_.rs_type);
    }
    proof {
        assert(ps@.take(n as int) =~= ps@);
    }
}

/// Appends the escaped parameter names of `ps` to `out`.
pub fn push_rs_name_list(out: &mut String, ps: &Vec<FuncParam>)
    ensures
        final(out)@ == old(out)@ + rs_name_list(ps@),
{
    let ghost base = out@;
    let n = ps.len();
    for i in 0..n
        invariant
            n == ps@.len(),
            out@ == base + rs_name_list(ps@.take(i as int)),
    {
        proof {
            assert(ps@.take(i + 1).drop_last() =~= ps@.take(i as int));
            assert(ps@.take(i + 1).last() == ps@[i as int]);
        }
        if i > 0 {
            out.append(", ");
        }
        push_escaped(out, ps[i].identifier.identifier.as_str());
    }
    proof {
        assert(ps@.take(n as int) =~= ps@);
    }
}

/// Appends the wrapper-to-thunk argument list of `ps` to `out`.
pub fn push_rs_arg_list(out: &mut String, ps: &Vec<FuncParam>, ir: &IR)
    ensures
        final(out)@ == old(out)@ + rs_arg_list(ps@, ir.items@),
{
    let ghost base = out@;
    let n = ps.len();
    for i in 0..n
        invariant
            n == ps@.len(),
            out@ == base + rs_arg_list(ps@.take(i as int), ir.items@),
    {
        proof {
            assert(ps@.take(i + 1).drop_last() =~= ps@.take(i as int));
            assert(ps@.take(i + 1).last() == ps@[i as int]);
        }
        if i > 0 {
            out.append(", ");
        }
        if nontrivial_by_value(&ps[i].type_.rs_type, ir) {
            out.append("::std::pin::Pin::into_inner_unchecked(");
            push_escaped(out, ps[i].identifier.identifier.as_str());
            out.append(")");
        } else {
            push_escaped(out, ps[i].identifier.identifier.as_str());
        }
    }
    proof {
        assert(ps@.take(n as int) =~= ps@);
    }
}

/// Appends the materialization statements of `ps` to `out`.
pub fn push_emplace_lines(out: &mut String, ps: &Vec<FuncParam>, ir: &IR)
    ensures
        final(out)@ == old(out)@ + emplace_lines(ps@, ir.items@),
{
    let ghost base = out@;
    let n = ps.len();
    for i in 0..n
        invariant
            n == ps@.len(),
            out@ == base + emplace_lines(ps@.take(i as int), ir.items@),
    {
        proof {
            assert(ps@.take(i + 1).drop_last() =~= ps@.take(i as int));
            assert(ps@.take(i + 1).last() == ps@[i as int]);
        }
        if nontrivial_by_value(&ps[i].type_.rs_type, ir) {
            out.append("    ::ctor::emplace!(let mut ");
            push_escaped(out, ps[i].identifier.identifier.as_str());
            out.append(" = ");
            push_escaped(out, ps[i].identifier.identifier.as_str());
            out.append(");\n");
        }
    }
    proof {
        assert(ps@.take(n as int) =~= ps@);
    }
}

/// Appends the `extern` block parameter list of `ps` to `out`.
pub fn push_extern_param_list(out: &mut String, ps: &Vec<FuncParam>, ir: &IR)
    ensures
        final(out)@ == old(out)@ + extern_param_list(ps@, ir.items@),
{
    let ghost base = out@;
    let n = ps.len();
    for i in 0..n
        invariant
            n == ps@.len(),
            out@ == base + extern_param_list(ps@.take(i as int), ir.items@),
    {
        proof {
            assert(ps@.take(i + 1).drop_last() =~= ps@.take(i as int));
            assert(ps@.take(i + 1).last() == ps@[i as int]);
        }
        if i > 0 {
            out.append(", ");
        }
        push_escaped(out, ps[i].identifier.identifier.as_str());
        if nontrivial_by_value(&ps[i].type_.rs_type, ir) {
            out.append(": *mut ");
        } else {
            out.append(": ");
        }
        push_rs_type(out, &ps[i].type_.rs_type);
    }
    proof {
        assert(ps@.take(n as int) =~= ps@);
    }
}

/// Appends the C++ thunk parameter list of `ps` to `out`.
pub fn push_cc_param_list(out: &mut String, ps: &Vec<FuncParam>, ir: &IR)
    ensures
        final(out)@ == old(out)@ + cc_param_list(ps@, ir.items@),
{
    let ghost base = out@;
    let n = ps.len();
    for i in 0..n
        invariant
            n == ps@.len(),
            out@ == base + cc_param_list(ps@.take(i as int), ir.items@),
    {
        proof {
            assert(ps@.take(i + 1).drop_last() =~= ps@.take(i as int));
            assert(ps@.take(i + 1).last() == ps@[i as int]);
        }
        if i > 0 {
            out.append(", ");
        }
        push_cc_type(out, &ps[i].type_.cc_type);
        if nontrivial_by_value(&ps[i].type_.rs_type, ir) {
            out.append("* ");
        } else {
            out.append(" ");
        }
        out.append(ps[i].identifier.identifier.as_str());
    }
    proof {
        assert(ps@.take(n as int) =~= ps@);
    }
}

/// Appends the plain C++ parameter list of `ps` to `out`.
pub fn push_cc_plain_param_list(out: &mut String, ps: &Vec<FuncParam>)
    ensures
        final(out)@ == old(out)@ + cc_plain_param_list(ps@),
{
    let ghost base = out@;
    let n = ps.len();
    for i in 0..n
        invariant
            n == ps@.len(),
            out@ == base + cc_plain_param_list(ps@.take(i as int)),
    {
        proof {
            assert(ps@.take(i + 1).drop_last() =~= ps@.take(i as int));
            assert(ps@.take(i + 1).last() == ps@[i as int]);
        }
        if i > 0 {
            out.append(", ");
        }
        push_cc_type(out, &ps[i].type_.cc_type);
        out.append(" ");
        out.append(ps[i].identifier.identifier.as_str());
    }
    proof {
        assert(ps@.take(n as int) =~= ps@);
    }
}

/// Appends the verbatim parameter names of `ps` to `out`.
pub fn push_cc_name_list(out: &mut String, ps: &Vec<FuncParam>)
    ensures
        final(out)@ == old(out)@ + cc_name_list(ps@),
{
    let ghost base = out@;
    let n = ps.len();
    for i in 0..n
        invariant
            n == ps@.len(),
            out@ == base + cc_name_list(ps@.take(i as int)),
    {
        proof {
            assert(ps@.take(i + 1).drop_last() =~= ps@.take(i as int));
            assert(ps@.take(i + 1).last() == ps@[i as int]);
        }
        if i > 0 {
            out.append(", ");
        }
        out.append(ps[i].identifier.identifier.as_str());
    }
    proof {
        assert(ps@.take(n as int) =~= ps@);
    }
}

/// Appends the C++ call argument list of `ps` to `out`.
pub fn push_cc_arg_list(out: &mut String, ps: &Vec<FuncParam>, ir: &IR)
    ensures
        final(out)@ == old(out)@ + cc_arg_list(ps@, ir.items@),
{
    let ghost base = out@;
    let n = ps.len();
    for i in 0..n
        invariant
            n == ps@.len(),
            out@ == base + cc_arg_list(ps@.take(i as int), ir.items@),
    {
        proof {
            assert(ps@.take(i + 1).drop_last() =~= ps@.take(i as int));
            assert(ps@.take(i + 1).last() == ps@[i as int]);
        }
        if i > 0 {
            out.append(", ");
        }
        if nontrivial_by_value(&ps[i].type_.rs_type, ir) {
            out.append("std::move(*");
            out.append(ps[i].identifier.identifier.as_str());
            out.append(")");
        } else {
            out.append(ps[i].identifier.identifier.as_str());
        }
    }
    proof {
        assert(ps@.take(n as int) =~= ps@);
    }
}

/// Whether the target-side view is a by-value use of a record whose move
/// constructor is deleted.
pub open spec fn is_nonmovable_by_value(t: crate::ir::RsType, items: Seq<Item>) -> bool {
    &&& is_nontrivial_by_value(t, items)
    &&& t.decl_id matches Some(d) && (find_record_by_id(items, d.0) matches Some(r)
        && category_of(r) is PinnedNonmovable)
}

/// Whether the occurrence is a by-value use of a non-movable record.
pub fn nonmovable_by_value(t: &crate::ir::RsType, ir: &IR) -> (b: bool)
    ensures
        b == is_nonmovable_by_value(*t, ir.items@),
{
    if !nontrivial_by_value(t, ir) {
        return false;
    }
    match &t.decl_id {
        Option::Some(d) => match ir.record_by_id(d.0) {
            Option::Some(r) => matches!(
                crate::category::binding_category(r),
                BindingCategory::PinnedNonmovable,
            ),
            Option::None => false,
        },
        Option::None => false,
    }
}

/// Whether some parameter is a by-value use of a non-movable record.
pub open spec fn has_nonmovable_param(ps: Seq<FuncParam>, items: Seq<Item>) -> bool {
    exists|i: int|
        0 <= i < ps.len() && is_nonmovable_by_value((#[trigger] ps[i]).type_.rs_type, items)
}

/// Whether some parameter is a by-value use of a non-movable record.
pub fn check_nonmovable_param(ps: &Vec<FuncParam>, ir: &IR) -> (b: bool)
    ensures
        b == has_nonmovable_param(ps@, ir.items@),
{
    let n = ps.len();
    for i in 0..n
        invariant
            n == ps@.len(),
            forall|j: int|
                0 <= j < i ==> !is_nonmovable_by_value((#[trigger] ps@[j]).type_.rs_type, ir.items@),
    {
        if nonmovable_by_value(&ps[i].type_.rs_type, ir) {
            assert(is_nonmovable_by_value(ps@[i as int].type_.rs_type, ir.items@));
            return true;
        }
    }
    false
}

/// Whether the function's return type or some parameter is a by-value use
/// of a pinned-category record.
pub open spec fn func_has_nontrivial_value(f: Func, items: Seq<Item>) -> bool {
    ||| is_nontrivial_by_value(f.return_type.rs_type, items)
    ||| exists|i: int|
        0 <= i < f.params@.len() && is_nontrivial_by_value(
            (#[trigger] f.params@[i]).type_.rs_type,
            items,
        )
}

/// Whether the function's return type or some parameter is a by-value use
/// of a pinned-category record.
pub fn check_func_has_nontrivial_value(f: &Func, ir: &IR) -> (b: bool)
    ensures
        b == func_has_nontrivial_value(*f, ir.items@),
{
    if nontrivial_by_value(&f.return_type.rs_type, ir) {
        return true;
    }
    let n = f.params.len();
    for i in 0..n
        invariant
            n == f.params@.len(),
            forall|j: int|
                0 <= j < i ==> !is_nontrivial_by_value(
                    (#[trigger] f.params@[j]).type_.rs_type,
                    ir.items@,
                ),
    {
        if nontrivial_by_value(&f.params[i].type_.rs_type, ir) {
            assert(is_nontrivial_by_value(f.params@[i as int].type_.rs_type, ir.items@));
            return true;
        }
    }
    false
}

/// The escaped target-side spelling of a named function.
pub open spec fn func_ident_text(f: Func) -> Seq<char> {
    match f.name {
        UnqualifiedIdentifier::Identifier(id) => escaped_ident(id.identifier@),
        _ => Seq::empty(),
    }
}

/// The verbatim C++ spelling of a named function.
pub open spec fn func_cc_name(f: Func) -> Seq<char> {
    match f.name {
        UnqualifiedIdentifier::Identifier(id) => id.identifier@,
        _ => Seq::empty(),
    }
}

/// The thunk symbol of `f`.
pub open spec fn func_sym(f: Func) -> Seq<char> {
    crate::thunks::thunk_symbol(crate::ir::func_seed(f))
}

/// The target-side wrapper for a free function.
pub open spec fn free_fn_rs_text(f: Func, items: Seq<Item>) -> Seq<char> {
    let eid = func_ident_text(f);
    let sym = func_sym(f);
    let retty = rs_type_text(f.return_type.rs_type);
    if is_nontrivial_by_value(f.return_type.rs_type, items) {
        "#[inline(always)]\npub fn "@ + eid + "("@ + rs_param_list(f.params@, items)
            + ") -> impl ::ctor::Ctor<Output = "@ + retty + "> {\n"@ + emplace_lines(
            f.params@,
            items,
        )
            + "    unsafe {\n        ::ctor::FnCtor::new(move |dest: ::std::pin::Pin<&mut ::std::mem::MaybeUninit<"@
            + retty + ">>| {\n            crate::detail::"@ + sym
            + "(::std::pin::Pin::into_inner_unchecked(dest)"@ + (if f.params@.len() == 0 {
            Seq::<char>::empty()
        } else {
            ", "@ + rs_arg_list(f.params@, items)
        }) + ");\n        })\n    }\n}\n"@
    } else {
        "#[inline(always)]\npub fn "@ + eid + "("@ + rs_param_list(f.params@, items) + ") -> "@
            + retty + " {\n"@ + emplace_lines(f.params@, items) + "    unsafe { crate::detail::"@
            + sym + "("@ + rs_arg_list(f.params@, items) + ") }\n}\n"@
    }
}

/// The direct-link attribute line of an `extern` entry, present exactly
/// when the thunk is skipped.
pub open spec fn link_line_text(f: Func, items: Seq<Item>) -> Seq<char> {
    if crate::thunks::can_skip_cc_thunk_spec(f, items) {
        "        #[link_name = \""@ + f.mangled_name@ + "\"]\n"@
    } else {
        Seq::empty()
    }
}

/// The parameter signature of a free function's `extern` entry: a
/// non-trivial return is lowered to a leading destination pointer.
pub open spec fn extern_sig_text(f: Func, items: Seq<Item>) -> Seq<char> {
    if is_nontrivial_by_value(f.return_type.rs_type, items) {
        "__return: *mut "@ + rs_type_text(f.return_type.rs_type) + (if f.params@.len() == 0 {
            Seq::<char>::empty()
        } else {
            ", "@ + extern_param_list(f.params@, items)
        })
    } else {
        extern_param_list(f.params@, items)
    }
}

/// The return annotation of a free function's `extern` entry.
pub open spec fn extern_ret_text(f: Func, items: Seq<Item>) -> Seq<char> {
    if is_nontrivial_by_value(f.return_type.rs_type, items) {
        Seq::empty()
    } else {
        " -> "@ + rs_type_text(f.return_type.rs_type)
    }
}

/// The full `extern` entry text of a free function.
pub open spec fn free_extern_text(f: Func, items: Seq<Item>) -> Seq<char> {
    link_line_text(f, items) + "        pub(crate) fn "@ + func_sym(f) + "("@ + extern_sig_text(
        f,
        items,
    ) + ")"@ + extern_ret_text(f, items) + ";\n"@
}

/// The `extern` entry of a free function.
pub open spec fn free_extern_decl_sp(f: Func, items: Seq<Item>) -> crate::thunks::ThunkDeclSp {
    crate::thunks::ThunkDeclSp {
        symbol: func_sym(f),
        link_name: if crate::thunks::can_skip_cc_thunk_spec(f, items) {
            Some(f.mangled_name@)
        } else {
            None
        },
        text: free_extern_text(f, items),
    }
}

/// The C++ thunk definition of a free function.
pub open spec fn free_cc_text(f: Func, items: Seq<Item>) -> Seq<char> {
    let sym = func_sym(f);
    let ccret = cc_type_text(f.return_type.cc_type);
    let name = func_cc_name(f);
    if is_nontrivial_by_value(f.return_type.rs_type, items) {
        "extern \"C\" void "@ + sym + "("@ + ccret + "* __return"@ + (if f.params@.len() == 0 {
            Seq::<char>::empty()
        } else {
            ", "@ + cc_param_list(f.params@, items)
        }) + ") { new (__return) "@ + ccret + "("@ + name + "("@ + cc_arg_list(f.params@, items)
            + ")); }\n"@
    } else {
        "extern \"C\" "@ + ccret + " "@ + sym + "("@ + cc_param_list(f.params@, items)
            + ") { return "@ + name + "("@ + cc_arg_list(f.params@, items) + "); }\n"@
    }
}

/// Appends the escaped name of the named function `f` to `out`.
fn push_func_ident(out: &mut String, f: &Func)
    requires
        f.name is Identifier,
    ensures
        final(out)@ == old(out)@ + func_ident_text(*f),
{
    match &f.name {
        UnqualifiedIdentifier::Identifier(id) => {
            push_escaped(out, id.identifier.as_str());
        },
        _ => {},
    }
}

/// Appends the thunk symbol of `f` to `out`.
pub fn push_func_sym(out: &mut String, f: &Func)
    ensures
        final(out)@ == old(out)@ + func_sym(*f),
{
    out.append("__rust_thunk__");
    match &f.name {
        UnqualifiedIdentifier::Identifier(id) => {
            out.append(id.identifier.as_str());
        },
        _ => {
            out.append(f.mangled_name.as_str());
        },
    }
}

/// The thunk symbol of `f`, as an owned string.
pub fn func_sym_string(f: &Func) -> (r: String)
    ensures
        r@ == func_sym(*f),
{
    let mut out = String::new();
    push_func_sym(&mut out, f);
    out
}

/// The target-side wrapper of a free function, as an owned string.
fn free_fn_rs_string(f: &Func, ir: &IR) -> (r: String)
    requires
        f.name is Identifier,
    ensures
        r@ == free_fn_rs_text(*f, ir.items@),
{
    let mut out: String = "#[inline(always)]\npub fn ".to_owned();
    push_func_ident(&mut out, f);
    out.append("(");
    push_rs_param_list(&mut out, &f.params, ir);
    if nontrivial_by_value(&f.return_type.rs_type, ir) {
        out.append(") -> impl ::ctor::Ctor<Output = ");
        push_rs_type(&mut out, &f.return_type.rs_type);
        out.append("> {\n");
        push_emplace_lines(&mut out, &f.params, ir);
        out.append(
            "    unsafe {\n        ::ctor::FnCtor::new(move |dest: ::std::pin::Pin<&mut ::std::mem::MaybeUninit<",
        );
        push_rs_type(&mut out, &f.return_type.rs_type);
        out.append(">>| {\n            crate::detail::");
        push_func_sym(&mut out, f);
        out.append("(::std::pin::Pin::into_inner_unchecked(dest)");
        if f.params.len() > 0 {
            out.append(", ");
            push_rs_arg_list(&mut out, &f.params, ir);
        }
        out.append(");\n        })\n    }\n}\n");
    } else {
        out.append(") -> ");
        push_rs_type(&mut out, &f.return_type.rs_type);
        out.append(" {\n");
        push_emplace_lines(&mut out, &f.params, ir);
        out.append("    unsafe { crate::detail::");
        push_func_sym(&mut out, f);
        out.append("(");
        push_rs_arg_list(&mut out, &f.params, ir);
        out.append(") }\n}\n");
    }
    out
}

/// The `extern` entry of a free function.
#[verifier::rlimit(50)]
fn free_extern_decl(f: &Func, ir: &IR) -> (d: crate::thunks::ThunkDecl)
    requires
        f.name is Identifier,
    ensures
        d@ == free_extern_decl_sp(*f, ir.items@),
{
    let skip = crate::thunks::can_skip_cc_thunk(f, ir);
    let mut text = String::new();
    if skip {
        text.append("        #[link_name = \"");
        text.append(f.mangled_name.as_str());
        text.append("\"]\n");
    }
    proof {
        assert(text@ =~= link_line_text(*f, ir.items@));
    }
    let ghost t0 = text@;
    text.append("        pub(crate) fn ");
    push_func_sym(&mut text, f);
    text.append("(");
    proof {
        assert(text@ =~= t0 + "        pub(crate) fn "@ + func_sym(*f) + "("@);
    }
    let ghost t1 = text@;
    if nontrivial_by_value(&f.return_type.rs_type, ir) {
        text.append("__return: *mut ");
        push_rs_type(&mut text, &f.return_type.rs_type);
        if f.params.len() > 0 {
            text.append(", ");
            push_extern_param_list(&mut text, &f.params, ir);
        }
        proof {
            assert(text@ =~= t1 + extern_sig_text(*f, ir.items@));
        }
        text.append(")");
        text.append(";\n");
        proof {
            assert(text@ =~= t1 + extern_sig_text(*f, ir.items@) + ")"@ + extern_ret_text(
                *f,
                ir.items@,
            ) + ";\n"@);
        }
    } else {
        push_extern_param_list(&mut text, &f.params, ir);
        proof {
            assert(text@ =~= t1 + extern_sig_text(*f, ir.items@));
        }
        text.append(")");
        text.append(" -> ");
        push_rs_type(&mut text, &f.return_type.rs_type);
        text.append(";\n");
        proof {
            assert(text@ =~= t1 + extern_sig_text(*f, ir.items@) + ")"@ + extern_ret_text(
                *f,
                ir.items@,
            ) + ";\n"@);
        }
    }
    let link_name: Option<String> = if skip {
        Some(f.mangled_name.clone())
    } else {
        None
    };
    let d = crate::thunks::ThunkDecl { symbol: func_sym_string(f), link_name, text };
    proof {
        assert(d@.text =~= free_extern_text(*f, ir.items@));
        assert(d@.symbol == func_sym(*f));
    }
    d
}

/// The C++ thunk of a free function.
fn free_cc_thunk(f: &Func, ir: &IR) -> (t: crate::thunks::CcThunk)
    requires
        f.name is Identifier,
    ensures
        t@.symbol == func_sym(*f),
        t@.text == free_cc_text(*f, ir.items@),
{
    let mut text = String::new();
    if nontrivial_by_value(&f.return_type.rs_type, ir) {
        text.append("extern \"C\" void ");
        push_func_sym(&mut text, f);
        text.append("(");
        push_cc_type(&mut text, &f.return_type.cc_type);
        text.append("* __return");
        if f.params.len() > 0 {
            text.append(", ");
            push_cc_param_list(&mut text, &f.params, ir);
        }
        text.append(") { new (__return) ");
        push_cc_type(&mut text, &f.return_type.cc_type);
        text.append("(");
        match &f.name {
            UnqualifiedIdentifier::Identifier(id) => {
                text.append(id.identifier.as_str());
            },
            _ => {},
        }
        text.append("(");
        push_cc_arg_list(&mut text, &f.params, ir);
        text.append(")); }\n");
    } else {
        text.append("extern \"C\" ");
        push_cc_type(&mut text, &f.return_type.cc_type);
        text.append(" ");
        push_func_sym(&mut text, f);
        text.append("(");
        push_cc_param_list(&mut text, &f.params, ir);
        text.append(") { return ");
        match &f.name {
            UnqualifiedIdentifier::Identifier(id) => {
                text.append(id.identifier.as_str());
            },
            _ => {},
        }
        text.append("(");
        push_cc_arg_list(&mut text, &f.params, ir);
        text.append("); }\n");
    }
    crate::thunks::CcThunk { symbol: func_sym_string(f), text }
}

/// The name of the record that owns a member function.
pub open spec fn owner_name_of(f: Func) -> Seq<char> {
    f.member_func_metadata->0.for_type.identifier@
}

/// The record that owns a member function.
pub open spec fn owner_rec(f: Func, items: Seq<Item>) -> crate::ir::Record {
    crate::ir::find_record(items, owner_name_of(f))->0
}

/// Whether the owning record of a member function is bound pinned.
pub open spec fn owner_pinned(f: Func, items: Seq<Item>) -> bool {
    crate::category::is_pinned(category_of(owner_rec(f, items)))
}

/// The receiver of an instance method: const methods take a shared
/// reference; mutation on a pinned record, or through an rvalue-qualified
/// method, goes through a pinned mutable handle; the rest take a plain
/// mutable reference.
pub open spec fn recv_sig_text(im: crate::ir::InstanceMethodMetadata, pinned: bool) -> Seq<char> {
    if im.is_const {
        "&self"@
    } else if pinned || im.reference is RValue {
        "self: ::std::pin::Pin<&mut Self>"@
    } else {
        "&mut self"@
    }
}

/// The receiver expression the wrapper hands to the thunk.
pub open spec fn recv_arg_text(im: crate::ir::InstanceMethodMetadata, pinned: bool) -> Seq<char> {
    if im.is_const {
        "self"@
    } else if pinned || im.reference is RValue {
        "::std::pin::Pin::into_inner_unchecked(self)"@
    } else {
        "self"@
    }
}

/// The target-side wrapper of a member function, emitted as its own `impl`
/// block on the owning record.
pub open spec fn member_rs_text(f: Func, items: Seq<Item>) -> Seq<char> {
    let er = escaped_ident(owner_name_of(f));
    let eid = func_ident_text(f);
    let sym = func_sym(f);
    let retty = rs_type_text(f.return_type.rs_type);
    match f.member_func_metadata->0.instance_method_metadata {
        Some(im) => "impl "@ + er + " {\n    #[inline(always)]\n    pub fn "@ + eid + "("@
            + recv_sig_text(im, owner_pinned(f, items)) + (if f.params@.len() == 0 {
            Seq::<char>::empty()
        } else {
            ", "@ + rs_plain_param_list(f.params@)
        }) + ") -> "@ + retty + " {\n        unsafe { crate::detail::"@ + sym + "("@
            + recv_arg_text(im, owner_pinned(f, items)) + (if f.params@.len() == 0 {
            Seq::<char>::empty()
        } else {
            ", "@ + rs_name_list(f.params@)
        }) + ") }\n    }\n}\n"@,
        None => "impl "@ + er + " {\n    #[inline(always)]\n    pub fn "@ + eid + "("@
            + rs_plain_param_list(f.params@) + ") -> "@ + retty
            + " {\n        unsafe { crate::detail::"@ + sym + "("@ + rs_name_list(f.params@)
            + ") }\n    }\n}\n"@,
    }
}

/// The `extern` entry text of a member function.
pub open spec fn member_extern_text(f: Func, items: Seq<Item>) -> Seq<char> {
    let er = escaped_ident(owner_name_of(f));
    let sym = func_sym(f);
    let retty = rs_type_text(f.return_type.rs_type);
    link_line_text(f, items) + "        pub(crate) fn "@ + sym + "("@ + (match f
        .member_func_metadata->0.instance_method_metadata {
        Some(im) => "__this: "@ + (if im.is_const {
            "*const "@
        } else {
            "*mut "@
        }) + er + (if f.params@.len() == 0 {
            Seq::<char>::empty()
        } else {
            ", "@ + rs_plain_param_list(f.params@)
        }),
        None => rs_plain_param_list(f.params@),
    }) + ") -> "@ + retty + ";\n"@
}

/// The `extern` entry of a member function.
pub open spec fn member_extern_decl_sp(f: Func, items: Seq<Item>) -> crate::thunks::ThunkDeclSp {
    crate::thunks::ThunkDeclSp {
        symbol: func_sym(f),
        link_name: if crate::thunks::can_skip_cc_thunk_spec(f, items) {
            Some(f.mangled_name@)
        } else {
            None
        },
        text: member_extern_text(f, items),
    }
}

/// The C++ thunk definition of a member function: the receiver arrives as
/// a pointer and the body restores the member call shape.
pub open spec fn member_cc_text(f: Func, items: Seq<Item>) -> Seq<char> {
    let rn = owner_name_of(f);
    let sym = func_sym(f);
    let ccret = cc_type_text(f.return_type.cc_type);
    let name = func_cc_name(f);
    match f.member_func_metadata->0.instance_method_metadata {
        Some(im) => "extern \"C\" "@ + ccret + " "@ + sym + "("@ + (if im.is_const {
            "const "@
        } else {
            Seq::<char>::empty()
        }) + rn + "* __this"@ + (if f.params@.len() == 0 {
            Seq::<char>::empty()
        } else {
            ", "@ + cc_plain_param_list(f.params@)
        }) + ") { return __this->"@ + name + "("@ + cc_name_list(f.params@) + "); }\n"@,
        None => "extern \"C\" "@ + ccret + " "@ + sym + "("@ + cc_plain_param_list(f.params@)
            + ") { return "@ + rn + "::"@ + name + "("@ + cc_name_list(f.params@) + "); }\n"@,
    }
}

/// The target-side wrapper of a member function, as an owned string.
fn member_rs_string(f: &Func, ir: &IR, pinned: bool) -> (r: String)
    requires
        f.name is Identifier,
        f.member_func_metadata is Some,
        pinned == owner_pinned(*f, ir.items@),
    ensures
        r@ == member_rs_text(*f, ir.items@),
{
    let mut out: String = "impl ".to_owned();
    match &f.member_func_metadata {
        Option::Some(m) => {
            push_escaped(&mut out, m.for_type.identifier.as_str());
        },
        Option::None => {},
    }
    out.append(" {\n    #[inline(always)]\n    pub fn ");
    push_func_ident(&mut out, f);
    out.append("(");
    match &f.member_func_metadata {
        Option::Some(m) => match &m.instance_method_metadata {
            Option::Some(im) => {
                if im.is_const {
                    out.append("&self");
                } else if pinned || matches!(im.reference, crate::ir::ReferenceQualification::RValue) {
                    out.append("self: ::std::pin::Pin<&mut Self>");
                } else {
                    out.append("&mut self");
                }
                if f.params.len() > 0 {
                    out.append(", ");
                    push_rs_plain_param_list(&mut out, &f.params);
                }
                out.append(") -> ");
                push_rs_type(&mut out, &f.return_type.rs_type);
                out.append(" {\n        unsafe { crate::detail::");
                push_func_sym(&mut out, f);
                out.append("(");
                if im.is_const {
                    out.append("self");
                } else if pinned || matches!(im.reference, crate::ir::ReferenceQualification::RValue) {
                    out.append("::std::pin::Pin::into_inner_unchecked(self)");
                } else {
                    out.append("self");
                }
                if f.params.len() > 0 {
                    out.append(", ");
                    push_rs_name_list(&mut out, &f.params);
                }
                out.append(") }\n    }\n}\n");
            },
            Option::None => {
                push_rs_plain_param_list(&mut out, &f.params);
                out.append(") -> ");
                push_rs_type(&mut out, &f.return_type.rs_type);
                out.append(" {\n        unsafe { crate::detail::");
                push_func_sym(&mut out, f);
                out.append("(");
                push_rs_name_list(&mut out, &f.params);
                out.append(") }\n    }\n}\n");
            },
        },
        Option::None => {},
    }
    out
}

/// The `extern` entry of a member function.
fn member_extern_decl(f: &Func, ir: &IR) -> (d: crate::thunks::ThunkDecl)
    requires
        f.name is Identifier,
        f.member_func_metadata is Some,
    ensures
        d@ == member_extern_decl_sp(*f, ir.items@),
{
    let skip = crate::thunks::can_skip_cc_thunk(f, ir);
    let mut text = String::new();
    if skip {
        text.append("        #[link_name = \"");
        text.append(f.mangled_name.as_str());
        text.append("\"]\n");
    }
    proof {
        assert(text@ =~= link_line_text(*f, ir.items@));
    }
    text.append("        pub(crate) fn ");
    push_func_sym(&mut text, f);
    text.append("(");
    match &f.member_func_metadata {
        Option::Some(m) => match &m.instance_method_metadata {
            Option::Some(im) => {
                text.append("__this: ");
                if im.is_const {
                    text.append("*const ");
                } else {
                    text.append("*mut ");
                }
                push_escaped(&mut text, m.for_type.identifier.as_str());
                if f.params.len() > 0 {
                    text.append(", ");
                    push_rs_plain_param_list(&mut text, &f.params);
                }
            },
            Option::None => {
                push_rs_plain_param_list(&mut text, &f.params);
            },
        },
        Option::None => {},
    }
    text.append(") -> ");
    push_rs_type(&mut text, &f.return_type.rs_type);
    text.append(";\n");
    let link_name: Option<String> = if skip {
        Some(f.mangled_name.clone())
    } else {
        None
    };
    let d = crate::thunks::ThunkDecl { symbol: func_sym_string(f), link_name, text };
    proof {
        assert(d@.text =~= member_extern_text(*f, ir.items@));
    }
    d
}

/// The C++ thunk of a member function.
fn member_cc_thunk(f: &Func, ir: &IR) -> (t: crate::thunks::CcThunk)
    requires
        f.name is Identifier,
        f.member_func_metadata is Some,
    ensures
        t@.symbol == func_sym(*f),
        t@.text == member_cc_text(*f, ir.items@),
{
    let mut text: String = "extern \"C\" ".to_owned();
    push_cc_type(&mut text, &f.return_type.cc_type);
    text.append(" ");
    push_func_sym(&mut text, f);
    text.append("(");
    match &f.member_func_metadata {
        Option::Some(m) => match &m.instance_method_metadata {
            Option::Some(im) => {
                if im.is_const {
                    text.append("const ");
                }
                text.append(m.for_type.identifier.as_str());
                text.append("* __this");
                if f.params.len() > 0 {
                    text.append(", ");
                    push_cc_plain_param_list(&mut text, &f.params);
                }
                text.append(") { return __this->");
                match &f.name {
                    UnqualifiedIdentifier::Identifier(id) => {
                        text.append(id.identifier.as_str());
                    },
                    _ => {},
                }
                text.append("(");
                push_cc_name_list(&mut text, &f.params);
                text.append("); }\n");
            },
            Option::None => {
                push_cc_plain_param_list(&mut text, &f.params);
                text.append(") { return ");
                text.append(m.for_type.identifier.as_str());
                text.append("::");
                match &f.name {
                    UnqualifiedIdentifier::Identifier(id) => {
                        text.append(id.identifier.as_str());
                    },
                    _ => {},
                }
                text.append("(");
                push_cc_name_list(&mut text, &f.params);
                text.append("); }\n");
            },
        },
        Option::None => {},
    }
    let t = crate::thunks::CcThunk { symbol: func_sym_string(f), text };
    proof {
        assert(t@.text =~= member_cc_text(*f, ir.items@));
    }
    t
}

/// What a refused item contributes: a diagnostic comment in its output
/// position, and nothing else.
pub open spec fn diag_item_sp(name: Seq<char>, reason: Seq<char>) -> crate::plan::GenItemSp {
    crate::plan::GenItemSp {
        rs_text: crate::diag::diag_text(name, reason),
        is_diagnostic: true,
        thunk_decls: Seq::empty(),
        cc_thunks: Seq::empty(),
        assert_texts: Seq::empty(),
    }
}

/// What a named function contributes: a member or free wrapper with its
/// `extern` entry and, unless the function links directly, a C++ thunk; or
/// a diagnostic where the engine refuses the shape.
pub open spec fn ident_func_item_sp(f: Func, items: Seq<Item>) -> crate::plan::GenItemSp {
    if f.member_func_metadata is Some {
        if func_has_nontrivial_value(f, items) {
            diag_item_sp(
                func_cc_name(f),
                "Non-trivial by-value parameters or return types of member functions are not supported yet"@,
            )
        } else {
            crate::plan::GenItemSp {
                rs_text: member_rs_text(f, items),
                is_diagnostic: false,
                thunk_decls: seq![member_extern_decl_sp(f, items)],
                cc_thunks: if crate::thunks::can_skip_cc_thunk_spec(f, items) {
                    Seq::empty()
                } else {
                    seq![
                        crate::thunks::CcThunkSp {
                            symbol: func_sym(f),
                            text: member_cc_text(f, items),
                        },
                    ]
                },
                assert_texts: Seq::empty(),
            }
        }
    } else {
        if has_nonmovable_param(f.params@, items) {
            diag_item_sp(func_cc_name(f), "Non-movable, by-value parameters are not supported"@)
        } else {
            crate::plan::GenItemSp {
                rs_text: free_fn_rs_text(f, items),
                is_diagnostic: false,
                thunk_decls: seq![free_extern_decl_sp(f, items)],
                cc_thunks: if crate::thunks::can_skip_cc_thunk_spec(f, items) {
                    Seq::empty()
                } else {
                    seq![
                        crate::thunks::CcThunkSp { symbol: func_sym(f), text: free_cc_text(f, items) },
                    ]
                },
                assert_texts: Seq::empty(),
            }
        }
    }
}

/// Emits the plan entry of a named function.
pub fn emit_ident_func(f: &Func, ir: &IR) -> (g: crate::plan::GenItem)
    requires
        f.name is Identifier,
        f.wf(crate::ir::record_names(ir.items@)),
    ensures
        g@ == ident_func_item_sp(*f, ir.items@),
{
    match &f.member_func_metadata {
        Option::Some(m) => {
            if check_func_has_nontrivial_value(f, ir) {
                let mut name = String::new();
                match &f.name {
                    UnqualifiedIdentifier::Identifier(id) => {
                        name.append(id.identifier.as_str());
                    },
                    _ => {},
                }
                let g = crate::plan::GenItem {
                    rs_text: crate::diag::diag_string(
                        name.as_str(),
                        "Non-trivial by-value parameters or return types of member functions are not supported yet",
                    ),
                    is_diagnostic: true,
                    thunk_decls: Vec::new(),
                    cc_thunks: Vec::new(),
                    assert_texts: Vec::new(),
                };
                proof {
                    assert(g@.thunk_decls =~= Seq::<crate::thunks::ThunkDeclSp>::empty());
                    assert(g@.cc_thunks =~= Seq::<crate::thunks::CcThunkSp>::empty());
                    assert(g@.assert_texts =~= Seq::<Seq<char>>::empty());
                }
                g
            } else {
                proof {
                    crate::ir::lemma_find_record_some(ir.items@, owner_name_of(*f));
                }
                let rec = ir.record_by_name(m.for_type.identifier.as_str()).unwrap();
                let pinned = matches!(
                    crate::category::binding_category(rec),
                    BindingCategory::Pinned | BindingCategory::PinnedNonmovable,
                );
                let rs_text = member_rs_string(f, ir, pinned);
                let mut thunk_decls: Vec<crate::thunks::ThunkDecl> = Vec::new();
                thunk_decls.push(member_extern_decl(f, ir));
                let mut cc_thunks: Vec<crate::thunks::CcThunk> = Vec::new();
                if !crate::thunks::can_skip_cc_thunk(f, ir) {
                    cc_thunks.push(member_cc_thunk(f, ir));
                }
                let g = crate::plan::GenItem {
                    rs_text,
                    is_diagnostic: false,
                    thunk_decls,
                    cc_thunks,
                    assert_texts: Vec::new(),
                };
                proof {
                    assert(g@.thunk_decls =~= seq![member_extern_decl_sp(*f, ir.items@)]);
                    if crate::thunks::can_skip_cc_thunk_spec(*f, ir.items@) {
                        assert(g@.cc_thunks =~= Seq::<crate::thunks::CcThunkSp>::empty());
                    } else {
                        assert(g@.cc_thunks =~= seq![
                            crate::thunks::CcThunkSp {
                                symbol: func_sym(*f),
                                text: member_cc_text(*f, ir.items@),
                            },
                        ]);
                    }
                    assert(g@.assert_texts =~= Seq::<Seq<char>>::empty());
                }
                g
            }
        },
        Option::None => {
            if check_nonmovable_param(&f.params, ir) {
                let mut name = String::new();
                match &f.name {
                    UnqualifiedIdentifier::Identifier(id) => {
                        name.append(id.identifier.as_str());
                    },
                    _ => {},
                }
                let g = crate::plan::GenItem {
                    rs_text: crate::diag::diag_string(
                        name.as_str(),
                        "Non-movable, by-value parameters are not supported",
                    ),
                    is_diagnostic: true,
                    thunk_decls: Vec::new(),
                    cc_thunks: Vec::new(),
                    assert_texts: Vec::new(),
                };
                proof {
                    assert(g@.thunk_decls =~= Seq::<crate::thunks::ThunkDeclSp>::empty());
                    assert(g@.cc_thunks =~= Seq::<crate::thunks::CcThunkSp>::empty());
                    assert(g@.assert_texts =~= Seq::<Seq<char>>::empty());
                }
                g
            } else {
                let rs_text = free_fn_rs_string(f, ir);
                let mut thunk_decls: Vec<crate::thunks::ThunkDecl> = Vec::new();
                thunk_decls.push(free_extern_decl(f, ir));
                let mut cc_thunks: Vec<crate::thunks::CcThunk> = Vec::new();
                if !crate::thunks::can_skip_cc_thunk(f, ir) {
                    cc_thunks.push(free_cc_thunk(f, ir));
                }
                let g = crate::plan::GenItem {
                    rs_text,
                    is_diagnostic: false,
                    thunk_decls,
                    cc_thunks,
                    assert_texts: Vec::new(),
                };
                proof {
                    assert(g@.thunk_decls =~= seq![free_extern_decl_sp(*f, ir.items@)]);
                    if crate::thunks::can_skip_cc_thunk_spec(*f, ir.items@) {
                        assert(g@.cc_thunks =~= Seq::<crate::thunks::CcThunkSp>::empty());
                    } else {
                        assert(g@.cc_thunks =~= seq![
                            crate::thunks::CcThunkSp {
                                symbol: func_sym(*f),
                                text: free_cc_text(*f, ir.items@),
                            },
                        ]);
                    }
                    assert(g@.assert_texts =~= Seq::<Seq<char>>::empty());
                }
                g
            }
        },
    }
}

} // verus!
