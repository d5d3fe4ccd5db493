//! Emission of constructor and destructor items: value-type factories for
//! unpin records, the emplacement-constructor family for pinned records,
//! and the drop surfaces.

use vstd::prelude::*;
use crate::ir::Func;
use crate::ir::FuncParam;
use crate::ir::IR;
use crate::ir::Item;
use crate::ir::Record;
use crate::category::category_of;
use crate::category::is_pinned;
use crate::category::slot_exposed;
use crate::category::slot_is_exposed;
use crate::category::BindingCategory;
use crate::ident::push_escaped;
use crate::ident::escaped_ident;
use crate::types::rs_type_text;
use crate::types::push_rs_type;
use crate::emit_funcs::param_name_text;
use crate::emit_funcs::rs_plain_param_list;
use crate::emit_funcs::rs_name_list;
use crate::emit_funcs::cc_plain_param_list;
use crate::emit_funcs::cc_name_list;
use crate::emit_funcs::push_rs_plain_param_list;
use crate::emit_funcs::push_rs_name_list;
use crate::emit_funcs::push_cc_plain_param_list;
use crate::emit_funcs::push_cc_name_list;
use crate::emit_funcs::owner_name_of;
use crate::emit_funcs::owner_rec;
use crate::emit_funcs::func_sym;
use crate::emit_funcs::push_func_sym;
use crate::emit_funcs::func_sym_string;
use crate::emit_funcs::diag_item_sp;
use crate::plan::GenItem;
use crate::plan::GenItemSp;
use crate::thunks::ThunkDecl;
use crate::thunks::ThunkDeclSp;
use crate::thunks::CcThunk;
use crate::thunks::CcThunkSp;

verus! {

/// The comma-separated target-side types of a parameter list.
pub open spec fn rs_type_list(ps: Seq<FuncParam>) -> Seq<char>
    decreases ps.len(),
{
    if ps.len() == 0 {
        Seq::empty()
    } else if ps.len() == 1 {
        rs_type_text(ps[0].type_.rs_type)
    } else {
        rs_type_list(ps.drop_last()) + ", "@ + rs_type_text(ps.last().type_.rs_type)
    }
}

/// Appends the comma-separated target-side parameter types to `out`.
pub fn push_rs_type_list(out: &mut String, ps: &Vec<FuncParam>)
    ensures
        final(out)@ == old(out)@ + rs_type_list(ps@),
{
    let ghost base = out@;
    let n = ps.len();
    for i in 0..n
        invariant
            n == ps@.len(),
            out@ == base + rs_type_list(ps@.take(i as int)),
    {
        proof {
            assert(ps@.take(i + 1).drop_last() =~= ps@.take(i as int));
            assert(ps@.take(i + 1).last() == ps@[i as int]);
        }
        if i > 0 {
            out.append(", ");
        }
        push_rs_type(out, &ps[i].type_.rs_type);
    }
    proof {
        assert(ps@.take(n as int) =~= ps@);
    }
}

/// Whether the parameter is a shared reference to the record itself: the
/// shape of a copy constructor's parameter.
pub open spec fn is_copy_param(p: FuncParam, rec: Record) -> bool {
    &&& p.type_.rs_type.name@ == "&"@
    &&& p.type_.rs_type.type_params@.len() == 1
    &&& p.type_.rs_type.type_params@[0].decl_id matches Some(d) && d.0 == rec.decl_id.0
}

/// Whether the parameter is an rvalue reference to the record itself: the
/// shape of a move constructor's parameter.
pub open spec fn is_move_param(p: FuncParam, rec: Record) -> bool {
    &&& p.type_.rs_type.name@ == "RvalueRef"@
    &&& p.type_.rs_type.type_params@.len() == 1
    &&& p.type_.rs_type.type_params@[0].decl_id matches Some(d) && d.0 == rec.decl_id.0
}

/// Whether the parameter is a shared reference to the record itself.
pub fn check_copy_param(p: &FuncParam, rec: &Record) -> (b: bool)
    ensures
        b == is_copy_param(*p, *rec),
{
    if !crate::strfmt::str_eq(p.type_.rs_type.name.as_str(), "&") {
        return false;
    }
    if p.type_.rs_type.type_params.len() != 1 {
        return false;
    }
    match &p.type_.rs_type.type_params[0].decl_id {
        Option::Some(d) => d.0 == rec.decl_id.0,
        Option::None => false,
    }
}

/// Whether the parameter is an rvalue reference to the record itself.
pub fn check_move_param(p: &FuncParam, rec: &Record) -> (b: bool)
    ensures
        b == is_move_param(*p, *rec),
{
    if !crate::strfmt::str_eq(p.type_.rs_type.name.as_str(), "RvalueRef") {
        return false;
    }
    if p.type_.rs_type.type_params.len() != 1 {
        return false;
    }
    match &p.type_.rs_type.type_params[0].decl_id {
        Option::Some(d) => d.0 == rec.decl_id.0,
        Option::None => false,
    }
}

/// An item slot that contributes nothing: the shape of a surface elided by
/// access filtering.
pub open spec fn empty_item_sp() -> GenItemSp {
    GenItemSp {
        rs_text: Seq::empty(),
        is_diagnostic: false,
        thunk_decls: Seq::empty(),
        cc_thunks: Seq::empty(),
        assert_texts: Seq::empty(),
    }
}

/// The `extern` entry text of a constructor thunk: the destination buffer
/// first, then the declared parameters.
pub open spec fn ctor_extern_text(f: Func) -> Seq<char> {
    "        pub(crate) fn "@ + func_sym(f) + "(__this: &mut ::std::mem::MaybeUninit<"@
        + escaped_ident(owner_name_of(f)) + ">"@ + (if f.params@.len() == 0 {
        Seq::<char>::empty()
    } else {
        ", "@ + rs_plain_param_list(f.params@)
    }) + ");\n"@
}

/// The `extern` entry of a constructor thunk.
pub open spec fn ctor_extern_decl_sp(f: Func) -> ThunkDeclSp {
    ThunkDeclSp { symbol: func_sym(f), link_name: None, text: ctor_extern_text(f) }
}

/// The C++ definition of a constructor thunk: a placement construction
/// into the destination buffer.
pub open spec fn ctor_cc_text(f: Func) -> Seq<char> {
    let rn = owner_name_of(f);
    "extern \"C\" void "@ + func_sym(f) + "("@ + rn + "* __this"@ + (if f.params@.len() == 0 {
        Seq::<char>::empty()
    } else {
        ", "@ + cc_plain_param_list(f.params@)
    }) + ") { new (__this) "@ + rn + "("@ + cc_name_list(f.params@) + "); }\n"@
}

/// The default factory of an unpin record.
pub open spec fn unpin_default_rs_text(f: Func) -> Seq<char> {
    "impl Default for "@ + escaped_ident(owner_name_of(f))
        + " {\n    #[inline(always)]\n    fn default() -> Self {\n        let mut tmp = ::std::mem::MaybeUninit::<Self>::zeroed();\n        unsafe {\n            crate::detail::"@
        + func_sym(f) + "(&mut tmp);\n            tmp.assume_init()\n        }\n    }\n}\n"@
}

/// The clone surface of an unpin record, from its copy constructor.
pub open spec fn unpin_clone_rs_text(f: Func) -> Seq<char> {
    "impl Clone for "@ + escaped_ident(owner_name_of(f))
        + " {\n    #[inline(always)]\n    fn clone(&self) -> Self {\n        let mut tmp = ::std::mem::MaybeUninit::<Self>::zeroed();\n        unsafe {\n            crate::detail::"@
        + func_sym(f) + "(&mut tmp, self);\n            tmp.assume_init()\n        }\n    }\n}\n"@
}

/// The conversion factory of an unpin record, from a one-parameter
/// constructor.
pub open spec fn unpin_from_rs_text(f: Func) -> Seq<char> {
    let t = rs_type_text(f.params@[0].type_.rs_type);
    let pn = param_name_text(f.params@[0]);
    "impl From<"@ + t + "> for "@ + escaped_ident(owner_name_of(f))
        + " {\n    #[inline(always)]\n    fn from("@ + pn + ": "@ + t
        + ") -> Self {\n        let mut tmp = ::std::mem::MaybeUninit::<Self>::zeroed();\n        unsafe {\n            crate::detail::"@
        + func_sym(f) + "(&mut tmp, "@ + pn
        + ");\n            tmp.assume_init()\n        }\n    }\n}\n"@
}

/// The emplacement-constructor key of a pinned constructor: the bare
/// parameter type for one parameter, the parameter tuple otherwise.
pub open spec fn ctor_key_text(f: Func) -> Seq<char> {
    if f.params@.len() == 1 {
        rs_type_text(f.params@[0].type_.rs_type)
    } else {
        "("@ + rs_type_list(f.params@) + ")"@
    }
}

/// The binder that unpacks the constructor arguments.
pub open spec fn ctor_binder_text(f: Func) -> Seq<char> {
    if f.params@.len() == 0 {
        "let () = args;"@
    } else if f.params@.len() == 1 {
        "let "@ + param_name_text(f.params@[0]) + " = args;"@
    } else {
        "let ("@ + rs_name_list(f.params@) + ") = args;"@
    }
}

/// The primary emplacement constructor of a pinned record.
pub open spec fn pinned_ctor_rs_text(f: Func) -> Seq<char> {
    let k = ctor_key_text(f);
    "impl ::ctor::CtorNew<"@ + k + "> for "@ + escaped_ident(owner_name_of(f))
        + " {\n    type CtorType = impl ::ctor::Ctor<Output = Self>;\n    #[inline(always)]\n    fn ctor_new(args: "@
        + k + ") -> Self::CtorType {\n        "@ + ctor_binder_text(f)
        + "\n        unsafe {\n            ::ctor::FnCtor::new(move |dest: ::std::pin::Pin<&mut ::std::mem::MaybeUninit<Self>>| {\n                crate::detail::"@
        + func_sym(f) + "(::std::pin::Pin::into_inner_unchecked(dest)"@ + (if f.params@.len()
        == 0 {
        Seq::<char>::empty()
    } else {
        ", "@ + rs_name_list(f.params@)
    }) + ");\n            })\n        }\n    }\n}\n"@
}

/// The one-tuple shim that forwards to the bare one-parameter form.
pub open spec fn pinned_ctor_shim_text(f: Func) -> Seq<char> {
    let t = rs_type_text(f.params@[0].type_.rs_type);
    "impl ::ctor::CtorNew<("@ + t + ",)> for "@ + escaped_ident(owner_name_of(f))
        + " {\n    type CtorType = impl ::ctor::Ctor<Output = Self>;\n    #[inline(always)]\n    fn ctor_new(args: ("@
        + t + ",)) -> Self::CtorType {\n        let (arg,) = args;\n        <Self as ::ctor::CtorNew<"@
        + t + ">>::ctor_new(arg)\n    }\n}\n"@
}

/// The target-side surface of a pinned constructor: the primary keyed
/// form, plus the one-tuple shim for a single parameter.
pub open spec fn pinned_ctor_full_rs_text(f: Func) -> Seq<char> {
    if f.params@.len() == 1 {
        pinned_ctor_rs_text(f) + pinned_ctor_shim_text(f)
    } else {
        pinned_ctor_rs_text(f)
    }
}

/// What a constructor item contributes.
pub open spec fn ctor_item_sp(f: Func, items: Seq<Item>) -> GenItemSp {
    let rec = owner_rec(f, items);
    if f.params@.len() == 1 && is_copy_param(f.params@[0], rec) && !slot_exposed(
        rec.copy_constructor,
    ) {
        empty_item_sp()
    } else if f.params@.len() == 1 && is_move_param(f.params@[0], rec) && !slot_exposed(
        rec.move_constructor,
    ) {
        empty_item_sp()
    } else if f.params@.len() == 1 && is_copy_param(f.params@[0], rec) && category_of(
        rec,
    ) is UnpinTrivial {
        // clone-by-copy is already provided by the derive of the trivial
        // category; a user copy constructor adds no surface
        empty_item_sp()
    } else if is_pinned(category_of(rec)) {
        GenItemSp {
            rs_text: pinned_ctor_full_rs_text(f),
            is_diagnostic: false,
            thunk_decls: seq![ctor_extern_decl_sp(f)],
            cc_thunks: seq![CcThunkSp { symbol: func_sym(f), text: ctor_cc_text(f) }],
            assert_texts: Seq::empty(),
        }
    } else if f.params@.len() >= 2 {
        diag_item_sp(
            owner_name_of(f),
            "Constructors with more than one parameter are not supported yet"@,
        )
    } else {
        GenItemSp {
            rs_text: if f.params@.len() == 0 {
                unpin_default_rs_text(f)
            } else if is_copy_param(f.params@[0], rec) {
                unpin_clone_rs_text(f)
            } else {
                unpin_from_rs_text(f)
            },
            is_diagnostic: false,
            thunk_decls: seq![ctor_extern_decl_sp(f)],
            cc_thunks: seq![CcThunkSp { symbol: func_sym(f), text: ctor_cc_text(f) }],
            assert_texts: Seq::empty(),
        }
    }
}

/// The destructor surface: a pinned drop for pinned records, a plain drop
/// for unpin records.
pub open spec fn dtor_rs_text(f: Func, items: Seq<Item>) -> Seq<char> {
    let er = escaped_ident(owner_name_of(f));
    if is_pinned(category_of(owner_rec(f, items))) {
        "impl ::ctor::PinnedDrop for "@ + er
            + " {\n    #[inline(always)]\n    unsafe fn pinned_drop<'a>(self: ::std::pin::Pin<&'a mut Self>) {\n        unsafe { crate::detail::"@
            + func_sym(f) + "(::std::pin::Pin::into_inner_unchecked(self)) }\n    }\n}\n"@
    } else {
        "impl Drop for "@ + er
            + " {\n    #[inline(always)]\n    fn drop(&mut self) {\n        unsafe { crate::detail::"@
            + func_sym(f) + "(self) }\n    }\n}\n"@
    }
}

/// The `extern` entry text of a destructor thunk.
pub open spec fn dtor_extern_text(f: Func) -> Seq<char> {
    "        pub(crate) fn "@ + func_sym(f) + "(__this: *mut "@ + escaped_ident(owner_name_of(f))
        + ");\n"@
}

/// The C++ definition of a destructor thunk.
pub open spec fn dtor_cc_text(f: Func) -> Seq<char> {
    let rn = owner_name_of(f);
    "extern \"C\" void "@ + func_sym(f) + "("@ + rn + "* __this) { __this->~"@ + rn + "(); }\n"@
}

/// What a destructor item contributes: a drop surface when the record's
/// destructor slot is public and non-trivial, and nothing otherwise.
pub open spec fn dtor_item_sp(f: Func, items: Seq<Item>) -> GenItemSp {
    let rec = owner_rec(f, items);
    if slot_exposed(rec.destructor) && !(rec.destructor.definition is Trivial) {
        GenItemSp {
            rs_text: dtor_rs_text(f, items),
            is_diagnostic: false,
            thunk_decls: seq![
                ThunkDeclSp { symbol: func_sym(f), link_name: None, text: dtor_extern_text(f) },
            ],
            cc_thunks: seq![CcThunkSp { symbol: func_sym(f), text: dtor_cc_text(f) }],
            assert_texts: Seq::empty(),
        }
    } else {
        empty_item_sp()
    }
}

/// The `extern` entry of a constructor thunk.
fn ctor_extern_decl(f: &Func) -> (d: ThunkDecl)
    requires
        f.member_func_metadata is Some,
    ensures
        d@ == ctor_extern_decl_sp(*f),
{
    let mut text: String = "        pub(crate) fn ".to_owned();
    push_func_sym(&mut text, f);
    text.append("(__this: &mut ::std::mem::MaybeUninit<");
    match &f.member_func_metadata {
        Option::Some(m) => {
            push_escaped(&mut text, m.for_type.identifier.as_str());
        },
        Option::None => {},
    }
    text.append(">");
    if f.params.len() > 0 {
        text.append(", ");
        push_rs_plain_param_list(&mut text, &f.params);
    }
    text.append(");\n");
    let d = ThunkDecl { symbol: func_sym_string(f), link_name: None, text };
    proof {
        assert(d@.text =~= ctor_extern_text(*f));
    }
    d
}

/// The C++ thunk of a constructor.
fn ctor_cc_thunk(f: &Func) -> (t: CcThunk)
    requires
        f.member_func_metadata is Some,
    ensures
        t@.symbol == func_sym(*f),
        t@.text == ctor_cc_text(*f),
{
    let mut text: String = "extern \"C\" void ".to_owned();
    push_func_sym(&mut text, f);
    text.append("(");
    match &f.member_func_metadata {
        Option::Some(m) => {
            text.append(m.for_type.identifier.as_str());
        },
        Option::None => {},
    }
    text.append("* __this");
    if f.params.len() > 0 {
        text.append(", ");
        push_cc_plain_param_list(&mut text, &f.params);
    }
    text.append(") { new (__this) ");
    match &f.member_func_metadata {
        Option::Some(m) => {
            text.append(m.for_type.identifier.as_str());
        },
        Option::None => {},
    }
    text.append("(");
    push_cc_name_list(&mut text, &f.params);
    text.append("); }\n");
    let t = CcThunk { symbol: func_sym_string(f), text };
    proof {
        assert(t@.text =~= ctor_cc_text(*f));
    }
    t
}

/// Emits the plan entry of a constructor item.
pub fn emit_ctor(f: &Func, ir: &IR) -> (g: GenItem)
    requires
        f.is_constructor(),
        f.wf(crate::ir::record_names(ir.items@)),
    ensures
        g@ == ctor_item_sp(*f, ir.items@),
{
    proof {
        crate::ir::lemma_find_record_some(ir.items@, owner_name_of(*f));
    }
    let m = match &f.member_func_metadata {
        Option::Some(m) => m,
        Option::None => {
            proof {
                assert(false);
            }
            return GenItem {
                rs_text: String::new(),
                is_diagnostic: false,
                thunk_decls: Vec::new(),
                cc_thunks: Vec::new(),
                assert_texts: Vec::new(),
            };
        },
    };
    let rec = ir.record_by_name(m.for_type.identifier.as_str()).unwrap();
    if f.params.len() == 1 && check_copy_param(&f.params[0], rec) && !slot_is_exposed(
        &rec.copy_constructor,
    ) {
        let g = GenItem {
            rs_text: String::new(),
            is_diagnostic: false,
            thunk_decls: Vec::new(),
            cc_thunks: Vec::new(),
            assert_texts: Vec::new(),
        };
        proof {
            assert(g@.thunk_decls =~= Seq::<ThunkDeclSp>::empty());
            assert(g@.cc_thunks =~= Seq::<CcThunkSp>::empty());
            assert(g@.assert_texts =~= Seq::<Seq<char>>::empty());
        }
        return g;
    }
    if f.params.len() == 1 && check_move_param(&f.params[0], rec) && !slot_is_exposed(
        &rec.move_constructor,
    ) {
        let g = GenItem {
            rs_text: String::new(),
            is_diagnostic: false,
            thunk_decls: Vec::new(),
            cc_thunks: Vec::new(),
            assert_texts: Vec::new(),
        };
        proof {
            assert(g@.thunk_decls =~= Seq::<ThunkDeclSp>::empty());
            assert(g@.cc_thunks =~= Seq::<CcThunkSp>::empty());
            assert(g@.assert_texts =~= Seq::<Seq<char>>::empty());
        }
        return g;
    }
    if f.params.len() == 1 && check_copy_param(&f.params[0], rec) && matches!(
        crate::category::binding_category(rec),
        BindingCategory::UnpinTrivial,
    ) {
        let g = GenItem {
            rs_text: String::new(),
            is_diagnostic: false,
            thunk_decls: Vec::new(),
            cc_thunks: Vec::new(),
            assert_texts: Vec::new(),
        };
        proof {
            assert(g@.thunk_decls =~= Seq::<ThunkDeclSp>::empty());
            assert(g@.cc_thunks =~= Seq::<CcThunkSp>::empty());
            assert(g@.assert_texts =~= Seq::<Seq<char>>::empty());
        }
        return g;
    }
    let pinned = matches!(
        crate::category::binding_category(rec),
        BindingCategory::Pinned | BindingCategory::PinnedNonmovable,
    );
    if pinned {
        let mut rs_text = String::new();
        push_pinned_ctor(&mut rs_text, f);
        if f.params.len() == 1 {
            push_pinned_ctor_shim(&mut rs_text, f);
        }
        let mut thunk_decls: Vec<ThunkDecl> = Vec::new();
        thunk_decls.push(ctor_extern_decl(f));
        let mut cc_thunks: Vec<CcThunk> = Vec::new();
        cc_thunks.push(ctor_cc_thunk(f));
        let g = GenItem {
            rs_text,
            is_diagnostic: false,
            thunk_decls,
            cc_thunks,
            assert_texts: Vec::new(),
        };
        proof {
            assert(g@.rs_text =~= pinned_ctor_full_rs_text(*f));
            assert(g@.thunk_decls =~= seq![ctor_extern_decl_sp(*f)]);
            assert(g@.cc_thunks =~= seq![
                CcThunkSp { symbol: func_sym(*f), text: ctor_cc_text(*f) },
            ]);
            assert(g@.assert_texts =~= Seq::<Seq<char>>::empty());
        }
        return g;
    }
    if f.params.len() >= 2 {
        let g = GenItem {
            rs_text: crate::diag::diag_string(
                m.for_type.identifier.as_str(),
                "Constructors with more than one parameter are not supported yet",
            ),
            is_diagnostic: true,
            thunk_decls: Vec::new(),
            cc_thunks: Vec::new(),
            assert_texts: Vec::new(),
        };
        proof {
            assert(g@.thunk_decls =~= Seq::<ThunkDeclSp>::empty());
            assert(g@.cc_thunks =~= Seq::<CcThunkSp>::empty());
            assert(g@.assert_texts =~= Seq::<Seq<char>>::empty());
        }
        return g;
    }
    let mut rs_text = String::new();
    if f.params.len() == 0 {
        push_unpin_default(&mut rs_text, f);
    } else if check_copy_param(&f.params[0], rec) {
        push_unpin_clone(&mut rs_text, f);
    } else {
        push_unpin_from(&mut rs_text, f);
    }
    let mut thunk_decls: Vec<ThunkDecl> = Vec::new();
    thunk_decls.push(ctor_extern_decl(f));
    let mut cc_thunks: Vec<CcThunk> = Vec::new();
    cc_thunks.push(ctor_cc_thunk(f));
    let g = GenItem {
        rs_text,
        is_diagnostic: false,
        thunk_decls,
        cc_thunks,
        assert_texts: Vec::new(),
    };
    proof {
        assert(g@.thunk_decls =~= seq![ctor_extern_decl_sp(*f)]);
        assert(g@.cc_thunks =~= seq![CcThunkSp { symbol: func_sym(*f), text: ctor_cc_text(*f) }]);
        assert(g@.assert_texts =~= Seq::<Seq<char>>::empty());
    }
    g
}

/// Appends the default factory of an unpin record to `out`.
fn push_unpin_default(out: &mut String, f: &Func)
    requires
        f.member_func_metadata is Some,
    ensures
        final(out)@ == old(out)@ + unpin_default_rs_text(*f),
{
    out.append("impl Default for ");
    match &f.member_func_metadata {
        Option::Some(m) => {
            push_escaped(out, m.for_type.identifier.as_str());
        },
        Option::None => {},
    }
    out.append(
        " {\n    #[inline(always)]\n    fn default() -> Self {\n        let mut tmp = ::std::mem::MaybeUninit::<Self>::zeroed();\n        unsafe {\n            crate::detail::",
    );
    push_func_sym(out, f);
    out.append("(&mut tmp);\n            tmp.assume_init()\n        }\n    }\n}\n");
}

/// Appends the clone surface of an unpin record to `out`.
fn push_unpin_clone(out: &mut String, f: &Func)
    requires
        f.member_func_metadata is Some,
    ensures
        final(out)@ == old(out)@ + unpin_clone_rs_text(*f),
{
    out.append("impl Clone for ");
    match &f.member_func_metadata {
        Option::Some(m) => {
            push_escaped(out, m.for_type.identifier.as_str());
        },
        Option::None => {},
    }
    out.append(
        " {\n    #[inline(always)]\n    fn clone(&self) -> Self {\n        let mut tmp = ::std::mem::MaybeUninit::<Self>::zeroed();\n        unsafe {\n            crate::detail::",
    );
    push_func_sym(out, f);
    out.append("(&mut tmp, self);\n            tmp.assume_init()\n        }\n    }\n}\n");
}

/// Appends the conversion factory of an unpin record to `out`.
fn push_unpin_from(out: &mut String, f: &Func)
    requires
        f.member_func_metadata is Some,
        f.params@.len() == 1,
    ensures
        final(out)@ == old(out)@ + unpin_from_rs_text(*f),
{
    out.append("impl From<");
    push_rs_type(out, &f.params[0].type_.rs_type);
    out.append("> for ");
    match &f.member_func_metadata {
        Option::Some(m) => {
            push_escaped(out, m.for_type.identifier.as_str());
        },
        Option::None => {},
    }
    out.append(" {\n    #[inline(always)]\n    fn from(");
    push_escaped(out, f.params[0].identifier.identifier.as_str());
    out.append(": ");
    push_rs_type(out, &f.params[0].type_.rs_type);
    out.append(
        ") -> Self {\n        let mut tmp = ::std::mem::MaybeUninit::<Self>::zeroed();\n        unsafe {\n            crate::detail::",
    );
    push_func_sym(out, f);
    out.append("(&mut tmp, ");
    push_escaped(out, f.params[0].identifier.identifier.as_str());
    out.append(");\n            tmp.assume_init()\n        }\n    }\n}\n");
}

/// Appends the emplacement-constructor key of `f` to `out`.
fn push_ctor_key(out: &mut String, f: &Func)
    ensures
        final(out)@ == old(out)@ + ctor_key_text(*f),
{
    if f.params.len() == 1 {
        push_rs_type(out, &f.params[0].type_.rs_type);
    } else {
        out.append("(");
        push_rs_type_list(out, &f.params);
        out.append(")");
    }
}

/// Appends the primary emplacement constructor of a pinned record to
/// `out`.
#[verifier::rlimit(80)]
fn push_pinned_ctor(out: &mut String, f: &Func)
    requires
        f.member_func_metadata is Some,
    ensures
        final(out)@ == old(out)@ + pinned_ctor_rs_text(*f),
{
    out.append("impl ::ctor::CtorNew<");
    push_ctor_key(out, f);
    out.append("> for ");
    match &f.member_func_metadata {
        Option::Some(m) => {
            push_escaped(out, m.for_type.identifier.as_str());
        },
        Option::None => {},
    }
    proof {
        assert(out@ =~= old(out)@ + "impl ::ctor::CtorNew<"@ + ctor_key_text(*f) + "> for "@
            + escaped_ident(owner_name_of(*f)));
    }
    out.append(
        " {\n    type CtorType = impl ::ctor::Ctor<Output = Self>;\n    #[inline(always)]\n    fn ctor_new(args: ",
    );
    push_ctor_key(out, f);
    out.append(") -> Self::CtorType {\n        ");
    let ghost tmid = out@;
    if f.params.len() == 0 {
        out.append("let () = args;");
    } else if f.params.len() == 1 {
        out.append("let ");
        push_escaped(out, f.params[0].identifier.identifier.as_str());
        out.append(" = args;");
    } else {
        out.append("let (");
        push_rs_name_list(out, &f.params);
        out.append(") = args;");
    }
    proof {
        assert(out@ =~= tmid + ctor_binder_text(*f));
    }
    out.append(
        "\n        unsafe {\n            ::ctor::FnCtor::new(move |dest: ::std::pin::Pin<&mut ::std::mem::MaybeUninit<Self>>| {\n                crate::detail::",
    );
    push_func_sym(out, f);
    out.append("(::std::pin::Pin::into_inner_unchecked(dest)");
    if f.params.len() > 0 {
        out.append(", ");
        push_rs_name_list(out, &f.params);
    }
    out.append(");\n            })\n        }\n    }\n}\n");
}

/// Appends the one-tuple shim of a one-parameter pinned constructor to
/// `out`.
fn push_pinned_ctor_shim(out: &mut String, f: &Func)
    requires
        f.member_func_metadata is Some,
        f.params@.len() == 1,
    ensures
        final(out)@ == old(out)@ + pinned_ctor_shim_text(*f),
{
    out.append("impl ::ctor::CtorNew<(");
    push_rs_type(out, &f.params[0].type_.rs_type);
    out.append(",)> for ");
    match &f.member_func_metadata {
        Option::Some(m) => {
            push_escaped(out, m.for_type.identifier.as_str());
        },
        Option::None => {},
    }
    out.append(
        " {\n    type CtorType = impl ::ctor::Ctor<Output = Self>;\n    #[inline(always)]\n    fn ctor_new(args: (",
    );
    push_rs_type(out, &f.params[0].type_.rs_type);
    out.append(",)) -> Self::CtorType {\n        let (arg,) = args;\n        <Self as ::ctor::CtorNew<");
    push_rs_type(out, &f.params[0].type_.rs_type);
    out.append(">>::ctor_new(arg)\n    }\n}\n");
}

/// Emits the plan entry of a destructor item.
pub fn emit_dtor(f: &Func, ir: &IR) -> (g: GenItem)
    requires
        f.is_destructor(),
        f.wf(crate::ir::record_names(ir.items@)),
    ensures
        g@ == dtor_item_sp(*f, ir.items@),
{
    proof {
        crate::ir::lemma_find_record_some(ir.items@, owner_name_of(*f));
    }
    let m = match &f.member_func_metadata {
        Option::Some(m) => m,
        Option::None => {
            proof {
                assert(false);
            }
            return GenItem {
                rs_text: String::new(),
                is_diagnostic: false,
                thunk_decls: Vec::new(),
                cc_thunks: Vec::new(),
                assert_texts: Vec::new(),
            };
        },
    };
    let rec = ir.record_by_name(m.for_type.identifier.as_str()).unwrap();
    let exposed = slot_is_exposed(&rec.destructor) && !matches!(
        rec.destructor.definition,
        crate::ir::SpecialMemberDefinition::Trivial,
    );
    if !exposed {
        let g = GenItem {
            rs_text: String::new(),
            is_diagnostic: false,
            thunk_decls: Vec::new(),
            cc_thunks: Vec::new(),
            assert_texts: Vec::new(),
        };
        proof {
            assert(g@.thunk_decls =~= Seq::<ThunkDeclSp>::empty());
            assert(g@.cc_thunks =~= Seq::<CcThunkSp>::empty());
            assert(g@.assert_texts =~= Seq::<Seq<char>>::empty());
        }
        return g;
    }
    let pinned = matches!(
        crate::category::binding_category(rec),
        BindingCategory::Pinned | BindingCategory::PinnedNonmovable,
    );
    let mut rs_text = String::new();
    if pinned {
        rs_text.append("impl ::ctor::PinnedDrop for ");
        push_escaped(&mut rs_text, m.for_type.identifier.as_str());
        rs_text.append(
            " {\n    #[inline(always)]\n    unsafe fn pinned_drop<'a>(self: ::std::pin::Pin<&'a mut Self>) {\n        unsafe { crate::detail::",
        );
        push_func_sym(&mut rs_text, f);
        rs_text.append("(::std::pin::Pin::into_inner_unchecked(self)) }\n    }\n}\n");
    } else {
        rs_text.append("impl Drop for ");
        push_escaped(&mut rs_text, m.for_type.identifier.as_str());
        rs_text.append(
            " {\n    #[inline(always)]\n    fn drop(&mut self) {\n        unsafe { crate::detail::",
        );
        push_func_sym(&mut rs_text, f);
        rs_text.append("(self) }\n    }\n}\n");
    }
    let mut ext: String = "        pub(crate) fn ".to_owned();
    push_func_sym(&mut ext, f);
    ext.append("(__this: *mut ");
    push_escaped(&mut ext, m.for_type.identifier.as_str());
    ext.append(");\n");
    proof {
        assert(ext@ =~= dtor_extern_text(*f));
    }
    let mut cc: String = "extern \"C\" void ".to_owned();
    push_func_sym(&mut cc, f);
    cc.append("(");
    cc.append(m.for_type.identifier.as_str());
    cc.append("* __this) { __this->~");
    cc.append(m.for_type.identifier.as_str());
    cc.append("(); }\n");
    proof {
        assert(cc@ =~= dtor_cc_text(*f));
    }
    let mut thunk_decls: Vec<ThunkDecl> = Vec::new();
    thunk_decls.push(ThunkDecl { symbol: func_sym_string(f), link_name: None, text: ext });
    let mut cc_thunks: Vec<CcThunk> = Vec::new();
    cc_thunks.push(CcThunk { symbol: func_sym_string(f), text: cc });
    let g = GenItem { rs_text, is_diagnostic: false, thunk_decls, cc_thunks, assert_texts: Vec::new() };
    proof {
        assert(g@.rs_text =~= dtor_rs_text(*f, ir.items@));
        assert(g@.thunk_decls =~= seq![
            ThunkDeclSp { symbol: func_sym(*f), link_name: None, text: dtor_extern_text(*f) },
        ]);
        assert(g@.cc_thunks =~= seq![CcThunkSp { symbol: func_sym(*f), text: dtor_cc_text(*f) }]);
        assert(g@.assert_texts =~= Seq::<Seq<char>>::empty());
    }
    g
}

} // verus!
