//! Emission of record items: the struct declaration with its layout
//! attributes and opaque padding, the forward-declaration binding, the
//! assignment surfaces derived from the special member slots, and the
//! layout and capability assertions.

use vstd::prelude::*;
use crate::ir::IR;
use crate::ir::Record;
use crate::ir::AccessSpecifier;
use crate::ir::copy_assign_seed;
use crate::ir::move_assign_seed;
use crate::ir::copy_assign_seed_string;
use crate::ir::move_assign_seed_string;
use crate::ir::lemma_size_bits_fit;
use crate::category::category_of;
use crate::category::is_pinned;
use crate::category::slot_exposed;
use crate::category::slot_is_exposed;
use crate::category::binding_category;
use crate::category::BindingCategory;
use crate::ident::escaped_ident;
use crate::ident::push_escaped;
use crate::types::rs_type_text;
use crate::types::push_rs_type;
use crate::strfmt::dec_str;
use crate::strfmt::push_dec;
use crate::thunks::thunk_symbol;
use crate::thunks::thunk_symbol_string;
use crate::thunks::ThunkDecl;
use crate::thunks::ThunkDeclSp;
use crate::thunks::CcThunk;
use crate::thunks::CcThunkSp;
use crate::plan::GenItem;
use crate::plan::GenItemSp;

verus! {

/// Whether the record's destructor slot yields a drop surface.
pub open spec fn has_dtor_surface(r: Record) -> bool {
    slot_exposed(r.destructor) && !(r.destructor.definition is Trivial)
}

/// The doc comment of a record, rendered above its declaration.
pub open spec fn record_doc_text(r: Record) -> Seq<char> {
    match r.doc_comment {
        Some(d) => "/// "@ + d@ + "\n"@,
        None => Seq::empty(),
    }
}

/// The attribute lines of a record declaration: category markers and the
/// C-layout marker.
pub open spec fn record_attr_text(r: Record) -> Seq<char> {
    if category_of(r) is UnpinTrivial {
        "#[derive(Clone, Copy)]\n#[repr(C)]\n"@
    } else if category_of(r) is UnpinNontrivial {
        "#[repr(C)]\n"@
    } else if has_dtor_surface(r) {
        "#[::ctor::recursively_pinned(PinnedDrop)]\n#[repr(C)]\n"@
    } else {
        "#[::ctor::recursively_pinned]\n#[repr(C)]\n"@
    }
}

/// The byte width of the opaque rendering of field `i`: up to the next
/// field's offset, or to the end of the record.
pub open spec fn field_span_bytes(r: Record, i: int) -> int {
    let next = if i + 1 < r.fields@.len() {
        r.fields@[i + 1].offset as int
    } else {
        8 * (r.size as int)
    };
    (next - r.fields@[i].offset) / 8
}

/// One struct body line: public fields are rendered with their type,
/// non-public fields as opaque padding bytes under a reserved name.
pub open spec fn field_line_text(r: Record, i: int) -> Seq<char> {
    let f = r.fields@[i];
    if f.access is Public {
        "    pub "@ + escaped_ident(f.identifier.identifier@) + ": "@ + rs_type_text(
            f.type_.rs_type,
        ) + ",\n"@
    } else {
        "    __opaque_"@ + f.identifier.identifier@ + ": [::std::mem::MaybeUninit<u8>; "@
            + dec_str(field_span_bytes(r, i) as nat) + "],\n"@
    }
}

/// The first `n` struct body lines.
pub open spec fn field_lines_upto(r: Record, n: int) -> Seq<char>
    decreases n,
{
    if n <= 0 {
        Seq::empty()
    } else {
        field_lines_upto(r, n - 1) + field_line_text(r, n - 1)
    }
}

/// The struct body: a sized opaque member for a fieldless record, the
/// zero-sized pinning prefix for pinned records, then the field lines.
pub open spec fn struct_body_text(r: Record) -> Seq<char> {
    if r.fields@.len() == 0 && r.size > 0 {
        "    __non_field_data: [::std::mem::MaybeUninit<u8>; "@ + dec_str(r.size as nat)
            + "],\n"@
    } else {
        (if is_pinned(category_of(r)) {
            "    __non_field_data: [::std::mem::MaybeUninit<u8>; 0],\n"@
        } else {
            Seq::<char>::empty()
        }) + field_lines_upto(r, r.fields@.len() as int)
    }
}

/// The struct declaration of a record.
pub open spec fn record_struct_text(r: Record) -> Seq<char> {
    record_attr_text(r) + "pub struct "@ + escaped_ident(r.name_chars()) + " {\n"@
        + struct_body_text(r) + "}\n"@
}

/// The forward-declaration binding: keyed on the record's literal source
/// name, bound to the escaped target type.
pub open spec fn forward_declare_text(r: Record) -> Seq<char> {
    "forward_declare::unsafe_define!(forward_declare::symbol!(\""@ + r.name_chars()
        + "\"), crate::"@ + escaped_ident(r.name_chars()) + ");\n"@
}

/// The copy-assignment surface of a record.
pub open spec fn copy_assign_rs_text(r: Record) -> Seq<char> {
    let er = escaped_ident(r.name_chars());
    let sym = thunk_symbol(copy_assign_seed(r));
    if is_pinned(category_of(r)) {
        "impl<'b> ::ctor::Assign<&'b Self> for "@ + er
            + " {\n    #[inline(always)]\n    fn assign<'a>(self: ::std::pin::Pin<&'a mut Self>, __param_0: &'b Self) {\n        unsafe { crate::detail::"@
            + sym + "(::std::pin::Pin::into_inner_unchecked(self), __param_0) }\n    }\n}\n"@
    } else {
        "impl<'b> ::ctor::UnpinAssign<&'b Self> for "@ + er
            + " {\n    #[inline(always)]\n    fn unpin_assign<'a>(&'a mut self, __param_0: &'b Self) {\n        unsafe { crate::detail::"@
            + sym + "(self, __param_0) }\n    }\n}\n"@
    }
}

/// The move-assignment surface of a record.
pub open spec fn move_assign_rs_text(r: Record) -> Seq<char> {
    let er = escaped_ident(r.name_chars());
    let sym = thunk_symbol(move_assign_seed(r));
    if is_pinned(category_of(r)) {
        "impl<'b> ::ctor::Assign<::ctor::RvalueReference<'b, Self>> for "@ + er
            + " {\n    #[inline(always)]\n    fn assign<'a>(self: ::std::pin::Pin<&'a mut Self>, __param_0: ::ctor::RvalueReference<'b, Self>) {\n        unsafe { crate::detail::"@
            + sym + "(::std::pin::Pin::into_inner_unchecked(self), __param_0) }\n    }\n}\n"@
    } else {
        "impl<'b> ::ctor::UnpinAssign<::ctor::RvalueReference<'b, Self>> for "@ + er
            + " {\n    #[inline(always)]\n    fn unpin_assign<'a>(&'a mut self, __param_0: ::ctor::RvalueReference<'b, Self>) {\n        unsafe { crate::detail::"@
            + sym + "(self, __param_0) }\n    }\n}\n"@
    }
}

/// The `extern` entry text of the copy-assignment thunk.
pub open spec fn copy_assign_extern_text(r: Record) -> Seq<char> {
    let er = escaped_ident(r.name_chars());
    "        pub(crate) fn "@ + thunk_symbol(copy_assign_seed(r)) + "(__this: *mut "@ + er
        + ", __param_0: *const "@ + er + ");\n"@
}

/// The `extern` entry text of the move-assignment thunk.
pub open spec fn move_assign_extern_text(r: Record) -> Seq<char> {
    let er = escaped_ident(r.name_chars());
    "        pub(crate) fn "@ + thunk_symbol(move_assign_seed(r)) + "(__this: *mut "@ + er
        + ", __param_0: *mut "@ + er + ");\n"@
}

/// The C++ definition of the copy-assignment thunk.
pub open spec fn copy_assign_cc_text(r: Record) -> Seq<char> {
    let rn = r.name_chars();
    "extern \"C\" void "@ + thunk_symbol(copy_assign_seed(r)) + "("@ + rn + "* __this, const "@
        + rn + "* __param_0) { *__this = *__param_0; }\n"@
}

/// The C++ definition of the move-assignment thunk.
pub open spec fn move_assign_cc_text(r: Record) -> Seq<char> {
    let rn = r.name_chars();
    "extern \"C\" void "@ + thunk_symbol(move_assign_seed(r)) + "("@ + rn + "* __this, "@ + rn
        + "* __param_0) { *__this = std::move(*__param_0); }\n"@
}

/// The size assertion of a record.
pub open spec fn size_assert_text(r: Record) -> Seq<char> {
    "const _: () = assert!(::std::mem::size_of::<crate::"@ + escaped_ident(r.name_chars())
        + ">() == "@ + dec_str(r.size as nat) + ");\n"@
}

/// The alignment assertion of a record.
pub open spec fn align_assert_text(r: Record) -> Seq<char> {
    "const _: () = assert!(::std::mem::align_of::<crate::"@ + escaped_ident(r.name_chars())
        + ">() == "@ + dec_str(r.alignment as nat) + ");\n"@
}

/// A capability assertion that the record implements a trait.
pub open spec fn impl_all_assert_text(r: Record, tr: Seq<char>) -> Seq<char> {
    "const _: () = { static_assertions::assert_impl_all!(crate::"@ + escaped_ident(r.name_chars())
        + ": "@ + tr + "); };\n"@
}

/// A capability assertion that the record does not implement a trait.
pub open spec fn not_impl_assert_text(r: Record, tr: Seq<char>) -> Seq<char> {
    "const _: () = { static_assertions::assert_not_impl_any!(crate::"@ + escaped_ident(
        r.name_chars(),
    ) + ": "@ + tr + "); };\n"@
}

/// The capability assertions demanded by the binding category: a trivial
/// value type must be copyable and must not be droppable; every other
/// category must not be copyable, and must be droppable exactly when a
/// drop surface exists.
pub open spec fn cap_assert_texts(r: Record) -> Seq<Seq<char>> {
    if category_of(r) is UnpinTrivial {
        seq![
            impl_all_assert_text(r, "Clone"@),
            impl_all_assert_text(r, "Copy"@),
            not_impl_assert_text(r, "Drop"@),
        ]
    } else if has_dtor_surface(r) {
        seq![not_impl_assert_text(r, "Copy"@), impl_all_assert_text(r, "Drop"@)]
    } else {
        seq![not_impl_assert_text(r, "Copy"@), not_impl_assert_text(r, "Drop"@)]
    }
}

/// The offset assertion of field `i`.
pub open spec fn offset_assert_text(r: Record, i: int) -> Seq<char> {
    "const _: () = assert!(memoffset::offset_of!(crate::"@ + escaped_ident(r.name_chars()) + ", "@
        + escaped_ident(r.fields@[i].identifier.identifier@) + ") == "@ + dec_str(
        (r.fields@[i].offset / 8) as nat,
    ) + ");\n"@
}

/// The offset assertions of the first `n` fields, public fields only.
pub open spec fn offset_asserts_upto(r: Record, n: int) -> Seq<Seq<char>>
    decreases n,
{
    if n <= 0 {
        Seq::empty()
    } else {
        offset_asserts_upto(r, n - 1) + (if r.fields@[n - 1].access is Public {
            seq![offset_assert_text(r, n - 1)]
        } else {
            Seq::<Seq<char>>::empty()
        })
    }
}

/// Every assertion a record demands: size and alignment first, then the
/// capability set, then one offset assertion per public field.
pub open spec fn record_assert_texts(r: Record) -> Seq<Seq<char>> {
    seq![size_assert_text(r), align_assert_text(r)] + cap_assert_texts(r) + offset_asserts_upto(
        r,
        r.fields@.len() as int,
    )
}

/// The full target-side text of a record item.
pub open spec fn record_rs_text(r: Record) -> Seq<char> {
    record_doc_text(r) + record_struct_text(r) + forward_declare_text(r) + (if slot_exposed(
        r.copy_constructor,
    ) {
        copy_assign_rs_text(r)
    } else {
        Seq::<char>::empty()
    }) + (if slot_exposed(r.move_constructor) {
        move_assign_rs_text(r)
    } else {
        Seq::<char>::empty()
    })
}

/// The `extern` entries of a record item.
pub open spec fn record_thunk_decls_sp(r: Record) -> Seq<ThunkDeclSp> {
    (if slot_exposed(r.copy_constructor) {
        seq![
            ThunkDeclSp {
                symbol: thunk_symbol(copy_assign_seed(r)),
                link_name: None,
                text: copy_assign_extern_text(r),
            },
        ]
    } else {
        Seq::<ThunkDeclSp>::empty()
    }) + (if slot_exposed(r.move_constructor) {
        seq![
            ThunkDeclSp {
                symbol: thunk_symbol(move_assign_seed(r)),
                link_name: None,
                text: move_assign_extern_text(r),
            },
        ]
    } else {
        Seq::<ThunkDeclSp>::empty()
    })
}

/// The C++ thunks of a record item.
pub open spec fn record_cc_thunks_sp(r: Record) -> Seq<CcThunkSp> {
    (if slot_exposed(r.copy_constructor) {
        seq![
            CcThunkSp { symbol: thunk_symbol(copy_assign_seed(r)), text: copy_assign_cc_text(r) },
        ]
    } else {
        Seq::<CcThunkSp>::empty()
    }) + (if slot_exposed(r.move_constructor) {
        seq![
            CcThunkSp { symbol: thunk_symbol(move_assign_seed(r)), text: move_assign_cc_text(r) },
        ]
    } else {
        Seq::<CcThunkSp>::empty()
    })
}

/// What a record item contributes.
pub open spec fn record_item_sp(r: Record) -> GenItemSp {
    GenItemSp {
        rs_text: record_rs_text(r),
        is_diagnostic: false,
        thunk_decls: record_thunk_decls_sp(r),
        cc_thunks: record_cc_thunks_sp(r),
        assert_texts: record_assert_texts(r),
    }
}

/// Appends the struct body lines of `r` to `out`.
#[verifier::rlimit(50)]
fn push_struct_body(out: &mut String, r: &Record)
    requires
        r.wf(),
    ensures
        final(out)@ == old(out)@ + struct_body_text(*r),
{
    if r.fields.len() == 0 && r.size > 0 {
        out.append("    __non_field_data: [::std::mem::MaybeUninit<u8>; ");
        push_dec(out, r.size as u64);
        out.append("],\n");
        return ;
    }
    if matches!(
        binding_category(r),
        BindingCategory::Pinned | BindingCategory::PinnedNonmovable,
    ) {
        out.append("    __non_field_data: [::std::mem::MaybeUninit<u8>; 0],\n");
    }
    proof {
        lemma_size_bits_fit(r.size);
    }
    let bits: usize = 8 * r.size;
    let ghost base = out@;
    let n = r.fields.len();
    for i in 0..n
        invariant
            n == r.fields@.len(),
            bits == 8 * (r.size as int),
            r.wf(),
            out@ == base + field_lines_upto(*r, i as int),
    {
        let ghost prev = out@;
        let f = &r.fields[i];
        match f.access {
            AccessSpecifier::Public => {
                out.append("    pub ");
                push_escaped(out, f.identifier.identifier.as_str());
                out.append(": ");
                push_rs_type(out, &f.type_.rs_type);
                out.append(",\n");
                proof {
                    assert(out@ =~= prev + field_line_text(*r, i as int));
                }
            },
            _ => {
                let next: usize = if i + 1 < n {
                    r.fields[i + 1].offset
                } else {
                    bits
                };
                assert(r.fields@[i as int].wf(r.size as nat));
                assert(i + 1 < n ==> r.fields@[i as int].offset <= r.fields@[i + 1].offset);
                let span: usize = (next - f.offset) / 8;
                proof {
                    assert(span as int == field_span_bytes(*r, i as int));
                }
                out.append("    __opaque_");
                out.append(f.identifier.identifier.as_str());
                out.append(": [::std::mem::MaybeUninit<u8>; ");
                push_dec(out, span as u64);
                out.append("],\n");
                proof {
                    assert(out@ =~= prev + field_line_text(*r, i as int));
                }
            },
        }
        proof {
            assert(out@ =~= base + field_lines_upto(*r, i + 1));
        }
    }
}

/// Appends the full target-side text of a record item to `out`.
#[verifier::rlimit(80)]
fn push_record_rs_text(out: &mut String, r: &Record)
    requires
        r.wf(),
    ensures
        final(out)@ == old(out)@ + record_rs_text(*r),
{
    match &r.doc_comment {
        Option::Some(d) => {
            out.append("/// ");
            out.append(d.as_str());
            out.append("\n");
        },
        Option::None => {},
    }
    let ghost t0 = out@;
    proof {
        assert(t0 =~= old(out)@ + record_doc_text(*r));
    }
    push_record_struct(out, r);
    let ghost t1 = out@;
    out.append("forward_declare::unsafe_define!(forward_declare::symbol!(\"");
    out.append(r.identifier.identifier.as_str());
    out.append("\"), crate::");
    push_escaped(out, r.identifier.identifier.as_str());
    out.append(");\n");
    let ghost t2 = out@;
    proof {
        assert(t2 =~= t1 + forward_declare_text(*r));
    }
    push_copy_assign(out, r);
    let ghost t3 = out@;
    push_move_assign(out, r);
    proof {
        assert(out@ =~= old(out)@ + record_rs_text(*r));
    }
}

/// Appends the attribute lines and struct declaration of `r` to `out`.
fn push_record_struct(out: &mut String, r: &Record)
    requires
        r.wf(),
    ensures
        final(out)@ == old(out)@ + record_struct_text(*r),
{
    let cat = binding_category(r);
    match cat {
        BindingCategory::UnpinTrivial => {
            out.append("#[derive(Clone, Copy)]\n#[repr(C)]\n");
        },
        BindingCategory::UnpinNontrivial => {
            out.append("#[repr(C)]\n");
        },
        _ => {
            if slot_is_exposed(&r.destructor) && !matches!(
                r.destructor.definition,
                crate::ir::SpecialMemberDefinition::Trivial,
            ) {
                out.append("#[::ctor::recursively_pinned(PinnedDrop)]\n#[repr(C)]\n");
            } else {
                out.append("#[::ctor::recursively_pinned]\n#[repr(C)]\n");
            }
        },
    }
    proof {
        assert(out@ =~= old(out)@ + record_attr_text(*r));
    }
    out.append("pub struct ");
    push_escaped(out, r.identifier.identifier.as_str());
    out.append(" {\n");
    push_struct_body(out, r);
    out.append("}\n");
    proof {
        assert(out@ =~= old(out)@ + record_struct_text(*r));
    }
}

/// Appends the copy-assignment surface of `r`, if its slot is exposed, to
/// `out`.
fn push_copy_assign(out: &mut String, r: &Record)
    ensures
        final(out)@ == old(out)@ + (if slot_exposed(r.copy_constructor) {
            copy_assign_rs_text(*r)
        } else {
            Seq::<char>::empty()
        }),
{
    if !slot_is_exposed(&r.copy_constructor) {
        return ;
    }
    let pinned = matches!(
        binding_category(r),
        BindingCategory::Pinned | BindingCategory::PinnedNonmovable,
    );
    if pinned {
        out.append("impl<'b> ::ctor::Assign<&'b Self> for ");
        push_escaped(out, r.identifier.identifier.as_str());
        out.append(
            " {\n    #[inline(always)]\n    fn assign<'a>(self: ::std::pin::Pin<&'a mut Self>, __param_0: &'b Self) {\n        unsafe { crate::detail::",
        );
        push_assign_sym(out, r, true);
        out.append("(::std::pin::Pin::into_inner_unchecked(self), __param_0) }\n    }\n}\n");
    } else {
        out.append("impl<'b> ::ctor::UnpinAssign<&'b Self> for ");
        push_escaped(out, r.identifier.identifier.as_str());
        out.append(
            " {\n    #[inline(always)]\n    fn unpin_assign<'a>(&'a mut self, __param_0: &'b Self) {\n        unsafe { crate::detail::",
        );
        push_assign_sym(out, r, true);
        out.append("(self, __param_0) }\n    }\n}\n");
    }
    proof {
        assert(out@ =~= old(out)@ + copy_assign_rs_text(*r));
    }
}

/// Appends the move-assignment surface of `r`, if its slot is exposed, to
/// `out`.
fn push_move_assign(out: &mut String, r: &Record)
    ensures
        final(out)@ == old(out)@ + (if slot_exposed(r.move_constructor) {
            move_assign_rs_text(*r)
        } else {
            Seq::<char>::empty()
        }),
{
    if !slot_is_exposed(&r.move_constructor) {
        return ;
    }
    let pinned = matches!(
        binding_category(r),
        BindingCategory::Pinned | BindingCategory::PinnedNonmovable,
    );
    if pinned {
        out.append("impl<'b> ::ctor::Assign<::ctor::RvalueReference<'b, Self>> for ");
        push_escaped(out, r.identifier.identifier.as_str());
        out.append(
            " {\n    #[inline(always)]\n    fn assign<'a>(self: ::std::pin::Pin<&'a mut Self>, __param_0: ::ctor::RvalueReference<'b, Self>) {\n        unsafe { crate::detail::",
        );
        push_assign_sym(out, r, false);
        out.append("(::std::pin::Pin::into_inner_unchecked(self), __param_0) }\n    }\n}\n");
    } else {
        out.append("impl<'b> ::ctor::UnpinAssign<::ctor::RvalueReference<'b, Self>> for ");
        push_escaped(out, r.identifier.identifier.as_str());
        out.append(
            " {\n    #[inline(always)]\n    fn unpin_assign<'a>(&'a mut self, __param_0: ::ctor::RvalueReference<'b, Self>) {\n        unsafe { crate::detail::",
        );
        push_assign_sym(out, r, false);
        out.append("(self, __param_0) }\n    }\n}\n");
    }
    proof {
        assert(out@ =~= old(out)@ + move_assign_rs_text(*r));
    }
}

/// Appends the assignment thunk symbol of `r` to `out`.
fn push_assign_sym(out: &mut String, r: &Record, copy: bool)
    ensures
        copy ==> final(out)@ == old(out)@ + thunk_symbol(copy_assign_seed(*r)),
        !copy ==> final(out)@ == old(out)@ + thunk_symbol(move_assign_seed(*r)),
{
    out.append("__rust_thunk__");
    let seed = if copy {
        copy_assign_seed_string(r)
    } else {
        move_assign_seed_string(r)
    };
    out.append(seed.as_str());
}

/// The assertion lines of a record, in order.
#[verifier::rlimit(80)]
fn record_assert_strings(r: &Record) -> (v: Vec<String>)
    requires
        r.wf(),
    ensures
        v@.map_values(|s: String| s@) == record_assert_texts(*r),
{
    let mut v: Vec<String> = Vec::new();
    let mut s: String = "const _: () = assert!(::std::mem::size_of::<crate::".to_owned();
    push_escaped(&mut s, r.identifier.identifier.as_str());
    s.append(">() == ");
    push_dec(&mut s, r.size as u64);
    s.append(");\n");
    proof {
        assert(s@ =~= size_assert_text(*r));
    }
    v.push(s);
    let mut s: String = "const _: () = assert!(::std::mem::align_of::<crate::".to_owned();
    push_escaped(&mut s, r.identifier.identifier.as_str());
    s.append(">() == ");
    push_dec(&mut s, r.alignment as u64);
    s.append(");\n");
    proof {
        assert(s@ =~= align_assert_text(*r));
    }
    v.push(s);
    match binding_category(r) {
        BindingCategory::UnpinTrivial => {
            v.push(impl_all_assert_string(r, "Clone"));
            v.push(impl_all_assert_string(r, "Copy"));
            v.push(not_impl_assert_string(r, "Drop"));
        },
        _ => {
            v.push(not_impl_assert_string(r, "Copy"));
            if slot_is_exposed(&r.destructor) && !matches!(
                r.destructor.definition,
                crate::ir::SpecialMemberDefinition::Trivial,
            ) {
                v.push(impl_all_assert_string(r, "Drop"));
            } else {
                v.push(not_impl_assert_string(r, "Drop"));
            }
        },
    }
    proof {
        assert(v@.map_values(|s: String| s@) =~= seq![size_assert_text(*r), align_assert_text(*r)]
            + cap_assert_texts(*r));
    }
    let ghost head = v@.map_values(|s: String| s@);
    let n = r.fields.len();
    for i in 0..n
        invariant
            n == r.fields@.len(),
            r.wf(),
            v@.map_values(|s: String| s@) == head + offset_asserts_upto(*r, i as int),
    {
        let ghost mprev = v@.map_values(|s: String| s@);
        let f = &r.fields[i];
        match f.access {
            AccessSpecifier::Public => {
                let mut s: String =
                    "const _: () = assert!(memoffset::offset_of!(crate::".to_owned();
                push_escaped(&mut s, r.identifier.identifier.as_str());
                s.append(", ");
                push_escaped(&mut s, f.identifier.identifier.as_str());
                s.append(") == ");
                push_dec(&mut s, (f.offset / 8) as u64);
                s.append(");\n");
                proof {
                    assert(s@ =~= offset_assert_text(*r, i as int));
                }
                v.push(s);
                proof {
                    assert(v@.map_values(|s: String| s@) =~= mprev.push(offset_assert_text(
                        *r,
                        i as int,
                    )));
                    assert(offset_asserts_upto(*r, i + 1) =~= offset_asserts_upto(*r, i as int)
                        + seq![offset_assert_text(*r, i as int)]);
                    assert(v@.map_values(|s: String| s@) =~= head + offset_asserts_upto(
                        *r,
                        i + 1,
                    ));
                }
            },
            _ => {
                proof {
                    assert(offset_asserts_upto(*r, i + 1) =~= offset_asserts_upto(*r, i as int));
                    assert(v@.map_values(|s: String| s@) =~= head + offset_asserts_upto(
                        *r,
                        i + 1,
                    ));
                }
            },
        }
    }
    proof {
        assert(v@.map_values(|s: String| s@) =~= record_assert_texts(*r));
    }
    v
}

/// A capability assertion that the record implements `tr`.
fn impl_all_assert_string(r: &Record, tr: &str) -> (s: String)
    ensures
        s@ == impl_all_assert_text(*r, tr@),
{
    let mut s: String = "const _: () = { static_assertions::assert_impl_all!(crate::".to_owned();
    push_escaped(&mut s, r.identifier.identifier.as_str());
    s.append(": ");
    s.append(tr);
    s.append("); };\n");
    s
}

/// A capability assertion that the record does not implement `tr`.
fn not_impl_assert_string(r: &Record, tr: &str) -> (s: String)
    ensures
        s@ == not_impl_assert_text(*r, tr@),
{
    let mut s: String =
        "const _: () = { static_assertions::assert_not_impl_any!(crate::".to_owned();
    push_escaped(&mut s, r.identifier.identifier.as_str());
    s.append(": ");
    s.append(tr);
    s.append("); };\n");
    s
}

/// Emits the plan entry of a record item.
pub fn emit_record(r: &Record, ir: &IR) -> (g: GenItem)
    requires
        r.wf(),
    ensures
        g@ == record_item_sp(*r),
{
    let mut rs_text = String::new();
    push_record_rs_text(&mut rs_text, r);
    let mut thunk_decls: Vec<ThunkDecl> = Vec::new();
    let mut cc_thunks: Vec<CcThunk> = Vec::new();
    if slot_is_exposed(&r.copy_constructor) {
        let mut ext: String = "        pub(crate) fn ".to_owned();
        push_assign_sym(&mut ext, r, true);
        ext.append("(__this: *mut ");
        push_escaped(&mut ext, r.identifier.identifier.as_str());
        ext.append(", __param_0: *const ");
        push_escaped(&mut ext, r.identifier.identifier.as_str());
        ext.append(");\n");
        proof {
            assert(ext@ =~= copy_assign_extern_text(*r));
        }
        let seed = copy_assign_seed_string(r);
        thunk_decls.push(
            ThunkDecl { symbol: thunk_symbol_string(seed.as_str()), link_name: None, text: ext },
        );
        let mut cc: String = "extern \"C\" void ".to_owned();
        push_assign_sym(&mut cc, r, true);
        cc.append("(");
        cc.append(r.identifier.identifier.as_str());
        cc.append("* __this, const ");
        cc.append(r.identifier.identifier.as_str());
        cc.append("* __param_0) { *__this = *__param_0; }\n");
        proof {
            assert(cc@ =~= copy_assign_cc_text(*r));
        }
        cc_thunks.push(CcThunk { symbol: thunk_symbol_string(seed.as_str()), text: cc });
    }
    if slot_is_exposed(&r.move_constructor) {
        let mut ext: String = "        pub(crate) fn ".to_owned();
        push_assign_sym(&mut ext, r, false);
        ext.append("(__this: *mut ");
        push_escaped(&mut ext, r.identifier.identifier.as_str());
        ext.append(", __param_0: *mut ");
        push_escaped(&mut ext, r.identifier.identifier.as_str());
        ext.append(");\n");
        proof {
            assert(ext@ =~= move_assign_extern_text(*r));
        }
        let seed = move_assign_seed_string(r);
        thunk_decls.push(
            ThunkDecl { symbol: thunk_symbol_string(seed.as_str()), link_name: None, text: ext },
        );
        let mut cc: String = "extern \"C\" void ".to_owned();
        push_assign_sym(&mut cc, r, false);
        cc.append("(");
        cc.append(r.identifier.identifier.as_str());
        cc.append("* __this, ");
        cc.append(r.identifier.identifier.as_str());
        cc.append("* __param_0) { *__this = std::move(*__param_0); }\n");
        proof {
            assert(cc@ =~= move_assign_cc_text(*r));
        }
        cc_thunks.push(CcThunk { symbol: thunk_symbol_string(seed.as_str()), text: cc });
    }
    let assert_texts = record_assert_strings(r);
    let g = GenItem { rs_text, is_diagnostic: false, thunk_decls, cc_thunks, assert_texts };
    proof {
        assert(g@.thunk_decls =~= record_thunk_decls_sp(*r));
        assert(g@.cc_thunks =~= record_cc_thunks_sp(*r));
    }
    g
}

} // verus!
