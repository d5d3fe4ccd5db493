//! Tests of the binding generator: the concrete generation scenarios and
//! the engine's behaviour on edge-case inputs.

use rs_bindings_from_cc::ir::{
    AccessSpecifier, CcType, Comment, DeclId, Field, Func, FuncParam, HeaderName, Identifier,
    InstanceMethodMetadata, Item, Label, MappedType, MemberFuncMetadata, Record,
    ReferenceQualification, RsType, SourceLoc, SpecialMemberDefinition, SpecialMemberFunc,
    UnqualifiedIdentifier, UnsupportedItem, IR,
};
use rs_bindings_from_cc::src_code_gen::{generate_bindings, generate_rs_api, generate_rs_api_impl};
use rs_bindings_from_cc::ident::escape_ident;
use rs_bindings_from_cc::strfmt::fmt_u64;

fn prim(rs: &str, cc: &str) -> MappedType {
    MappedType {
        rs_type: RsType { name: rs.to_string(), type_params: vec![], decl_id: None },
        cc_type: CcType { name: cc.to_string(), is_const: false, type_params: vec![], decl_id: None },
    }
}

fn record_ref(kind_rs: &str, kind_cc: &str, name: &str, id: usize) -> MappedType {
    MappedType {
        rs_type: RsType {
            name: kind_rs.to_string(),
            type_params: vec![RsType {
                name: name.to_string(),
                type_params: vec![],
                decl_id: Some(DeclId(id)),
            }],
            decl_id: None,
        },
        cc_type: CcType {
            name: kind_cc.to_string(),
            is_const: false,
            type_params: vec![CcType {
                name: name.to_string(),
                is_const: false,
                type_params: vec![],
                decl_id: Some(DeclId(id)),
            }],
            decl_id: None,
        },
    }
}

fn record_val(name: &str, id: usize) -> MappedType {
    MappedType {
        rs_type: RsType { name: name.to_string(), type_params: vec![], decl_id: Some(DeclId(id)) },
        cc_type: CcType {
            name: name.to_string(),
            is_const: false,
            type_params: vec![],
            decl_id: Some(DeclId(id)),
        },
    }
}

fn param(name: &str, t: MappedType) -> FuncParam {
    FuncParam { type_: t, identifier: Identifier { identifier: name.to_string() } }
}

fn free_func(name: &str, mangled: &str, ret: MappedType, params: Vec<FuncParam>, inline: bool) -> Func {
    Func {
        name: UnqualifiedIdentifier::Identifier(Identifier { identifier: name.to_string() }),
        decl_id: DeclId(900),
        owning_target: Label("//foo:bar".to_string()),
        mangled_name: mangled.to_string(),
        doc_comment: None,
        return_type: ret,
        params,
        is_inline: inline,
        member_func_metadata: None,
    }
}

fn special_func(
    kind: UnqualifiedIdentifier,
    for_type: &str,
    mangled: &str,
    params: Vec<FuncParam>,
) -> Func {
    Func {
        name: kind,
        decl_id: DeclId(901),
        owning_target: Label("//foo:bar".to_string()),
        mangled_name: mangled.to_string(),
        doc_comment: None,
        return_type: prim("()", "void"),
        params,
        is_inline: false,
        member_func_metadata: Some(MemberFuncMetadata {
            for_type: Identifier { identifier: for_type.to_string() },
            instance_method_metadata: None,
        }),
    }
}

fn trivial_slot() -> SpecialMemberFunc {
    SpecialMemberFunc {
        definition: SpecialMemberDefinition::Trivial,
        access: AccessSpecifier::Public,
    }
}

fn slot(definition: SpecialMemberDefinition, access: AccessSpecifier) -> SpecialMemberFunc {
    SpecialMemberFunc { definition, access }
}

fn simple_record(name: &str, id: usize, fields: Vec<Field>, size: usize, align: usize) -> Record {
    Record {
        identifier: Identifier { identifier: name.to_string() },
        decl_id: DeclId(id),
        owning_target: Label("//foo:bar".to_string()),
        doc_comment: None,
        fields,
        size,
        alignment: align,
        copy_constructor: trivial_slot(),
        move_constructor: trivial_slot(),
        destructor: trivial_slot(),
        is_trivial_abi: true,
    }
}

fn pub_field(name: &str, t: MappedType, offset: usize) -> Field {
    Field {
        identifier: Identifier { identifier: name.to_string() },
        doc_comment: None,
        type_: t,
        access: AccessSpecifier::Public,
        offset,
    }
}

fn ir_of(headers: Vec<&str>, items: Vec<Item>) -> IR {
    IR {
        used_headers: headers
            .into_iter()
            .map(|h| HeaderName { name: h.to_string() })
            .collect(),
        current_target: Label("//foo:bar".to_string()),
        items,
    }
}

const BANNER: &str = "// Automatically @generated Rust bindings for the following C++ target:\n\
// //foo:bar\n\
#![feature(custom_inner_attributes)]\n\
#![allow(non_camel_case_types)]\n\
#![allow(non_snake_case)]\n\n";

fn add_func_ir(inline: bool, headers: Vec<&str>) -> IR {
    ir_of(
        headers,
        vec![Item::Func(free_func(
            "add",
            "_Z3Addii",
            prim("i32", "int"),
            vec![param("a", prim("i32", "int")), param("b", prim("i32", "int"))],
            inline,
        ))],
    )
}

#[test]
fn test_simple_function() {
    let ir = add_func_ir(false, vec![]);
    let expected = format!(
        "{}{}",
        BANNER,
        "#[inline(always)]\n\
         pub fn add(a: i32, b: i32) -> i32 {\n    \
         unsafe { crate::detail::__rust_thunk__add(a, b) }\n\
         }\n\n\
         mod detail {\n    \
         #[allow(unused_imports)]\n    \
         use super::*;\n    \
         extern \"C\" {\n        \
         #[link_name = \"_Z3Addii\"]\n        \
         pub(crate) fn __rust_thunk__add(a: i32, b: i32) -> i32;\n    \
         }\n\
         }\n\n"
    );
    assert_eq!(generate_rs_api(&ir).unwrap(), expected);
    assert_eq!(generate_rs_api_impl(&ir).unwrap(), "");
}

#[test]
fn test_inline_function() {
    let ir = add_func_ir(true, vec!["foo/bar.h", "foo/baz.h"]);
    let expected = format!(
        "{}{}",
        BANNER,
        "#[inline(always)]\n\
         pub fn add(a: i32, b: i32) -> i32 {\n    \
         unsafe { crate::detail::__rust_thunk__add(a, b) }\n\
         }\n\n\
         mod detail {\n    \
         #[allow(unused_imports)]\n    \
         use super::*;\n    \
         extern \"C\" {\n        \
         pub(crate) fn __rust_thunk__add(a: i32, b: i32) -> i32;\n    \
         }\n\
         }\n\n"
    );
    assert_eq!(generate_rs_api(&ir).unwrap(), expected);
    assert_eq!(
        generate_rs_api_impl(&ir).unwrap(),
        "#include \"foo/bar.h\"\n\
         #include \"foo/baz.h\"\n\
         \n\
         extern \"C\" int __rust_thunk__add(int a, int b) { return add(a, b); }\n"
    );
}

#[test]
fn test_simple_struct() {
    let ir = ir_of(
        vec![],
        vec![Item::Record(simple_record(
            "SomeStruct",
            42,
            vec![
                pub_field("first_field", prim("i32", "int"), 0),
                pub_field("second_field", prim("i32", "int"), 32),
            ],
            8,
            4,
        ))],
    );
    let expected = format!(
        "{}{}",
        BANNER,
        "#[derive(Clone, Copy)]\n\
         #[repr(C)]\n\
         pub struct SomeStruct {\n    \
         pub first_field: i32,\n    \
         pub second_field: i32,\n\
         }\n\
         forward_declare::unsafe_define!(forward_declare::symbol!(\"SomeStruct\"), crate::SomeStruct);\n\
         impl<'b> ::ctor::UnpinAssign<&'b Self> for SomeStruct {\n    \
         #[inline(always)]\n    \
         fn unpin_assign<'a>(&'a mut self, __param_0: &'b Self) {\n        \
         unsafe { crate::detail::__rust_thunk___ZN10SomeStructaSERKS_(self, __param_0) }\n    \
         }\n\
         }\n\
         impl<'b> ::ctor::UnpinAssign<::ctor::RvalueReference<'b, Self>> for SomeStruct {\n    \
         #[inline(always)]\n    \
         fn unpin_assign<'a>(&'a mut self, __param_0: ::ctor::RvalueReference<'b, Self>) {\n        \
         unsafe { crate::detail::__rust_thunk___ZN10SomeStructaSEOS_(self, __param_0) }\n    \
         }\n\
         }\n\n\
         mod detail {\n    \
         #[allow(unused_imports)]\n    \
         use super::*;\n    \
         extern \"C\" {\n        \
         pub(crate) fn __rust_thunk___ZN10SomeStructaSERKS_(__this: *mut SomeStruct, __param_0: *const SomeStruct);\n        \
         pub(crate) fn __rust_thunk___ZN10SomeStructaSEOS_(__this: *mut SomeStruct, __param_0: *mut SomeStruct);\n    \
         }\n\
         }\n\n\
         const _: () = assert!(::std::mem::size_of::<crate::SomeStruct>() == 8);\n\
         const _: () = assert!(::std::mem::align_of::<crate::SomeStruct>() == 4);\n\
         const _: () = { static_assertions::assert_impl_all!(crate::SomeStruct: Clone); };\n\
         const _: () = { static_assertions::assert_impl_all!(crate::SomeStruct: Copy); };\n\
         const _: () = { static_assertions::assert_not_impl_any!(crate::SomeStruct: Drop); };\n\
         const _: () = assert!(memoffset::offset_of!(crate::SomeStruct, first_field) == 0);\n\
         const _: () = assert!(memoffset::offset_of!(crate::SomeStruct, second_field) == 4);\n"
    );
    assert_eq!(generate_rs_api(&ir).unwrap(), expected);
    let cc = generate_rs_api_impl(&ir).unwrap();
    assert_eq!(
        cc,
        "\nextern \"C\" void __rust_thunk___ZN10SomeStructaSERKS_(SomeStruct* __this, const SomeStruct* __param_0) { *__this = *__param_0; }\n\
         extern \"C\" void __rust_thunk___ZN10SomeStructaSEOS_(SomeStruct* __this, SomeStruct* __param_0) { *__this = std::move(*__param_0); }\n"
    );
}

fn nontrivial_record(name: &str, id: usize) -> Record {
    Record {
        identifier: Identifier { identifier: name.to_string() },
        decl_id: DeclId(id),
        owning_target: Label("//foo:bar".to_string()),
        doc_comment: None,
        fields: vec![pub_field("field", prim("i32", "int"), 0)],
        size: 4,
        alignment: 4,
        copy_constructor: slot(SpecialMemberDefinition::NontrivialSelf, AccessSpecifier::Public),
        move_constructor: slot(SpecialMemberDefinition::NontrivialSelf, AccessSpecifier::Public),
        destructor: slot(SpecialMemberDefinition::NontrivialSelf, AccessSpecifier::Public),
        is_trivial_abi: false,
    }
}

#[test]
fn test_nontrivial_pinned_record() {
    let rec = nontrivial_record("Nontrivial", 1);
    let ir = ir_of(
        vec![],
        vec![
            Item::Record(rec),
            Item::Func(special_func(
                UnqualifiedIdentifier::Constructor,
                "Nontrivial",
                "_ZN10NontrivialC1Ev",
                vec![],
            )),
            Item::Func(special_func(
                UnqualifiedIdentifier::Constructor,
                "Nontrivial",
                "_ZN10NontrivialC1Ei",
                vec![param("field", prim("i32", "int"))],
            )),
            Item::Func(special_func(
                UnqualifiedIdentifier::Constructor,
                "Nontrivial",
                "_ZN10NontrivialC1Eii",
                vec![param("field", prim("i32", "int")), param("unused", prim("i32", "int"))],
            )),
            Item::Func(special_func(
                UnqualifiedIdentifier::Constructor,
                "Nontrivial",
                "_ZN10NontrivialC1ERKS_",
                vec![param("__param_0", record_ref("&", "&", "Nontrivial", 1))],
            )),
            Item::Func(special_func(
                UnqualifiedIdentifier::Constructor,
                "Nontrivial",
                "_ZN10NontrivialC1EOS_",
                vec![param("__param_0", record_ref("RvalueRef", "&&", "Nontrivial", 1))],
            )),
            Item::Func(special_func(
                UnqualifiedIdentifier::Destructor,
                "Nontrivial",
                "_ZN10NontrivialD1Ev",
                vec![],
            )),
        ],
    );
    let rs = generate_rs_api(&ir).unwrap();
    assert!(rs.contains("#[::ctor::recursively_pinned(PinnedDrop)]\n#[repr(C)]\npub struct Nontrivial {"));
    assert!(rs.contains("    __non_field_data: [::std::mem::MaybeUninit<u8>; 0],\n"));
    assert!(rs.contains("impl ::ctor::CtorNew<()> for Nontrivial {"));
    assert!(rs.contains("impl ::ctor::CtorNew<i32> for Nontrivial {"));
    assert!(rs.contains("impl ::ctor::CtorNew<(i32,)> for Nontrivial {"));
    assert!(rs.contains("impl ::ctor::CtorNew<(i32, i32)> for Nontrivial {"));
    assert!(rs.contains("impl ::ctor::CtorNew<&Nontrivial> for Nontrivial {"));
    assert!(rs.contains("impl ::ctor::CtorNew<::ctor::RvalueReference<Nontrivial>> for Nontrivial {"));
    assert!(rs.contains("impl<'b> ::ctor::Assign<&'b Self> for Nontrivial {"));
    assert!(rs.contains("impl<'b> ::ctor::Assign<::ctor::RvalueReference<'b, Self>> for Nontrivial {"));
    assert!(rs.contains("impl ::ctor::PinnedDrop for Nontrivial {"));
    assert!(rs.contains("const _: () = { static_assertions::assert_not_impl_any!(crate::Nontrivial: Copy); };\n"));
    assert!(rs.contains("const _: () = { static_assertions::assert_impl_all!(crate::Nontrivial: Drop); };\n"));
    let cc = generate_rs_api_impl(&ir).unwrap();
    assert!(cc.contains(
        "extern \"C\" void __rust_thunk___ZN10NontrivialC1Ev(Nontrivial* __this) { new (__this) Nontrivial(); }\n"
    ));
    assert!(cc.contains(
        "extern \"C\" void __rust_thunk___ZN10NontrivialD1Ev(Nontrivial* __this) { __this->~Nontrivial(); }\n"
    ));
}

#[test]
fn test_keyword_escaped_record() {
    let ir = ir_of(
        vec![],
        vec![Item::Record(simple_record(
            "type",
            7,
            vec![pub_field("dyn", prim("i32", "int"), 0)],
            4,
            4,
        ))],
    );
    let rs = generate_rs_api(&ir).unwrap();
    assert!(rs.contains("pub struct r#type {\n    pub r#dyn: i32,\n}\n"));
    assert!(rs.contains(
        "forward_declare::unsafe_define!(forward_declare::symbol!(\"type\"), crate::r#type);\n"
    ));
    assert!(rs.contains("const _: () = assert!(memoffset::offset_of!(crate::r#type, r#dyn) == 0);\n"));
}

#[test]
fn test_unsupported_item() {
    let ir = ir_of(
        vec![],
        vec![Item::UnsupportedItem(UnsupportedItem {
            name: "await".to_string(),
            message: "Class templates are not supported yet".to_string(),
            source_loc: SourceLoc {
                filename: "escaping_keywords.h".to_string(),
                line: 16,
                column: 1,
            },
        })],
    );
    let rs = generate_rs_api(&ir).unwrap();
    assert!(rs.contains(
        "// Generated from: escaping_keywords.h;l=16\n\
         // Error while generating bindings for item 'await':\n\
         // Class templates are not supported yet\n"
    ));
    assert_eq!(generate_rs_api_impl(&ir).unwrap(), "");
}

#[test]
fn test_item_preservation() {
    let ir = ir_of(
        vec![],
        vec![
            Item::Comment(Comment { text: "A comment".to_string() }),
            Item::Func(free_func("f", "_Z1Fv", prim("()", "void"), vec![], false)),
            Item::Record(simple_record("R", 3, vec![], 1, 1)),
            Item::UnsupportedItem(UnsupportedItem {
                name: "tpl".to_string(),
                message: "no templates".to_string(),
                source_loc: SourceLoc { filename: "x.h".to_string(), line: 1, column: 1 },
            }),
        ],
    );
    let plan = rs_bindings_from_cc::src_code_gen::generate_plan(&ir);
    assert_eq!(plan.len(), 4);
    assert!(!plan[0].is_diagnostic);
    assert!(!plan[1].is_diagnostic);
    assert!(!plan[2].is_diagnostic);
    assert!(plan[3].is_diagnostic);
    let rs = generate_rs_api(&ir).unwrap();
    assert!(rs.contains("// A comment\n"));
}

#[test]
fn test_symbol_uniqueness_concrete() {
    let ir = ir_of(
        vec!["a.h"],
        vec![
            Item::Func(free_func(
                "add",
                "_Z3Addii",
                prim("i32", "int"),
                vec![param("a", prim("i32", "int"))],
                true,
            )),
            Item::Record(simple_record("S", 5, vec![pub_field("x", prim("i32", "int"), 0)], 4, 4)),
        ],
    );
    let rs = generate_rs_api(&ir).unwrap();
    let cc = generate_rs_api_impl(&ir).unwrap();
    for sym in [
        "__rust_thunk__add(",
        "__rust_thunk___ZN1SaSERKS_(",
        "__rust_thunk___ZN1SaSEOS_(",
    ] {
        assert_eq!(cc.matches(sym).count(), 1, "{sym} in C++ output");
        // exactly one declaration besides the wrapper calls
        let decls = rs
            .lines()
            .filter(|l| l.contains("pub(crate) fn") && l.contains(sym.trim_end_matches('(')))
            .count();
        assert_eq!(decls, 1, "{sym} in extern block");
    }
}

#[test]
fn test_keyword_escaping() {
    assert_eq!(escape_ident("type"), "r#type");
    assert_eq!(escape_ident("dyn"), "r#dyn");
    assert_eq!(escape_ident("await"), "r#await");
    assert_eq!(escape_ident("yield"), "r#yield");
    assert_eq!(escape_ident("add"), "add");
    assert_eq!(escape_ident(""), "");
    // a raw-escaped name never collides with the reserved table again
    assert_eq!(escape_ident("r#type"), "r#type");
}

#[test]
fn test_generation_deterministic() {
    let ir1 = add_func_ir(true, vec!["foo/bar.h"]);
    let ir2 = add_func_ir(true, vec!["foo/bar.h"]);
    let a = generate_bindings(&ir1).unwrap();
    let b = generate_bindings(&ir2).unwrap();
    assert_eq!(a.rs_api, b.rs_api);
    assert_eq!(a.rs_api_impl, b.rs_api_impl);
}

#[test]
fn test_malformed_ir_rejected() {
    // alignment 3 is not a power of two
    let ir = ir_of(vec![], vec![Item::Record(simple_record("Bad", 1, vec![], 3, 3))]);
    assert!(generate_rs_api(&ir).is_err());
    assert!(generate_rs_api_impl(&ir).is_err());
    assert!(generate_bindings(&ir).is_err());
    // two records under one name clash in their thunk symbols
    let ir = ir_of(
        vec![],
        vec![
            Item::Record(simple_record("Twice", 1, vec![], 4, 4)),
            Item::Record(simple_record("Twice", 2, vec![], 4, 4)),
        ],
    );
    assert!(generate_bindings(&ir).is_err());
    // a field type referencing an undeclared record id
    let ir = ir_of(
        vec![],
        vec![Item::Record(simple_record(
            "Holder",
            1,
            vec![pub_field("p", record_ref("*mut", "*", "Ghostly", 99), 0)],
            8,
            8,
        ))],
    );
    assert!(generate_bindings(&ir).is_err());
}

#[test]
fn test_well_formed() {
    let good = add_func_ir(false, vec![]);
    assert!(good.well_formed());
    // decreasing field offsets are refused
    let ir = ir_of(
        vec![],
        vec![Item::Record(simple_record(
            "S",
            1,
            vec![pub_field("a", prim("i32", "int"), 32), pub_field("b", prim("i32", "int"), 0)],
            8,
            4,
        ))],
    );
    assert!(!ir.well_formed());
}

#[test]
fn test_ir_functions_records() {
    let ir = ir_of(
        vec![],
        vec![
            Item::Func(free_func("f", "_Z1Fv", prim("()", "void"), vec![], false)),
            Item::Record(simple_record("R", 3, vec![], 1, 1)),
            Item::Comment(Comment { text: "x".to_string() }),
            Item::Func(free_func("g", "_Z1Gv", prim("()", "void"), vec![], true)),
        ],
    );
    let funcs = ir.functions();
    assert_eq!(funcs.len(), 2);
    assert_eq!(funcs[0].mangled_name, "_Z1Fv");
    assert_eq!(funcs[1].mangled_name, "_Z1Gv");
    let records = ir.records();
    assert_eq!(records.len(), 1);
    assert_eq!(records[0].identifier.identifier, "R");
}

#[test]
fn test_trivial_struct_surfaces() {
    // a trivially copyable record with its implicit constructor items:
    // default factory and rvalue-from surfaces, clone provided by the
    // derive and not duplicated by the copy constructor item
    let ir = ir_of(
        vec![],
        vec![
            Item::Record(simple_record(
                "SomeStruct",
                42,
                vec![pub_field("first_field", prim("i32", "int"), 0)],
                4,
                4,
            )),
            Item::Func(special_func(
                UnqualifiedIdentifier::Constructor,
                "SomeStruct",
                "_ZN10SomeStructC1Ev",
                vec![],
            )),
            Item::Func(special_func(
                UnqualifiedIdentifier::Constructor,
                "SomeStruct",
                "_ZN10SomeStructC1ERKS_",
                vec![param("__param_0", record_ref("&", "&", "SomeStruct", 42))],
            )),
            Item::Func(special_func(
                UnqualifiedIdentifier::Constructor,
                "SomeStruct",
                "_ZN10SomeStructC1EOS_",
                vec![param("__param_0", record_ref("RvalueRef", "&&", "SomeStruct", 42))],
            )),
        ],
    );
    let rs = generate_rs_api(&ir).unwrap();
    assert!(rs.contains("#[derive(Clone, Copy)]\n#[repr(C)]\npub struct SomeStruct {"));
    assert!(rs.contains("impl Default for SomeStruct {"));
    assert!(rs.contains("impl From<::ctor::RvalueReference<SomeStruct>> for SomeStruct {"));
    assert!(!rs.contains("impl Clone for SomeStruct"));
    assert!(rs.contains("impl<'b> ::ctor::UnpinAssign<&'b Self> for SomeStruct {"));
    assert!(rs.contains("impl<'b> ::ctor::UnpinAssign<::ctor::RvalueReference<'b, Self>> for SomeStruct {"));
    assert!(rs.contains("const _: () = { static_assertions::assert_not_impl_any!(crate::SomeStruct: Drop); };\n"));
}

#[test]
fn test_item_conversions() {
    let label = Label::from("//foo:bar".to_string());
    assert_eq!(label.0, "//foo:bar");
    let f = free_func("f", "_Z1Fv", prim("()", "void"), vec![], false);
    assert!(matches!(Item::from(f), Item::Func(_)));
    let r = simple_record("R", 3, vec![], 1, 1);
    assert!(matches!(Item::from(r), Item::Record(_)));
    let u = UnsupportedItem {
        name: "tpl".to_string(),
        message: "no templates".to_string(),
        source_loc: SourceLoc { filename: "x.h".to_string(), line: 1, column: 1 },
    };
    assert!(matches!(Item::from(u), Item::UnsupportedItem(_)));
    let c = Comment { text: "hi".to_string() };
    assert!(matches!(Item::from(c), Item::Comment(_)));
}

#[test]
fn test_decimal_formatting() {
    assert_eq!(fmt_u64(0), "0");
    assert_eq!(fmt_u64(7), "7");
    assert_eq!(fmt_u64(10), "10");
    assert_eq!(fmt_u64(1234567890), "1234567890");
    assert_eq!(fmt_u64(u64::MAX), "18446744073709551615");
}

#[test]
fn test_method_receivers() {
    let mut const_method = free_func(
        "GetValue",
        "_ZNK1S8GetValueEv",
        prim("i32", "int"),
        vec![],
        true,
    );
    const_method.member_func_metadata = Some(MemberFuncMetadata {
        for_type: Identifier { identifier: "S".to_string() },
        instance_method_metadata: Some(InstanceMethodMetadata {
            reference: ReferenceQualification::Unqualified,
            is_const: true,
            is_virtual: false,
        }),
    });
    let mut mut_method = free_func("SetValue", "_ZN1S8SetValueEi", prim("()", "void"),
        vec![param("v", prim("i32", "int"))], true);
    mut_method.member_func_metadata = Some(MemberFuncMetadata {
        for_type: Identifier { identifier: "S".to_string() },
        instance_method_metadata: Some(InstanceMethodMetadata {
            reference: ReferenceQualification::Unqualified,
            is_const: false,
            is_virtual: false,
        }),
    });
    let ir = ir_of(
        vec![],
        vec![
            Item::Record(simple_record("S", 5, vec![pub_field("x", prim("i32", "int"), 0)], 4, 4)),
            Item::Func(const_method),
            Item::Func(mut_method),
        ],
    );
    let rs = generate_rs_api(&ir).unwrap();
    assert!(rs.contains("pub fn GetValue(&self) -> i32 {"));
    assert!(rs.contains("pub fn SetValue(&mut self, v: i32) -> () {"));
    let cc = generate_rs_api_impl(&ir).unwrap();
    assert!(cc.contains(
        "extern \"C\" int __rust_thunk__GetValue(const S* __this) { return __this->GetValue(); }\n"
    ));
    assert!(cc.contains(
        "extern \"C\" void __rust_thunk__SetValue(S* __this, int v) { return __this->SetValue(v); }\n"
    ));
}

fn nonmovable_record(name: &str, id: usize) -> Record {
    let mut r = nontrivial_record(name, id);
    r.move_constructor = slot(SpecialMemberDefinition::Deleted, AccessSpecifier::Public);
    r
}

#[test]
fn test_nonmovable_by_value_param_refused() {
    let ir = ir_of(
        vec![],
        vec![
            Item::Record(nonmovable_record("Nonmovable", 1)),
            Item::Func(free_func(
                "TakesNonmovable",
                "_Z15TakesNonmovable10Nonmovable",
                prim("()", "void"),
                vec![param("nm", record_val("Nonmovable", 1))],
                false,
            )),
        ],
    );
    let rs = generate_rs_api(&ir).unwrap();
    assert!(rs.contains(
        "// Error while generating bindings for item 'TakesNonmovable':\n\
         // Non-movable, by-value parameters are not supported\n"
    ));
    assert!(!rs.contains("pub fn TakesNonmovable"));
}

#[test]
fn test_nonmovable_return_emplaced() {
    let ir = ir_of(
        vec![],
        vec![
            Item::Record(nonmovable_record("Nonmovable", 1)),
            Item::Func(free_func(
                "ReturnsNonmovableByValue",
                "_Z24ReturnsNonmovableByValuev",
                record_val("Nonmovable", 1),
                vec![],
                false,
            )),
        ],
    );
    let rs = generate_rs_api(&ir).unwrap();
    assert!(rs.contains(
        "pub fn ReturnsNonmovableByValue() -> impl ::ctor::Ctor<Output = Nonmovable> {"
    ));
    let cc = generate_rs_api_impl(&ir).unwrap();
    assert!(cc.contains(
        "extern \"C\" void __rust_thunk__ReturnsNonmovableByValue(Nonmovable* __return) { new (__return) Nonmovable(ReturnsNonmovableByValue()); }\n"
    ));
}

#[test]
fn test_pinned_by_value_param_emplaced() {
    let ir = ir_of(
        vec![],
        vec![
            Item::Record(nontrivial_record("Nontrivial", 1)),
            Item::Func(free_func(
                "TakesByValue",
                "_Z12TakesByValue10Nontrivial",
                prim("()", "void"),
                vec![param("nontrivial", record_val("Nontrivial", 1))],
                false,
            )),
        ],
    );
    let rs = generate_rs_api(&ir).unwrap();
    assert!(rs.contains(
        "pub fn TakesByValue(nontrivial: impl ::ctor::Ctor<Output = Nontrivial>) -> () {"
    ));
    assert!(rs.contains("    ::ctor::emplace!(let mut nontrivial = nontrivial);\n"));
    let cc = generate_rs_api_impl(&ir).unwrap();
    assert!(cc.contains(
        "extern \"C\" void __rust_thunk__TakesByValue(Nontrivial* nontrivial) { return TakesByValue(std::move(*nontrivial)); }\n"
    ));
}

#[test]
fn test_multi_parameter_ctor_refused() {
    // an unpin record refuses a two-parameter constructor with a diagnostic
    let ir = ir_of(
        vec![],
        vec![
            Item::Record(simple_record("Pair", 1, vec![], 8, 4)),
            Item::Func(special_func(
                UnqualifiedIdentifier::Constructor,
                "Pair",
                "_ZN4PairC1Eii",
                vec![param("a", prim("i32", "int")), param("b", prim("i32", "int"))],
            )),
        ],
    );
    let rs = generate_rs_api(&ir).unwrap();
    assert!(rs.contains(
        "// Error while generating bindings for item 'Pair':\n\
         // Constructors with more than one parameter are not supported yet\n"
    ));
}

#[test]
fn test_deleted_copy_inhibits_surfaces() {
    let mut rec = simple_record("NoCopy", 1, vec![pub_field("x", prim("i32", "int"), 0)], 4, 4);
    rec.copy_constructor = slot(SpecialMemberDefinition::Deleted, AccessSpecifier::Public);
    let ir = ir_of(
        vec![],
        vec![
            Item::Record(rec),
            // the copy constructor item of the same record: elided entirely
            Item::Func(special_func(
                UnqualifiedIdentifier::Constructor,
                "NoCopy",
                "_ZN6NoCopyC1ERKS_",
                vec![param("__param_0", record_ref("&", "&", "NoCopy", 1))],
            )),
        ],
    );
    let rs = generate_rs_api(&ir).unwrap();
    assert!(!rs.contains("#[derive(Clone, Copy)]"));
    assert!(!rs.contains("aSERKS_"));
    assert!(!rs.contains("impl Clone for NoCopy"));
    assert!(rs.contains("impl<'b> ::ctor::UnpinAssign<::ctor::RvalueReference<'b, Self>> for NoCopy {"));
    assert!(rs.contains("const _: () = { static_assertions::assert_not_impl_any!(crate::NoCopy: Copy); };\n"));
}

#[test]
fn test_private_field_padding() {
    let mut fields = vec![
        pub_field("public_int", prim("i32", "int"), 0),
        pub_field("protected_int", prim("i32", "int"), 32),
        pub_field("private_int", prim("i32", "int"), 64),
    ];
    fields[1].access = AccessSpecifier::Protected;
    fields[2].access = AccessSpecifier::Private;
    let ir = ir_of(vec![], vec![Item::Record(simple_record("SomeStruct", 42, fields, 12, 4))]);
    let rs = generate_rs_api(&ir).unwrap();
    assert!(rs.contains("    pub public_int: i32,\n"));
    assert!(rs.contains("    __opaque_protected_int: [::std::mem::MaybeUninit<u8>; 4],\n"));
    assert!(rs.contains("    __opaque_private_int: [::std::mem::MaybeUninit<u8>; 4],\n"));
    // only the public field gets an offset assertion
    assert!(rs.contains("offset_of!(crate::SomeStruct, public_int) == 0"));
    assert!(!rs.contains("offset_of!(crate::SomeStruct, protected_int)"));
    assert!(!rs.contains("offset_of!(crate::SomeStruct, private_int)"));
}

#[test]
fn test_unpin_ctor_family() {
    let mut rec = simple_record("NontrivialUnpin", 1, vec![pub_field("field", prim("i32", "int"), 0)], 4, 4);
    rec.destructor = slot(SpecialMemberDefinition::NontrivialSelf, AccessSpecifier::Public);
    let ir = ir_of(
        vec![],
        vec![
            Item::Record(rec),
            Item::Func(special_func(
                UnqualifiedIdentifier::Constructor,
                "NontrivialUnpin",
                "_ZN15NontrivialUnpinC1Ev",
                vec![],
            )),
            Item::Func(special_func(
                UnqualifiedIdentifier::Constructor,
                "NontrivialUnpin",
                "_ZN15NontrivialUnpinC1ERKS_",
                vec![param("__param_0", record_ref("&", "&", "NontrivialUnpin", 1))],
            )),
            Item::Func(special_func(
                UnqualifiedIdentifier::Constructor,
                "NontrivialUnpin",
                "_ZN15NontrivialUnpinC1Ei",
                vec![param("field", prim("i32", "int"))],
            )),
            Item::Func(special_func(
                UnqualifiedIdentifier::Destructor,
                "NontrivialUnpin",
                "_ZN15NontrivialUnpinD1Ev",
                vec![],
            )),
        ],
    );
    let rs = generate_rs_api(&ir).unwrap();
    assert!(rs.contains("impl Default for NontrivialUnpin {"));
    assert!(rs.contains("impl Clone for NontrivialUnpin {"));
    assert!(rs.contains("impl From<i32> for NontrivialUnpin {"));
    assert!(rs.contains("impl Drop for NontrivialUnpin {"));
    assert!(rs.contains("const _: () = { static_assertions::assert_impl_all!(crate::NontrivialUnpin: Drop); };\n"));
}
