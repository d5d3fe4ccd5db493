//! The item emitter and the two output assemblies: one pass over the IR's
//! items builds the generation plan, and the plan is rendered as the
//! target-side binding module and the C++ companion translation unit.

use vstd::prelude::*;
use crate::ir::HeaderName;
use crate::ir::IR;
use crate::ir::Item;
use crate::ir::record_decl_ids;
use crate::ir::record_names;
use crate::plan::Bindings;
use crate::plan::GenItem;
use crate::plan::GenItemSp;
use crate::thunks::ThunkDeclSp;
use crate::thunks::CcThunkSp;
use crate::emit_funcs::ident_func_item_sp;
use crate::emit_funcs::emit_ident_func;
use crate::emit_special::ctor_item_sp;
use crate::emit_special::dtor_item_sp;
use crate::emit_special::emit_ctor;
use crate::emit_special::emit_dtor;
use crate::emit_records::record_item_sp;
use crate::emit_records::emit_record;
use crate::diag::unsupported_text;
use crate::diag::unsupported_string;

verus! {

/// What one item contributes to the outputs.
pub open spec fn item_sp(it: Item, items: Seq<Item>) -> GenItemSp {
    match it {
        Item::Func(f) => {
            match f.name {
                crate::ir::UnqualifiedIdentifier::Identifier(_) => ident_func_item_sp(f, items),
                crate::ir::UnqualifiedIdentifier::Constructor => ctor_item_sp(f, items),
                crate::ir::UnqualifiedIdentifier::Destructor => dtor_item_sp(f, items),
            }
        },
        Item::Record(r) => record_item_sp(r),
        Item::UnsupportedItem(u) => GenItemSp {
            rs_text: unsupported_text(u),
            is_diagnostic: true,
            thunk_decls: Seq::empty(),
            cc_thunks: Seq::empty(),
            assert_texts: Seq::empty(),
        },
        Item::Comment(c) => GenItemSp {
            rs_text: "// "@ + c.text@ + "\n"@,
            is_diagnostic: false,
            thunk_decls: Seq::empty(),
            cc_thunks: Seq::empty(),
            assert_texts: Seq::empty(),
        },
    }
}

/// The plan entries of the first `n` items.
pub open spec fn plan_sp_upto(items: Seq<Item>, n: int) -> Seq<GenItemSp>
    decreases n,
{
    if n <= 0 {
        Seq::empty()
    } else {
        plan_sp_upto(items, n - 1) + seq![item_sp(items[n - 1], items)]
    }
}

/// The plan entries of all items, in item order.
pub open spec fn plan_sp(items: Seq<Item>) -> Seq<GenItemSp> {
    plan_sp_upto(items, items.len() as int)
}

/// The `extern` block entries of the first `n` items, flattened in order.
pub open spec fn decls_upto(items: Seq<Item>, n: int) -> Seq<ThunkDeclSp>
    decreases n,
{
    if n <= 0 {
        Seq::empty()
    } else {
        decls_upto(items, n - 1) + item_sp(items[n - 1], items).thunk_decls
    }
}

/// Every `extern` block entry of the IR, in order.
pub open spec fn all_decls(items: Seq<Item>) -> Seq<ThunkDeclSp> {
    decls_upto(items, items.len() as int)
}

/// The C++ thunks of the first `n` items, flattened in order.
pub open spec fn cc_upto(items: Seq<Item>, n: int) -> Seq<CcThunkSp>
    decreases n,
{
    if n <= 0 {
        Seq::empty()
    } else {
        cc_upto(items, n - 1) + item_sp(items[n - 1], items).cc_thunks
    }
}

/// Every C++ thunk of the IR, in order.
pub open spec fn all_cc(items: Seq<Item>) -> Seq<CcThunkSp> {
    cc_upto(items, items.len() as int)
}

/// The assertion lines of the first `n` items, flattened in order.
pub open spec fn asserts_upto(items: Seq<Item>, n: int) -> Seq<Seq<char>>
    decreases n,
{
    if n <= 0 {
        Seq::empty()
    } else {
        asserts_upto(items, n - 1) + item_sp(items[n - 1], items).assert_texts
    }
}

/// Every assertion line of the IR, in order.
pub open spec fn all_asserts(items: Seq<Item>) -> Seq<Seq<char>> {
    asserts_upto(items, items.len() as int)
}

/// The concatenation of a sequence of text blocks.
pub open spec fn concat_all(ss: Seq<Seq<char>>) -> Seq<char>
    decreases ss.len(),
{
    if ss.len() == 0 {
        Seq::empty()
    } else {
        concat_all(ss.drop_last()) + ss.last()
    }
}

/// Concatenation distributes over appending block sequences.
pub proof fn lemma_concat_all_add(a: Seq<Seq<char>>, b: Seq<Seq<char>>)
    ensures
        concat_all(a + b) == concat_all(a) + concat_all(b),
    decreases b.len(),
{
    if b.len() == 0 {
        assert(a + b =~= a);
        assert(concat_all(b) == Seq::<char>::empty());
        assert(concat_all(a + b) =~= concat_all(a) + concat_all(b));
    } else {
        lemma_concat_all_add(a, b.drop_last());
        assert((a + b).drop_last() =~= a + b.drop_last());
        assert((a + b).last() == b.last());
        assert(concat_all(a + b) =~= concat_all(a) + concat_all(b));
    }
}

/// The concatenation of a single block is that block.
pub proof fn lemma_concat_all_one(s: Seq<Seq<char>>)
    requires
        s.len() == 1,
    ensures
        concat_all(s) == s[0],
{
    assert(s.drop_last().len() == 0);
    assert(concat_all(s.drop_last()) == Seq::<char>::empty());
    assert(concat_all(s) =~= s[0]);
}

/// The per-item texts of the binding module: each item's contribution
/// followed by a separating blank line.
pub open spec fn rs_texts_of(ps: Seq<GenItemSp>) -> Seq<Seq<char>> {
    ps.map_values(|g: GenItemSp| g.rs_text + "\n"@)
}

/// The declaration texts of the `extern` block entries.
pub open spec fn decl_texts_of(ds: Seq<ThunkDeclSp>) -> Seq<Seq<char>> {
    ds.map_values(|d: ThunkDeclSp| d.text)
}

/// The definition texts of the C++ thunks.
pub open spec fn cc_texts_of(ts: Seq<CcThunkSp>) -> Seq<Seq<char>> {
    ts.map_values(|t: CcThunkSp| t.text)
}

/// The banner and attribute prelude of the binding module.
pub open spec fn banner_text(ir: IR) -> Seq<char> {
    "// Automatically @generated Rust bindings for the following C++ target:\n// "@
        + ir.current_target.0@
        + "\n#![feature(custom_inner_attributes)]\n#![allow(non_camel_case_types)]\n#![allow(non_snake_case)]\n\n"@
}

/// The detail submodule holding the `extern` block, absent when no entry
/// exists.
pub open spec fn detail_text(items: Seq<Item>) -> Seq<char> {
    if all_decls(items).len() == 0 {
        Seq::empty()
    } else {
        "mod detail {\n    #[allow(unused_imports)]\n    use super::*;\n    extern \"C\" {\n"@
            + concat_all(decl_texts_of(all_decls(items))) + "    }\n}\n\n"@
    }
}

/// The whole target-side binding module for `ir`.
pub open spec fn rs_api_text(ir: IR) -> Seq<char> {
    banner_text(ir) + concat_all(rs_texts_of(plan_sp(ir.items@))) + detail_text(ir.items@)
        + concat_all(all_asserts(ir.items@))
}

/// One header directive of the C++ translation unit.
pub open spec fn include_line(h: HeaderName) -> Seq<char> {
    "#include \""@ + h.name@ + "\"\n"@
}

/// The header directives, one per used header, in the IR's order.
pub open spec fn include_lines(hs: Seq<HeaderName>) -> Seq<Seq<char>> {
    hs.map_values(|h: HeaderName| include_line(h))
}

/// The whole C++ companion translation unit for `ir`.
pub open spec fn cc_api_text(ir: IR) -> Seq<char> {
    concat_all(include_lines(ir.used_headers@)) + (if all_cc(ir.items@).len() == 0 {
        Seq::empty()
    } else {
        "\n"@ + concat_all(cc_texts_of(all_cc(ir.items@)))
    })
}

/// Emits the plan entry of one item.
pub fn emit_item(it: &Item, ir: &IR) -> (g: GenItem)
    requires
        it.wf(record_decl_ids(ir.items@), record_names(ir.items@)),
    ensures
        g@ == item_sp(*it, ir.items@),
{
    match it {
        Item::Func(f) => {
            match &f.name {
                crate::ir::UnqualifiedIdentifier::Identifier(_) => emit_ident_func(f, ir),
                crate::ir::UnqualifiedIdentifier::Constructor => emit_ctor(f, ir),
                crate::ir::UnqualifiedIdentifier::Destructor => emit_dtor(f, ir),
            }
        },
        Item::Record(r) => emit_record(r, ir),
        Item::UnsupportedItem(u) => {
            let g = GenItem {
                rs_text: unsupported_string(u),
                is_diagnostic: true,
                thunk_decls: Vec::new(),
                cc_thunks: Vec::new(),
                assert_texts: Vec::new(),
            };
            proof {
                assert(g@.thunk_decls =~= Seq::<ThunkDeclSp>::empty());
                assert(g@.cc_thunks =~= Seq::<CcThunkSp>::empty());
                assert(g@.assert_texts =~= Seq::<Seq<char>>::empty());
            }
            g
        },
        Item::Comment(c) => {
            let mut rs_text: String = "// ".to_owned();
            rs_text.append(c.text.as_str());
            rs_text.append("\n");
            let g = GenItem {
                rs_text,
                is_diagnostic: false,
                thunk_decls: Vec::new(),
                cc_thunks: Vec::new(),
                assert_texts: Vec::new(),
            };
            proof {
                assert(g@.thunk_decls =~= Seq::<ThunkDeclSp>::empty());
                assert(g@.cc_thunks =~= Seq::<CcThunkSp>::empty());
                assert(g@.assert_texts =~= Seq::<Seq<char>>::empty());
            }
            g
        },
    }
}

/// Builds the generation plan: one entry per IR item, in item order. No
/// item is ever dropped; a refused item appears as a diagnostic entry.
pub fn generate_plan(ir: &IR) -> (p: Vec<GenItem>)
    requires
        ir.wf(),
    ensures
        p@.len() == ir.items@.len(),
        forall|i: int| 0 <= i < p@.len() ==> (#[trigger] p@[i])@ == item_sp(ir.items@[i], ir.items@),
{
    let n = ir.items.len();
    let mut p: Vec<GenItem> = Vec::new();
    for k in 0..n
        invariant
            n == ir.items@.len(),
            ir.wf(),
            p@.len() == k,
            forall|i: int|
                0 <= i < k ==> (#[trigger] p@[i])@ == item_sp(ir.items@[i], ir.items@),
    {
        assert(ir.items@[k as int].wf(record_decl_ids(ir.items@), record_names(ir.items@)));
        let g = emit_item(&ir.items[k], ir);
        p.push(g);
    }
    p
}

/// Renders the target-side binding module from the plan.
#[verifier::rlimit(80)]
fn render_rs_api(ir: &IR, p: &Vec<GenItem>) -> (r: String)
    requires
        p@.len() == ir.items@.len(),
        forall|i: int| 0 <= i < p@.len() ==> (#[trigger] p@[i])@ == item_sp(ir.items@[i], ir.items@),
    ensures
        r@ == rs_api_text(*ir),
{
    let items_n = p.len();
    let mut out: String =
        "// Automatically @generated Rust bindings for the following C++ target:\n// ".to_owned();
    out.append(ir.current_target.0.as_str());
    out.append(
        "\n#![feature(custom_inner_attributes)]\n#![allow(non_camel_case_types)]\n#![allow(non_snake_case)]\n\n",
    );
    proof {
        assert(out@ =~= banner_text(*ir));
    }
    let ghost t0 = out@;
    for k in 0..items_n
        invariant
            items_n == p@.len() == ir.items@.len(),
            forall|i: int|
                0 <= i < p@.len() ==> (#[trigger] p@[i])@ == item_sp(ir.items@[i], ir.items@),
            out@ == t0 + concat_all(rs_texts_of(plan_sp_upto(ir.items@, k as int))),
    {
        out.append(p[k].rs_text.as_str());
        out.append("\n");
        proof {
            assert(plan_sp_upto(ir.items@, k + 1) =~= plan_sp_upto(ir.items@, k as int) + seq![
                item_sp(ir.items@[k as int], ir.items@),
            ]);
            lemma_concat_all_add(
                rs_texts_of(plan_sp_upto(ir.items@, k as int)),
                rs_texts_of(seq![item_sp(ir.items@[k as int], ir.items@)]),
            );
            assert(rs_texts_of(plan_sp_upto(ir.items@, k + 1)) =~= rs_texts_of(
                plan_sp_upto(ir.items@, k as int),
            ) + rs_texts_of(seq![item_sp(ir.items@[k as int], ir.items@)]));
            lemma_concat_all_one(rs_texts_of(seq![item_sp(ir.items@[k as int], ir.items@)]));
            assert(rs_texts_of(seq![item_sp(ir.items@[k as int], ir.items@)])[0] == item_sp(
                ir.items@[k as int],
                ir.items@,
            ).rs_text + "\n"@);
            assert(out@ =~= t0 + concat_all(rs_texts_of(plan_sp_upto(ir.items@, k + 1))));
        }
    }
    proof {
        assert(plan_sp_upto(ir.items@, items_n as int) == plan_sp(ir.items@));
    }
    let ghost t1 = out@;
    // the extern block, flushed at end of module
    let mut any_decl: bool = false;
    let mut decl_text = String::new();
    for k in 0..items_n
        invariant
            items_n == p@.len() == ir.items@.len(),
            forall|i: int|
                0 <= i < p@.len() ==> (#[trigger] p@[i])@ == item_sp(ir.items@[i], ir.items@),
            any_decl == (decls_upto(ir.items@, k as int).len() > 0),
            decl_text@ == concat_all(decl_texts_of(decls_upto(ir.items@, k as int))),
    {
        let ds = &p[k].thunk_decls;
        let ghost base_seq = decls_upto(ir.items@, k as int);
        let inner_n = ds.len();
        for j in 0..inner_n
            invariant
                items_n == p@.len() == ir.items@.len(),
                forall|i: int|
                    0 <= i < p@.len() ==> (#[trigger] p@[i])@ == item_sp(ir.items@[i], ir.items@),
                inner_n == ds@.len(),
                ds@.map_values(|d: crate::thunks::ThunkDecl| d@) == item_sp(
                    ir.items@[k as int],
                    ir.items@,
                ).thunk_decls,
                decl_text@ == concat_all(decl_texts_of(base_seq + item_sp(
                    ir.items@[k as int],
                    ir.items@,
                ).thunk_decls.take(j as int))),
        {
            decl_text.append(ds[j].text.as_str());
            proof {
                let full = item_sp(ir.items@[k as int], ir.items@).thunk_decls;
                assert(full.take(j + 1) =~= full.take(j as int) + seq![full[j as int]]);
                assert(base_seq + full.take(j + 1) =~= (base_seq + full.take(j as int)) + seq![
                    full[j as int],
                ]);
                lemma_concat_all_add(
                    decl_texts_of(base_seq + full.take(j as int)),
                    decl_texts_of(seq![full[j as int]]),
                );
                assert(decl_texts_of((base_seq + full.take(j as int)) + seq![full[j as int]])
                    =~= decl_texts_of(base_seq + full.take(j as int)) + decl_texts_of(
                    seq![full[j as int]],
                ));
                lemma_concat_all_one(decl_texts_of(seq![full[j as int]]));
                assert(decl_texts_of(seq![full[j as int]])[0] == full[j as int].text);
                assert(ds@[j as int]@ == full[j as int]);
                assert(decl_text@ =~= concat_all(decl_texts_of(base_seq + full.take(j + 1))));
            }
        }
        if inner_n > 0 {
            any_decl = true;
        }
        proof {
            let full = item_sp(ir.items@[k as int], ir.items@).thunk_decls;
            assert(full.take(inner_n as int) =~= full);
            assert(base_seq + full =~= decls_upto(ir.items@, k + 1));
        }
    }
    proof {
        assert(decls_upto(ir.items@, items_n as int) == all_decls(ir.items@));
    }
    if any_decl {
        out.append("mod detail {\n    #[allow(unused_imports)]\n    use super::*;\n    extern \"C\" {\n");
        out.append(decl_text.as_str());
        out.append("    }\n}\n\n");
    }
    proof {
        assert(out@ =~= t1 + detail_text(ir.items@));
    }
    let ghost t2 = out@;
    for k in 0..items_n
        invariant
            items_n == p@.len() == ir.items@.len(),
            forall|i: int|
                0 <= i < p@.len() ==> (#[trigger] p@[i])@ == item_sp(ir.items@[i], ir.items@),
            out@ == t2 + concat_all(asserts_upto(ir.items@, k as int)),
    {
        let ss = &p[k].assert_texts;
        let ghost base_seq = asserts_upto(ir.items@, k as int);
        let inner_n = ss.len();
        for j in 0..inner_n
            invariant
                items_n == p@.len() == ir.items@.len(),
                forall|i: int|
                    0 <= i < p@.len() ==> (#[trigger] p@[i])@ == item_sp(ir.items@[i], ir.items@),
                inner_n == ss@.len(),
                ss@.map_values(|s: String| s@) == item_sp(
                    ir.items@[k as int],
                    ir.items@,
                ).assert_texts,
                out@ == t2 + concat_all(base_seq + item_sp(
                    ir.items@[k as int],
                    ir.items@,
                ).assert_texts.take(j as int)),
        {
            out.append(ss[j].as_str());
            proof {
                let full = item_sp(ir.items@[k as int], ir.items@).assert_texts;
                assert(full.take(j + 1) =~= full.take(j as int) + seq![full[j as int]]);
                assert(base_seq + full.take(j + 1) =~= (base_seq + full.take(j as int)) + seq![
                    full[j as int],
                ]);
                lemma_concat_all_add(base_seq + full.take(j as int), seq![full[j as int]]);
                lemma_concat_all_one(seq![full[j as int]]);
                assert(ss@[j as int]@ == full[j as int]);
                assert(out@ =~= t2 + concat_all(base_seq + full.take(j + 1)));
            }
        }
        proof {
            let full = item_sp(ir.items@[k as int], ir.items@).assert_texts;
            assert(full.take(inner_n as int) =~= full);
            assert(base_seq + full =~= asserts_upto(ir.items@, k + 1));
        }
    }
    proof {
        assert(asserts_upto(ir.items@, items_n as int) == all_asserts(ir.items@));
        assert(out@ =~= rs_api_text(*ir));
    }
    out
}

/// Renders the C++ companion translation unit from the plan.
#[verifier::rlimit(80)]
fn render_cc_api(ir: &IR, p: &Vec<GenItem>) -> (r: String)
    requires
        p@.len() == ir.items@.len(),
        forall|i: int| 0 <= i < p@.len() ==> (#[trigger] p@[i])@ == item_sp(ir.items@[i], ir.items@),
    ensures
        r@ == cc_api_text(*ir),
{
    let mut out = String::new();
    let hn = ir.used_headers.len();
    for k in 0..hn
        invariant
            hn == ir.used_headers@.len(),
            out@ == concat_all(include_lines(ir.used_headers@.take(k as int))),
    {
        out.append("#include \"");
        out.append(ir.used_headers[k].name.as_str());
        out.append("\"\n");
        proof {
            assert(ir.used_headers@.take(k + 1) =~= ir.used_headers@.take(k as int) + seq![
                ir.used_headers@[k as int],
            ]);
            assert(include_lines(ir.used_headers@.take(k + 1)) =~= include_lines(
                ir.used_headers@.take(k as int),
            ) + include_lines(seq![ir.used_headers@[k as int]]));
            lemma_concat_all_add(
                include_lines(ir.used_headers@.take(k as int)),
                include_lines(seq![ir.used_headers@[k as int]]),
            );
            lemma_concat_all_one(include_lines(seq![ir.used_headers@[k as int]]));
            assert(include_lines(seq![ir.used_headers@[k as int]])[0] == include_line(
                ir.used_headers@[k as int],
            ));
            assert(out@ =~= concat_all(include_lines(ir.used_headers@.take(k + 1))));
        }
    }
    proof {
        assert(ir.used_headers@.take(hn as int) =~= ir.used_headers@);
    }
    let ghost t0 = out@;
    let items_n = p.len();
    let mut any_cc: bool = false;
    let mut cc_text = String::new();
    for k in 0..items_n
        invariant
            items_n == p@.len() == ir.items@.len(),
            forall|i: int|
                0 <= i < p@.len() ==> (#[trigger] p@[i])@ == item_sp(ir.items@[i], ir.items@),
            any_cc == (cc_upto(ir.items@, k as int).len() > 0),
            cc_text@ == concat_all(cc_texts_of(cc_upto(ir.items@, k as int))),
    {
        let ts = &p[k].cc_thunks;
        let ghost base_seq = cc_upto(ir.items@, k as int);
        let inner_n = ts.len();
        for j in 0..inner_n
            invariant
                items_n == p@.len() == ir.items@.len(),
                forall|i: int|
                    0 <= i < p@.len() ==> (#[trigger] p@[i])@ == item_sp(ir.items@[i], ir.items@),
                inner_n == ts@.len(),
                ts@.map_values(|t: crate::thunks::CcThunk| t@) == item_sp(
                    ir.items@[k as int],
                    ir.items@,
                ).cc_thunks,
                cc_text@ == concat_all(cc_texts_of(base_seq + item_sp(
                    ir.items@[k as int],
                    ir.items@,
                ).cc_thunks.take(j as int))),
        {
            cc_text.append(ts[j].text.as_str());
            proof {
                let full = item_sp(ir.items@[k as int], ir.items@).cc_thunks;
                assert(full.take(j + 1) =~= full.take(j as int) + seq![full[j as int]]);
                assert(base_seq + full.take(j + 1) =~= (base_seq + full.take(j as int)) + seq![
                    full[j as int],
                ]);
                lemma_concat_all_add(
                    cc_texts_of(base_seq + full.take(j as int)),
                    cc_texts_of(seq![full[j as int]]),
                );
                assert(cc_texts_of((base_seq + full.take(j as int)) + seq![full[j as int]])
                    =~= cc_texts_of(base_seq + full.take(j as int)) + cc_texts_of(
                    seq![full[j as int]],
                ));
                lemma_concat_all_one(cc_texts_of(seq![full[j as int]]));
                assert(cc_texts_of(seq![full[j as int]])[0] == full[j as int].text);
                assert(ts@[j as int]@ == full[j as int]);
                assert(cc_text@ =~= concat_all(cc_texts_of(base_seq + full.take(j + 1))));
            }
        }
        if inner_n > 0 {
            any_cc = true;
        }
        proof {
            let full = item_sp(ir.items@[k as int], ir.items@).cc_thunks;
            assert(full.take(inner_n as int) =~= full);
            assert(base_seq + full =~= cc_upto(ir.items@, k + 1));
        }
    }
    proof {
        assert(cc_upto(ir.items@, items_n as int) == all_cc(ir.items@));
    }
    if any_cc {
        out.append("\n");
        out.append(cc_text.as_str());
    }
    proof {
        assert(out@ =~= cc_api_text(*ir));
    }
    out
}

/// Generates the target-side binding module. Fails exactly on an IR that
/// breaks the well-formedness conditions.
pub fn generate_rs_api(ir: &IR) -> (r: Result<String, String>)
    ensures
        r is Ok <==> ir.wf(),
        r matches Ok(s) ==> s@ == rs_api_text(*ir),
        r matches Err(e) ==> e@
            == "malformed IR: broken record layout, dangling reference, or clashing thunk symbols"@,
{
    if !ir.well_formed() {
        return Err("malformed IR: broken record layout, dangling reference, or clashing thunk symbols".to_owned());
    }
    let p = generate_plan(ir);
    Ok(render_rs_api(ir, &p))
}

/// Generates the C++ companion translation unit. Fails exactly on an IR
/// that breaks the well-formedness conditions.
pub fn generate_rs_api_impl(ir: &IR) -> (r: Result<String, String>)
    ensures
        r is Ok <==> ir.wf(),
        r matches Ok(s) ==> s@ == cc_api_text(*ir),
        r matches Err(e) ==> e@
            == "malformed IR: broken record layout, dangling reference, or clashing thunk symbols"@,
{
    if !ir.well_formed() {
        return Err("malformed IR: broken record layout, dangling reference, or clashing thunk symbols".to_owned());
    }
    let p = generate_plan(ir);
    Ok(render_cc_api(ir, &p))
}

/// Generates both output artifacts in one pass. Fails exactly on an IR
/// that breaks the well-formedness conditions.
pub fn generate_bindings(ir: &IR) -> (r: Result<Bindings, String>)
    ensures
        r is Ok <==> ir.wf(),
        r matches Ok(b) ==> b.rs_api@ == rs_api_text(*ir) && b.rs_api_impl@ == cc_api_text(*ir),
        r matches Err(e) ==> e@
            == "malformed IR: broken record layout, dangling reference, or clashing thunk symbols"@,
{
    if !ir.well_formed() {
        return Err("malformed IR: broken record layout, dangling reference, or clashing thunk symbols".to_owned());
    }
    let p = generate_plan(ir);
    let rs_api = render_rs_api(ir, &p);
    let rs_api_impl = render_cc_api(ir, &p);
    Ok(Bindings { rs_api, rs_api_impl })
}

} // verus!
