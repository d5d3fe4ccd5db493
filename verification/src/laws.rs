//! The engine's invariants, stated and proved over the generation plan:
//! item preservation, header faithfulness, direct-link completeness,
//! layout assertion presence, deleted-member inhibition, thunk symbol
//! uniqueness, and round-trip stability of the generated text.

use vstd::prelude::*;
use crate::ir::Func;
use crate::ir::HeaderName;
use crate::ir::Item;
use crate::ir::Record;
use crate::ir::all_seeds;
use crate::ir::item_seeds;
use crate::ir::seqs_distinct;
use crate::ir::copy_assign_seed;
use crate::ir::move_assign_seed;
use crate::category::category_of;
use crate::category::slot_exposed;
use crate::thunks::thunk_symbol;
use crate::thunks::can_skip_cc_thunk_spec;
use crate::thunks::ThunkDeclSp;
use crate::emit_funcs::func_sym;
use crate::emit_funcs::is_nonmovable_by_value;
use crate::emit_funcs::func_has_nontrivial_value;
use crate::emit_funcs::has_nonmovable_param;
use crate::emit_funcs::free_extern_decl_sp;
use crate::emit_funcs::member_extern_decl_sp;
use crate::emit_records::record_item_sp;
use crate::emit_records::record_assert_texts;
use crate::emit_records::record_thunk_decls_sp;
use crate::emit_records::size_assert_text;
use crate::emit_records::align_assert_text;
use crate::emit_records::offset_assert_text;
use crate::emit_records::offset_asserts_upto;
use crate::emit_records::cap_assert_texts;
use crate::emit_records::not_impl_assert_text;
use crate::emit_records::has_dtor_surface;
use crate::emit_special::ctor_item_sp;
use crate::emit_special::dtor_item_sp;
use crate::emit_special::is_copy_param;
use crate::emit_special::is_move_param;
use crate::emit_special::empty_item_sp;
use crate::src_code_gen::item_sp;
use crate::src_code_gen::all_decls;
use crate::src_code_gen::all_cc;
use crate::src_code_gen::decls_upto;
use crate::src_code_gen::cc_upto;
use crate::src_code_gen::plan_sp;
use crate::src_code_gen::plan_sp_upto;
use crate::src_code_gen::include_line;
use crate::src_code_gen::include_lines;
use crate::types::is_nontrivial_by_value;

verus! {

/// Item preservation: the plan holds exactly one entry per IR item, in
/// item order, each the contribution of that item. A refused item is
/// counted through its diagnostic entry; no item is silently dropped.
pub proof fn lemma_item_preservation(items: Seq<Item>)
    ensures
        plan_sp(items).len() == items.len(),
        forall|i: int| 0 <= i < items.len() ==> plan_sp(items)[i] == item_sp(items[i], items),
{
    lemma_plan_upto(items, items.len() as int);
}

/// The plan prefix of length `n` holds the contributions of the first `n`
/// items, in order.
pub proof fn lemma_plan_upto(items: Seq<Item>, n: int)
    requires
        0 <= n <= items.len(),
    ensures
        plan_sp_upto(items, n).len() == n,
        forall|i: int| 0 <= i < n ==> plan_sp_upto(items, n)[i] == item_sp(items[i], items),
    decreases n,
{
    if n > 0 {
        lemma_plan_upto(items, n - 1);
    }
}

/// Header faithfulness: the C++ output carries one header directive per
/// used header, in the IR's order.
pub proof fn lemma_header_faithfulness(hs: Seq<HeaderName>)
    ensures
        include_lines(hs).len() == hs.len(),
        forall|i: int| 0 <= i < hs.len() ==> include_lines(hs)[i] == include_line(hs[i]),
{
}

/// Direct-link completeness: a named function whose direct-link predicate
/// holds yields exactly one `extern` entry, carrying a link-name directive
/// whose value is the function's mangled name, and no C++ thunk.
pub proof fn lemma_direct_link_completeness(f: Func, items: Seq<Item>)
    requires
        f.name is Identifier,
        can_skip_cc_thunk_spec(f, items),
    ensures
        item_sp(Item::Func(f), items).thunk_decls.len() == 1,
        item_sp(Item::Func(f), items).thunk_decls[0].symbol == func_sym(f),
        item_sp(Item::Func(f), items).thunk_decls[0].link_name == Some(f.mangled_name@),
        item_sp(Item::Func(f), items).cc_thunks.len() == 0,
{
    if f.member_func_metadata is Some {
        assert(!func_has_nontrivial_value(f, items)) by {
            if func_has_nontrivial_value(f, items) {
                if is_nontrivial_by_value(f.return_type.rs_type, items) {
                } else {
                    let i = choose|i: int|
                        0 <= i < f.params@.len() && is_nontrivial_by_value(
                            (#[trigger] f.params@[i]).type_.rs_type,
                            items,
                        );
                    assert(!is_nontrivial_by_value(f.params@[i].type_.rs_type, items));
                }
            }
        }
        assert(item_sp(Item::Func(f), items).thunk_decls =~= seq![
            member_extern_decl_sp(f, items),
        ]);
    } else {
        assert(!has_nonmovable_param(f.params@, items)) by {
            if has_nonmovable_param(f.params@, items) {
                let i = choose|i: int|
                    0 <= i < f.params@.len() && is_nonmovable_by_value(
                        (#[trigger] f.params@[i]).type_.rs_type,
                        items,
                    );
                assert(!is_nontrivial_by_value(f.params@[i].type_.rs_type, items));
            }
        }
        assert(item_sp(Item::Func(f), items).thunk_decls =~= seq![free_extern_decl_sp(f, items)]);
    }
}

/// The offset assertion of each public field among the first `n` fields is
/// present.
proof fn lemma_offset_asserts_contains(r: Record, n: int, i: int)
    requires
        0 <= i < n <= r.fields@.len(),
        r.fields@[i].access is Public,
    ensures
        offset_asserts_upto(r, n).contains(offset_assert_text(r, i)),
    decreases n,
{
    if i == n - 1 {
        let u = offset_asserts_upto(r, n);
        assert(u[u.len() - 1] == offset_assert_text(r, i));
    } else {
        lemma_offset_asserts_contains(r, n - 1, i);
        let u = offset_asserts_upto(r, n - 1);
        let j = choose|j: int| 0 <= j < u.len() && u[j] == offset_assert_text(r, i);
        assert(offset_asserts_upto(r, n)[j] == offset_assert_text(r, i));
        assert(offset_asserts_upto(r, n).contains(offset_assert_text(r, i)));
    }
}

/// Layout assertion presence: every emitted record demands assertions for
/// its size, its alignment, and the offset of each public field.
pub proof fn lemma_layout_assertion_presence(r: Record)
    ensures
        record_item_sp(r).assert_texts[0] == size_assert_text(r),
        record_item_sp(r).assert_texts[1] == align_assert_text(r),
        forall|i: int|
            0 <= i < r.fields@.len() && (#[trigger] r.fields@[i]).access is Public
                ==> record_item_sp(r).assert_texts.contains(offset_assert_text(r, i)),
{
    let a = record_assert_texts(r);
    let head = seq![size_assert_text(r), align_assert_text(r)] + cap_assert_texts(r);
    assert(a[0] == size_assert_text(r));
    assert(a[1] == align_assert_text(r));
    assert forall|i: int|
        0 <= i < r.fields@.len() && (#[trigger] r.fields@[i]).access is Public implies record_item_sp(
        r,
    ).assert_texts.contains(offset_assert_text(r, i)) by {
        lemma_offset_asserts_contains(r, r.fields@.len() as int, i);
        let u = offset_asserts_upto(r, r.fields@.len() as int);
        let j = choose|j: int| 0 <= j < u.len() && u[j] == offset_assert_text(r, i);
        assert(a[head.len() + j] == offset_assert_text(r, i));
        assert(a.contains(offset_assert_text(r, i)));
    }
}

/// Deleted-member inhibition at the record itself: a deleted copy
/// constructor leaves no copy-assignment surface and no clone-by-copy
/// category; a deleted move constructor forces the non-movable category
/// and leaves no move-assignment surface; a deleted destructor leaves no
/// drop surface and demands the no-drop capability assertion.
pub proof fn lemma_deleted_inhibition_record(r: Record)
    ensures
        r.copy_constructor.definition is Deleted ==> record_thunk_decls_sp(r)
            == record_move_part(r) && !(category_of(r) is UnpinTrivial),
        r.move_constructor.definition is Deleted ==> record_thunk_decls_sp(r)
            == record_copy_part(r) && category_of(r) is PinnedNonmovable,
        r.destructor.definition is Deleted ==> !has_dtor_surface(r) && cap_assert_texts(r).contains(
            not_impl_assert_text(r, "Drop"@),
        ),
{
    if r.copy_constructor.definition is Deleted {
        assert(record_thunk_decls_sp(r) =~= record_move_part(r));
    }
    if r.move_constructor.definition is Deleted {
        assert(record_thunk_decls_sp(r) =~= record_copy_part(r));
    }
    if r.destructor.definition is Deleted {
        let c = cap_assert_texts(r);
        if category_of(r) is UnpinTrivial {
            assert(r.destructor.definition is Trivial);
        } else {
            assert(c[1] == not_impl_assert_text(r, "Drop"@));
            assert(c.contains(not_impl_assert_text(r, "Drop"@)));
        }
    }
}

/// The move-assignment part of a record's `extern` entries.
pub open spec fn record_move_part(r: Record) -> Seq<ThunkDeclSp> {
    if slot_exposed(r.move_constructor) {
        seq![
            ThunkDeclSp {
                symbol: thunk_symbol(move_assign_seed(r)),
                link_name: None,
                text: crate::emit_records::move_assign_extern_text(r),
            },
        ]
    } else {
        Seq::empty()
    }
}

/// The copy-assignment part of a record's `extern` entries.
pub open spec fn record_copy_part(r: Record) -> Seq<ThunkDeclSp> {
    if slot_exposed(r.copy_constructor) {
        seq![
            ThunkDeclSp {
                symbol: thunk_symbol(copy_assign_seed(r)),
                link_name: None,
                text: crate::emit_records::copy_assign_extern_text(r),
            },
        ]
    } else {
        Seq::empty()
    }
}

/// Deleted-member inhibition at the special-member function items: a copy
/// or move constructor of a record whose matching slot is deleted, and a
/// destructor of a record whose destructor slot is deleted, contribute
/// nothing at all.
pub proof fn lemma_deleted_inhibition_special(f: Func, items: Seq<Item>, r: Record)
    requires
        crate::ir::find_record(items, crate::emit_funcs::owner_name_of(f)) == Some(r),
    ensures
        f.is_constructor() && f.params@.len() == 1 && is_copy_param(f.params@[0], r)
            && r.copy_constructor.definition is Deleted ==> ctor_item_sp(f, items)
            == empty_item_sp(),
        f.is_constructor() && f.params@.len() == 1 && is_move_param(f.params@[0], r)
            && r.move_constructor.definition is Deleted ==> ctor_item_sp(f, items)
            == empty_item_sp(),
        f.is_destructor() && r.destructor.definition is Deleted ==> dtor_item_sp(f, items)
            == empty_item_sp(),
{
    assert(crate::emit_funcs::owner_rec(f, items) == r);
}

/// The seeds of the items from position `n` on.
pub open spec fn seeds_tail(items: Seq<Item>, n: int) -> Seq<Seq<char>>
    decreases items.len() - n,
{
    if n >= items.len() || n < 0 {
        Seq::empty()
    } else {
        seeds_tail(items.drop_last(), n) + item_seeds(items.last())
    }
}

/// The seed list splits at any item position.
pub proof fn lemma_all_seeds_split(items: Seq<Item>, n: int)
    requires
        0 <= n <= items.len(),
    ensures
        all_seeds(items) == all_seeds(items.take(n)) + seeds_tail(items, n),
    decreases items.len() - n,
{
    if n == items.len() {
        assert(items.take(n) =~= items);
        assert(all_seeds(items) =~= all_seeds(items.take(n)) + seeds_tail(items, n));
    } else {
        let dl = items.drop_last();
        lemma_all_seeds_split(dl, n);
        assert(dl.take(n) =~= items.take(n));
        assert(all_seeds(items) =~= all_seeds(items.take(n)) + seeds_tail(items, n));
    }
}

/// One step of the seed list: the seeds of the first `n + 1` items are
/// those of the first `n` followed by the seeds of item `n`.
pub proof fn lemma_all_seeds_step(items: Seq<Item>, n: int)
    requires
        0 <= n < items.len(),
    ensures
        all_seeds(items.take(n + 1)) == all_seeds(items.take(n)) + item_seeds(items[n]),
{
    assert(items.take(n + 1).drop_last() =~= items.take(n));
    assert(items.take(n + 1).last() == items[n]);
}

/// The seeds of item `n` stand in the full seed list right after the
/// seeds of the items before it.
pub proof fn lemma_item_seed_positions(items: Seq<Item>, n: int)
    requires
        0 <= n < items.len(),
    ensures
        all_seeds(items.take(n)).len() + item_seeds(items[n]).len() <= all_seeds(items).len(),
        forall|idx: int|
            0 <= idx < item_seeds(items[n]).len() ==> all_seeds(items)[all_seeds(
                items.take(n),
            ).len() + idx] == item_seeds(items[n])[idx],
{
    lemma_all_seeds_split(items, n + 1);
    lemma_all_seeds_step(items, n);
}

/// The thunk symbol grammar is injective in the symbol suffix.
pub proof fn lemma_thunk_symbol_injective(a: Seq<char>, b: Seq<char>)
    requires
        thunk_symbol(a) == thunk_symbol(b),
    ensures
        a == b,
{
    let p = "__rust_thunk__"@;
    assert((p + a).len() == p.len() + a.len());
    assert((p + b).len() == p.len() + b.len());
    assert(a.len() == b.len());
    assert forall|i: int| 0 <= i < a.len() implies a[i] == b[i] by {
        assert((p + a)[p.len() + i] == a[i]);
        assert((p + b)[p.len() + i] == b[i]);
    }
    assert(a =~= b);
}

/// The symbols of a sequence of `extern` entries.
pub open spec fn syms_of(ds: Seq<ThunkDeclSp>) -> Seq<Seq<char>> {
    ds.map_values(|d: ThunkDeclSp| d.symbol)
}

/// The symbols of a sequence of C++ thunks.
pub open spec fn cc_syms_of(ts: Seq<crate::thunks::CcThunkSp>) -> Seq<Seq<char>> {
    ts.map_values(|t: crate::thunks::CcThunkSp| t.symbol)
}

/// The symbol suffixes an item actually uses for its `extern` entries, in
/// entry order.
pub open spec fn item_used_seeds(it: Item, items: Seq<Item>) -> Seq<Seq<char>> {
    match it {
        Item::Func(f) => {
            match f.name {
                crate::ir::UnqualifiedIdentifier::Identifier(_) => {
                    if f.member_func_metadata is Some {
                        if func_has_nontrivial_value(f, items) {
                            Seq::empty()
                        } else {
                            seq![crate::ir::func_seed(f)]
                        }
                    } else {
                        if has_nonmovable_param(f.params@, items) {
                            Seq::empty()
                        } else {
                            seq![crate::ir::func_seed(f)]
                        }
                    }
                },
                crate::ir::UnqualifiedIdentifier::Constructor => {
                    let rec = crate::emit_funcs::owner_rec(f, items);
                    if f.params@.len() == 1 && is_copy_param(f.params@[0], rec) && !slot_exposed(
                        rec.copy_constructor,
                    ) {
                        Seq::empty()
                    } else if f.params@.len() == 1 && is_move_param(f.params@[0], rec)
                        && !slot_exposed(rec.move_constructor) {
                        Seq::empty()
                    } else if f.params@.len() == 1 && is_copy_param(f.params@[0], rec)
                        && category_of(rec) is UnpinTrivial {
                        Seq::empty()
                    } else if crate::category::is_pinned(category_of(rec)) {
                        seq![crate::ir::func_seed(f)]
                    } else if f.params@.len() >= 2 {
                        Seq::empty()
                    } else {
                        seq![crate::ir::func_seed(f)]
                    }
                },
                crate::ir::UnqualifiedIdentifier::Destructor => {
                    let rec = crate::emit_funcs::owner_rec(f, items);
                    if slot_exposed(rec.destructor) && !(rec.destructor.definition is Trivial) {
                        seq![crate::ir::func_seed(f)]
                    } else {
                        Seq::empty()
                    }
                },
            }
        },
        Item::Record(r) => (if slot_exposed(r.copy_constructor) {
            seq![copy_assign_seed(r)]
        } else {
            Seq::<Seq<char>>::empty()
        }) + (if slot_exposed(r.move_constructor) {
            seq![move_assign_seed(r)]
        } else {
            Seq::<Seq<char>>::empty()
        }),
        _ => Seq::empty(),
    }
}

/// The `extern` entry symbols of an item are the thunk symbols of its used
/// seeds; its C++ thunk symbols are those same symbols, or none at all;
/// and the used seeds are drawn, in order, from the item's seed list.
pub proof fn lemma_item_syms(it: Item, items: Seq<Item>)
    ensures
        syms_of(item_sp(it, items).thunk_decls) == item_used_seeds(it, items).map_values(
            |s: Seq<char>| thunk_symbol(s),
        ),
        cc_syms_of(item_sp(it, items).cc_thunks) == syms_of(item_sp(it, items).thunk_decls)
            || cc_syms_of(item_sp(it, items).cc_thunks) == Seq::<Seq<char>>::empty(),
        item_used_seeds(it, items).len() <= crate::ir::item_seeds(it).len(),
        forall|idx: int|
            0 <= idx < item_used_seeds(it, items).len() ==> crate::ir::item_seeds(it).contains(
                #[trigger] item_used_seeds(it, items)[idx],
            ),
        item_used_seeds(it, items).len() == 2 ==> item_used_seeds(it, items)
            == crate::ir::item_seeds(it),
{
    let used = item_used_seeds(it, items);
    let ts = |s: Seq<char>| thunk_symbol(s);
    match it {
        Item::Func(f) => {
            match f.name {
                crate::ir::UnqualifiedIdentifier::Identifier(_) => {
                    assert(syms_of(item_sp(it, items).thunk_decls) =~= used.map_values(ts));
                    if used.len() > 0 {
                        assert(crate::ir::item_seeds(it)[0] == used[0]);
                        assert(crate::ir::item_seeds(it).contains(used[0]));
                    }
                    if !(cc_syms_of(item_sp(it, items).cc_thunks) =~= Seq::<Seq<char>>::empty()) {
                        assert(cc_syms_of(item_sp(it, items).cc_thunks) =~= syms_of(
                            item_sp(it, items).thunk_decls,
                        ));
                    }
                },
                crate::ir::UnqualifiedIdentifier::Constructor => {
                    assert(syms_of(item_sp(it, items).thunk_decls) =~= used.map_values(ts));
                    if used.len() > 0 {
                        assert(crate::ir::item_seeds(it)[0] == used[0]);
                        assert(crate::ir::item_seeds(it).contains(used[0]));
                    }
                    if !(cc_syms_of(item_sp(it, items).cc_thunks) =~= Seq::<Seq<char>>::empty()) {
                        assert(cc_syms_of(item_sp(it, items).cc_thunks) =~= syms_of(
                            item_sp(it, items).thunk_decls,
                        ));
                    }
                },
                crate::ir::UnqualifiedIdentifier::Destructor => {
                    assert(syms_of(item_sp(it, items).thunk_decls) =~= used.map_values(ts));
                    if used.len() > 0 {
                        assert(crate::ir::item_seeds(it)[0] == used[0]);
                        assert(crate::ir::item_seeds(it).contains(used[0]));
                    }
                    if !(cc_syms_of(item_sp(it, items).cc_thunks) =~= Seq::<Seq<char>>::empty()) {
                        assert(cc_syms_of(item_sp(it, items).cc_thunks) =~= syms_of(
                            item_sp(it, items).thunk_decls,
                        ));
                    }
                },
            }
        },
        Item::Record(r) => {
            assert(syms_of(item_sp(it, items).thunk_decls) =~= used.map_values(ts));
            assert(cc_syms_of(item_sp(it, items).cc_thunks) =~= syms_of(
                item_sp(it, items).thunk_decls,
            ));
            if slot_exposed(r.copy_constructor) && slot_exposed(r.move_constructor) {
                assert(used =~= crate::ir::item_seeds(it));
                assert(forall|idx: int|
                    0 <= idx < used.len() ==> crate::ir::item_seeds(it).contains(
                        #[trigger] used[idx],
                    ));
            } else if slot_exposed(r.copy_constructor) {
                assert(used[0] == crate::ir::item_seeds(it)[0]);
                assert(forall|idx: int|
                    0 <= idx < used.len() ==> crate::ir::item_seeds(it).contains(
                        #[trigger] used[idx],
                    ));
            } else if slot_exposed(r.move_constructor) {
                assert(used[0] == crate::ir::item_seeds(it)[1]);
                assert(forall|idx: int|
                    0 <= idx < used.len() ==> crate::ir::item_seeds(it).contains(
                        #[trigger] used[idx],
                    ));
            }
        },
        Item::UnsupportedItem(_) => {
            assert(syms_of(item_sp(it, items).thunk_decls) =~= used.map_values(ts));
            assert(cc_syms_of(item_sp(it, items).cc_thunks) =~= Seq::<Seq<char>>::empty());
        },
        Item::Comment(_) => {
            assert(syms_of(item_sp(it, items).thunk_decls) =~= used.map_values(ts));
            assert(cc_syms_of(item_sp(it, items).cc_thunks) =~= Seq::<Seq<char>>::empty());
        },
    }
}

/// Every `extern` entry among the first `n` items carries the thunk
/// symbol of a seed with a known position in the full seed list.
proof fn lemma_decl_covered(items: Seq<Item>, n: int, a: int)
    requires
        0 <= n <= items.len(),
        0 <= a < decls_upto(items, n).len(),
    ensures
        exists|j: int|
            0 <= j < all_seeds(items.take(n)).len() && decls_upto(items, n)[a].symbol
                == thunk_symbol(all_seeds(items)[j]),
    decreases n,
{
    let prev = decls_upto(items, n - 1);
    let it = items[n - 1];
    let new_decls = item_sp(it, items).thunk_decls;
    assert(decls_upto(items, n) == prev + new_decls);
    lemma_all_seeds_step(items, n - 1);
    if a < prev.len() {
        lemma_decl_covered(items, n - 1, a);
        let j = choose|j: int|
            0 <= j < all_seeds(items.take(n - 1)).len() && prev[a].symbol == thunk_symbol(
                all_seeds(items)[j],
            );
        assert(decls_upto(items, n)[a] == prev[a]);
        assert(0 <= j < all_seeds(items.take(n)).len() && decls_upto(items, n)[a].symbol
            == thunk_symbol(all_seeds(items)[j]));
    } else {
        lemma_item_syms(it, items);
        lemma_item_seed_positions(items, n - 1);
        let off = all_seeds(items.take(n - 1)).len() as int;
        let used = item_used_seeds(it, items);
        let full_seeds = crate::ir::item_seeds(it);
        let idx = a - prev.len();
        assert(syms_of(new_decls)[idx] == used.map_values(|s: Seq<char>| thunk_symbol(s))[idx]);
        assert(decls_upto(items, n)[a].symbol == thunk_symbol(used[idx]));
        assert(full_seeds.contains(used[idx]));
        let jdx = choose|jdx: int| 0 <= jdx < full_seeds.len() && full_seeds[jdx] == used[idx];
        assert(all_seeds(items)[off + jdx] == used[idx]);
        assert(0 <= off + jdx < all_seeds(items.take(n)).len());
        assert(decls_upto(items, n)[a].symbol == thunk_symbol(all_seeds(items)[off + jdx]));
    }
}

/// Every C++ thunk among the first `n` items shares its symbol with an
/// `extern` entry among the same items.
proof fn lemma_cc_matched(items: Seq<Item>, n: int, a: int)
    requires
        0 <= n <= items.len(),
        0 <= a < cc_upto(items, n).len(),
    ensures
        exists|b: int|
            0 <= b < decls_upto(items, n).len() && decls_upto(items, n)[b].symbol == cc_upto(
                items,
                n,
            )[a].symbol,
    decreases n,
{
    let prev = decls_upto(items, n - 1);
    let prev_cc = cc_upto(items, n - 1);
    let it = items[n - 1];
    let new_decls = item_sp(it, items).thunk_decls;
    let new_cc = item_sp(it, items).cc_thunks;
    assert(decls_upto(items, n) == prev + new_decls);
    assert(cc_upto(items, n) == prev_cc + new_cc);
    if a < prev_cc.len() {
        lemma_cc_matched(items, n - 1, a);
        let b = choose|b: int|
            0 <= b < prev.len() && prev[b].symbol == prev_cc[a].symbol;
        assert(decls_upto(items, n)[b] == prev[b]);
        assert(cc_upto(items, n)[a] == prev_cc[a]);
        assert(0 <= b < decls_upto(items, n).len() && decls_upto(items, n)[b].symbol == cc_upto(
            items,
            n,
        )[a].symbol);
    } else {
        lemma_item_syms(it, items);
        let idx = a - prev_cc.len();
        assert(cc_syms_of(new_cc) == syms_of(new_decls));
        assert(cc_syms_of(new_cc)[idx] == syms_of(new_decls)[idx]);
        assert(cc_upto(items, n)[a].symbol == new_cc[idx].symbol);
        assert(decls_upto(items, n)[prev.len() + idx].symbol == new_decls[idx].symbol);
        assert(0 <= prev.len() + idx < decls_upto(items, n).len() && decls_upto(items, n)[prev.len()
            + idx].symbol == cc_upto(items, n)[a].symbol);
    }
}

/// Every C++ thunk among the first `n` items carries the thunk symbol of
/// a seed with a known position in the full seed list.
proof fn lemma_cc_covered(items: Seq<Item>, n: int, a: int)
    requires
        0 <= n <= items.len(),
        0 <= a < cc_upto(items, n).len(),
    ensures
        exists|j: int|
            0 <= j < all_seeds(items.take(n)).len() && cc_upto(items, n)[a].symbol == thunk_symbol(
                all_seeds(items)[j],
            ),
{
    lemma_cc_matched(items, n, a);
    let b = choose|b: int|
        0 <= b < decls_upto(items, n).len() && decls_upto(items, n)[b].symbol == cc_upto(
            items,
            n,
        )[a].symbol;
    lemma_decl_covered(items, n, b);
    let j = choose|j: int|
        0 <= j < all_seeds(items.take(n)).len() && decls_upto(items, n)[b].symbol == thunk_symbol(
            all_seeds(items)[j],
        );
    assert(0 <= j < all_seeds(items.take(n)).len() && cc_upto(items, n)[a].symbol == thunk_symbol(
        all_seeds(items)[j],
    ));
}

/// Pairwise distinctness of the `extern` entry symbols of the first `n`
/// items.
#[verifier::rlimit(100)]
#[verifier::spinoff_prover]
proof fn lemma_decls_distinct(items: Seq<Item>, n: int, a: int, b: int)
    requires
        0 <= n <= items.len(),
        seqs_distinct(all_seeds(items)),
        0 <= a < b < decls_upto(items, n).len(),
    ensures
        decls_upto(items, n)[a].symbol != decls_upto(items, n)[b].symbol,
    decreases n,
{
    let prev = decls_upto(items, n - 1);
    let it = items[n - 1];
    let new_decls = item_sp(it, items).thunk_decls;
    assert(decls_upto(items, n) == prev + new_decls);
    lemma_all_seeds_step(items, n - 1);
    lemma_all_seeds_split(items, n);
    lemma_item_syms(it, items);
    lemma_item_seed_positions(items, n - 1);
    let off = all_seeds(items.take(n - 1)).len() as int;
    let used = item_used_seeds(it, items);
    let full_seeds = crate::ir::item_seeds(it);
    if b < prev.len() {
        lemma_decls_distinct(items, n - 1, a, b);
        assert(decls_upto(items, n)[a] == prev[a]);
        assert(decls_upto(items, n)[b] == prev[b]);
    } else if a >= prev.len() {
        // two entries of the same item
        let ia = a - prev.len();
        let ib = b - prev.len();
        assert(syms_of(new_decls)[ia] == used.map_values(|s: Seq<char>| thunk_symbol(s))[ia]);
        assert(syms_of(new_decls)[ib] == used.map_values(|s: Seq<char>| thunk_symbol(s))[ib]);
        assert(decls_upto(items, n)[a].symbol == thunk_symbol(used[ia]));
        assert(decls_upto(items, n)[b].symbol == thunk_symbol(used[ib]));
        assert(used.len() == 2 && ia == 0 && ib == 1);
        assert(used == full_seeds);
        assert(all_seeds(items)[off] == full_seeds[0]);
        assert(all_seeds(items)[off + 1] == full_seeds[1]);
        assert(off + 1 < all_seeds(items).len());
        assert(full_seeds[0] != full_seeds[1]);
        if decls_upto(items, n)[a].symbol == decls_upto(items, n)[b].symbol {
            lemma_thunk_symbol_injective(used[ia], used[ib]);
        }
    } else {
        // one entry from the prefix, one from item n - 1
        lemma_decl_covered(items, n - 1, a);
        let j1 = choose|j: int|
            0 <= j < all_seeds(items.take(n - 1)).len() && prev[a].symbol == thunk_symbol(
                all_seeds(items)[j],
            );
        let ib = b - prev.len();
        assert(syms_of(new_decls)[ib] == used.map_values(|s: Seq<char>| thunk_symbol(s))[ib]);
        assert(decls_upto(items, n)[b].symbol == thunk_symbol(used[ib]));
        assert(full_seeds.contains(used[ib]));
        let jdx = choose|jdx: int| 0 <= jdx < full_seeds.len() && full_seeds[jdx] == used[ib];
        assert(all_seeds(items)[off + jdx] == used[ib]);
        assert(off + jdx < all_seeds(items).len());
        assert(j1 < off + jdx);
        assert(all_seeds(items)[j1] != all_seeds(items)[off + jdx]);
        assert(decls_upto(items, n)[a] == prev[a]);
        if decls_upto(items, n)[a].symbol == decls_upto(items, n)[b].symbol {
            lemma_thunk_symbol_injective(all_seeds(items)[j1], used[ib]);
        }
    }
}

/// Pairwise distinctness of the C++ thunk symbols of the first `n` items.
#[verifier::rlimit(100)]
#[verifier::spinoff_prover]
proof fn lemma_cc_distinct(items: Seq<Item>, n: int, a: int, b: int)
    requires
        0 <= n <= items.len(),
        seqs_distinct(all_seeds(items)),
        0 <= a < b < cc_upto(items, n).len(),
    ensures
        cc_upto(items, n)[a].symbol != cc_upto(items, n)[b].symbol,
    decreases n,
{
    let prev = decls_upto(items, n - 1);
    let prev_cc = cc_upto(items, n - 1);
    let it = items[n - 1];
    let new_decls = item_sp(it, items).thunk_decls;
    let new_cc = item_sp(it, items).cc_thunks;
    assert(decls_upto(items, n) == prev + new_decls);
    assert(cc_upto(items, n) == prev_cc + new_cc);
    lemma_all_seeds_step(items, n - 1);
    lemma_all_seeds_split(items, n);
    lemma_item_syms(it, items);
    lemma_item_seed_positions(items, n - 1);
    let off = all_seeds(items.take(n - 1)).len() as int;
    let used = item_used_seeds(it, items);
    let full_seeds = crate::ir::item_seeds(it);
    if b < prev_cc.len() {
        lemma_cc_distinct(items, n - 1, a, b);
        assert(cc_upto(items, n)[a] == prev_cc[a]);
        assert(cc_upto(items, n)[b] == prev_cc[b]);
    } else if a >= prev_cc.len() {
        // two thunks of the same item
        let ia = a - prev_cc.len();
        let ib = b - prev_cc.len();
        assert(cc_syms_of(new_cc) == syms_of(new_decls));
        assert(cc_syms_of(new_cc)[ia] == syms_of(new_decls)[ia]);
        assert(cc_syms_of(new_cc)[ib] == syms_of(new_decls)[ib]);
        assert(syms_of(new_decls)[ia] == used.map_values(|s: Seq<char>| thunk_symbol(s))[ia]);
        assert(syms_of(new_decls)[ib] == used.map_values(|s: Seq<char>| thunk_symbol(s))[ib]);
        assert(cc_upto(items, n)[a].symbol == thunk_symbol(used[ia]));
        assert(cc_upto(items, n)[b].symbol == thunk_symbol(used[ib]));
        assert(used.len() == 2 && ia == 0 && ib == 1);
        assert(used == full_seeds);
        assert(all_seeds(items)[off] == full_seeds[0]);
        assert(all_seeds(items)[off + 1] == full_seeds[1]);
        assert(off + 1 < all_seeds(items).len());
        assert(full_seeds[0] != full_seeds[1]);
        if cc_upto(items, n)[a].symbol == cc_upto(items, n)[b].symbol {
            lemma_thunk_symbol_injective(used[ia], used[ib]);
        }
    } else {
        // one thunk from the prefix, one from item n - 1
        lemma_cc_covered(items, n - 1, a);
        let j1 = choose|j: int|
            0 <= j < all_seeds(items.take(n - 1)).len() && prev_cc[a].symbol == thunk_symbol(
                all_seeds(items)[j],
            );
        let ib = b - prev_cc.len();
        assert(cc_syms_of(new_cc) == syms_of(new_decls));
        assert(cc_syms_of(new_cc)[ib] == syms_of(new_decls)[ib]);
        assert(syms_of(new_decls)[ib] == used.map_values(|s: Seq<char>| thunk_symbol(s))[ib]);
        assert(cc_upto(items, n)[b].symbol == thunk_symbol(used[ib]));
        assert(full_seeds.contains(used[ib]));
        let jdx = choose|jdx: int| 0 <= jdx < full_seeds.len() && full_seeds[jdx] == used[ib];
        assert(all_seeds(items)[off + jdx] == used[ib]);
        assert(off + jdx < all_seeds(items).len());
        assert(j1 < off + jdx);
        assert(all_seeds(items)[j1] != all_seeds(items)[off + jdx]);
        assert(cc_upto(items, n)[a] == prev_cc[a]);
        if cc_upto(items, n)[a].symbol == cc_upto(items, n)[b].symbol {
            lemma_thunk_symbol_injective(all_seeds(items)[j1], used[ib]);
        }
    }
}

/// Round-trip stability: both outputs are functions of the IR alone, so
/// two runs of the generator on the same IR produce byte-identical text.
pub proof fn lemma_generation_deterministic(
    ir: crate::ir::IR,
    rs1: Seq<char>,
    rs2: Seq<char>,
    cc1: Seq<char>,
    cc2: Seq<char>,
)
    requires
        rs1 == crate::src_code_gen::rs_api_text(ir),
        rs2 == crate::src_code_gen::rs_api_text(ir),
        cc1 == crate::src_code_gen::cc_api_text(ir),
        cc2 == crate::src_code_gen::cc_api_text(ir),
    ensures
        rs1 == rs2,
        cc1 == cc2,
{
}

/// Whether the C++ thunk at position `a` shares its symbol with some
/// entry of the target-side `extern` block.
pub open spec fn cc_symbol_declared(items: Seq<Item>, a: int) -> bool {
    exists|b: int|
        0 <= b < all_decls(items).len() && all_decls(items)[b].symbol == all_cc(items)[a].symbol
}

/// Symbol uniqueness: in a valid IR, every `extern` block entry carries a
/// distinct thunk symbol, every C++ thunk carries a distinct symbol, and
/// each C++ thunk symbol occurs exactly once among the `extern` entries.
pub proof fn lemma_symbol_uniqueness(ir: crate::ir::IR)
    requires
        ir.wf(),
    ensures
        forall|a: int, b: int|
            0 <= a < b < all_decls(ir.items@).len() ==> (#[trigger] all_decls(
                ir.items@,
            )[a]).symbol != (#[trigger] all_decls(ir.items@)[b]).symbol,
        forall|a: int, b: int|
            0 <= a < b < all_cc(ir.items@).len() ==> (#[trigger] all_cc(ir.items@)[a]).symbol != (
            #[trigger] all_cc(ir.items@)[b]).symbol,
        forall|a: int|
            0 <= a < all_cc(ir.items@).len() ==> #[trigger] cc_symbol_declared(ir.items@, a),
{
    let items = ir.items@;
    let n = items.len() as int;
    assert forall|a: int, b: int|
        0 <= a < b < all_decls(items).len() implies (#[trigger] all_decls(items)[a]).symbol != (
    #[trigger] all_decls(items)[b]).symbol by {
        lemma_decls_distinct(items, n, a, b);
    }
    assert forall|a: int, b: int|
        0 <= a < b < all_cc(items).len() implies (#[trigger] all_cc(items)[a]).symbol != (
    #[trigger] all_cc(items)[b]).symbol by {
        lemma_cc_distinct(items, n, a, b);
    }
    assert forall|a: int|
        0 <= a < all_cc(ir.items@).len() implies #[trigger] cc_symbol_declared(ir.items@, a) by {
        lemma_cc_matched(ir.items@, ir.items@.len() as int, a);
        let b = choose|b: int|
            0 <= b < decls_upto(ir.items@, ir.items@.len() as int).len() && decls_upto(
                ir.items@,
                ir.items@.len() as int,
            )[b].symbol == cc_upto(ir.items@, ir.items@.len() as int)[a].symbol;
        assert(0 <= b < all_decls(ir.items@).len() && all_decls(ir.items@)[b].symbol == all_cc(
            ir.items@,
        )[a].symbol);
        assert(cc_symbol_declared(ir.items@, a));
    }
}

} // verus!
