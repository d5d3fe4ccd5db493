//! The triviality analyzer: the per-record policy that decides which
//! surface grammar a record is bound with.

use vstd::prelude::*;
use crate::ir::Record;
use crate::ir::SpecialMemberDefinition;
use crate::ir::SpecialMemberFunc;
use crate::ir::AccessSpecifier;

verus! {

/// The binding category of a record.
///
/// `UnpinTrivial`: trivial ABI with all three special members trivial and
/// public; bound as a plain value type that is cloned by copy.
/// `UnpinNontrivial`: trivial ABI with some non-trivial special member;
/// bound as a value type with explicit special-member surfaces.
/// `Pinned`: non-trivial ABI; bound as a pinned, non-movable value type
/// with emplacement construction.
/// `PinnedNonmovable`: deleted move constructor; forced pinned regardless
/// of ABI triviality, and by-value passing is refused.
#[derive(Debug, PartialEq, Eq, Structural, Clone, Copy)]
pub enum BindingCategory {
    UnpinTrivial,
    UnpinNontrivial,
    Pinned,
    PinnedNonmovable,
}

/// Whether a special member slot is trivially defined and public.
pub open spec fn slot_trivial_public(s: SpecialMemberFunc) -> bool {
    s.definition is Trivial && s.access is Public
}

/// Whether a special member slot produces a surface at all: only public,
/// non-deleted slots do.
pub open spec fn slot_exposed(s: SpecialMemberFunc) -> bool {
    s.access is Public && !(s.definition is Deleted)
}

/// The binding category of `r`.
pub open spec fn category_of(r: Record) -> BindingCategory {
    if r.move_constructor.definition is Deleted {
        BindingCategory::PinnedNonmovable
    } else if !r.is_trivial_abi {
        BindingCategory::Pinned
    } else if slot_trivial_public(r.copy_constructor) && slot_trivial_public(r.move_constructor)
        && slot_trivial_public(r.destructor) {
        BindingCategory::UnpinTrivial
    } else {
        BindingCategory::UnpinNontrivial
    }
}

/// Whether the category binds the record as a pinned, non-movable type.
pub open spec fn is_pinned(c: BindingCategory) -> bool {
    c is Pinned || c is PinnedNonmovable
}

/// Whether a special member slot is trivially defined and public.
fn check_slot_trivial_public(s: &SpecialMemberFunc) -> (b: bool)
    ensures
        b == slot_trivial_public(*s),
{
    matches!(s.definition, SpecialMemberDefinition::Trivial) && matches!(
        s.access,
        AccessSpecifier::Public,
    )
}

/// Whether a special member slot produces a surface.
pub fn slot_is_exposed(s: &SpecialMemberFunc) -> (b: bool)
    ensures
        b == slot_exposed(*s),
{
    matches!(s.access, AccessSpecifier::Public) && !matches!(
        s.definition,
        SpecialMemberDefinition::Deleted,
    )
}

/// The binding category of `r`.
pub fn binding_category(r: &Record) -> (c: BindingCategory)
    ensures
        c == category_of(*r),
{
    if matches!(r.move_constructor.definition, SpecialMemberDefinition::Deleted) {
        BindingCategory::PinnedNonmovable
    } else if !r.is_trivial_abi {
        BindingCategory::Pinned
    } else if check_slot_trivial_public(&r.copy_constructor) && check_slot_trivial_public(
        &r.move_constructor,
    ) && check_slot_trivial_public(&r.destructor) {
        BindingCategory::UnpinTrivial
    } else {
        BindingCategory::UnpinNontrivial
    }
}

} // verus!
