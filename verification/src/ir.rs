//! The intermediate representation (IR) of C++ declarations that the
//! generator consumes: records, fields, functions, special member functions,
//! unsupported items and comments, together with the well-formedness
//! conditions that a valid IR satisfies.

use vstd::prelude::*;
use crate::strfmt::dec_str;
use crate::strfmt::push_dec;
use crate::strfmt::str_eq;

verus! {

/// A header file that the C++ companion translation unit must pull in.
#[derive(Debug, PartialEq, Eq, Hash, Clone)]
pub struct HeaderName {
    pub name: String,
}

/// The target-language view of one type occurrence. `name` is the verbatim
/// target-language spelling of the head; `type_params` recurse; `decl_id`
/// closes references to records.
#[derive(Debug, PartialEq, Eq, Hash)]
pub struct RsType {
    pub name: String,
    pub type_params: Vec<RsType>,
    pub decl_id: Option<DeclId>,
}

/// The C++ view of one type occurrence.
#[derive(Debug, PartialEq, Eq, Hash)]
pub struct CcType {
    pub name: String,
    pub is_const: bool,
    pub type_params: Vec<CcType>,
    pub decl_id: Option<DeclId>,
}

/// A paired target-side / C++-side view of one type occurrence.
#[derive(Debug, PartialEq, Eq, Hash)]
pub struct MappedType {
    pub rs_type: RsType,
    pub cc_type: CcType,
}

/// A bare source name.
#[derive(Debug, PartialEq, Eq, Hash, Clone)]
pub struct Identifier {
    pub identifier: String,
}

/// Opaque dense integer identifying a record within one IR.
#[derive(Debug, PartialEq, Eq, Hash, Clone, Copy)]
pub struct DeclId(pub usize);

/// Opaque string denoting the build unit that owns a declaration.
#[derive(Debug, PartialEq, Eq, Hash, Clone)]
pub struct Label(pub String);

/// A function name: a plain identifier, or a constructor or destructor of
/// the record named by the function's member metadata.
#[derive(Debug, PartialEq, Eq, Hash, Clone)]
pub enum UnqualifiedIdentifier {
    Identifier(Identifier),
    Constructor,
    Destructor,
}

/// The ref-qualifier of a C++ member function declaration.
#[derive(Debug, PartialEq, Eq, Hash, Clone)]
pub enum ReferenceQualification {
    LValue,
    RValue,
    Unqualified,
}

/// Metadata of an instance method: ref-qualifier, const-qualifier, virtual.
#[derive(Debug, PartialEq, Eq, Hash, Clone)]
pub struct InstanceMethodMetadata {
    pub reference: ReferenceQualification,
    pub is_const: bool,
    pub is_virtual: bool,
}

/// Metadata of a member function: the owning record plus, for instance
/// methods, the receiver metadata.
#[derive(Debug, PartialEq, Eq, Hash, Clone)]
pub struct MemberFuncMetadata {
    pub for_type: Identifier,
    pub instance_method_metadata: Option<InstanceMethodMetadata>,
}

/// One function parameter: its mapped type and its name.
#[derive(Debug, PartialEq, Eq, Hash)]
pub struct FuncParam {
    pub type_: MappedType,
    pub identifier: Identifier,
}

/// A C++ function declaration.
#[derive(Debug, PartialEq, Eq, Hash)]
pub struct Func {
    pub name: UnqualifiedIdentifier,
    pub decl_id: DeclId,
    pub owning_target: Label,
    pub mangled_name: String,
    pub doc_comment: Option<String>,
    pub return_type: MappedType,
    pub params: Vec<FuncParam>,
    pub is_inline: bool,
    pub member_func_metadata: Option<MemberFuncMetadata>,
}

/// A C++ access specifier.
#[derive(Debug, PartialEq, Eq, Hash, Clone, Copy)]
pub enum AccessSpecifier {
    Public,
    Protected,
    Private,
}

/// One record field: name, mapped type, access, and bit offset within the
/// record.
#[derive(Debug, PartialEq, Eq, Hash)]
pub struct Field {
    pub identifier: Identifier,
    pub doc_comment: Option<String>,
    pub type_: MappedType,
    pub access: AccessSpecifier,
    pub offset: usize,
}

/// How a special member function is defined.
#[derive(Debug, PartialEq, Eq, Hash, Clone)]
pub enum SpecialMemberDefinition {
    Trivial,
    NontrivialMembers,
    NontrivialSelf,
    Deleted,
}

/// One special member function slot: definition kind and access.
#[derive(Debug, PartialEq, Eq, Hash, Clone)]
pub struct SpecialMemberFunc {
    pub definition: SpecialMemberDefinition,
    pub access: AccessSpecifier,
}

/// A C++ record: name, identity, fields, layout, and the three special
/// member function slots.
#[derive(Debug, PartialEq, Eq, Hash)]
pub struct Record {
    pub identifier: Identifier,
    pub decl_id: DeclId,
    pub owning_target: Label,
    pub doc_comment: Option<String>,
    pub fields: Vec<Field>,
    pub size: usize,
    pub alignment: usize,
    pub copy_constructor: SpecialMemberFunc,
    pub move_constructor: SpecialMemberFunc,
    pub destructor: SpecialMemberFunc,
    pub is_trivial_abi: bool,
}

/// A source location: file, 1-based line, 1-based column.
#[derive(Debug, PartialEq, Eq, Hash, Clone)]
pub struct SourceLoc {
    pub filename: String,
    pub line: u64,
    pub column: u64,
}

/// An item the engine refuses to bind, with the human-readable reason.
#[derive(Debug, PartialEq, Eq, Hash, Clone)]
pub struct UnsupportedItem {
    pub name: String,
    pub message: String,
    pub source_loc: SourceLoc,
}

/// Free text emitted verbatim as a documentation block.
#[derive(Debug, PartialEq, Eq, Hash, Clone)]
pub struct Comment {
    pub text: String,
}

/// One IR item.
#[derive(Debug, PartialEq, Eq, Hash)]
pub enum Item {
    Func(Func),
    Record(Record),
    UnsupportedItem(UnsupportedItem),
    Comment(Comment),
}

/// A whole IR: headers, owning build unit, and the order-significant item
/// sequence.
#[derive(Debug, PartialEq, Eq, Hash)]
pub struct IR {
    pub used_headers: Vec<HeaderName>,
    pub current_target: Label,
    pub items: Vec<Item>,
}

impl From<String> for Label {
    fn from(label: String) -> (r: Self) {
        Label(label)
    }
}

impl vstd::std_specs::convert::FromSpecImpl<String> for Label {
    open spec fn obeys_from_spec() -> bool {
        true
    }

    open spec fn from_spec(label: String) -> Self {
        Label(label)
    }
}

impl From<Func> for Item {
    fn from(func: Func) -> (r: Item) {
        Item::Func(func)
    }
}

impl vstd::std_specs::convert::FromSpecImpl<Func> for Item {
    open spec fn obeys_from_spec() -> bool {
        true
    }

    open spec fn from_spec(func: Func) -> Item {
        Item::Func(func)
    }
}

impl From<Record> for Item {
    fn from(record: Record) -> (r: Item) {
        Item::Record(record)
    }
}

impl vstd::std_specs::convert::FromSpecImpl<Record> for Item {
    open spec fn obeys_from_spec() -> bool {
        true
    }

    open spec fn from_spec(record: Record) -> Item {
        Item::Record(record)
    }
}

impl From<UnsupportedItem> for Item {
    fn from(unsupported: UnsupportedItem) -> (r: Item) {
        Item::UnsupportedItem(unsupported)
    }
}

impl vstd::std_specs::convert::FromSpecImpl<UnsupportedItem> for Item {
    open spec fn obeys_from_spec() -> bool {
        true
    }

    open spec fn from_spec(unsupported: UnsupportedItem) -> Item {
        Item::UnsupportedItem(unsupported)
    }
}

impl From<Comment> for Item {
    fn from(comment: Comment) -> (r: Item) {
        Item::Comment(comment)
    }
}

impl vstd::std_specs::convert::FromSpecImpl<Comment> for Item {
    open spec fn obeys_from_spec() -> bool {
        true
    }

    open spec fn from_spec(comment: Comment) -> Item {
        Item::Comment(comment)
    }
}

/// Whether `n` is a power of two.
pub open spec fn is_pow2(n: nat) -> bool
    decreases n,
{
    if n == 0 {
        false
    } else if n == 1 {
        true
    } else {
        n % 2 == 0 && is_pow2(n / 2)
    }
}

impl Record {
    /// The record's source name, as characters.
    pub open spec fn name_chars(self) -> Seq<char> {
        self.identifier.identifier@
    }
}

impl Func {
    /// Whether the function is a constructor.
    pub open spec fn is_constructor(self) -> bool {
        self.name is Constructor
    }

    /// Whether the function is a destructor.
    pub open spec fn is_destructor(self) -> bool {
        self.name is Destructor
    }
}

/// The decl ids of the records among `items`, in order.
pub open spec fn record_decl_ids(items: Seq<Item>) -> Seq<usize>
    decreases items.len(),
{
    if items.len() == 0 {
        Seq::empty()
    } else {
        record_decl_ids(items.drop_last()) + (match items.last() {
            Item::Record(r) => seq![r.decl_id.0],
            _ => Seq::empty(),
        })
    }
}

/// The names of the records among `items`, in order.
pub open spec fn record_names(items: Seq<Item>) -> Seq<Seq<char>>
    decreases items.len(),
{
    if items.len() == 0 {
        Seq::empty()
    } else {
        record_names(items.drop_last()) + (match items.last() {
            Item::Record(r) => seq![r.name_chars()],
            _ => Seq::empty(),
        })
    }
}

/// The first record among `items` whose name is `name`.
pub open spec fn find_record(items: Seq<Item>, name: Seq<char>) -> Option<Record>
    decreases items.len(),
{
    if items.len() == 0 {
        Option::None
    } else if find_record(items.drop_last(), name) is Some {
        find_record(items.drop_last(), name)
    } else {
        match items.last() {
            Item::Record(r) => if r.name_chars() == name {
                Option::Some(r)
            } else {
                Option::None
            },
            _ => Option::None,
        }
    }
}

/// The first record among `items` whose decl id is `id`.
pub open spec fn find_record_by_id(items: Seq<Item>, id: usize) -> Option<Record>
    decreases items.len(),
{
    if items.len() == 0 {
        Option::None
    } else if find_record_by_id(items.drop_last(), id) is Some {
        find_record_by_id(items.drop_last(), id)
    } else {
        match items.last() {
            Item::Record(r) => if r.decl_id.0 == id {
                Option::Some(r)
            } else {
                Option::None
            },
            _ => Option::None,
        }
    }
}

/// A record name occurs among `items` exactly when the lookup by that name
/// succeeds.
pub proof fn lemma_find_record_some(items: Seq<Item>, name: Seq<char>)
    ensures
        (find_record(items, name) is Some) == record_names(items).contains(name),
    decreases items.len(),
{
    if items.len() == 0 {
    } else {
        let dl = items.drop_last();
        lemma_find_record_some(dl, name);
        let ns = record_names(items);
        let nd = record_names(dl);
        match items.last() {
            Item::Record(r) => {
                assert(ns == nd + seq![r.name_chars()]);
                if find_record(dl, name) is Some {
                    let i = choose|i: int| 0 <= i < nd.len() && nd[i] == name;
                    assert(ns[i] == name);
                    assert(ns.contains(name));
                } else if r.name_chars() == name {
                    assert(ns[nd.len() as int] == name);
                    assert(ns.contains(name));
                } else if ns.contains(name) {
                    let i = choose|i: int| 0 <= i < ns.len() && ns[i] == name;
                    if i < nd.len() {
                        assert(nd[i] == name);
                        assert(nd.contains(name));
                    } else {
                        assert(ns[i] == r.name_chars());
                    }
                }
            },
            _ => {
                assert(ns =~= nd);
                if find_record(dl, name) is Some {
                    let i = choose|i: int| 0 <= i < nd.len() && nd[i] == name;
                    assert(ns[i] == name);
                    assert(ns.contains(name));
                } else if ns.contains(name) {
                    let i = choose|i: int| 0 <= i < ns.len() && ns[i] == name;
                    assert(nd[i] == name);
                    assert(nd.contains(name));
                }
            },
        }
    }
}

/// Once a prefix of the items finds a record by name, the whole item list
/// finds the same record.
pub proof fn lemma_find_record_prefix(items: Seq<Item>, k: int, name: Seq<char>)
    requires
        0 <= k <= items.len(),
        find_record(items.take(k), name) is Some,
    ensures
        find_record(items, name) == find_record(items.take(k), name),
    decreases items.len(),
{
    if k == items.len() {
        assert(items.take(k) =~= items);
    } else {
        let dl = items.drop_last();
        assert(items.take(k) =~= dl.take(k));
        lemma_find_record_prefix(dl, k, name);
    }
}

/// Once a prefix of the items finds a record by id, the whole item list
/// finds the same record.
pub proof fn lemma_find_record_by_id_prefix(items: Seq<Item>, k: int, id: usize)
    requires
        0 <= k <= items.len(),
        find_record_by_id(items.take(k), id) is Some,
    ensures
        find_record_by_id(items, id) == find_record_by_id(items.take(k), id),
    decreases items.len(),
{
    if k == items.len() {
        assert(items.take(k) =~= items);
    } else {
        let dl = items.drop_last();
        assert(items.take(k) =~= dl.take(k));
        lemma_find_record_by_id_prefix(dl, k, id);
    }
}

impl IR {
    /// The first record among the items whose name is `name`.
    pub fn record_by_name(&self, name: &str) -> (r: Option<&Record>)
        ensures
            match r {
                Some(rec) => find_record(self.items@, name@) == Some(*rec),
                None => find_record(self.items@, name@) is None,
            },
    {
        let n = self.items.len();
        for k in 0..n
            invariant
                n == self.items@.len(),
                find_record(self.items@.take(k as int), name@) is None,
        {
            proof {
                assert(self.items@.take(k + 1).drop_last() =~= self.items@.take(k as int));
                assert(self.items@.take(k + 1).last() == self.items@[k as int]);
            }
            match &self.items[k] {
                Item::Record(rec) => {
                    if str_eq(rec.identifier.identifier.as_str(), name) {
                        proof {
                            assert(find_record(self.items@.take(k + 1), name@) == Some(*rec));
                            lemma_find_record_prefix(self.items@, k + 1, name@);
                        }
                        return Some(rec);
                    }
                },
                _ => {},
            }
        }
        proof {
            assert(self.items@.take(n as int) =~= self.items@);
        }
        None
    }

    /// The first record among the items whose decl id is `id`.
    pub fn record_by_id(&self, id: usize) -> (r: Option<&Record>)
        ensures
            match r {
                Some(rec) => find_record_by_id(self.items@, id) == Some(*rec),
                None => find_record_by_id(self.items@, id) is None,
            },
    {
        let n = self.items.len();
        for k in 0..n
            invariant
                n == self.items@.len(),
                find_record_by_id(self.items@.take(k as int), id) is None,
        {
            proof {
                assert(self.items@.take(k + 1).drop_last() =~= self.items@.take(k as int));
                assert(self.items@.take(k + 1).last() == self.items@[k as int]);
            }
            match &self.items[k] {
                Item::Record(rec) => {
                    if rec.decl_id.0 == id {
                        proof {
                            assert(find_record_by_id(self.items@.take(k + 1), id) == Some(*rec));
                            lemma_find_record_by_id_prefix(self.items@, k + 1, id);
                        }
                        return Some(rec);
                    }
                },
                _ => {},
            }
        }
        proof {
            assert(self.items@.take(n as int) =~= self.items@);
        }
        None
    }
}

/// The suffix, after the fixed thunk prefix, of the thunk symbol that a
/// function yields: the plain identifier for named functions, the mangled
/// name for constructors and destructors.
pub open spec fn func_seed(f: Func) -> Seq<char> {
    match f.name {
        UnqualifiedIdentifier::Identifier(id) => id.identifier@,
        _ => f.mangled_name@,
    }
}

/// The symbol suffix of the synthesized copy-assignment surface of `r`,
/// shaped like the Itanium mangling of `operator=(const R&)`.
pub open spec fn copy_assign_seed(r: Record) -> Seq<char> {
    "_ZN"@ + dec_str(r.name_chars().len()) + r.name_chars() + "aSERKS_"@
}

/// The symbol suffix of the synthesized move-assignment surface of `r`,
/// shaped like the Itanium mangling of `operator=(R&&)`.
pub open spec fn move_assign_seed(r: Record) -> Seq<char> {
    "_ZN"@ + dec_str(r.name_chars().len()) + r.name_chars() + "aSEOS_"@
}

/// The symbol suffixes that one item could yield.
pub open spec fn item_seeds(it: Item) -> Seq<Seq<char>> {
    match it {
        Item::Func(f) => seq![func_seed(f)],
        Item::Record(r) => seq![copy_assign_seed(r), move_assign_seed(r)],
        _ => Seq::empty(),
    }
}

/// Every symbol suffix that the items could yield, in item order.
pub open spec fn all_seeds(items: Seq<Item>) -> Seq<Seq<char>>
    decreases items.len(),
{
    if items.len() == 0 {
        Seq::empty()
    } else {
        all_seeds(items.drop_last()) + item_seeds(items.last())
    }
}

/// Pairwise distinctness of a sequence of character sequences.
pub open spec fn seqs_distinct(s: Seq<Seq<char>>) -> bool {
    forall|i: int, j: int| 0 <= i < j < s.len() ==> s[i] != s[j]
}

/// Pairwise distinctness of a sequence of machine integers.
pub open spec fn usizes_distinct(s: Seq<usize>) -> bool {
    forall|i: int, j: int| 0 <= i < j < s.len() ==> s[i] != s[j]
}

/// Whether every record reference in the target-side type view points at a
/// declared record.
pub open spec fn rs_type_refs_ok(t: RsType, ids: Seq<usize>) -> bool
    decreases t,
{
    &&& (t.decl_id matches Some(d) ==> ids.contains(d.0))
    &&& forall|i: int|
        0 <= i < t.type_params@.len() ==> rs_type_refs_ok(#[trigger] t.type_params@[i], ids)
}

/// Whether every record reference in the C++-side type view points at a
/// declared record.
pub open spec fn cc_type_refs_ok(t: CcType, ids: Seq<usize>) -> bool
    decreases t,
{
    &&& (t.decl_id matches Some(d) ==> ids.contains(d.0))
    &&& forall|i: int|
        0 <= i < t.type_params@.len() ==> cc_type_refs_ok(#[trigger] t.type_params@[i], ids)
}

/// Whether both views of a mapped type only reference declared records.
pub open spec fn mapped_type_refs_ok(t: MappedType, ids: Seq<usize>) -> bool {
    rs_type_refs_ok(t.rs_type, ids) && cc_type_refs_ok(t.cc_type, ids)
}

impl Field {
    /// Field well-formedness within a record of `size` bytes: a byte-aligned
    /// bit offset inside the record.
    pub open spec fn wf(self, size: nat) -> bool {
        &&& self.offset % 8 == 0
        &&& (self.offset as nat) < 8 * size || (size == 0 && self.offset == 0)
    }
}

impl Record {
    /// Record well-formedness: a named record with a power-of-two alignment,
    /// a size that is a multiple of the alignment, and byte-aligned field
    /// offsets that do not decrease in declaration order.
    pub open spec fn wf(self) -> bool {
        &&& self.name_chars().len() > 0
        &&& is_pow2(self.alignment as nat)
        &&& self.size as nat % self.alignment as nat == 0
        &&& self.size as nat <= usize::MAX as nat / 8
        &&& forall|i: int|
            0 <= i < self.fields@.len() ==> (#[trigger] self.fields@[i]).wf(self.size as nat)
        &&& forall|i: int|
            0 < i < self.fields@.len() ==> self.fields@[i - 1].offset <= (
            #[trigger] self.fields@[i]).offset
    }
}

impl Func {
    /// Function well-formedness within an IR whose record names are known:
    /// named functions carry a nonempty identifier, constructors and
    /// destructors a nonempty mangled name and member metadata, and member
    /// metadata points at a declared record.
    pub open spec fn wf(self, names: Seq<Seq<char>>) -> bool {
        &&& (self.name matches UnqualifiedIdentifier::Identifier(id)
            ==> id.identifier@.len() > 0)
        &&& (self.is_constructor() || self.is_destructor() ==> self.mangled_name@.len() > 0
            && self.member_func_metadata is Some)
        &&& (self.member_func_metadata matches Some(m) ==> names.contains(
            m.for_type.identifier@,
        ))
    }
}

impl Item {
    /// Item well-formedness given the record ids and names of the whole IR.
    pub open spec fn wf(self, ids: Seq<usize>, names: Seq<Seq<char>>) -> bool {
        match self {
            Item::Func(f) => {
                &&& f.wf(names)
                &&& mapped_type_refs_ok(f.return_type, ids)
                &&& forall|i: int|
                    0 <= i < f.params@.len() ==> mapped_type_refs_ok(
                        (#[trigger] f.params@[i]).type_,
                        ids,
                    )
            },
            Item::Record(r) => {
                &&& r.wf()
                &&& forall|i: int|
                    0 <= i < r.fields@.len() ==> mapped_type_refs_ok(
                        (#[trigger] r.fields@[i]).type_,
                        ids,
                    )
            },
            Item::UnsupportedItem(_) => true,
            Item::Comment(_) => true,
        }
    }
}

impl IR {
    /// IR validity: well-formed items whose type views reference declared
    /// records, distinct record identities and names, and distinct thunk
    /// symbol suffixes.
    pub open spec fn wf(self) -> bool {
        &&& forall|i: int|
            0 <= i < self.items@.len() ==> (#[trigger] self.items@[i]).wf(
                record_decl_ids(self.items@),
                record_names(self.items@),
            )
        &&& usizes_distinct(record_decl_ids(self.items@))
        &&& seqs_distinct(record_names(self.items@))
        &&& seqs_distinct(all_seeds(self.items@))
    }
}

impl IR {
    /// The functions among the IR's items, in order.
    pub fn functions(&self) -> (r: Vec<&Func>)
        ensures
            r@.len() == func_items(self.items@).len(),
            forall|i: int| 0 <= i < r@.len() ==> *r@[i] == func_items(self.items@)[i],
    {
        let mut out: Vec<&Func> = Vec::new();
        let n = self.items.len();
        for k in 0..n
            invariant
                n == self.items@.len(),
                out@.len() == func_items(self.items@.take(k as int)).len(),
                forall|i: int|
                    0 <= i < out@.len() ==> *out@[i] == func_items(self.items@.take(k as int))[i],
        {
            proof {
                assert(self.items@.take(k + 1).drop_last() =~= self.items@.take(k as int));
                assert(self.items@.take(k + 1).last() == self.items@[k as int]);
            }
            match &self.items[k] {
                Item::Func(f) => {
                    out.push(f);
                },
                _ => {},
            }
        }
        proof {
            assert(self.items@.take(n as int) =~= self.items@);
        }
        out
    }

    /// The records among the IR's items, in order.
    pub fn records(&self) -> (r: Vec<&Record>)
        ensures
            r@.len() == record_items(self.items@).len(),
            forall|i: int| 0 <= i < r@.len() ==> *r@[i] == record_items(self.items@)[i],
    {
        let mut out: Vec<&Record> = Vec::new();
        let n = self.items.len();
        for k in 0..n
            invariant
                n == self.items@.len(),
                out@.len() == record_items(self.items@.take(k as int)).len(),
                forall|i: int|
                    0 <= i < out@.len() ==> *out@[i] == record_items(self.items@.take(k as int))[i],
        {
            proof {
                assert(self.items@.take(k + 1).drop_last() =~= self.items@.take(k as int));
                assert(self.items@.take(k + 1).last() == self.items@[k as int]);
            }
            match &self.items[k] {
                Item::Record(r) => {
                    out.push(r);
                },
                _ => {},
            }
        }
        proof {
            assert(self.items@.take(n as int) =~= self.items@);
        }
        out
    }
}

/// The functions among `items`, in order.
pub open spec fn func_items(items: Seq<Item>) -> Seq<Func>
    decreases items.len(),
{
    if items.len() == 0 {
        Seq::empty()
    } else {
        func_items(items.drop_last()) + (match items.last() {
            Item::Func(f) => seq![f],
            _ => Seq::empty(),
        })
    }
}

/// The records among `items`, in order.
pub open spec fn record_items(items: Seq<Item>) -> Seq<Record>
    decreases items.len(),
{
    if items.len() == 0 {
        Seq::empty()
    } else {
        record_items(items.drop_last()) + (match items.last() {
            Item::Record(r) => seq![r],
            _ => Seq::empty(),
        })
    }
}

/// The thunk symbol suffix of `f`, as an owned string.
pub fn func_seed_string(f: &Func) -> (s: String)
    ensures
        s@ == func_seed(*f),
{
    match &f.name {
        UnqualifiedIdentifier::Identifier(id) => id.identifier.clone(),
        _ => f.mangled_name.clone(),
    }
}

/// The synthesized copy-assignment symbol suffix of `r`, as an owned string.
pub fn copy_assign_seed_string(r: &Record) -> (s: String)
    ensures
        s@ == copy_assign_seed(*r),
{
    let mut s: String = "_ZN".to_owned();
    let n: usize = r.identifier.identifier.as_str().unicode_len();
    push_dec(&mut s, n as u64);
    s.append(r.identifier.identifier.as_str());
    s.append("aSERKS_");
    s
}

/// The synthesized move-assignment symbol suffix of `r`, as an owned string.
pub fn move_assign_seed_string(r: &Record) -> (s: String)
    ensures
        s@ == move_assign_seed(*r),
{
    let mut s: String = "_ZN".to_owned();
    let n: usize = r.identifier.identifier.as_str().unicode_len();
    push_dec(&mut s, n as u64);
    s.append(r.identifier.identifier.as_str());
    s.append("aSEOS_");
    s
}

/// Whether `v` holds `x`.
fn contains_usize(v: &Vec<usize>, x: usize) -> (b: bool)
    ensures
        b == v@.contains(x),
{
    let n = v.len();
    for i in 0..n
        invariant
            n == v@.len(),
            forall|j: int| 0 <= j < i ==> v@[j] != x,
    {
        if v[i] == x {
            return true;
        }
    }
    false
}

/// Whether some element of `v` spells `s`.
fn contains_chars(v: &Vec<String>, s: &str) -> (b: bool)
    ensures
        b == v@.map_values(|x: String| x@).contains(s@),
{
    let ghost m = v@.map_values(|x: String| x@);
    let n = v.len();
    for i in 0..n
        invariant
            n == v@.len(),
            m == v@.map_values(|x: String| x@),
            forall|j: int| 0 <= j < i ==> m[j] != s@,
    {
        if str_eq(v[i].as_str(), s) {
            assert(m[i as int] == s@);
            return true;
        }
    }
    false
}

/// Whether the elements of `v` are pairwise distinct as character
/// sequences.
fn strings_distinct(v: &Vec<String>) -> (b: bool)
    ensures
        b == seqs_distinct(v@.map_values(|x: String| x@)),
{
    let ghost m = v@.map_values(|x: String| x@);
    let n = v.len();
    for i in 0..n
        invariant
            n == v@.len(),
            m == v@.map_values(|x: String| x@),
            forall|a: int, b: int| 0 <= a < b < n && a < i ==> m[a] != m[b],
    {
        for j in (i + 1)..n
            invariant
                i < n == v@.len(),
                m == v@.map_values(|x: String| x@),
                forall|a: int, b: int| 0 <= a < b < n && a < i ==> m[a] != m[b],
                forall|b: int| i < b < j ==> m[i as int] != m[b],
        {
            if str_eq(v[i].as_str(), v[j].as_str()) {
                assert(m[i as int] == m[j as int]);
                return false;
            }
        }
    }
    true
}

/// Whether the elements of `v` are pairwise distinct.
fn usizes_distinct_exec(v: &Vec<usize>) -> (b: bool)
    ensures
        b == usizes_distinct(v@),
{
    let n = v.len();
    for i in 0..n
        invariant
            n == v@.len(),
            forall|a: int, b: int| 0 <= a < b < n && a < i ==> v@[a] != v@[b],
    {
        for j in (i + 1)..n
            invariant
                i < n == v@.len(),
                forall|a: int, b: int| 0 <= a < b < n && a < i ==> v@[a] != v@[b],
                forall|b: int| i < b < j ==> v@[i as int] != v@[b],
        {
            if v[i] == v[j] {
                return false;
            }
        }
    }
    true
}

/// Whether `n` is a power of two.
fn check_pow2(n: usize) -> (b: bool)
    ensures
        b == is_pow2(n as nat),
    decreases n,
{
    if n == 0 {
        false
    } else if n == 1 {
        true
    } else if n % 2 != 0 {
        false
    } else {
        check_pow2(n / 2)
    }
}

/// Whether every record reference under `t`'s target-side view is declared.
fn check_rs_type(t: &RsType, ids: &Vec<usize>) -> (b: bool)
    ensures
        b == rs_type_refs_ok(*t, ids@),
    decreases *t,
{
    match &t.decl_id {
        Option::Some(d) => {
            if !contains_usize(ids, d.0) {
                return false;
            }
        },
        Option::None => {},
    }
    let n = t.type_params.len();
    for i in 0..n
        invariant
            n == t.type_params@.len(),
            t.decl_id matches Some(d) ==> ids@.contains(d.0),
            forall|j: int| 0 <= j < i ==> rs_type_refs_ok(#[trigger] t.type_params@[j], ids@),
    {
        if !check_rs_type(&t.type_params[i], ids) {
            return false;
        }
    }
    true
}

/// Whether every record reference under `t`'s C++-side view is declared.
fn check_cc_type(t: &CcType, ids: &Vec<usize>) -> (b: bool)
    ensures
        b == cc_type_refs_ok(*t, ids@),
    decreases *t,
{
    match &t.decl_id {
        Option::Some(d) => {
            if !contains_usize(ids, d.0) {
                return false;
            }
        },
        Option::None => {},
    }
    let n = t.type_params.len();
    for i in 0..n
        invariant
            n == t.type_params@.len(),
            t.decl_id matches Some(d) ==> ids@.contains(d.0),
            forall|j: int| 0 <= j < i ==> cc_type_refs_ok(#[trigger] t.type_params@[j], ids@),
    {
        if !check_cc_type(&t.type_params[i], ids) {
            return false;
        }
    }
    true
}

/// Whether both views of `t` only reference declared records.
fn check_mapped_type(t: &MappedType, ids: &Vec<usize>) -> (b: bool)
    ensures
        b == mapped_type_refs_ok(*t, ids@),
{
    check_rs_type(&t.rs_type, ids) && check_cc_type(&t.cc_type, ids)
}

/// A record size within bounds also has its bit count within bounds.
pub proof fn lemma_size_bits_fit(s: usize)
    requires
        s as nat <= usize::MAX as nat / 8,
    ensures
        8 * (s as nat) <= usize::MAX as nat,
{
    vstd::arithmetic::div_mod::lemma_fundamental_div_mod(usize::MAX as int, 8);
}

/// Whether `r` satisfies the record well-formedness conditions.
#[verifier::rlimit(30)]
fn check_record(r: &Record) -> (b: bool)
    ensures
        b == r.wf(),
{
    if r.identifier.identifier.as_str().is_empty() {
        return false;
    }
    if !check_pow2(r.alignment) {
        return false;
    }
    if r.size % r.alignment != 0 {
        return false;
    }
    if r.size > usize::MAX / 8 {
        return false;
    }
    proof {
        lemma_size_bits_fit(r.size);
    }
    let bits: usize = 8 * r.size;
    let n = r.fields.len();
    for i in 0..n
        invariant
            n == r.fields@.len(),
            bits == 8 * (r.size as nat),
            forall|j: int| 0 <= j < i ==> (#[trigger] r.fields@[j]).wf(r.size as nat),
            forall|j: int| 0 < j < i ==> r.fields@[j - 1].offset <= (#[trigger] r.fields@[j]).offset,
    {
        let f = &r.fields[i];
        if f.offset % 8 != 0 {
            return false;
        }
        if !(f.offset < bits || (r.size == 0 && f.offset == 0)) {
            return false;
        }
        if i > 0 {
            if f.offset < r.fields[i - 1].offset {
                return false;
            }
        }
    }
    true
}

/// Whether `f` satisfies the function well-formedness conditions, given the
/// record names of the IR.
fn check_func(f: &Func, names: &Vec<String>) -> (b: bool)
    ensures
        b == f.wf(names@.map_values(|x: String| x@)),
{
    match &f.name {
        UnqualifiedIdentifier::Identifier(id) => {
            if id.identifier.as_str().is_empty() {
                return false;
            }
        },
        _ => {
            if f.mangled_name.as_str().is_empty() {
                return false;
            }
            match &f.member_func_metadata {
                Option::Some(_) => {},
                Option::None => {
                    return false;
                },
            }
        },
    }
    match &f.member_func_metadata {
        Option::Some(m) => {
            if !contains_chars(names, m.for_type.identifier.as_str()) {
                return false;
            }
        },
        Option::None => {},
    }
    true
}

/// Whether every parameter type of `f` only references declared records.
fn check_param_types(f: &Func, ids: &Vec<usize>) -> (b: bool)
    ensures
        b == (forall|i: int|
            0 <= i < f.params@.len() ==> mapped_type_refs_ok((#[trigger] f.params@[i]).type_, ids@)),
{
    let n = f.params.len();
    for i in 0..n
        invariant
            n == f.params@.len(),
            forall|j: int|
                0 <= j < i ==> mapped_type_refs_ok((#[trigger] f.params@[j]).type_, ids@),
    {
        if !check_mapped_type(&f.params[i].type_, ids) {
            assert(!mapped_type_refs_ok(f.params@[i as int].type_, ids@));
            return false;
        }
    }
    true
}

/// Whether every field type of `r` only references declared records.
fn check_field_types(r: &Record, ids: &Vec<usize>) -> (b: bool)
    ensures
        b == (forall|i: int|
            0 <= i < r.fields@.len() ==> mapped_type_refs_ok((#[trigger] r.fields@[i]).type_, ids@)),
{
    let n = r.fields.len();
    for i in 0..n
        invariant
            n == r.fields@.len(),
            forall|j: int|
                0 <= j < i ==> mapped_type_refs_ok((#[trigger] r.fields@[j]).type_, ids@),
    {
        if !check_mapped_type(&r.fields[i].type_, ids) {
            assert(!mapped_type_refs_ok(r.fields@[i as int].type_, ids@));
            return false;
        }
    }
    true
}

/// Whether `it` is well-formed given the record ids and names of the IR.
fn check_item(it: &Item, ids: &Vec<usize>, names: &Vec<String>) -> (b: bool)
    ensures
        b == it.wf(ids@, names@.map_values(|x: String| x@)),
{
    match it {
        Item::Func(f) => {
            let a = check_func(f, names);
            let b = check_mapped_type(&f.return_type, ids);
            let c = check_param_types(f, ids);
            a && b && c
        },
        Item::Record(r) => {
            let a = check_record(r);
            let b = check_field_types(r, ids);
            a && b
        },
        Item::UnsupportedItem(_) => true,
        Item::Comment(_) => true,
    }
}

impl IR {
    /// Whether this IR is valid input for the generator.
    pub fn well_formed(&self) -> (b: bool)
        ensures
            b == self.wf(),
    {
        let n = self.items.len();
        let mut ids: Vec<usize> = Vec::new();
        let mut names: Vec<String> = Vec::new();
        let mut seeds: Vec<String> = Vec::new();
        for k in 0..n
            invariant
                n == self.items@.len(),
                ids@ == record_decl_ids(self.items@.take(k as int)),
                names@.map_values(|x: String| x@) == record_names(self.items@.take(k as int)),
                seeds@.map_values(|x: String| x@) == all_seeds(self.items@.take(k as int)),
        {
            proof {
                assert(self.items@.take(k + 1).drop_last() =~= self.items@.take(k as int));
                assert(self.items@.take(k + 1).last() == self.items@[k as int]);
            }
            match &self.items[k] {
                Item::Func(f) => {
                    seeds.push(func_seed_string(f));
                    proof {
                        assert(seeds@.map_values(|x: String| x@) =~= all_seeds(
                            self.items@.take(k + 1),
                        ));
                        assert(names@.map_values(|x: String| x@) =~= record_names(
                            self.items@.take(k + 1),
                        ));
                    }
                },
                Item::Record(r) => {
                    ids.push(r.decl_id.0);
                    names.push(r.identifier.identifier.clone());
                    seeds.push(copy_assign_seed_string(r));
                    seeds.push(move_assign_seed_string(r));
                    proof {
                        assert(ids@ =~= record_decl_ids(self.items@.take(k + 1)));
                        assert(names@.map_values(|x: String| x@) =~= record_names(
                            self.items@.take(k + 1),
                        ));
                        assert(seeds@.map_values(|x: String| x@) =~= all_seeds(
                            self.items@.take(k + 1),
                        ));
                    }
                },
                _ => {
                    proof {
                        assert(seeds@.map_values(|x: String| x@) =~= all_seeds(
                            self.items@.take(k + 1),
                        ));
                        assert(names@.map_values(|x: String| x@) =~= record_names(
                            self.items@.take(k + 1),
                        ));
                    }
                },
            }
        }
        proof {
            assert(self.items@.take(n as int) =~= self.items@);
        }
        if !usizes_distinct_exec(&ids) {
            return false;
        }
        if !strings_distinct(&names) {
            return false;
        }
        if !strings_distinct(&seeds) {
            return false;
        }
        for k in 0..n
            invariant
                n == self.items@.len(),
                ids@ == record_decl_ids(self.items@),
                names@.map_values(|x: String| x@) == record_names(self.items@),
                usizes_distinct(record_decl_ids(self.items@)),
                seqs_distinct(record_names(self.items@)),
                seqs_distinct(all_seeds(self.items@)),
                forall|j: int|
                    0 <= j < k ==> (#[trigger] self.items@[j]).wf(
                        record_decl_ids(self.items@),
                        record_names(self.items@),
                    ),
        {
            if !check_item(&self.items[k], &ids, &names) {
                return false;
            }
        }
        true
    }
}

} // verus!
