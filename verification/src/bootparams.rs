//! Decoding of boot parameters from the platform device/property tree.
//!
//! The platform store reports, for each property of the root node, a declared
//! type code and, per type, either an element count or a negative failure
//! sentinel.  [`DiProp`] captures those answers for one property as plain
//! values; [`DiNode`] captures the root node.  The decoder resolves each
//! property's runtime type with a deliberate fallback heuristic for the
//! "unknown" type, and only single-element string-typed properties
//! contribute to the resulting name-to-value mapping.

use vstd::prelude::*;

use crate::strmap::StrMap;
use vstd::string::StringExecFns;

verus! {

/// Declared type code: a present-but-valueless flag.
pub const DI_PROP_TYPE_BOOLEAN: i32 = 0;

/// Declared type code: 32-bit integers.
pub const DI_PROP_TYPE_INT: i32 = 1;

/// Declared type code: character strings.
pub const DI_PROP_TYPE_STRING: i32 = 2;

/// Declared type code: raw bytes.
pub const DI_PROP_TYPE_BYTE: i32 = 3;

/// Declared type code: untagged data of unknown type.
pub const DI_PROP_TYPE_UNKNOWN: i32 = 4;

/// Declared type code: the undefined-iteration marker.
pub const DI_PROP_TYPE_UNDEF_IT: i32 = 5;

/// Declared type code: 64-bit integers.
pub const DI_PROP_TYPE_INT64: i32 = 6;

/// The expected name of the tree's root node.
pub const ROOT_NODE_NAME: &'static str = "i86pc";

/// One property record of the root node, as the platform store answers for
/// it: its name, its declared type code, and the outcome of each typed
/// accessor.  A negative count (for strings: `None`) is the accessor's
/// failure sentinel; string data is materialized because only string
/// elements are ever read.
#[derive(Debug, PartialEq)]
pub struct DiProp {
    /// The property's name.
    pub name: String,
    /// The declared type code reported for the property.
    pub declared_type: i32,
    /// The string-array accessor's answer: `None` on failure, otherwise the
    /// extracted elements.
    pub strings: Option<Vec<String>>,
    /// The int32 accessor's answer: an element count, or negative on failure.
    pub ints: i32,
    /// The int64 accessor's answer.
    pub int64s: i32,
    /// The byte-array accessor's answer.
    pub bytes: i32,
    /// The raw, untyped accessor's answer.
    pub rawdata: i32,
}

impl DiProp {
    /// The string element count must be reportable as an `i32`, as the
    /// platform accessor reports it.
    pub open spec fn wf(self) -> bool {
        self.strings matches Some(v) ==> v.len() <= i32::MAX
    }
}

/// The root node of the tree: its name and its property list.
#[derive(Debug, PartialEq)]
pub struct DiNode {
    /// The node's name.
    pub name: String,
    /// The node's properties, in list order.
    pub props: Vec<DiProp>,
}

impl DiNode {
    /// Every property record is well-formed.
    pub open spec fn wf(self) -> bool {
        forall|i: int| 0 <= i < self.props.len() ==> self.props[i].wf()
    }
}

/// The outcome of type resolution for one property: a resolved type code
/// with the element count the winning accessor reported, or nothing when the
/// final raw-bytes attempt fails.
#[derive(Debug, PartialEq, Eq, Structural)]
pub enum Resolution {
    /// Resolution settled on `ptype` with `count` elements.  In the fallback
    /// from "unknown" to int32 the count is recorded even when that attempt
    /// itself failed, so there it may be negative.
    Resolved { ptype: i32, count: i32 },
    /// No interpretation succeeded; the property is treated as absent.
    Unresolved,
}

/// The string accessor's element count: the failure sentinel, or the number
/// of extracted elements.
pub open spec fn spec_strings_count(p: DiProp) -> i32 {
    match p.strings {
        Some(v) => v.len() as i32,
        None => -1i32,
    }
}

/// Whether the string-array attempt on an "unknown"-typed property wins the
/// heuristic: at least one element, and the first element non-empty.
pub open spec fn spec_string_attempt_ok(p: DiProp) -> bool {
    p.strings matches Some(v) && v.len() > 0 && v[0]@.len() > 0
}

/// The final untyped attempt: failure propagates, zero elements resolve as a
/// valueless boolean flag, and a positive count resolves as raw unknown data.
pub open spec fn spec_raw_fallback(p: DiProp) -> Resolution {
    if p.rawdata < 0 {
        Resolution::Unresolved
    } else if p.rawdata == 0 {
        Resolution::Resolved { ptype: DI_PROP_TYPE_BOOLEAN, count: 0 }
    } else {
        Resolution::Resolved { ptype: DI_PROP_TYPE_UNKNOWN, count: p.rawdata }
    }
}

/// After a type-specific accessor answered `count` for declared type `t`: a
/// positive count completes resolution, a negative count is the sole failure
/// signal and short-circuits, and zero elements fall through to the raw
/// attempt.
pub open spec fn spec_after_typed(p: DiProp, t: i32, count: i32) -> Resolution {
    if count > 0 {
        Resolution::Resolved { ptype: t, count }
    } else if count < 0 {
        Resolution::Unresolved
    } else {
        spec_raw_fallback(p)
    }
}

/// Type resolution for one property.
///
/// Boolean and undefined-iteration properties resolve immediately with zero
/// elements.  The four data-bearing declared types consult their own
/// accessor.  An "unknown" declared type first tries the string accessor:
/// a non-empty first element resolves the property as a string; otherwise
/// the int32 accessor is consulted and the type is recorded as int32
/// whatever that attempt returned, with no further raw-bytes attempt.  Any
/// other declared code goes straight to the raw attempt.
pub open spec fn spec_prop_type_guess(p: DiProp) -> Resolution {
    let t = p.declared_type;
    if t == DI_PROP_TYPE_UNDEF_IT || t == DI_PROP_TYPE_BOOLEAN {
        Resolution::Resolved { ptype: t, count: 0 }
    } else if t == DI_PROP_TYPE_INT {
        spec_after_typed(p, t, p.ints)
    } else if t == DI_PROP_TYPE_INT64 {
        spec_after_typed(p, t, p.int64s)
    } else if t == DI_PROP_TYPE_BYTE {
        spec_after_typed(p, t, p.bytes)
    } else if t == DI_PROP_TYPE_STRING {
        spec_after_typed(p, t, spec_strings_count(p))
    } else if t == DI_PROP_TYPE_UNKNOWN {
        if spec_string_attempt_ok(p) {
            Resolution::Resolved { ptype: DI_PROP_TYPE_STRING, count: spec_strings_count(p) }
        } else {
            Resolution::Resolved { ptype: DI_PROP_TYPE_INT, count: p.ints }
        }
    } else {
        spec_raw_fallback(p)
    }
}

/// The decoded value of a property: its name and its single string element,
/// produced exactly when resolution yields type string with one element.
pub open spec fn spec_decoded(p: DiProp) -> Option<(Seq<char>, Seq<char>)> {
    match (spec_prop_type_guess(p), p.strings) {
        (Resolution::Resolved { ptype, count }, Some(v)) => if ptype == DI_PROP_TYPE_STRING
            && count == 1 {
            Some((p.name@, v[0]@))
        } else {
            None
        },
        _ => None,
    }
}

/// The mapping folded from a property list: each decoded (name, value) pair
/// is inserted in list order, so a later property overwrites an earlier one
/// with the same name.
pub open spec fn spec_fold_props(props: Seq<DiProp>) -> Map<Seq<char>, Seq<char>>
    decreases props.len(),
{
    if props.len() == 0 {
        Map::empty()
    } else {
        let m = spec_fold_props(props.drop_last());
        match spec_decoded(props.last()) {
            Some(kv) => m.insert(kv.0, kv.1),
            None => m,
        }
    }
}

/// The result mapping of a root node: empty unless the node carries the
/// expected platform name, otherwise the fold of its property list.
pub open spec fn spec_root_map(node: DiNode) -> Map<Seq<char>, Seq<char>> {
    if node.name@ == ROOT_NODE_NAME@ {
        spec_fold_props(node.props@)
    } else {
        Map::empty()
    }
}

/// Failure of the whole operation: the traversal handle could not be
/// acquired at all.  The caller owning the process converts this into a
/// non-zero exit after printing [`BootparamsError::message`].
#[derive(Debug, PartialEq, Eq, Structural)]
pub enum BootparamsError {
    /// The platform store handed back its failure sentinel instead of a
    /// tree handle.
    InitFailed,
}

impl BootparamsError {
    /// The diagnostic to emit before terminating.
    pub fn message(&self) -> (m: &'static str)
        ensures
            m@ == "di_init() failed"@,
    {
        "di_init() failed"
    }
}

fn raw_fallback(p: &DiProp) -> (r: Resolution)
    ensures
        r == spec_raw_fallback(*p),
{
    if p.rawdata < 0 {
        Resolution::Unresolved
    } else if p.rawdata == 0 {
        Resolution::Resolved { ptype: DI_PROP_TYPE_BOOLEAN, count: 0 }
    } else {
        Resolution::Resolved { ptype: DI_PROP_TYPE_UNKNOWN, count: p.rawdata }
    }
}

fn after_typed(p: &DiProp, t: i32, count: i32) -> (r: Resolution)
    ensures
        r == spec_after_typed(*p, t, count),
{
    if count > 0 {
        Resolution::Resolved { ptype: t, count }
    } else if count < 0 {
        Resolution::Unresolved
    } else {
        raw_fallback(p)
    }
}

fn strings_count(p: &DiProp) -> (r: i32)
    requires
        p.wf(),
    ensures
        r == spec_strings_count(*p),
{
    match &p.strings {
        Some(v) => v.len() as i32,
        None => -1,
    }
}

/// Resolve the runtime type of one property and the element count of the
/// winning accessor, applying the string-first disambiguation heuristic
/// when the declared type is "unknown".
pub fn prop_type_guess(p: &DiProp) -> (r: Resolution)
    requires
        p.wf(),
    ensures
        r == spec_prop_type_guess(*p),
{
    let t = p.declared_type;
    if t == DI_PROP_TYPE_UNDEF_IT || t == DI_PROP_TYPE_BOOLEAN {
        Resolution::Resolved { ptype: t, count: 0 }
    } else if t == DI_PROP_TYPE_INT {
        after_typed(p, t, p.ints)
    } else if t == DI_PROP_TYPE_INT64 {
        after_typed(p, t, p.int64s)
    } else if t == DI_PROP_TYPE_BYTE {
        after_typed(p, t, p.bytes)
    } else if t == DI_PROP_TYPE_STRING {
        let c = strings_count(p);
        after_typed(p, t, c)
    } else if t == DI_PROP_TYPE_UNKNOWN {
        let mut string_wins = false;
        match &p.strings {
            Some(v) => {
                if v.len() > 0 && !v[0].as_str().is_empty() {
                    string_wins = true;
                }
            },
            None => {},
        }
        if string_wins {
            let c = strings_count(p);
            Resolution::Resolved { ptype: DI_PROP_TYPE_STRING, count: c }
        } else {
            Resolution::Resolved { ptype: DI_PROP_TYPE_INT, count: p.ints }
        }
    } else {
        raw_fallback(p)
    }
}

/// Decode one property: its name and string value when it resolves as a
/// single-element string, and nothing otherwise.
pub fn read_prop(p: &DiProp) -> (r: Option<(String, String)>)
    requires
        p.wf(),
    ensures
        match r {
            Some(kv) => spec_decoded(*p) == Some((kv.0@, kv.1@)),
            None => spec_decoded(*p) is None,
        },
{
    let res = prop_type_guess(p);
    if let Resolution::Resolved { ptype, count } = res {
        if ptype == DI_PROP_TYPE_STRING && count == 1 {
            if let Some(v) = &p.strings {
                if v.len() == 1 {
                    let name = p.name.clone();
                    let value = v[0].clone();
                    return Some((name, value));
                }
            }
        }
    }
    None
}

/// Fold every decodable property of the root node into a name-to-value
/// mapping, provided the node carries the expected platform name; any other
/// name yields the empty mapping.
pub fn read_root_node(node: &DiNode) -> (r: StrMap)
    requires
        node.wf(),
    ensures
        r@ == spec_root_map(*node),
{
    let mut map = StrMap::new();
    let expected = String::from_str(ROOT_NODE_NAME);
    if !(node.name == expected) {
        return map;
    }
    let n = node.props.len();
    let mut i: usize = 0;
    while i < n
        invariant
            i <= n,
            n == node.props.len(),
            node.wf(),
            map@ == spec_fold_props(node.props@.take(i as int)),
        decreases n - i,
    {
        proof {
            assert(node.props@.take(i as int + 1).drop_last() =~= node.props@.take(i as int));
            assert(node.props@.take(i as int + 1).last() == node.props@[i as int]);
        }
        let decoded = read_prop(&node.props[i]);
        if let Some(kv) = decoded {
            map.insert(kv.0, kv.1);
        }
        i = i + 1;
    }
    proof {
        assert(node.props@.take(n as int) =~= node.props@);
    }
    map
}

/// The whole operation over one acquisition attempt of the tree: `None`
/// models the store's failure sentinel and is the sole, fatal error; an
/// acquired root is enumerated into its result mapping.
pub fn get_bootparams(root: Option<&DiNode>) -> (r: Result<StrMap, BootparamsError>)
    requires
        root matches Some(n) ==> n.wf(),
    ensures
        root is None <==> r is Err,
        root is None ==> r == Result::<StrMap, BootparamsError>::Err(BootparamsError::InitFailed),
        (root matches Some(n) ==> (r matches Ok(m) && m@ == spec_root_map(*n))),
        (root matches Some(n) && n.name@ != ROOT_NODE_NAME@ ==> (r matches Ok(m) && m@
            == Map::<Seq<char>, Seq<char>>::empty())),
{
    match root {
        None => Err(BootparamsError::InitFailed),
        Some(node) => Ok(read_root_node(node)),
    }
}

/// Properties declared as boolean flags or as the undefined-iteration
/// marker resolve with zero elements of that type and never produce a
/// decoded value.
pub proof fn lemma_flag_types_not_decoded(p: DiProp)
    requires
        p.declared_type == DI_PROP_TYPE_BOOLEAN || p.declared_type == DI_PROP_TYPE_UNDEF_IT,
    ensures
        spec_prop_type_guess(p) == (Resolution::Resolved { ptype: p.declared_type, count: 0 }),
        spec_decoded(p) is None,
{
}

/// An "unknown"-typed property whose bytes extract as one non-empty string
/// element resolves as a string and decodes to that element.
pub proof fn lemma_unknown_single_string_decoded(p: DiProp)
    requires
        p.wf(),
        p.declared_type == DI_PROP_TYPE_UNKNOWN,
        p.strings matches Some(v) && v.len() == 1 && v[0]@.len() > 0,
    ensures
        spec_prop_type_guess(p) == (Resolution::Resolved { ptype: DI_PROP_TYPE_STRING, count: 1 }),
        spec_decoded(p) matches Some(kv) && kv.0 == p.name@ && (p.strings matches Some(v) && kv.1
            == v[0]@),
{
}

/// An "unknown"-typed property whose string extraction does not yield a
/// non-empty first element falls back to the int32 accessor, records type
/// int32 whatever that attempt returned, and therefore never decodes.
pub proof fn lemma_unknown_without_string_falls_back_to_int(p: DiProp)
    requires
        p.declared_type == DI_PROP_TYPE_UNKNOWN,
        !spec_string_attempt_ok(p),
    ensures
        spec_prop_type_guess(p) == (Resolution::Resolved { ptype: DI_PROP_TYPE_INT, count: p.ints }),
        spec_decoded(p) is None,
{
}

/// A failure sentinel from the accessor that resolution consults produces
/// no decoded value for that property.
pub proof fn lemma_failed_accessor_not_decoded(p: DiProp)
    requires
        p.wf(),
        (p.declared_type == DI_PROP_TYPE_INT && p.ints < 0) || (p.declared_type
            == DI_PROP_TYPE_INT64 && p.int64s < 0) || (p.declared_type == DI_PROP_TYPE_BYTE
            && p.bytes < 0) || (p.declared_type == DI_PROP_TYPE_STRING && p.strings is None) || (
        p.declared_type == DI_PROP_TYPE_UNKNOWN && p.strings is None && p.ints < 0),
    ensures
        spec_decoded(p) is None,
{
}

/// A property that yields no decoded value contributes nothing to the fold:
/// enumeration proceeds as if the property were absent.
pub proof fn lemma_undecoded_prop_skipped(props: Seq<DiProp>, i: int)
    requires
        0 <= i < props.len(),
        spec_decoded(props[i]) is None,
    ensures
        spec_fold_props(props) == spec_fold_props(props.remove(i)),
    decreases props.len(),
{
    if i == props.len() - 1 {
        assert(props.remove(i) =~= props.drop_last());
    } else {
        lemma_undecoded_prop_skipped(props.drop_last(), i);
        assert(props.remove(i).drop_last() =~= props.drop_last().remove(i));
        assert(props.remove(i).last() == props.last());
    }
}

/// A property that decodes to (key, value), with no later property of the
/// list decoding to the same key, gives the fold's binding for that key.
pub proof fn lemma_decoded_prop_in_fold(props: Seq<DiProp>, i: int, key: Seq<char>, value: Seq<char>)
    requires
        0 <= i < props.len(),
        spec_decoded(props[i]) == Some((key, value)),
        forall|j: int| i < j < props.len() ==> !(#[trigger] spec_decoded(props[j]) matches Some(kv)
            && kv.0 == key),
    ensures
        spec_fold_props(props).contains_key(key),
        spec_fold_props(props)[key] == value,
    decreases props.len(),
{
    if i == props.len() - 1 {
    } else {
        assert(forall|j: int| i < j < props.drop_last().len() ==> !(#[trigger] spec_decoded(
            props.drop_last()[j],
        ) matches Some(kv) && kv.0 == key));
        lemma_decoded_prop_in_fold(props.drop_last(), i, key, value);
    }
}

/// A decoded property of a correctly named root node, with no later
/// property decoding to the same key, stands in the result mapping.
pub proof fn lemma_decoded_in_root_map(node: DiNode, i: int, key: Seq<char>, value: Seq<char>)
    requires
        node.name@ == ROOT_NODE_NAME@,
        0 <= i < node.props.len(),
        spec_decoded(node.props[i]) == Some((key, value)),
        forall|j: int| i < j < node.props.len() ==> !(#[trigger] spec_decoded(node.props[j])
            matches Some(kv) && kv.0 == key),
    ensures
        spec_root_map(node).contains_key(key),
        spec_root_map(node)[key] == value,
{
    lemma_decoded_prop_in_fold(node.props@, i, key, value);
}

/// A decoded value arises only from a property resolved as a
/// single-element string.
pub proof fn lemma_decoded_is_single_string(p: DiProp)
    requires
        spec_decoded(p) is Some,
    ensures
        spec_prop_type_guess(p) == (Resolution::Resolved {
            ptype: DI_PROP_TYPE_STRING,
            count: 1,
        }),
{
}

/// Every binding of the fold comes from some property that decoded to
/// exactly that pair: the mapping holds nothing but decoded values.
pub proof fn lemma_fold_binding_has_source(props: Seq<DiProp>, key: Seq<char>)
    requires
        spec_fold_props(props).contains_key(key),
    ensures
        exists|i: int| 0 <= i < props.len() && #[trigger] spec_decoded(props[i]) == Some(
            (key, spec_fold_props(props)[key]),
        ),
    decreases props.len(),
{
    let whole = spec_fold_props(props);
    let shorter = spec_fold_props(props.drop_last());
    if spec_decoded(props.last()) matches Some(kv) && kv.0 == key {
        assert(spec_decoded(props[props.len() - 1]) == Some((key, whole[key])));
    } else {
        lemma_fold_binding_has_source(props.drop_last(), key);
        let i = choose|i: int|
            0 <= i < props.drop_last().len() && #[trigger] spec_decoded(props.drop_last()[i])
                == Some((key, shorter[key]));
        assert(spec_decoded(props[i]) == Some((key, whole[key])));
    }
}

/// Two full acquire/enumerate/release cycles over an unchanged tree yield
/// equal mappings.
pub proof fn lemma_bootparams_idempotent(
    node: DiNode,
    first: Map<Seq<char>, Seq<char>>,
    second: Map<Seq<char>, Seq<char>>,
)
    requires
        first == spec_root_map(node),
        second == spec_root_map(node),
    ensures
        first == second,
{
}

} // verus!
