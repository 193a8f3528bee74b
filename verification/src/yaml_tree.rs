//! The `yaml_rust` document type as verified code sees it.
//!
//! `Yaml` and its hash are opaque here. What a value holds is named by
//! [`yaml_doc`] and [`hash_pairs`], and every function below states what the
//! `yaml_rust` or `linked_hash_map` item it calls does to those contents.
//! None of these statements is proved.

use vstd::prelude::*;
use crate::doc::{Doc, insert_pair};
use yaml_rust::Yaml;
use yaml_rust::yaml;

verus! {

#[verifier::external_type_specification]
#[verifier::external_body]
pub struct ExYaml(yaml_rust::Yaml);

#[verifier::external_type_specification]
#[verifier::external_body]
#[verifier::reject_recursive_types(K)]
#[verifier::reject_recursive_types(V)]
#[verifier::reject_recursive_types(S)]
pub struct ExLinkedHashMap<K, V, S>(linked_hash_map::LinkedHashMap<K, V, S>);

/// The tree that a `Yaml` value holds. Two values hold the same tree exactly
/// when `Yaml`'s derived `==` calls them equal.
pub uninterp spec fn yaml_doc(y: Yaml) -> Doc;

/// The entries of a `yaml::Hash`, each key and value as the tree it holds, in
/// the order in which the hash hands them out.
pub uninterp spec fn hash_pairs(h: yaml::Hash) -> Seq<(Doc, Doc)>;

/// The trees that a list of `Yaml` values holds.
pub open spec fn docs(items: Seq<Yaml>) -> Seq<Doc> {
    Seq::new(items.len(), |i: int| yaml_doc(items[i]))
}

/// The variant `Yaml::Null`.
#[verifier::external_body]
pub(crate) fn yaml_null() -> (y: Yaml)
    ensures
        yaml_doc(y) == Doc::Null,
{
    Yaml::Null
}

/// The variant `Yaml::Boolean` around `v`.
#[verifier::external_body]
pub(crate) fn yaml_boolean(v: bool) -> (y: Yaml)
    ensures
        yaml_doc(y) == Doc::Bool(v),
{
    Yaml::Boolean(v)
}

/// The variant `Yaml::Integer` around `v`.
#[verifier::external_body]
pub(crate) fn yaml_integer(v: i64) -> (y: Yaml)
    ensures
        yaml_doc(y) == Doc::Int(v as int),
{
    Yaml::Integer(v)
}

/// The variant `Yaml::String` around `s`.
#[verifier::external_body]
pub(crate) fn yaml_string(s: String) -> (y: Yaml)
    ensures
        yaml_doc(y) == Doc::Str(s@),
{
    Yaml::String(s)
}

/// The variant `Yaml::Array` around `items`: a sequence of the items' trees,
/// in the vector's order.
#[verifier::external_body]
pub(crate) fn yaml_array(items: Vec<Yaml>) -> (y: Yaml)
    ensures
        yaml_doc(y) == Doc::Sequence(docs(items@)),
{
    Yaml::Array(items)
}

/// The variant `Yaml::Hash` around `h`: a mapping of the hash's entries.
#[verifier::external_body]
pub(crate) fn yaml_hash(h: yaml::Hash) -> (y: Yaml)
    ensures
        yaml_doc(y) == Doc::Mapping(hash_pairs(h)),
{
    Yaml::Hash(h)
}

/// `LinkedHashMap::new`: a hash without entries.
#[verifier::external_body]
pub(crate) fn hash_new() -> (h: yaml::Hash)
    ensures
        hash_pairs(h) == Seq::<(Doc, Doc)>::empty(),
{
    yaml::Hash::new()
}

/// `LinkedHashMap::insert`, the old value dropped. An entry whose key equals
/// `k` is taken out of its place; the entry for `k` and `v` is then the last
/// one handed out. The other entries keep their order. The call does not
/// unwind: the hash compares and hashes `Yaml` keys by their derived impls,
/// which do not panic.
#[verifier::external_body]
pub(crate) fn hash_insert(h: &mut yaml::Hash, k: Yaml, v: Yaml)
    ensures
        hash_pairs(*final(h)) == insert_pair(hash_pairs(*old(h)), yaml_doc(k), yaml_doc(v)),
    no_unwind
{
    h.insert(k, v);
}

/// `Vec::try_reserve`, its verdict dropped: room for `additional` more items
/// is set aside where the allocator grants it. The items stay as they are.
#[verifier::external_body]
pub(crate) fn reserve_hint(items: &mut Vec<Yaml>, additional: usize)
    ensures
        final(items)@ == old(items)@,
{
    let _ = items.try_reserve(additional);
}

/// `char::to_string`: the text of one character.
#[verifier::external_body]
pub(crate) fn char_to_string(c: char) -> (s: String)
    ensures
        s@ == seq![c],
{
    c.to_string()
}

} // verus!
