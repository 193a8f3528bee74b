//! The mathematical model of a document tree.

use vstd::prelude::*;

verus! {

/// A document as a mathematical tree: what a `yaml_rust::Yaml` value holds.
///
/// The serializer produces the first seven shapes; `Alias` and `Bad` stand for
/// the two remaining shapes a `Yaml` value may have.
pub enum Doc {
    /// Absence of a value.
    Null,
    /// A boolean.
    Bool(bool),
    /// An integer in the signed 64-bit range.
    Int(int),
    /// A floating-point number, as its decimal text.
    Float(Seq<char>),
    /// A text scalar.
    Str(Seq<char>),
    /// An ordered list of documents.
    Sequence(Seq<Doc>),
    /// An ordered list of key and value pairs.
    Mapping(Seq<(Doc, Doc)>),
    /// A reference to an anchor.
    Alias(usize),
    /// The marker of a failed lookup or conversion.
    Bad,
}

/// No key occurs in two entries.
pub open spec fn distinct_keys(pairs: Seq<(Doc, Doc)>) -> bool {
    forall|i: int, j: int| 0 <= i < j < pairs.len() ==> pairs[i].0 != pairs[j].0
}

/// Some entry has the key.
pub open spec fn has_key(pairs: Seq<(Doc, Doc)>, key: Doc) -> bool {
    exists|i: int| 0 <= i < pairs.len() && #[trigger] pairs[i].0 == key
}

/// The entries whose key differs from `key`, in their order.
pub open spec fn without_key(pairs: Seq<(Doc, Doc)>, key: Doc) -> Seq<(Doc, Doc)> {
    pairs.filter(|p: (Doc, Doc)| p.0 != key)
}

/// An ordered map after one insertion: an entry with the same key leaves, and
/// the new entry becomes the youngest.
pub open spec fn insert_pair(pairs: Seq<(Doc, Doc)>, key: Doc, value: Doc) -> Seq<(Doc, Doc)> {
    without_key(pairs, key).push((key, value))
}

/// An ordered map after inserting `more` into `base`, entry by entry.
pub open spec fn insert_all(base: Seq<(Doc, Doc)>, more: Seq<(Doc, Doc)>) -> Seq<(Doc, Doc)>
    decreases more.len(),
{
    if more.len() == 0 {
        base
    } else {
        insert_pair(insert_all(base, more.drop_last()), more.last().0, more.last().1)
    }
}

/// A sequence after appending `more` to `base`, element by element.
pub open spec fn push_all(base: Seq<Doc>, more: Seq<Doc>) -> Seq<Doc>
    decreases more.len(),
{
    if more.len() == 0 {
        base
    } else {
        push_all(base, more.drop_last()).push(more.last())
    }
}

/// The mapping with the one entry `key: value`.
pub open spec fn singleton(key: Doc, value: Doc) -> Doc {
    Doc::Mapping(seq![(key, value)])
}

/// The integer that a 64-bit unsigned value becomes when its bits are read as
/// a signed one: values above `i64::MAX` wrap around to the negative range.
pub open spec fn wrapped(v: u64) -> int {
    if v <= i64::MAX {
        v as int
    } else {
        v - 0x1_0000_0000_0000_0000
    }
}

/// One integer document for each byte, in order.
pub open spec fn byte_docs(bytes: Seq<u8>) -> Seq<Doc> {
    Seq::new(bytes.len(), |i: int| Doc::Int(bytes[i] as int))
}

} // verus!
