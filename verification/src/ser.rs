//! YAML serialization: values become `Yaml` trees, trees become text.

use vstd::prelude::*;
use crate::doc::{Doc, byte_docs, distinct_keys, insert_pair, singleton, wrapped};
use crate::emit::{dump, emitted, string_from_utf8};
use crate::error::Error;
use crate::laws::lemma_insert_keeps_keys_distinct;
use crate::yaml_tree::{
    char_to_string, docs, hash_insert, hash_new, hash_pairs, reserve_hint, yaml_array,
    yaml_boolean, yaml_doc, yaml_hash, yaml_integer, yaml_null, yaml_string,
};
use vstd::pervasive::unreached;
use vstd::utf8::{encode_utf8, encode_utf8_decode_utf8, encode_utf8_valid_utf8, valid_utf8};
use yaml_rust::{EmitError, Yaml};
use yaml_rust::yaml;

verus! {

/// The converter from single values to documents. It holds no state: every
/// call stands for itself.
pub struct Serializer;

impl Serializer {
    /// A boolean becomes a boolean document.
    pub fn serialize_bool(self, v: bool) -> (r: Result<Yaml, Error>)
        ensures
            r matches Ok(y) && yaml_doc(y) == Doc::Bool(v),
    {
        Ok(yaml_boolean(v))
    }

    /// An 8-bit signed integer becomes the integer document of the same value.
    pub fn serialize_i8(self, v: i8) -> (r: Result<Yaml, Error>)
        ensures
            r matches Ok(y) && yaml_doc(y) == Doc::Int(v as int),
    {
        self.serialize_i64(v as i64)
    }

    /// A 16-bit signed integer becomes the integer document of the same value.
    pub fn serialize_i16(self, v: i16) -> (r: Result<Yaml, Error>)
        ensures
            r matches Ok(y) && yaml_doc(y) == Doc::Int(v as int),
    {
        self.serialize_i64(v as i64)
    }

    /// A 32-bit signed integer becomes the integer document of the same value.
    pub fn serialize_i32(self, v: i32) -> (r: Result<Yaml, Error>)
        ensures
            r matches Ok(y) && yaml_doc(y) == Doc::Int(v as int),
    {
        self.serialize_i64(v as i64)
    }

    /// A 64-bit signed integer becomes the integer document of the same value.
    pub fn serialize_i64(self, v: i64) -> (r: Result<Yaml, Error>)
        ensures
            r matches Ok(y) && yaml_doc(y) == Doc::Int(v as int),
    {
        Ok(yaml_integer(v))
    }

    /// An 8-bit unsigned integer becomes the integer document of the same value.
    pub fn serialize_u8(self, v: u8) -> (r: Result<Yaml, Error>)
        ensures
            r matches Ok(y) && yaml_doc(y) == Doc::Int(v as int),
    {
        self.serialize_i64(v as i64)
    }

    /// A 16-bit unsigned integer becomes the integer document of the same value.
    pub fn serialize_u16(self, v: u16) -> (r: Result<Yaml, Error>)
        ensures
            r matches Ok(y) && yaml_doc(y) == Doc::Int(v as int),
    {
        self.serialize_i64(v as i64)
    }

    /// A 32-bit unsigned integer becomes the integer document of the same value.
    pub fn serialize_u32(self, v: u32) -> (r: Result<Yaml, Error>)
        ensures
            r matches Ok(y) && yaml_doc(y) == Doc::Int(v as int),
    {
        self.serialize_i64(v as i64)
    }

    /// A 64-bit unsigned integer is stored in the signed 64-bit range: up to
    /// `i64::MAX` it keeps its value, above it wraps around and comes out
    /// negative.
    pub fn serialize_u64(self, v: u64) -> (r: Result<Yaml, Error>)
        ensures
            r matches Ok(y) && yaml_doc(y) == Doc::Int(wrapped(v)),
    {
        let n: i64 = if v <= 0x7fff_ffff_ffff_ffff {
            v as i64
        } else {
            ((v - 0x8000_0000_0000_0000) as i64) + i64::MIN
        };
        self.serialize_i64(n)
    }

    /// A character becomes the text document of that one character.
    pub fn serialize_char(self, value: char) -> (r: Result<Yaml, Error>)
        ensures
            r matches Ok(y) && yaml_doc(y) == Doc::Str(seq![value]),
    {
        Ok(yaml_string(char_to_string(value)))
    }

    /// A string becomes the text document of the same characters.
    pub fn serialize_str(self, value: &str) -> (r: Result<Yaml, Error>)
        ensures
            r matches Ok(y) && yaml_doc(y) == Doc::Str(value@),
    {
        Ok(yaml_string(value.to_owned()))
    }

    /// Bytes become a sequence of integer documents, one for each byte.
    pub fn serialize_bytes(self, value: &[u8]) -> (r: Result<Yaml, Error>)
        ensures
            r matches Ok(y) && yaml_doc(y) == Doc::Sequence(byte_docs(value@)),
    {
        let mut vec: Vec<Yaml> = Vec::with_capacity(value.len());
        let mut i: usize = 0;
        while i < value.len()
            invariant
                i <= value.len(),
                vec@.len() == i,
                forall|j: int| 0 <= j < i ==> yaml_doc(#[trigger] vec@[j]) == Doc::Int(value@[j] as int),
            decreases value.len() - i,
        {
            vec.push(yaml_integer(value[i] as i64));
            i += 1;
        }
        assert(docs(vec@) =~= byte_docs(value@));
        Ok(yaml_array(vec))
    }

    /// The unit value becomes the null document.
    pub fn serialize_unit(self) -> (r: Result<Yaml, Error>)
        ensures
            r matches Ok(y) && yaml_doc(y) == Doc::Null,
    {
        Ok(yaml_null())
    }

    /// A struct without fields becomes the null document, whatever its name.
    pub fn serialize_unit_struct(self, _name: &'static str) -> (r: Result<Yaml, Error>)
        ensures
            r matches Ok(y) && yaml_doc(y) == Doc::Null,
    {
        self.serialize_unit()
    }

    /// An enum variant without payload becomes the text document of the
    /// variant's name.
    pub fn serialize_unit_variant(self, _name: &str, _variant_index: usize, variant: &str) -> (r:
        Result<Yaml, Error>)
        ensures
            r matches Ok(y) && yaml_doc(y) == Doc::Str(variant@),
    {
        Ok(yaml_string(variant.to_owned()))
    }

    /// A struct around one unnamed field is transparent: the document is that
    /// of the field.
    pub fn serialize_newtype_struct(self, _name: &'static str, value: Yaml) -> (r: Result<
        Yaml,
        Error,
    >)
        ensures
            r matches Ok(y) && y == value,
    {
        Ok(value)
    }

    /// An enum variant around one unnamed field becomes the mapping with one
    /// entry, from the variant's name to the field's document.
    pub fn serialize_newtype_variant(
        self,
        _name: &str,
        _variant_index: usize,
        variant: &str,
        value: Yaml,
    ) -> (r: Result<Yaml, Error>)
        ensures
            r matches Ok(y) && yaml_doc(y) == singleton(Doc::Str(variant@), yaml_doc(value)),
    {
        let key = yaml_string(variant.to_owned());
        Ok(singleton_hash(key, value))
    }

    /// An absent optional value becomes the null document.
    pub fn serialize_none(self) -> (r: Result<Yaml, Error>)
        ensures
            r matches Ok(y) && yaml_doc(y) == Doc::Null,
    {
        self.serialize_unit()
    }

    /// A present optional value is transparent: the document is that of the
    /// value inside.
    pub fn serialize_some(self, value: Yaml) -> (r: Result<Yaml, Error>)
        ensures
            r matches Ok(y) && y == value,
    {
        Ok(value)
    }

    /// Opens a sequence. `len` is the number of elements to expect, where it
    /// is known; it sets room aside and decides nothing else.
    pub fn serialize_seq(self, len: Option<usize>) -> (r: Result<SerializeArray, Error>)
        ensures
            r matches Ok(b) && b.items() == Seq::<Doc>::empty(),
    {
        let mut array: Vec<Yaml> = Vec::new();
        match len {
            None => {},
            Some(len) => {
                reserve_hint(&mut array, len);
            },
        }
        assert(docs(array@) =~= Seq::<Doc>::empty());
        Ok(SerializeArray { array: array })
    }

    /// Opens a sequence of a fixed number of elements.
    pub fn serialize_seq_fixed_size(self, len: usize) -> (r: Result<SerializeArray, Error>)
        ensures
            r matches Ok(b) && b.items() == Seq::<Doc>::empty(),
    {
        self.serialize_seq(Some(len))
    }

    /// Opens the sequence of a tuple's fields.
    pub fn serialize_tuple(self, len: usize) -> (r: Result<SerializeArray, Error>)
        ensures
            r matches Ok(b) && b.items() == Seq::<Doc>::empty(),
    {
        self.serialize_seq(Some(len))
    }

    /// Opens the sequence of the unnamed fields of a struct.
    pub fn serialize_tuple_struct(self, _name: &'static str, len: usize) -> (r: Result<
        SerializeArray,
        Error,
    >)
        ensures
            r matches Ok(b) && b.items() == Seq::<Doc>::empty(),
    {
        self.serialize_seq(Some(len))
    }

    /// Opens the sequence of the unnamed fields of the enum variant `variant`.
    pub fn serialize_tuple_variant(
        self,
        _enum: &'static str,
        _idx: usize,
        variant: &'static str,
        len: usize,
    ) -> (r: Result<SerializeTupleVariant, Error>)
        ensures
            r matches Ok(b) && b.variant() == variant@ && b.items() == Seq::<Doc>::empty(),
    {
        let mut array: Vec<Yaml> = Vec::new();
        reserve_hint(&mut array, len);
        assert(docs(array@) =~= Seq::<Doc>::empty());
        Ok(SerializeTupleVariant { name: variant, array: array })
    }

    /// Opens a mapping, with no entry and no key waiting for its value.
    pub fn serialize_map(self, _len: Option<usize>) -> (r: Result<SerializeMap, Error>)
        ensures
            r matches Ok(b) && b.entries() == Seq::<(Doc, Doc)>::empty() && b.pending() is None,
    {
        Ok(SerializeMap { hash: Entries::new(), next_key: None })
    }

    /// Opens the mapping of a struct's named fields.
    pub fn serialize_struct(self, _name: &'static str, _len: usize) -> (r: Result<
        SerializeStruct,
        Error,
    >)
        ensures
            r matches Ok(b) && b.entries() == Seq::<(Doc, Doc)>::empty(),
    {
        Ok(SerializeStruct { hash: Entries::new() })
    }

    /// Opens the mapping of the named fields of the enum variant `variant`.
    pub fn serialize_struct_variant(
        self,
        _enum: &'static str,
        _idx: usize,
        variant: &'static str,
        _len: usize,
    ) -> (r: Result<SerializeStructVariant, Error>)
        ensures
            r matches Ok(b) && b.variant() == variant@ && b.entries() == Seq::<(Doc, Doc)>::empty(),
    {
        Ok(SerializeStructVariant { name: variant, hash: Entries::new() })
    }
}

/// The entries of a mapping under construction: a hash in which no key
/// occurs twice.
struct Entries {
    hash: yaml::Hash,
}

impl View for Entries {
    type V = Seq<(Doc, Doc)>;

    /// The entries, oldest first.
    closed spec fn view(&self) -> Seq<(Doc, Doc)> {
        hash_pairs(self.hash)
    }
}

impl Entries {
    #[verifier::type_invariant]
    spec fn keys_distinct(&self) -> bool {
        distinct_keys(hash_pairs(self.hash))
    }

    /// No entries.
    fn new() -> (e: Entries)
        ensures
            e@ == Seq::<(Doc, Doc)>::empty(),
    {
        Entries { hash: hash_new() }
    }

    /// Inserts the entry `k: v`; an older entry under the same key leaves.
    fn insert(&mut self, k: Yaml, v: Yaml)
        ensures
            final(self)@ == insert_pair(old(self)@, yaml_doc(k), yaml_doc(v)),
    {
        proof {
            use_type_invariant(&*self);
            lemma_insert_keeps_keys_distinct(hash_pairs(self.hash), yaml_doc(k), yaml_doc(v));
        }
        hash_insert(&mut self.hash, k, v);
    }

    /// The mapping of the entries.
    fn finish(self) -> (y: Yaml)
        ensures
            yaml_doc(y) == Doc::Mapping(self@),
            distinct_keys(self@),
    {
        proof {
            use_type_invariant(&self);
        }
        yaml_hash(self.hash)
    }
}

/// A sequence under construction: the elements appended so far.
pub struct SerializeArray {
    array: Vec<Yaml>,
}

/// The unnamed fields of an enum variant under construction.
pub struct SerializeTupleVariant {
    name: &'static str,
    array: Vec<Yaml>,
}

/// A mapping under construction: the entries so far, and the key that waits
/// for its value.
pub struct SerializeMap {
    hash: Entries,
    next_key: Option<Yaml>,
}

/// The named fields of a struct under construction.
pub struct SerializeStruct {
    hash: Entries,
}

/// The named fields of an enum variant under construction.
pub struct SerializeStructVariant {
    name: &'static str,
    hash: Entries,
}

impl SerializeArray {
    /// The documents of the elements appended so far, in call order.
    pub closed spec fn items(&self) -> Seq<Doc> {
        docs(self.array@)
    }

    /// Appends one element.
    pub fn serialize_element(&mut self, elem: Yaml) -> (r: Result<(), Error>)
        ensures
            r is Ok,
            final(self).items() == old(self).items().push(yaml_doc(elem)),
    {
        self.array.push(elem);
        assert(docs(self.array@) =~= docs(old(self).array@).push(yaml_doc(elem)));
        Ok(())
    }

    /// Appends one unnamed field: the same as appending an element.
    pub fn serialize_field(&mut self, value: Yaml) -> (r: Result<(), Error>)
        ensures
            r is Ok,
            final(self).items() == old(self).items().push(yaml_doc(value)),
    {
        self.serialize_element(value)
    }

    /// Closes the sequence: exactly the appended elements, in call order.
    pub fn end(self) -> (r: Result<Yaml, Error>)
        ensures
            r matches Ok(y) && yaml_doc(y) == Doc::Sequence(self.items()),
    {
        Ok(yaml_array(self.array))
    }
}

impl SerializeTupleVariant {
    /// The variant's name.
    pub closed spec fn variant(&self) -> Seq<char> {
        self.name@
    }

    /// The documents of the fields appended so far, in call order.
    pub closed spec fn items(&self) -> Seq<Doc> {
        docs(self.array@)
    }

    /// Appends one unnamed field.
    pub fn serialize_field(&mut self, v: Yaml) -> (r: Result<(), Error>)
        ensures
            r is Ok,
            final(self).variant() == old(self).variant(),
            final(self).items() == old(self).items().push(yaml_doc(v)),
    {
        self.array.push(v);
        assert(docs(self.array@) =~= docs(old(self).array@).push(yaml_doc(v)));
        Ok(())
    }

    /// Closes the variant: the mapping with one entry, from the variant's
    /// name to the sequence of its fields.
    pub fn end(self) -> (r: Result<Yaml, Error>)
        ensures
            r matches Ok(y) && yaml_doc(y) == singleton(
                Doc::Str(self.variant()),
                Doc::Sequence(self.items()),
            ),
    {
        let key = yaml_string(self.name.to_owned());
        Ok(singleton_hash(key, yaml_array(self.array)))
    }
}

impl SerializeMap {
    /// The entries inserted so far, oldest first.
    pub closed spec fn entries(&self) -> Seq<(Doc, Doc)> {
        self.hash@
    }

    /// The key that waits for its value, if there is one.
    pub closed spec fn pending(&self) -> Option<Doc> {
        match self.next_key {
            Some(k) => Some(yaml_doc(k)),
            None => None,
        }
    }

    /// Whether a key waits for its value: what `serialize_value` requires.
    pub fn has_pending_key(&self) -> (b: bool)
        ensures
            b == self.pending() is Some,
    {
        self.next_key.is_some()
    }

    /// Sets the key of the next entry. A key that still waited is dropped.
    pub fn serialize_key(&mut self, key: Yaml) -> (r: Result<(), Error>)
        ensures
            r is Ok,
            final(self).entries() == old(self).entries(),
            final(self).pending() == Some(yaml_doc(key)),
    {
        self.next_key = Some(key);
        Ok(())
    }

    /// Inserts the entry of the waiting key and `value`. Without a waiting key
    /// there is no entry to insert: the call is not allowed.
    pub fn serialize_value(&mut self, value: Yaml) -> (r: Result<(), Error>)
        requires
            old(self).pending() is Some,
        ensures
            r is Ok,
            final(self).entries() == insert_pair(
                old(self).entries(),
                old(self).pending()->0,
                yaml_doc(value),
            ),
            final(self).pending() is None,
    {
        match self.next_key.take() {
            Some(key) => {
                self.hash.insert(key, value);
            },
            None => unreached(),
        }
        Ok(())
    }

    /// Closes the mapping: the entries in the order of their insertion, no
    /// key among them twice. A key that still waits for its value is dropped.
    pub fn end(self) -> (r: Result<Yaml, Error>)
        ensures
            r matches Ok(y) && yaml_doc(y) == Doc::Mapping(self.entries()),
            distinct_keys(self.entries()),
    {
        Ok(self.hash.finish())
    }
}

impl SerializeStruct {
    /// The entries inserted so far, oldest first.
    pub closed spec fn entries(&self) -> Seq<(Doc, Doc)> {
        self.hash@
    }

    /// Inserts the entry of the field's name, as a text document, and `value`.
    pub fn serialize_field(&mut self, key: &'static str, value: Yaml) -> (r: Result<(), Error>)
        ensures
            r is Ok,
            final(self).entries() == insert_pair(
                old(self).entries(),
                Doc::Str(key@),
                yaml_doc(value),
            ),
    {
        let k = yaml_string(key.to_owned());
        self.hash.insert(k, value);
        Ok(())
    }

    /// Closes the struct: the mapping of its fields, in the order of their
    /// insertion, no key among them twice.
    pub fn end(self) -> (r: Result<Yaml, Error>)
        ensures
            r matches Ok(y) && yaml_doc(y) == Doc::Mapping(self.entries()),
            distinct_keys(self.entries()),
    {
        Ok(self.hash.finish())
    }
}

impl SerializeStructVariant {
    /// The variant's name.
    pub closed spec fn variant(&self) -> Seq<char> {
        self.name@
    }

    /// The entries inserted so far, oldest first.
    pub closed spec fn entries(&self) -> Seq<(Doc, Doc)> {
        self.hash@
    }

    /// Inserts the entry of the field's name, as a text document, and `v`.
    pub fn serialize_field(&mut self, field: &'static str, v: Yaml) -> (r: Result<(), Error>)
        ensures
            r is Ok,
            final(self).variant() == old(self).variant(),
            final(self).entries() == insert_pair(
                old(self).entries(),
                Doc::Str(field@),
                yaml_doc(v),
            ),
    {
        let k = yaml_string(field.to_owned());
        self.hash.insert(k, v);
        Ok(())
    }

    /// Closes the variant: the mapping with one entry, from the variant's
    /// name to the mapping of its fields, no key among them twice.
    pub fn end(self) -> (r: Result<Yaml, Error>)
        ensures
            r matches Ok(y) && yaml_doc(y) == singleton(
                Doc::Str(self.variant()),
                Doc::Mapping(self.entries()),
            ),
            distinct_keys(self.entries()),
    {
        let key = yaml_string(self.name.to_owned());
        Ok(singleton_hash(key, self.hash.finish()))
    }
}

/// The mapping with the one entry `k: v`.
fn singleton_hash(k: Yaml, v: Yaml) -> (y: Yaml)
    ensures
        yaml_doc(y) == singleton(yaml_doc(k), yaml_doc(v)),
{
    let mut hash = Entries::new();
    hash.insert(k, v);
    proof {
        let empty = Seq::<(Doc, Doc)>::empty();
        assert(empty.filter(|p: (Doc, Doc)| p.0 != yaml_doc(k)) =~= empty) by {
            reveal(Seq::filter);
        }
        assert(insert_pair(empty, yaml_doc(k), yaml_doc(v)) =~= seq![(yaml_doc(k), yaml_doc(v))]);
    }
    hash.finish()
}

/// Writes the text of `doc` to the byte sink `writer`, after what the sink
/// holds. Where the emitter refuses the document, the sink has what the
/// emitter wrote before it gave up, and the error is `Error::Emit`.
pub fn to_writer(writer: &mut Vec<u8>, doc: &Yaml) -> (r: Result<(), Error>)
    ensures
        final(writer)@ == old(writer)@ + encode_utf8(emitted(yaml_doc(*doc)).0),
        match r {
            Ok(_) => emitted(yaml_doc(*doc)).1,
            Err(e) => !emitted(yaml_doc(*doc)).1 && e is Emit,
        },
{
    let mut text = String::new();
    let status = dump(doc, &mut text);
    assert(text@ =~= emitted(yaml_doc(*doc)).0);
    write_emitted(writer, text.as_str(), status)
}

/// Hands the outcome of one emitter run on to the byte sink: `text` goes to
/// `writer` as its UTF-8 bytes whatever the emitter's verdict was, and the
/// verdict `status` becomes the result, an emitter error as `Error::Emit`.
pub fn write_emitted(writer: &mut Vec<u8>, text: &str, status: Result<(), EmitError>) -> (r:
    Result<(), Error>)
    ensures
        final(writer)@ == old(writer)@ + encode_utf8(text@),
        match status {
            Ok(_) => r is Ok,
            Err(e) => r == Err::<(), Error>(Error::Emit(e)),
        },
{
    let mut adapter = FmtToIoWriter { writer: writer };
    adapter.write_str(text);
    match status {
        Ok(()) => Ok(()),
        Err(e) => Err(Error::from(e)),
    }
}

/// The text of `doc` as bytes.
pub fn to_vec(doc: &Yaml) -> (r: Result<Vec<u8>, Error>)
    ensures
        match r {
            Ok(v) => emitted(yaml_doc(*doc)).1 && v@ == encode_utf8(emitted(yaml_doc(*doc)).0),
            Err(e) => !emitted(yaml_doc(*doc)).1 && e is Emit,
        },
{
    let mut vec: Vec<u8> = Vec::with_capacity(128);
    match to_writer(&mut vec, doc) {
        Ok(()) => {
            assert(vec@ =~= encode_utf8(emitted(yaml_doc(*doc)).0));
            Ok(vec)
        },
        Err(e) => Err(e),
    }
}

/// The text of `doc`.
pub fn to_string(doc: &Yaml) -> (r: Result<String, Error>)
    ensures
        match r {
            Ok(s) => emitted(yaml_doc(*doc)).1 && s@ == emitted(yaml_doc(*doc)).0,
            Err(e) => !emitted(yaml_doc(*doc)).1 && e is Emit,
        },
{
    match to_vec(doc) {
        Ok(bytes) => {
            proof {
                encode_utf8_valid_utf8(emitted(yaml_doc(*doc)).0);
            }
            let r = string_of_bytes(bytes);
            proof {
                if r is Ok {
                    encode_utf8_decode_utf8(r->Ok_0@);
                    encode_utf8_decode_utf8(emitted(yaml_doc(*doc)).0);
                }
            }
            r
        },
        Err(e) => Err(e),
    }
}

/// Reads bytes as text: the string with exactly these bytes where they are
/// valid UTF-8, and `Error::FromUtf8` where they are not.
pub fn string_of_bytes(bytes: Vec<u8>) -> (r: Result<String, Error>)
    ensures
        match r {
            Ok(s) => valid_utf8(bytes@) && encode_utf8(s@) == bytes@,
            Err(e) => !valid_utf8(bytes@) && e is FromUtf8,
        },
{
    match string_from_utf8(bytes) {
        Ok(s) => Ok(s),
        Err(e) => Err(Error::from(e)),
    }
}

/// The adapter between the emitter, which writes text, and a sink of bytes.
struct FmtToIoWriter<'a> {
    writer: &'a mut Vec<u8>,
}

impl<'a> FmtToIoWriter<'a> {
    /// Copies the UTF-8 bytes of `s` to the end of the sink.
    fn write_str(&mut self, s: &str)
        ensures
            final(self).writer@ == old(self).writer@ + encode_utf8(s@),
            *final(final(self).writer) == *final(old(self).writer),
    {
        let bytes = s.as_bytes();
        let mut i: usize = 0;
        while i < bytes.len()
            invariant
                i <= bytes.len(),
                self.writer@ == old(self).writer@ + bytes@.take(i as int),
                *final(self.writer) == *final(old(self).writer),
            decreases bytes.len() - i,
        {
            self.writer.push(bytes[i]);
            assert(bytes@.take(i + 1) =~= bytes@.take(i as int).push(bytes@[i as int]));
            i += 1;
        }
        assert(bytes@.take(i as int) =~= bytes@);
    }
}

} // verus!
