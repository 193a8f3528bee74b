//! The emitter of `yaml_rust`, and the decoding of its output.

use vstd::prelude::*;
use vstd::utf8::{encode_utf8, valid_utf8};
use crate::doc::Doc;
use crate::yaml_tree::yaml_doc;
use std::string::FromUtf8Error;
use yaml_rust::{EmitError, Yaml, YamlEmitter};

verus! {

/// What `YamlEmitter::dump` makes of a document: the text that it writes, and
/// whether it accepts the document. Where it does not, the text is what it
/// wrote before it gave up.
pub uninterp spec fn emitted(doc: Doc) -> (Seq<char>, bool);

/// `YamlEmitter::dump` of a new emitter that writes to `out`. What it appends
/// and whether it succeeds depend on the document alone; a `String` takes
/// every write, so the emitter fails only where it refuses the document.
#[verifier::external_body]
pub(crate) fn dump(doc: &Yaml, out: &mut String) -> (r: Result<(), EmitError>)
    ensures
        final(out)@ == old(out)@ + emitted(yaml_doc(*doc)).0,
        r is Ok <==> emitted(yaml_doc(*doc)).1,
{
    YamlEmitter::new(out).dump(doc)
}

/// `String::from_utf8`: succeeds exactly on valid UTF-8, and the string then
/// has the given bytes.
#[verifier::external_body]
pub(crate) fn string_from_utf8(bytes: Vec<u8>) -> (r: Result<String, FromUtf8Error>)
    ensures
        r is Ok <==> valid_utf8(bytes@),
        r matches Ok(s) ==> encode_utf8(s@) == bytes@,
{
    String::from_utf8(bytes)
}

} // verus!
