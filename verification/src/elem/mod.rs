//! The reconstruction layer: from content element descriptors to
//! normalized content objects.

pub mod common_elem;
pub mod content;
pub mod descriptor;
pub mod image_elem;
pub mod laws;
pub mod parser;
pub mod reply_elem;
pub mod text_elem;
pub mod video_elem;
pub mod voice_elem;

use crate::elem::content::ContentObject;
use crate::elem::content::SpecContent;
use crate::elem::descriptor::Elem;
use crate::elem::descriptor::SpecElem;
use crate::elem::descriptor::text_model;
use crate::encoding::base64_decode;
use crate::encoding::base64_decoding;
use crate::protobuf::Protobuf;
use crate::protobuf::spec_deserialize;
use crate::value::SpecValue;
use crate::value::Value;
use crate::value::lemma_tree_model;
use crate::value::spec_get;
use crate::value::spec_text;
use vstd::prelude::*;

verus! {

/// An extractor: what makes a content object of the descriptors of its
/// kind. `None` means that the descriptor is not of that kind.
pub trait ParserInterface {
    /// What the extractor makes of a descriptor.
    spec fn spec_parse(&self, elem: SpecElem) -> Option<SpecContent>;

    /// Extracts the content object of `elem`, where `elem` is of the kind
    /// that the extractor knows and holds what the extractor needs.
    fn parse(&self, elem: &Elem) -> (r: Option<ContentObject>)
        ensures
            r.deep_view() == self.spec_parse(elem@),
    ;
}

/// The empty string as a value: what stands in for a textual field that a
/// message does not have.
pub open spec fn spec_no_text() -> SpecValue {
    SpecValue::String(Seq::empty())
}

/// Zero as a value: what stands in for a numeric field that a message does
/// not have.
pub open spec fn spec_zero() -> SpecValue {
    SpecValue::Integer(0)
}

/// The value under `id` in `v`, or `default` where `v` has no such field.
pub open spec fn spec_field_or(v: SpecValue, id: u64, default: SpecValue) -> SpecValue {
    match spec_get(v, id) {
        Some(found) => found,
        None => default,
    }
}

/// The value at the end of a path of two field identifiers.
pub open spec fn spec_get2(v: SpecValue, a: u64, b: u64) -> Option<SpecValue> {
    match spec_get(v, a) {
        Some(inner) => spec_get(inner, b),
        None => None,
    }
}

/// The value at the end of a path of three field identifiers.
pub open spec fn spec_get3(v: SpecValue, a: u64, b: u64, c: u64) -> Option<SpecValue> {
    match spec_get2(v, a, b) {
        Some(inner) => spec_get(inner, c),
        None => None,
    }
}

/// The text of `v`, or the empty text where `v` is not textual.
pub open spec fn spec_text_or_empty(v: SpecValue) -> Seq<char> {
    match spec_text(v) {
        Some(s) => s,
        None => Seq::empty(),
    }
}

/// The wire-format message that a descriptor embeds as base64 text: the
/// text is decoded to bytes and the bytes to a message. `None` where the
/// text is missing, is not base64 or does not hold a message.
pub open spec fn spec_embedded_body(text: Option<Seq<char>>) -> Option<SpecValue> {
    match text {
        Some(encoded) => match base64_decoding(encoded) {
            Some(bytes) => spec_body_of_bytes(bytes),
            None => None,
        },
        None => None,
    }
}

/// The message that `bytes` hold, as a value.
pub open spec fn spec_body_of_bytes(bytes: Seq<u8>) -> Option<SpecValue> {
    match spec_deserialize(bytes) {
        Ok(fields) => Some(SpecValue::Tree(fields)),
        Err(_) => None,
    }
}

/// Decodes `bytes` as a wire-format message.
pub fn body_of_bytes(bytes: &[u8]) -> (r: Option<Value>)
    ensures
        r.deep_view() == spec_body_of_bytes(bytes@),
{
    match Protobuf::deserialize(bytes) {
        Ok(tree) => {
            proof {
                lemma_tree_model(tree);
            }
            Some(Value::Tree(tree))
        },
        Err(_) => None,
    }
}

/// Decodes the message that a descriptor embeds as base64 text.
pub fn embedded_body(text: &Option<String>) -> (r: Option<Value>)
    ensures
        r.deep_view() == spec_embedded_body(text_model(*text)),
{
    match text {
        Some(encoded) => match base64_decode(encoded.as_str()) {
            Some(bytes) => body_of_bytes(bytes.as_slice()),
            None => None,
        },
        None => None,
    }
}

/// A copy of the value under `id` in `v`, or `default`.
pub fn field_or(v: &Value, id: u64, default: Value) -> (r: Value)
    ensures
        r@ == spec_field_or(v@, id, default@),
{
    match v.get(id) {
        Some(found) => found.clone(),
        None => default,
    }
}

/// A copy of the value under `id` in `v`, if there is one.
pub fn field_copy(v: &Value, id: u64) -> (r: Option<Value>)
    ensures
        r.deep_view() == spec_get(v@, id),
{
    match v.get(id) {
        Some(found) => Some(found.clone()),
        None => None,
    }
}

/// The empty string as a value.
pub fn no_text() -> (r: Value)
    ensures
        r@ == spec_no_text(),
{
    Value::String(String::new())
}

/// The text of `v`, or the empty text where `v` is not textual.
pub fn text_or_empty(v: &Value) -> (r: &str)
    ensures
        r@ == spec_text_or_empty(v@),
{
    match v.as_str() {
        Some(s) => s,
        None => {
            proof {
                reveal_strlit("");
                assert(""@ =~= Seq::<char>::empty());
            }
            ""
        },
    }
}

} // verus!
