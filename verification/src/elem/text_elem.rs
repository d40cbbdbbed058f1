//! The extractor of inline text.

use crate::elem::ParserInterface;
use crate::elem::content::ContentObject;
use crate::elem::content::SpecContent;
use crate::elem::descriptor::Elem;
use crate::elem::descriptor::SpecElem;
use crate::elem::descriptor::SpecTextPart;
use crate::elem::descriptor::TextPart;
use crate::encoding::base64_decode;
use crate::encoding::base64_decoding;
use crate::encoding::utf8_decode;
use vstd::prelude::*;
use vstd::utf8::decode_utf8;
use vstd::utf8::valid_utf8;

verus! {

/// The extractor of inline text.
pub struct TextElem;

/// The text object that the bytes of a text payload give: the text that
/// the bytes encode in UTF-8. Bytes that are not UTF-8 give nothing, and
/// neither does the empty text.
pub open spec fn spec_text_from_bytes(bytes: Seq<u8>) -> Option<SpecContent> {
    if valid_utf8(bytes) && decode_utf8(bytes).len() > 0 {
        Some(SpecContent::Text { content: decode_utf8(bytes) })
    } else {
        None
    }
}

/// The text object of a descriptor: that of the bytes which the payload
/// of its inline text spells in base64.
pub open spec fn spec_text_of(elem: SpecElem) -> Option<SpecContent> {
    match elem.text {
        Some(SpecTextPart { payload: Some(encoded) }) => match base64_decoding(encoded) {
            Some(bytes) => spec_text_from_bytes(bytes),
            None => None,
        },
        _ => None,
    }
}

impl TextElem {
    /// The text object for the decoded bytes of a text payload.
    pub fn from_bytes(bytes: &[u8]) -> (r: Option<ContentObject>)
        ensures
            r.deep_view() == spec_text_from_bytes(bytes@),
    {
        match utf8_decode(bytes) {
            Some(content) => {
                if content.as_str().is_empty() {
                    None
                } else {
                    Some(ContentObject::Text { content })
                }
            },
            None => None,
        }
    }
}

impl ParserInterface for TextElem {
    open spec fn spec_parse(&self, elem: SpecElem) -> Option<SpecContent> {
        spec_text_of(elem)
    }

    fn parse(&self, elem: &Elem) -> (r: Option<ContentObject>) {
        match &elem.text {
            Some(TextPart { payload: Some(encoded) }) => match base64_decode(encoded.as_str()) {
                Some(bytes) => Self::from_bytes(bytes.as_slice()),
                None => None,
            },
            _ => None,
        }
    }
}

/// A payload that decodes to no text at all gives no text object.
pub proof fn lemma_empty_text_dropped(elem: SpecElem)
    requires
        elem.text matches Some(SpecTextPart { payload: Some(encoded) }) && base64_decoding(
            encoded,
        ) matches Some(bytes) && valid_utf8(bytes) && decode_utf8(bytes).len() == 0,
    ensures
        spec_text_of(elem) is None,
{
}

} // verus!
