//! The extractor of quoted replies.

use crate::elem::ParserInterface;
use crate::elem::content::ContentObject;
use crate::elem::content::SpecContent;
use crate::elem::content::contents_model;
use crate::elem::descriptor::Elem;
use crate::elem::descriptor::SpecElem;
use crate::elem::parser::extract_reply;
use crate::elem::parser::spec_reply_of;
use crate::elem::spec_get;
use crate::elem::text_or_empty;
use crate::value::SpecValue;
use crate::value::Value;
use crate::value::spec_signed;
use crate::value::spec_text;
use vstd::prelude::*;
use vstd::string::StringExecFns;

verus! {

/// The extractor of quoted replies.
pub struct ReplyElem;

/// The sequence number of the quoted message: field 8 of the reply
/// metadata, or zero where that is missing or no signed 64-bit number.
pub open spec fn spec_reply_seq(meta: SpecValue) -> i64 {
    match spec_get(meta, 8) {
        Some(found) => match spec_signed(found) {
            Some(n) => n,
            None => 0,
        },
        None => 0,
    }
}

/// A participant of the quoted message: the text of field `id` of the
/// reply metadata, or the empty text where that is missing or not textual.
pub open spec fn spec_reply_uid(meta: SpecValue, id: u64) -> Seq<char> {
    match spec_get(meta, id) {
        Some(found) => match spec_text(found) {
            Some(s) => s,
            None => Seq::empty(),
        },
        None => Seq::empty(),
    }
}

/// The reply object for the content `quoted` of a quoted message and its
/// metadata `meta`: the target participant is field 6, the source
/// participant field 7. The accompanying text is left empty: it is not
/// part of the quote.
pub open spec fn spec_reply_from_parts(quoted: Seq<SpecContent>, meta: SpecValue) -> SpecContent {
    SpecContent::Reply {
        reply_to: quoted,
        seq: spec_reply_seq(meta),
        to_uid: spec_reply_uid(meta, 6),
        from_uid: spec_reply_uid(meta, 7),
        reply_msg: Seq::empty(),
    }
}

impl ReplyElem {
    /// The reply object for the reconstructed content of a quoted message
    /// and its decoded metadata.
    pub fn from_parts(quoted: Vec<ContentObject>, meta: &Value) -> (r: ContentObject)
        ensures
            r@ == spec_reply_from_parts(contents_model(quoted@), meta@),
    {
        let seq = match meta.get(8) {
            Some(found) => match found.as_i64() {
                Some(n) => n,
                None => 0,
            },
            None => 0,
        };
        let to_uid = Self::uid(meta, 6);
        let from_uid = Self::uid(meta, 7);
        let reply_msg: Vec<ContentObject> = Vec::new();
        assert(contents_model(reply_msg@) =~= Seq::<SpecContent>::empty());
        ContentObject::Reply { reply_to: quoted, seq, to_uid, from_uid, reply_msg }
    }

    fn uid(meta: &Value, id: u64) -> (r: String)
        ensures
            r@ == spec_reply_uid(meta@, id),
    {
        match meta.get(id) {
            Some(found) => String::from_str(text_or_empty(found)),
            None => String::new(),
        }
    }
}

impl ParserInterface for ReplyElem {
    open spec fn spec_parse(&self, elem: SpecElem) -> Option<SpecContent> {
        spec_reply_of(elem)
    }

    fn parse(&self, elem: &Elem) -> (r: Option<ContentObject>) {
        extract_reply(elem)
    }
}

} // verus!
