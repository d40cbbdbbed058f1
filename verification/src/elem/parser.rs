//! The orchestrator: what a whole group of sibling descriptors becomes.

use crate::elem::ParserInterface;
use crate::elem::common_elem::CommonElem;
use crate::elem::common_elem::spec_common_of;
use crate::elem::content::ContentObject;
use crate::elem::content::SpecContent;
use crate::elem::content::contents_model;
use crate::elem::content::lemma_contents_model_push;
use crate::elem::descriptor::Elem;
use crate::elem::descriptor::SpecElem;
use crate::elem::descriptor::SpecSrcMsg;
use crate::elem::descriptor::SrcMsg;
use crate::elem::descriptor::elems_model;
use crate::elem::embedded_body;
use crate::elem::reply_elem::ReplyElem;
use crate::elem::reply_elem::spec_reply_from_parts;
use crate::elem::spec_embedded_body;
use crate::elem::text_elem::TextElem;
use crate::elem::text_elem::spec_text_of;
use vstd::prelude::*;

verus! {

/// Whether the group holds a quoted-source-message marker.
pub open spec fn spec_has_marker(elems: Seq<SpecElem>) -> bool {
    exists|i: int| 0 <= i < elems.len() && (#[trigger] elems[i]).src_msg is Some
}

/// A list of at most one object.
pub open spec fn spec_optional(found: Option<SpecContent>) -> Seq<SpecContent> {
    match found {
        Some(c) => seq![c],
        None => Seq::empty(),
    }
}

/// The text that a descriptor of a reply group adds to the accompanying
/// text: its text object, unless the descriptor is a quote marker.
pub open spec fn spec_accompanying_text(elem: SpecElem) -> Option<SpecContent> {
    if elem.src_msg is Some {
        None
    } else {
        spec_text_of(elem)
    }
}

/// The accompanying text of a reply group: the text objects of its
/// descriptors other than the markers, in the order of the descriptors.
pub open spec fn spec_texts(elems: Seq<SpecElem>) -> Seq<SpecContent>
    decreases elems.len(),
{
    if elems.len() == 0 {
        Seq::empty()
    } else {
        spec_texts(elems.drop_last()) + spec_optional(spec_accompanying_text(elems.last()))
    }
}

/// What a descriptor of a plain group becomes: inline text is tried
/// first; where that yields nothing, the business-typed part is tried; a
/// descriptor that yields neither becomes nothing.
pub open spec fn spec_plain_one(elem: SpecElem) -> Option<SpecContent> {
    match spec_text_of(elem) {
        Some(text) => Some(text),
        None => spec_common_of(elem),
    }
}

/// The objects of a plain group, in the order of their descriptors.
pub open spec fn spec_plain(elems: Seq<SpecElem>) -> Seq<SpecContent>
    decreases elems.len(),
{
    if elems.len() == 0 {
        Seq::empty()
    } else {
        spec_plain(elems.drop_last()) + spec_optional(spec_plain_one(elems.last()))
    }
}

/// The reply object of a quote marker: the content of the quoted message
/// is the reconstruction of its own group, and the metadata is the message
/// that `pb_reserve` embeds. Without the quoted group or the metadata
/// there is no reply object.
pub open spec fn spec_reply_of(elem: SpecElem) -> Option<SpecContent>
    decreases elem, 0nat,
{
    match elem.src_msg {
        Some(SpecSrcMsg { elems: Some(quoted), pb_reserve }) => match spec_embedded_body(
            pb_reserve,
        ) {
            Some(meta) => Some(spec_reply_from_parts(spec_build(quoted), meta)),
            None => None,
        },
        _ => None,
    }
}

/// The reply object of the first quote marker of the group that yields
/// one. Markers behind it are not looked at.
pub open spec fn spec_first_reply(elems: Seq<SpecElem>) -> Option<SpecContent>
    decreases elems, 1nat,
{
    if elems.len() == 0 {
        None
    } else {
        match spec_first_reply(elems.drop_last()) {
            Some(reply) => Some(reply),
            None => spec_reply_of(elems.last()),
        }
    }
}

/// The reply object `reply` with `texts` as its accompanying text.
pub open spec fn spec_with_reply_msg(reply: SpecContent, texts: Seq<SpecContent>) -> SpecContent {
    match reply {
        SpecContent::Reply { reply_to, seq, to_uid, from_uid, .. } => SpecContent::Reply {
            reply_to,
            seq,
            to_uid,
            from_uid,
            reply_msg: texts,
        },
        other => other,
    }
}

/// What a group of sibling descriptors becomes.
///
/// A group that holds a quote marker is a reply composite: it becomes the
/// one reply object of its first marker that yields one, with the text
/// objects of the descriptors that are no markers as accompanying text, or
/// nothing where no marker yields a reply object. Any other group is a
/// plain sequence: each descriptor becomes at most one object, in the
/// order of the descriptors.
pub open spec fn spec_build(elems: Seq<SpecElem>) -> Seq<SpecContent>
    decreases elems, 2nat,
{
    if spec_has_marker(elems) {
        match spec_first_reply(elems) {
            Some(reply) => seq![spec_with_reply_msg(reply, spec_texts(elems))],
            None => Seq::empty(),
        }
    } else {
        spec_plain(elems)
    }
}

/// What a group remembers of its quote markers is a reply object.
pub proof fn lemma_first_reply_is_reply(elems: Seq<SpecElem>)
    ensures
        spec_first_reply(elems) matches Some(reply) ==> reply is Reply,
    decreases elems.len(),
{
    if elems.len() > 0 {
        lemma_first_reply_is_reply(elems.drop_last());
        lemma_reply_is_reply(elems.last());
    }
}

/// What a quote marker yields is a reply object.
pub proof fn lemma_reply_is_reply(elem: SpecElem)
    ensures
        spec_reply_of(elem) matches Some(reply) ==> reply is Reply,
        elem.src_msg is None ==> spec_reply_of(elem) is None,
{
}

/// Whether one of `elems` is a quote marker.
fn has_marker(elems: &Vec<Elem>) -> (r: bool)
    ensures
        r == spec_has_marker(elems_model(elems@)),
{
    let mut i: usize = 0;
    while i < elems.len()
        invariant
            i <= elems.len(),
            forall|j: int| 0 <= j < i ==> elems_model(elems@)[j].src_msg is None,
        decreases elems.len() - i,
    {
        if elems[i].src_msg.is_some() {
            assert(elems_model(elems@)[i as int].src_msg is Some);
            return true;
        }
        i += 1;
    }
    false
}

/// Extracts the reply object of a quote marker.
pub fn extract_reply(elem: &Elem) -> (r: Option<ContentObject>)
    ensures
        r.deep_view() == spec_reply_of(elem@),
    decreases elem, 0nat,
{
    match &elem.src_msg {
        Some(SrcMsg { elems: Some(quoted), pb_reserve }) => {
            let reply_content = build_group(quoted);
            match embedded_body(pb_reserve) {
                Some(meta) => Some(ReplyElem::from_parts(reply_content, &meta)),
                None => None,
            }
        },
        _ => None,
    }
}

/// Reconstructs the content of a group of sibling descriptors.
#[verifier::loop_isolation(false)]
pub fn build_group(elems: &Vec<Elem>) -> (r: Vec<ContentObject>)
    ensures
        contents_model(r@) == spec_build(elems_model(elems@)),
    decreases elems, 2nat,
{
    let ghost group = elems_model(elems@);
    let mut arrays: Vec<ContentObject> = Vec::new();
    let text_parser = TextElem;
    let common_parser = CommonElem::new();
    if has_marker(elems) {
        let mut reply_content: Vec<ContentObject> = Vec::new();
        let mut reply_info: Option<ContentObject> = None;
        let mut i: usize = 0;
        assert(group.take(0) =~= Seq::<SpecElem>::empty());
        while i < elems.len()
            invariant
                i <= elems.len(),
                contents_model(reply_content@) == spec_texts(group.take(i as int)),
                reply_info.deep_view() == spec_first_reply(group.take(i as int)),
            decreases elems.len() - i,
        {
            let elem = &elems[i];
            proof {
                assert(group.take(i + 1).drop_last() =~= group.take(i as int));
                assert(group.take(i + 1).last() == elem@);
                lemma_reply_is_reply(elem@);
            }
            if elem.src_msg.is_some() {
                if reply_info.is_none() {
                    reply_info = extract_reply(elem);
                }
            } else {
                match text_parser.parse(elem) {
                    Some(parsed) => {
                        proof {
                            lemma_contents_model_push(reply_content@, parsed);
                        }
                        reply_content.push(parsed);
                    },
                    None => {},
                }
            }
            i += 1;
        }
        assert(group.take(i as int) =~= group);
        proof {
            lemma_first_reply_is_reply(group);
        }
        match reply_info {
            Some(ContentObject::Reply { reply_to, seq, to_uid, from_uid, .. }) => {
                let combined = ContentObject::Reply {
                    reply_to,
                    seq,
                    to_uid,
                    from_uid,
                    reply_msg: reply_content,
                };
                arrays.push(combined);
                assert(contents_model(arrays@) =~= seq![combined@]);
            },
            _ => {
                assert(contents_model(arrays@) =~= Seq::<SpecContent>::empty());
            },
        }
    } else {
        let mut i: usize = 0;
        assert(group.take(0) =~= Seq::<SpecElem>::empty());
        assert(contents_model(arrays@) =~= Seq::<SpecContent>::empty());
        while i < elems.len()
            invariant
                i <= elems.len(),
                contents_model(arrays@) == spec_plain(group.take(i as int)),
            decreases elems.len() - i,
        {
            let elem = &elems[i];
            proof {
                assert(group.take(i + 1).drop_last() =~= group.take(i as int));
                assert(group.take(i + 1).last() == elem@);
            }
            let parsed = match text_parser.parse(elem) {
                Some(text) => Some(text),
                None => common_parser.parse(elem),
            };
            match parsed {
                Some(object) => {
                    proof {
                        lemma_contents_model_push(arrays@, object);
                    }
                    arrays.push(object);
                },
                None => {},
            }
            i += 1;
        }
        assert(group.take(i as int) =~= group);
    }
    arrays
}

/// The orchestrator for one group of sibling descriptors.
pub struct ElemParser {
    elems: Vec<Elem>,
}

impl ElemParser {
    /// An orchestrator for the descriptors `elems`.
    pub fn new(elems: Vec<Elem>) -> (parser: ElemParser)
        ensures
            parser.spec_elems() == elems_model(elems@),
    {
        ElemParser { elems }
    }

    /// The descriptors of the group.
    pub closed spec fn spec_elems(&self) -> Seq<SpecElem> {
        elems_model(self.elems@)
    }

    /// Reconstructs the content of the group: see [`spec_build`].
    pub fn build(&self) -> (r: Vec<ContentObject>)
        ensures
            contents_model(r@) == spec_build(self.spec_elems()),
    {
        build_group(&self.elems)
    }
}

} // verus!
