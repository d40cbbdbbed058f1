//! What holds of the reconstruction of every group of descriptors.

use crate::elem::common_elem::spec_common_of;
use crate::elem::content::SpecContent;
use crate::elem::descriptor::SpecElem;
use crate::elem::descriptor::SpecSrcMsg;
use crate::elem::parser::lemma_first_reply_is_reply;
use crate::elem::parser::spec_accompanying_text;
use crate::elem::parser::spec_build;
use crate::elem::parser::spec_first_reply;
use crate::elem::parser::spec_has_marker;
use crate::elem::parser::spec_optional;
use crate::elem::parser::spec_plain;
use crate::elem::parser::spec_plain_one;
use crate::elem::parser::spec_reply_of;
use crate::elem::parser::spec_texts;
use crate::elem::reply_elem::spec_reply_seq;
use crate::elem::reply_elem::spec_reply_uid;
use crate::elem::spec_embedded_body;
use crate::elem::text_elem::spec_text_of;
use vstd::prelude::*;

verus! {

/// The plain path keeps the order of the descriptors: what two groups
/// become, one behind the other, is what their concatenation becomes.
pub proof fn lemma_plain_keeps_order(first: Seq<SpecElem>, second: Seq<SpecElem>)
    ensures
        spec_plain(first + second) == spec_plain(first) + spec_plain(second),
    decreases second.len(),
{
    if second.len() == 0 {
        assert(first + second =~= first);
        assert(spec_plain(first) + spec_plain(second) =~= spec_plain(first));
    } else {
        lemma_plain_keeps_order(first, second.drop_last());
        assert((first + second).drop_last() =~= first + second.drop_last());
        assert((first + second).last() == second.last());
        assert(spec_plain(first + second) =~= spec_plain(first) + spec_plain(second));
    }
}

/// The accompanying text of a reply keeps the order of the descriptors.
pub proof fn lemma_texts_keep_order(first: Seq<SpecElem>, second: Seq<SpecElem>)
    ensures
        spec_texts(first + second) == spec_texts(first) + spec_texts(second),
    decreases second.len(),
{
    if second.len() == 0 {
        assert(first + second =~= first);
        assert(spec_texts(first) + spec_texts(second) =~= spec_texts(first));
    } else {
        lemma_texts_keep_order(first, second.drop_last());
        assert((first + second).drop_last() =~= first + second.drop_last());
        assert((first + second).last() == second.last());
        assert(spec_texts(first + second) =~= spec_texts(first) + spec_texts(second));
    }
}

/// A descriptor that carries both inline text and a business-typed part:
/// in a plain group the text is tried first, and the business-typed part
/// where the text yields nothing.
pub proof fn lemma_text_before_business_part(elem: SpecElem)
    ensures
        spec_text_of(elem) is Some ==> spec_plain_one(elem) == spec_text_of(elem),
        spec_text_of(elem) is None ==> spec_plain_one(elem) == spec_common_of(elem),
        elem.text is None && elem.common_elem is None ==> spec_plain_one(elem) is None,
{
}

/// A plain group yields at most one object for each descriptor.
pub proof fn lemma_plain_length(elems: Seq<SpecElem>)
    ensures
        spec_plain(elems).len() <= elems.len(),
    decreases elems.len(),
{
    if elems.len() > 0 {
        lemma_plain_length(elems.drop_last());
    }
}

/// A group with a quote marker yields a single reply object or nothing,
/// however many descriptors it holds.
pub proof fn lemma_reply_composite_is_single(elems: Seq<SpecElem>)
    requires
        spec_has_marker(elems),
    ensures
        spec_build(elems).len() <= 1,
        spec_build(elems).len() == 1 <==> spec_first_reply(elems) is Some,
        spec_build(elems).len() == 1 ==> spec_build(elems)[0] is Reply,
{
    lemma_first_reply_is_reply(elems);
}

/// A group without a quote marker, made of a text, a picture and a
/// descriptor that yields nothing: the text and the picture come out, in
/// that order.
pub proof fn lemma_plain_group_of_three(
    text: SpecElem,
    picture: SpecElem,
    unknown: SpecElem,
    text_object: SpecContent,
    picture_object: SpecContent,
)
    requires
        text.src_msg is None,
        spec_text_of(text) == Some(text_object),
        picture.src_msg is None,
        spec_text_of(picture) is None,
        spec_common_of(picture) == Some(picture_object),
        unknown.src_msg is None,
        spec_plain_one(unknown) is None,
    ensures
        spec_build(seq![text, picture, unknown]) == seq![text_object, picture_object],
{
    let group = seq![text, picture, unknown];
    assert(!spec_has_marker(group));
    lemma_plain_keeps_order(seq![text], seq![picture, unknown]);
    lemma_plain_keeps_order(seq![picture], seq![unknown]);
    assert(seq![text] + seq![picture, unknown] =~= group);
    assert(seq![picture] + seq![unknown] =~= seq![picture, unknown]);
    lemma_plain_single(text);
    lemma_plain_single(picture);
    lemma_plain_single(unknown);
    assert(spec_plain(group) =~= seq![text_object, picture_object]);
}

/// What a plain group of one descriptor becomes.
pub proof fn lemma_plain_single(elem: SpecElem)
    ensures
        spec_plain(seq![elem]) == spec_optional(spec_plain_one(elem)),
{
    reveal_with_fuel(spec_plain, 2);
    assert(seq![elem].drop_last() =~= Seq::<SpecElem>::empty());
    assert(spec_plain(seq![elem]) =~= spec_optional(spec_plain_one(elem)));
}

/// The accompanying text that a single descriptor contributes.
pub proof fn lemma_texts_single(elem: SpecElem)
    ensures
        spec_texts(seq![elem]) == spec_optional(spec_accompanying_text(elem)),
{
    reveal_with_fuel(spec_texts, 2);
    assert(seq![elem].drop_last() =~= Seq::<SpecElem>::empty());
    assert(spec_texts(seq![elem]) =~= spec_optional(spec_accompanying_text(elem)));
}

/// A group of one quote marker and two texts, the marker at any `place`
/// among them: it becomes exactly one reply object, whose quoted content
/// is the reconstruction of the quoted group and whose accompanying text
/// is the two texts in their order.
pub proof fn lemma_reply_with_two_texts(
    marker: SpecElem,
    first: SpecElem,
    second: SpecElem,
    place: int,
    first_object: SpecContent,
    second_object: SpecContent,
)
    requires
        0 <= place <= 2,
        marker.src_msg matches Some(SpecSrcMsg { elems: Some(_), pb_reserve })
            && spec_embedded_body(pb_reserve) is Some,
        first.src_msg is None,
        second.src_msg is None,
        spec_text_of(first) == Some(first_object),
        spec_text_of(second) == Some(second_object),
    ensures
        ({
            let group = seq![first, second].insert(place, marker);
            let meta = spec_embedded_body(marker.src_msg->0.pb_reserve)->0;
            spec_build(group) == seq![
                SpecContent::Reply {
                    reply_to: spec_build(marker.src_msg->0.elems->0),
                    seq: spec_reply_seq(meta),
                    to_uid: spec_reply_uid(meta, 6),
                    from_uid: spec_reply_uid(meta, 7),
                    reply_msg: seq![first_object, second_object],
                },
            ]
        }),
{
    let group = seq![first, second].insert(place, marker);
    assert(group[place].src_msg is Some);
    assert(spec_has_marker(group));
    assert(spec_reply_of(first) is None);
    assert(spec_reply_of(second) is None);
    assert(spec_accompanying_text(marker) is None);
    lemma_texts_single(marker);
    lemma_texts_single(first);
    lemma_texts_single(second);
    if place == 0 {
        assert(group =~= seq![marker] + (seq![first] + seq![second]));
        lemma_texts_keep_order(seq![marker], seq![first] + seq![second]);
        lemma_texts_keep_order(seq![first], seq![second]);
    } else if place == 1 {
        assert(group =~= seq![first] + (seq![marker] + seq![second]));
        lemma_texts_keep_order(seq![first], seq![marker] + seq![second]);
        lemma_texts_keep_order(seq![marker], seq![second]);
    } else {
        assert(group =~= seq![first] + (seq![second] + seq![marker]));
        lemma_texts_keep_order(seq![first], seq![second] + seq![marker]);
        lemma_texts_keep_order(seq![second], seq![marker]);
    }
    assert(spec_texts(group) =~= seq![first_object, second_object]);
    lemma_first_reply_of_three(group);
}

/// What a group of three descriptors remembers of its quote markers.
proof fn lemma_first_reply_of_three(group: Seq<SpecElem>)
    requires
        group.len() == 3,
    ensures
        spec_first_reply(group) == match spec_reply_of(group[0]) {
            Some(reply) => Some(reply),
            None => match spec_reply_of(group[1]) {
                Some(reply) => Some(reply),
                None => spec_reply_of(group[2]),
            },
        },
{
    let two = group.drop_last();
    let one = two.drop_last();
    assert(one.drop_last() =~= Seq::<SpecElem>::empty());
    assert(spec_first_reply(one.drop_last()) is None);
    assert(spec_first_reply(one) == spec_reply_of(group[0]));
    assert(spec_first_reply(two) == match spec_first_reply(one) {
        Some(reply) => Some(reply),
        None => spec_reply_of(group[1]),
    });
}

} // verus!
