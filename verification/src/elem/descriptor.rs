//! Content element descriptors: the entries of a message's rich-content
//! list, as the reconstruction layer reads them.

use vstd::prelude::*;

verus! {

/// The quote marker of a descriptor: the content list of the quoted
/// message, and the reply metadata as the base64 text of a wire-format
/// message. A field is `None` where the marker does not carry it in that
/// form.
#[derive(Debug, PartialEq, Eq)]
pub struct SrcMsg {
    pub elems: Option<Vec<Elem>>,
    pub pb_reserve: Option<String>,
}

/// The inline text of a descriptor, as the base64 text of its UTF-8
/// bytes; `None` where the part holds no such text.
#[derive(Debug, PartialEq, Eq)]
pub struct TextPart {
    pub payload: Option<String>,
}

/// The business-typed part of a descriptor: the service type, the
/// business type and the base64 text of a wire-format message, each
/// `None` where the part does not carry it in that form.
#[derive(Debug, PartialEq, Eq)]
pub struct CommonPart {
    pub service_type: Option<u64>,
    pub business_type: Option<u64>,
    pub pb_elem: Option<String>,
}

/// One entry of a rich-content list. Which parts it carries says which
/// extraction paths apply; an entry that carries none is of no kind that
/// the library knows.
#[derive(Debug, PartialEq, Eq)]
pub struct Elem {
    pub src_msg: Option<SrcMsg>,
    pub text: Option<TextPart>,
    pub common_elem: Option<CommonPart>,
}

/// The mathematical content of a [`SrcMsg`].
#[verifier::ext_equal]
pub struct SpecSrcMsg {
    pub elems: Option<Seq<SpecElem>>,
    pub pb_reserve: Option<Seq<char>>,
}

/// The mathematical content of a [`TextPart`].
#[verifier::ext_equal]
pub struct SpecTextPart {
    pub payload: Option<Seq<char>>,
}

/// The mathematical content of a [`CommonPart`].
#[verifier::ext_equal]
pub struct SpecCommonPart {
    pub service_type: Option<u64>,
    pub business_type: Option<u64>,
    pub pb_elem: Option<Seq<char>>,
}

/// The mathematical content of an [`Elem`].
#[verifier::ext_equal]
pub struct SpecElem {
    pub src_msg: Option<SpecSrcMsg>,
    pub text: Option<SpecTextPart>,
    pub common_elem: Option<SpecCommonPart>,
}

/// The characters of a string that may be missing.
pub open spec fn text_model(text: Option<String>) -> Option<Seq<char>> {
    match text {
        Some(s) => Some(s@),
        None => None,
    }
}

/// What the inline text `part` stands for.
pub open spec fn text_part_model(part: Option<TextPart>) -> Option<SpecTextPart> {
    match part {
        Some(p) => Some(SpecTextPart { payload: text_model(p.payload) }),
        None => None,
    }
}

/// What the business-typed part `part` stands for.
pub open spec fn common_part_model(part: Option<CommonPart>) -> Option<SpecCommonPart> {
    match part {
        Some(p) => Some(
            SpecCommonPart {
                service_type: p.service_type,
                business_type: p.business_type,
                pb_elem: text_model(p.pb_elem),
            },
        ),
        None => None,
    }
}

/// What `e` stands for.
pub open spec fn elem_model(e: Elem) -> SpecElem
    decreases e,
{
    SpecElem {
        src_msg: match e.src_msg {
            Some(marker) => Some(
                SpecSrcMsg {
                    elems: match marker.elems {
                        Some(list) => Some(elems_model(list@)),
                        None => None,
                    },
                    pb_reserve: text_model(marker.pb_reserve),
                },
            ),
            None => None,
        },
        text: text_part_model(e.text),
        common_elem: common_part_model(e.common_elem),
    }
}

/// The models of a list of descriptors, one for one.
pub open spec fn elems_model(elems: Seq<Elem>) -> Seq<SpecElem>
    decreases elems,
{
    Seq::new(
        elems.len(),
        |i: int|
            if 0 <= i < elems.len() {
                elem_model(elems[i])
            } else {
                SpecElem { src_msg: None, text: None, common_elem: None }
            },
    )
}

impl View for Elem {
    type V = SpecElem;

    open spec fn view(&self) -> SpecElem {
        elem_model(*self)
    }
}

impl DeepView for Elem {
    type V = SpecElem;

    open spec fn deep_view(&self) -> SpecElem {
        elem_model(*self)
    }
}

} // verus!
