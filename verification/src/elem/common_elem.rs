//! The extractor of business-typed elements, which hands each descriptor
//! to the extractor that the business type selects.

use crate::elem::ParserInterface;
use crate::elem::content::ContentObject;
use crate::elem::content::SpecContent;
use crate::elem::descriptor::Elem;
use crate::elem::descriptor::CommonPart;
use crate::elem::descriptor::SpecCommonPart;
use crate::elem::descriptor::SpecElem;
use crate::elem::image_elem::ImageElem;
use crate::elem::image_elem::spec_image_of;
use crate::elem::video_elem::VideoElem;
use crate::elem::video_elem::spec_video_of;
use crate::elem::voice_elem::VoiceElem;
use crate::elem::voice_elem::spec_voice_of;
use vstd::prelude::*;

verus! {

/// The only service type whose elements carry media.
pub const SERVICE_TYPE_MEDIA: u64 = 48;

/// The business type of pictures.
pub const BUSINESS_TYPE_IMAGE: u64 = 10;

/// The business type of voice messages.
pub const BUSINESS_TYPE_VOICE: u64 = 12;

/// The business type of video.
pub const BUSINESS_TYPE_VIDEO: u64 = 11;

/// The kinds of media that a business type can select.
#[derive(Debug, Clone, Copy, PartialEq, Eq, Structural)]
pub enum BusinessKind {
    Image,
    Voice,
    Video,
}

/// The business-type table: which kind of media a code stands for. A code
/// that is not in the table stands for none.
pub open spec fn spec_business_kind(code: u64) -> Option<BusinessKind> {
    if code == BUSINESS_TYPE_IMAGE {
        Some(BusinessKind::Image)
    } else if code == BUSINESS_TYPE_VOICE {
        Some(BusinessKind::Voice)
    } else if code == BUSINESS_TYPE_VIDEO {
        Some(BusinessKind::Video)
    } else {
        None
    }
}

/// The content object of the business-typed part of a descriptor: where
/// the service type is 48, that of the extractor which the business type
/// selects; nothing for any other service type, and nothing for a business
/// type that the table does not hold.
pub open spec fn spec_common_of(elem: SpecElem) -> Option<SpecContent> {
    match elem.common_elem {
        Some(SpecCommonPart { service_type: Some(service), business_type: Some(business), .. }) => {
            if service == SERVICE_TYPE_MEDIA {
                match spec_business_kind(business) {
                    Some(BusinessKind::Image) => spec_image_of(elem),
                    Some(BusinessKind::Voice) => spec_voice_of(elem),
                    Some(BusinessKind::Video) => spec_video_of(elem),
                    None => None,
                }
            } else {
                None
            }
        },
        _ => None,
    }
}

/// The extractor of business-typed elements.
pub struct CommonElem;

impl CommonElem {
    pub fn new() -> CommonElem {
        CommonElem
    }

    /// Looks a business type up in the table.
    pub fn business_kind(code: u64) -> (r: Option<BusinessKind>)
        ensures
            r == spec_business_kind(code),
    {
        if code == BUSINESS_TYPE_IMAGE {
            Some(BusinessKind::Image)
        } else if code == BUSINESS_TYPE_VOICE {
            Some(BusinessKind::Voice)
        } else if code == BUSINESS_TYPE_VIDEO {
            Some(BusinessKind::Video)
        } else {
            None
        }
    }
}

impl ParserInterface for CommonElem {
    open spec fn spec_parse(&self, elem: SpecElem) -> Option<SpecContent> {
        spec_common_of(elem)
    }

    fn parse(&self, elem: &Elem) -> (r: Option<ContentObject>) {
        match &elem.common_elem {
            Some(CommonPart { service_type: Some(service), business_type: Some(business), .. }) => {
                if *service == SERVICE_TYPE_MEDIA {
                    match Self::business_kind(*business) {
                        Some(BusinessKind::Image) => ImageElem.parse(elem),
                        Some(BusinessKind::Voice) => VoiceElem.parse(elem),
                        Some(BusinessKind::Video) => VideoElem.parse(elem),
                        None => None,
                    }
                } else {
                    None
                }
            },
            _ => None,
        }
    }
}

} // verus!
