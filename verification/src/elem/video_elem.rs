//! The extractor of video.

use crate::elem::ParserInterface;
use crate::elem::content::ContentObject;
use crate::elem::content::FileInfo;
use crate::elem::content::MediaFile;
use crate::elem::content::SpecContent;
use crate::elem::content::SpecFileInfo;
use crate::elem::content::SpecMediaFile;
use crate::elem::descriptor::Elem;
use crate::elem::descriptor::SpecElem;
use crate::elem::embedded_body;
use crate::elem::field_or;
use crate::elem::image_elem::spec_picture_info;
use crate::elem::no_text;
use crate::elem::spec_embedded_body;
use crate::elem::spec_field_or;
use crate::elem::spec_get2;
use crate::elem::spec_no_text;
use crate::elem::spec_zero;
use crate::value::SpecValue;
use crate::value::Value;
use crate::value::spec_get;
use crate::value::spec_items;
use vstd::prelude::*;

verus! {

/// The extractor of video.
pub struct VideoElem;

/// The metadata of a film, read from the file-information message `info`:
/// what a picture has, and the duration at field 8 and the format at 9.
pub open spec fn spec_film_info(info: SpecValue) -> SpecFileInfo {
    SpecFileInfo {
        size: spec_field_or(info, 1, spec_zero()),
        md5: spec_field_or(info, 2, spec_no_text()),
        sha1: spec_field_or(info, 3, spec_no_text()),
        file_name: spec_field_or(info, 4, spec_no_text()),
        width: Some(spec_field_or(info, 6, spec_zero())),
        height: Some(spec_field_or(info, 7, spec_zero())),
        duration: Some(spec_field_or(info, 8, spec_zero())),
        format: Some(spec_field_or(info, 9, spec_zero())),
    }
}

/// The film that an entry of a video message holds. Field 1 of the entry
/// holds the file: the metadata at 1, the identifier at 2, the upload time
/// at 4. Without the file or its metadata the entry holds no film.
pub open spec fn spec_film_of_entry(entry: SpecValue) -> Option<SpecMediaFile> {
    match (spec_get(entry, 1), spec_get2(entry, 1, 1)) {
        (Some(file), Some(info)) => Some(
            SpecMediaFile {
                url: Seq::empty(),
                file_info: spec_film_info(info),
                file_uuid: spec_field_or(file, 2, spec_no_text()),
                upload_time: spec_field_or(file, 4, spec_zero()),
            },
        ),
        _ => None,
    }
}

/// The thumbnail that an entry of a video message holds: read as a film
/// is, but with the metadata of a picture.
pub open spec fn spec_thumb_of_entry(entry: SpecValue) -> Option<SpecMediaFile> {
    match (spec_get(entry, 1), spec_get2(entry, 1, 1)) {
        (Some(file), Some(info)) => Some(
            SpecMediaFile {
                url: Seq::empty(),
                file_info: spec_picture_info(info),
                file_uuid: spec_field_or(file, 2, spec_no_text()),
                upload_time: spec_field_or(file, 4, spec_zero()),
            },
        ),
        _ => None,
    }
}

/// The film among the entries of a video message: that of the first
/// entry.
pub open spec fn spec_video_info(items: Seq<SpecValue>) -> Option<SpecMediaFile> {
    if items.len() == 0 {
        None
    } else {
        spec_film_of_entry(items[0])
    }
}

/// The thumbnail among the entries of a video message: that of the second
/// entry. A missing thumbnail is no fault.
pub open spec fn spec_thumb_info(items: Seq<SpecValue>) -> Option<SpecMediaFile> {
    if items.len() <= 1 {
        None
    } else {
        spec_thumb_of_entry(items[1])
    }
}

/// The entries of a video message, given what stands under its field 1:
/// the occurrences of a repeated field, or the one value of a field that
/// occurs once.
pub open spec fn spec_video_entries(found: SpecValue) -> Seq<SpecValue> {
    match spec_items(found) {
        Some(items) => items,
        None => seq![found],
    }
}

/// The video that the message `body` describes: the entries stand under
/// field 1 of `body`, the film first and the thumbnail, if there is one,
/// second. Without a film there is no video.
pub open spec fn spec_video_from_body(body: SpecValue) -> Option<SpecContent> {
    match spec_get(body, 1) {
        Some(found) => match spec_video_info(spec_video_entries(found)) {
            Some(video) => Some(
                SpecContent::Video {
                    duration: video.file_info.duration->0,
                    thumb_url: Seq::empty(),
                    video,
                    thumb: spec_thumb_info(spec_video_entries(found)),
                },
            ),
            None => None,
        },
        None => None,
    }
}

/// The video of a descriptor: that of the message which its
/// business-typed part embeds.
pub open spec fn spec_video_of(elem: SpecElem) -> Option<SpecContent> {
    match elem.common_elem {
        Some(part) => match spec_embedded_body(part.pb_elem) {
            Some(body) => spec_video_from_body(body),
            None => None,
        },
        None => None,
    }
}

impl VideoElem {
    /// The video that an embedded message describes.
    pub fn from_body(video_body: &Value) -> (r: Option<ContentObject>)
        ensures
            r.deep_view() == spec_video_from_body(video_body@),
    {
        let found = video_body.get(1)?;
        let (video_info, thumb_info) = match found.as_array() {
            Some(items) => {
                if items.len() == 0 {
                    return None;
                }
                assert(items.deep_view()[0] == items[0]@);
                let thumb_info = if items.len() > 1 {
                    assert(items.deep_view()[1] == items[1]@);
                    Self::extract_thumb_info(&items[1])
                } else {
                    None
                };
                (Self::extract_video_info(&items[0]), thumb_info)
            },
            None => {
                assert(spec_video_entries(found@) =~= seq![found@]);
                (Self::extract_video_info(found), None)
            },
        };
        let video_info = video_info?;
        let duration = match &video_info.file_info.duration {
            Some(length) => length.clone(),
            None => Value::Integer(0),
        };
        Some(
            ContentObject::Video {
                duration,
                thumb_url: String::new(),
                video: video_info,
                thumb: thumb_info,
            },
        )
    }

    /// The film that the entry `video_item` holds.
    fn extract_video_info(video_item: &Value) -> (r: Option<MediaFile>)
        ensures
            r.deep_view() == spec_film_of_entry(video_item@),
    {
        let video_data = video_item.get(1)?;
        let file_info = video_data.get(1)?;
        Some(
            MediaFile {
                url: String::new(),
                file_info: FileInfo {
                    size: field_or(file_info, 1, Value::Integer(0)),
                    md5: field_or(file_info, 2, no_text()),
                    sha1: field_or(file_info, 3, no_text()),
                    file_name: field_or(file_info, 4, no_text()),
                    width: Some(field_or(file_info, 6, Value::Integer(0))),
                    height: Some(field_or(file_info, 7, Value::Integer(0))),
                    duration: Some(field_or(file_info, 8, Value::Integer(0))),
                    format: Some(field_or(file_info, 9, Value::Integer(0))),
                },
                file_uuid: field_or(video_data, 2, no_text()),
                upload_time: field_or(video_data, 4, Value::Integer(0)),
            },
        )
    }

    /// The thumbnail that the entry `thumb_item` holds.
    fn extract_thumb_info(thumb_item: &Value) -> (r: Option<MediaFile>)
        ensures
            r.deep_view() == spec_thumb_of_entry(thumb_item@),
    {
        let thumb_data = thumb_item.get(1)?;
        let file_info = thumb_data.get(1)?;
        Some(
            MediaFile {
                url: String::new(),
                file_info: FileInfo {
                    size: field_or(file_info, 1, Value::Integer(0)),
                    md5: field_or(file_info, 2, no_text()),
                    sha1: field_or(file_info, 3, no_text()),
                    file_name: field_or(file_info, 4, no_text()),
                    width: Some(field_or(file_info, 6, Value::Integer(0))),
                    height: Some(field_or(file_info, 7, Value::Integer(0))),
                    duration: None,
                    format: None,
                },
                file_uuid: field_or(thumb_data, 2, no_text()),
                upload_time: field_or(thumb_data, 4, Value::Integer(0)),
            },
        )
    }
}

impl ParserInterface for VideoElem {
    open spec fn spec_parse(&self, elem: SpecElem) -> Option<SpecContent> {
        spec_video_of(elem)
    }

    fn parse(&self, elem: &Elem) -> (r: Option<ContentObject>) {
        match &elem.common_elem {
            Some(part) => match embedded_body(&part.pb_elem) {
                Some(body) => Self::from_body(&body),
                None => None,
            },
            None => None,
        }
    }
}

} // verus!
