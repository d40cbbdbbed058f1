//! The extractor of voice messages.

use crate::elem::ParserInterface;
use crate::elem::content::ContentObject;
use crate::elem::content::FileInfo;
use crate::elem::content::MediaFile;
use crate::elem::content::SpecContent;
use crate::elem::content::SpecFileInfo;
use crate::elem::content::SpecMediaFile;
use crate::elem::descriptor::Elem;
use crate::elem::descriptor::SpecElem;
use crate::elem::embedded_body;
use crate::elem::field_or;
use crate::elem::no_text;
use crate::elem::spec_embedded_body;
use crate::elem::spec_field_or;
use crate::elem::spec_get2;
use crate::elem::spec_get3;
use crate::elem::spec_no_text;
use crate::elem::spec_zero;
use crate::value::SpecValue;
use crate::value::Value;
use vstd::prelude::*;

verus! {

/// The extractor of voice messages.
pub struct VoiceElem;

/// The metadata of a recording, read from the file-information message
/// `info`: size at field 1, the two checksums at 2 and 3, the name at 4,
/// the duration at 8.
pub open spec fn spec_recording_info(info: SpecValue) -> SpecFileInfo {
    SpecFileInfo {
        size: spec_field_or(info, 1, spec_zero()),
        md5: spec_field_or(info, 2, spec_no_text()),
        sha1: spec_field_or(info, 3, spec_no_text()),
        file_name: spec_field_or(info, 4, spec_no_text()),
        width: None,
        height: None,
        duration: Some(spec_field_or(info, 8, spec_zero())),
        format: None,
    }
}

/// The metadata of the recording in `body`: that of the message at path
/// 1.1.1, without which there is none.
pub open spec fn spec_voice_file_info(body: SpecValue) -> Option<SpecFileInfo> {
    match spec_get3(body, 1, 1, 1) {
        Some(info) => Some(spec_recording_info(info)),
        None => None,
    }
}

/// The voice message that the message `body` describes. The file
/// identifier and the upload time are fields 2 and 4 of the message at
/// path 1.1; no address is known for a recording.
pub open spec fn spec_voice_from_body(body: SpecValue) -> Option<SpecContent> {
    match (spec_get3(body, 1, 1, 1), spec_get2(body, 1, 1)) {
        (Some(info), Some(entry)) => Some(
            SpecContent::Voice {
                duration: spec_field_or(info, 8, spec_zero()),
                media: SpecMediaFile {
                    url: Seq::empty(),
                    file_info: spec_recording_info(info),
                    file_uuid: spec_field_or(entry, 2, spec_no_text()),
                    upload_time: spec_field_or(entry, 4, spec_no_text()),
                },
            },
        ),
        _ => None,
    }
}

/// The voice message of a descriptor: that of the message which its
/// business-typed part embeds.
pub open spec fn spec_voice_of(elem: SpecElem) -> Option<SpecContent> {
    match elem.common_elem {
        Some(part) => match spec_embedded_body(part.pb_elem) {
            Some(body) => spec_voice_from_body(body),
            None => None,
        },
        None => None,
    }
}

impl VoiceElem {
    /// The voice message that an embedded message describes.
    pub fn from_body(voice_body: &Value) -> (r: Option<ContentObject>)
        ensures
            r.deep_view() == spec_voice_from_body(voice_body@),
    {
        let file_info = Self::extract_file_info(voice_body)?;
        let entry = voice_body.get(1)?.get(1)?;
        let duration = match &file_info.duration {
            Some(found) => found.clone(),
            None => Value::Integer(0),
        };
        Some(
            ContentObject::Voice {
                duration,
                media: MediaFile {
                    url: String::new(),
                    file_info,
                    file_uuid: field_or(entry, 2, no_text()),
                    upload_time: field_or(entry, 4, no_text()),
                },
            },
        )
    }

    fn extract_file_info(voice_body: &Value) -> (r: Option<FileInfo>)
        ensures
            r.deep_view() == spec_voice_file_info(voice_body@),
    {
        let file_info = voice_body.get(1)?.get(1)?.get(1)?;
        Some(
            FileInfo {
                size: field_or(file_info, 1, Value::Integer(0)),
                md5: field_or(file_info, 2, no_text()),
                sha1: field_or(file_info, 3, no_text()),
                file_name: field_or(file_info, 4, no_text()),
                width: None,
                height: None,
                duration: Some(field_or(file_info, 8, Value::Integer(0))),
                format: None,
            },
        )
    }
}

impl ParserInterface for VoiceElem {
    open spec fn spec_parse(&self, elem: SpecElem) -> Option<SpecContent> {
        spec_voice_of(elem)
    }

    fn parse(&self, elem: &Elem) -> (r: Option<ContentObject>) {
        match &elem.common_elem {
            Some(part) => match embedded_body(&part.pb_elem) {
                Some(body) => Self::from_body(&body),
                None => None,
            },
            None => None,
        }
    }
}

} // verus!
