//! The extractor of pictures.

use crate::elem::ParserInterface;
use crate::elem::content::ContentObject;
use crate::elem::content::DownloadInfo;
use crate::elem::content::FileInfo;
use crate::elem::content::MediaFile;
use crate::elem::content::SpecContent;
use crate::elem::content::SpecDownloadInfo;
use crate::elem::content::SpecFileInfo;
use crate::elem::content::SpecMediaFile;
use crate::elem::descriptor::Elem;
use crate::elem::descriptor::SpecElem;
use crate::elem::embedded_body;
use crate::elem::field_copy;
use crate::elem::field_or;
use crate::elem::no_text;
use crate::elem::spec_embedded_body;
use crate::elem::spec_field_or;
use crate::elem::spec_get2;
use crate::elem::spec_get3;
use crate::elem::spec_no_text;
use crate::elem::spec_text_or_empty;
use crate::elem::spec_zero;
use crate::elem::text_or_empty;
use crate::value::SpecValue;
use crate::value::Value;
use crate::value::spec_get;
use vstd::prelude::*;
use vstd::string::StringExecFns;

verus! {

/// The extractor of pictures.
pub struct ImageElem;

/// The metadata of a picture, read from the file-information message
/// `info`: size at field 1, the two checksums at 2 and 3, the name at 4,
/// width and height at 6 and 7. A missing number reads as zero, a missing
/// text as the empty text.
pub open spec fn spec_picture_info(info: SpecValue) -> SpecFileInfo {
    SpecFileInfo {
        size: spec_field_or(info, 1, spec_zero()),
        md5: spec_field_or(info, 2, spec_no_text()),
        sha1: spec_field_or(info, 3, spec_no_text()),
        file_name: spec_field_or(info, 4, spec_no_text()),
        width: Some(spec_field_or(info, 6, spec_zero())),
        height: Some(spec_field_or(info, 7, spec_zero())),
        duration: None,
        format: None,
    }
}

/// The metadata of the picture in `body`: that of the message at path
/// 1.1.1, without which there is none.
pub open spec fn spec_image_file_info(body: SpecValue) -> Option<SpecFileInfo> {
    match spec_get3(body, 1, 1, 1) {
        Some(info) => Some(spec_picture_info(info)),
        None => None,
    }
}

/// The download routing of the picture in `body`. The request is the
/// message at path 1.2: the path of the file at its field 1, the domain at
/// 3, the three size parameters under its field 2. The access key is field
/// 30 of the message at path 2.1.11. Without the request, its field 2 or
/// the message at 2.1.11 there is no routing.
pub open spec fn spec_image_download_info(body: SpecValue) -> Option<SpecDownloadInfo> {
    match spec_get2(body, 1, 2) {
        Some(request) => match spec_get(request, 2) {
            Some(parameters) => match spec_get3(body, 2, 1, 11) {
                Some(keys) => Some(
                    SpecDownloadInfo {
                        original_parameter: spec_get(parameters, 1),
                        big_parameter: spec_get(parameters, 2),
                        thumb_parameter: spec_get(parameters, 3),
                        domain: spec_field_or(request, 3, spec_no_text()),
                        url_path: spec_field_or(request, 1, spec_no_text()),
                        rkey: spec_field_or(keys, 30, spec_no_text()),
                    },
                ),
                None => None,
            },
            None => None,
        },
        None => None,
    }
}

/// The address of a picture: `https://`, then the domain, the path and the
/// access key, each as far as it is textual.
pub open spec fn spec_image_url(info: SpecDownloadInfo) -> Seq<char> {
    "https://"@ + spec_text_or_empty(info.domain) + spec_text_or_empty(info.url_path)
        + spec_text_or_empty(info.rkey)
}

/// The picture that the message `body` describes. The file identifier and
/// the upload time are fields 2 and 4 of the message at path 1.1.
pub open spec fn spec_image_from_body(body: SpecValue) -> Option<SpecContent> {
    match (spec_image_file_info(body), spec_image_download_info(body), spec_get2(body, 1, 1)) {
        (Some(file_info), Some(download_info), Some(entry)) => Some(
            SpecContent::Image {
                media: SpecMediaFile {
                    url: spec_image_url(download_info),
                    file_info,
                    file_uuid: spec_field_or(entry, 2, spec_no_text()),
                    upload_time: spec_field_or(entry, 4, spec_no_text()),
                },
                download_info,
            },
        ),
        _ => None,
    }
}

/// The picture of a descriptor: that of the message which its
/// business-typed part embeds.
pub open spec fn spec_image_of(elem: SpecElem) -> Option<SpecContent> {
    match elem.common_elem {
        Some(part) => match spec_embedded_body(part.pb_elem) {
            Some(body) => spec_image_from_body(body),
            None => None,
        },
        None => None,
    }
}

impl ImageElem {
    /// The picture that an embedded message describes.
    pub fn from_body(image_body: &Value) -> (r: Option<ContentObject>)
        ensures
            r.deep_view() == spec_image_from_body(image_body@),
    {
        let file_info = Self::extract_file_info(image_body)?;
        let download_info = Self::extract_download_info(image_body)?;
        let url = Self::build_image_url(&download_info);
        let entry = image_body.get(1)?.get(1)?;
        Some(
            ContentObject::Image {
                media: MediaFile {
                    url,
                    file_info,
                    file_uuid: field_or(entry, 2, no_text()),
                    upload_time: field_or(entry, 4, no_text()),
                },
                download_info,
            },
        )
    }

    fn extract_file_info(image_body: &Value) -> (r: Option<FileInfo>)
        ensures
            r.deep_view() == spec_image_file_info(image_body@),
    {
        let file_info = image_body.get(1)?.get(1)?.get(1)?;
        Some(
            FileInfo {
                size: field_or(file_info, 1, Value::Integer(0)),
                md5: field_or(file_info, 2, no_text()),
                sha1: field_or(file_info, 3, no_text()),
                file_name: field_or(file_info, 4, no_text()),
                width: Some(field_or(file_info, 6, Value::Integer(0))),
                height: Some(field_or(file_info, 7, Value::Integer(0))),
                duration: None,
                format: None,
            },
        )
    }

    fn extract_download_info(image_body: &Value) -> (r: Option<DownloadInfo>)
        ensures
            r.deep_view() == spec_image_download_info(image_body@),
    {
        let download_req = image_body.get(1)?.get(2)?;
        let parameters = download_req.get(2)?;
        let keys = image_body.get(2)?.get(1)?.get(11)?;
        Some(
            DownloadInfo {
                original_parameter: field_copy(parameters, 1),
                big_parameter: field_copy(parameters, 2),
                thumb_parameter: field_copy(parameters, 3),
                domain: field_or(download_req, 3, no_text()),
                url_path: field_or(download_req, 1, no_text()),
                rkey: field_or(keys, 30, no_text()),
            },
        )
    }

    fn build_image_url(download_info: &DownloadInfo) -> (url: String)
        ensures
            url@ == spec_image_url(download_info@),
    {
        let mut url = String::from_str("https://");
        url.append(text_or_empty(&download_info.domain));
        url.append(text_or_empty(&download_info.url_path));
        url.append(text_or_empty(&download_info.rkey));
        url
    }
}

impl ParserInterface for ImageElem {
    open spec fn spec_parse(&self, elem: SpecElem) -> Option<SpecContent> {
        spec_image_of(elem)
    }

    fn parse(&self, elem: &Elem) -> (r: Option<ContentObject>) {
        match &elem.common_elem {
            Some(part) => match embedded_body(&part.pb_elem) {
                Some(body) => Self::from_body(&body),
                None => None,
            },
            None => None,
        }
    }
}

} // verus!
