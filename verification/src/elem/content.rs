//! Normalized content objects: what the reconstruction layer hands out.

use crate::value::SpecValue;
use crate::value::Value;
use vstd::prelude::*;

verus! {

/// The metadata of a media file. `width` and `height` are there for
/// pictures and video, `duration` for video and voice, `format` for video.
#[derive(Debug, PartialEq, Eq)]
pub struct FileInfo {
    pub size: Value,
    pub md5: Value,
    pub sha1: Value,
    pub file_name: Value,
    pub width: Option<Value>,
    pub height: Option<Value>,
    pub duration: Option<Value>,
    pub format: Option<Value>,
}

/// A media file: where to fetch it (empty where no address is known), its
/// metadata, its identifier and when it was uploaded.
#[derive(Debug, PartialEq, Eq)]
pub struct MediaFile {
    pub url: String,
    pub file_info: FileInfo,
    pub file_uuid: Value,
    pub upload_time: Value,
}

/// The download routing of a picture.
#[derive(Debug, PartialEq, Eq)]
pub struct DownloadInfo {
    pub original_parameter: Option<Value>,
    pub big_parameter: Option<Value>,
    pub thumb_parameter: Option<Value>,
    pub domain: Value,
    pub url_path: Value,
    pub rkey: Value,
}

/// A reconstructed piece of message content.
#[derive(Debug, PartialEq, Eq)]
pub enum ContentObject {
    Text { content: String },
    Image { media: MediaFile, download_info: DownloadInfo },
    Video { duration: Value, thumb_url: String, video: MediaFile, thumb: Option<MediaFile> },
    Voice { duration: Value, media: MediaFile },
    /// A reply: the content of the quoted message, its sequence number, the
    /// two participants, and the text that accompanies the quote.
    Reply {
        reply_to: Vec<ContentObject>,
        seq: i64,
        to_uid: String,
        from_uid: String,
        reply_msg: Vec<ContentObject>,
    },
}

/// The mathematical content of a [`FileInfo`].
#[verifier::ext_equal]
pub struct SpecFileInfo {
    pub size: SpecValue,
    pub md5: SpecValue,
    pub sha1: SpecValue,
    pub file_name: SpecValue,
    pub width: Option<SpecValue>,
    pub height: Option<SpecValue>,
    pub duration: Option<SpecValue>,
    pub format: Option<SpecValue>,
}

/// The mathematical content of a [`MediaFile`].
#[verifier::ext_equal]
pub struct SpecMediaFile {
    pub url: Seq<char>,
    pub file_info: SpecFileInfo,
    pub file_uuid: SpecValue,
    pub upload_time: SpecValue,
}

/// The mathematical content of a [`DownloadInfo`].
#[verifier::ext_equal]
pub struct SpecDownloadInfo {
    pub original_parameter: Option<SpecValue>,
    pub big_parameter: Option<SpecValue>,
    pub thumb_parameter: Option<SpecValue>,
    pub domain: SpecValue,
    pub url_path: SpecValue,
    pub rkey: SpecValue,
}

/// The mathematical content of a [`ContentObject`].
#[verifier::ext_equal]
pub enum SpecContent {
    Text { content: Seq<char> },
    Image { media: SpecMediaFile, download_info: SpecDownloadInfo },
    Video {
        duration: SpecValue,
        thumb_url: Seq<char>,
        video: SpecMediaFile,
        thumb: Option<SpecMediaFile>,
    },
    Voice { duration: SpecValue, media: SpecMediaFile },
    Reply {
        reply_to: Seq<SpecContent>,
        seq: i64,
        to_uid: Seq<char>,
        from_uid: Seq<char>,
        reply_msg: Seq<SpecContent>,
    },
}

impl DeepView for FileInfo {
    type V = SpecFileInfo;

    open spec fn deep_view(&self) -> SpecFileInfo {
        SpecFileInfo {
            size: self.size@,
            md5: self.md5@,
            sha1: self.sha1@,
            file_name: self.file_name@,
            width: self.width.deep_view(),
            height: self.height.deep_view(),
            duration: self.duration.deep_view(),
            format: self.format.deep_view(),
        }
    }
}

impl View for FileInfo {
    type V = SpecFileInfo;

    open spec fn view(&self) -> SpecFileInfo {
        self.deep_view()
    }
}

impl DeepView for MediaFile {
    type V = SpecMediaFile;

    open spec fn deep_view(&self) -> SpecMediaFile {
        SpecMediaFile {
            url: self.url@,
            file_info: self.file_info@,
            file_uuid: self.file_uuid@,
            upload_time: self.upload_time@,
        }
    }
}

impl View for MediaFile {
    type V = SpecMediaFile;

    open spec fn view(&self) -> SpecMediaFile {
        self.deep_view()
    }
}

impl DeepView for DownloadInfo {
    type V = SpecDownloadInfo;

    open spec fn deep_view(&self) -> SpecDownloadInfo {
        SpecDownloadInfo {
            original_parameter: self.original_parameter.deep_view(),
            big_parameter: self.big_parameter.deep_view(),
            thumb_parameter: self.thumb_parameter.deep_view(),
            domain: self.domain@,
            url_path: self.url_path@,
            rkey: self.rkey@,
        }
    }
}

impl View for DownloadInfo {
    type V = SpecDownloadInfo;

    open spec fn view(&self) -> SpecDownloadInfo {
        self.deep_view()
    }
}

/// What `c` stands for.
pub open spec fn content_model(c: ContentObject) -> SpecContent
    decreases c,
{
    match c {
        ContentObject::Text { content } => SpecContent::Text { content: content@ },
        ContentObject::Image { media, download_info } => SpecContent::Image {
            media: media@,
            download_info: download_info@,
        },
        ContentObject::Video { duration, thumb_url, video, thumb } => SpecContent::Video {
            duration: duration@,
            thumb_url: thumb_url@,
            video: video@,
            thumb: thumb.deep_view(),
        },
        ContentObject::Voice { duration, media } => SpecContent::Voice {
            duration: duration@,
            media: media@,
        },
        ContentObject::Reply { reply_to, seq, to_uid, from_uid, reply_msg } => SpecContent::Reply {
            reply_to: contents_model(reply_to@),
            seq,
            to_uid: to_uid@,
            from_uid: from_uid@,
            reply_msg: contents_model(reply_msg@),
        },
    }
}

/// The models of a list of content objects, one for one.
pub open spec fn contents_model(list: Seq<ContentObject>) -> Seq<SpecContent>
    decreases list,
{
    Seq::new(
        list.len(),
        |i: int|
            if 0 <= i < list.len() {
                content_model(list[i])
            } else {
                SpecContent::Text { content: Seq::empty() }
            },
    )
}

impl View for ContentObject {
    type V = SpecContent;

    open spec fn view(&self) -> SpecContent {
        content_model(*self)
    }
}

impl DeepView for ContentObject {
    type V = SpecContent;

    open spec fn deep_view(&self) -> SpecContent {
        content_model(*self)
    }
}

/// Appending to a list appends to its model.
pub proof fn lemma_contents_model_push(list: Seq<ContentObject>, c: ContentObject)
    ensures
        contents_model(list.push(c)) == contents_model(list).push(content_model(c)),
{
    assert(contents_model(list.push(c)) =~= contents_model(list).push(content_model(c)));
}

} // verus!
