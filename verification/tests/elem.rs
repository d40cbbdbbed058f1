use base64::Engine;
use qq_history::elem::common_elem::BusinessKind;
use qq_history::elem::common_elem::CommonElem;
use qq_history::elem::content::ContentObject;
use qq_history::elem::content::DownloadInfo;
use qq_history::elem::content::FileInfo;
use qq_history::elem::content::MediaFile;
use qq_history::elem::descriptor::CommonPart;
use qq_history::elem::descriptor::Elem;
use qq_history::elem::descriptor::SrcMsg;
use qq_history::elem::descriptor::TextPart;
use qq_history::elem::image_elem::ImageElem;
use qq_history::elem::parser::ElemParser;
use qq_history::elem::reply_elem::ReplyElem;
use qq_history::elem::text_elem::TextElem;
use qq_history::elem::video_elem::VideoElem;
use qq_history::elem::voice_elem::VoiceElem;
use qq_history::elem::ParserInterface;
use qq_history::protobuf::Protobuf;
use qq_history::value::Value;

fn b64(bytes: &[u8]) -> String {
    base64::engine::general_purpose::STANDARD.encode(bytes)
}

fn varint(mut v: u64) -> Vec<u8> {
    let mut out = Vec::new();
    while v >= 0x80 {
        out.push((v & 0x7f) as u8 | 0x80);
        v >>= 7;
    }
    out.push(v as u8);
    out
}

fn number(id: u64, value: u64) -> Vec<u8> {
    let mut out = varint(id << 3);
    out.extend(varint(value));
    out
}

fn blob(id: u64, payload: &[u8]) -> Vec<u8> {
    let mut out = varint((id << 3) | 2);
    out.extend(varint(payload.len() as u64));
    out.extend_from_slice(payload);
    out
}

fn message(parts: &[Vec<u8>]) -> Vec<u8> {
    parts.concat()
}

fn s(text: &str) -> Value {
    Value::String(text.to_string())
}

fn quote(src_msg: SrcMsg) -> Elem {
    Elem { src_msg: Some(src_msg), text: None, common_elem: None }
}

fn business(part: CommonPart) -> Elem {
    Elem { src_msg: None, text: None, common_elem: Some(part) }
}

fn text_part(payload: Option<String>) -> Elem {
    Elem { src_msg: None, text: Some(TextPart { payload }), common_elem: None }
}

fn unknown() -> Elem {
    Elem { src_msg: None, text: None, common_elem: None }
}

fn text_elem(text: &str) -> Elem {
    text_part(Some(b64(text.as_bytes())))
}

fn common_elem(business_type: u64, body: &[u8]) -> Elem {
    business(CommonPart {
        service_type: Some(48),
        business_type: Some(business_type),
        pb_elem: Some(b64(body)),
    })
}

fn text_object(text: &str) -> ContentObject {
    ContentObject::Text { content: text.to_string() }
}

fn picture_info_bytes() -> Vec<u8> {
    message(&[
        number(1, 1234),
        blob(2, b"md5hex"),
        blob(3, b"sha1hex"),
        blob(4, b"a.jpg"),
        number(6, 640),
        number(7, 480),
    ])
}

fn image_body() -> Vec<u8> {
    let entry = message(&[blob(1, &picture_info_bytes()), blob(2, b"uuid"), number(4, 1700000000)]);
    let parameters = message(&[blob(1, b"&spec=0"), blob(2, b"&spec=720"), blob(3, b"&spec=198")]);
    let request = message(&[
        blob(1, b"/download?x=1"),
        blob(2, &parameters),
        blob(3, b"multimedia.example.com"),
    ]);
    let first = message(&[blob(1, &entry), blob(2, &request)]);
    let keys = blob(11, &blob(30, b"&rkey=abc"));
    let second = blob(1, &keys);
    message(&[blob(1, &first), blob(2, &second)])
}

fn image_object() -> ContentObject {
    ContentObject::Image {
        media: MediaFile {
            url: "https://multimedia.example.com/download?x=1&rkey=abc".to_string(),
            file_info: FileInfo {
                size: Value::Integer(1234),
                md5: s("md5hex"),
                sha1: s("sha1hex"),
                file_name: s("a.jpg"),
                width: Some(Value::Integer(640)),
                height: Some(Value::Integer(480)),
                duration: None,
                format: None,
            },
            file_uuid: s("uuid"),
            upload_time: Value::Integer(1700000000),
        },
        download_info: DownloadInfo {
            original_parameter: Some(s("&spec=0")),
            big_parameter: Some(s("&spec=720")),
            thumb_parameter: Some(s("&spec=198")),
            domain: s("multimedia.example.com"),
            url_path: s("/download?x=1"),
            rkey: s("&rkey=abc"),
        },
    }
}

fn film_entry(uuid: &str, with_length: bool) -> Vec<u8> {
    let mut info = vec![number(1, 999), blob(2, b"m5"), blob(4, b"clip.mp4"), number(6, 1280), number(7, 720)];
    if with_length {
        info.push(number(8, 12));
        info.push(number(9, 2));
    }
    let file = message(&[blob(1, &message(&info)), blob(2, uuid.as_bytes()), number(4, 1700000001)]);
    blob(1, &blob(1, &file))
}

fn voice_body() -> Vec<u8> {
    let info = message(&[number(1, 4096), blob(2, b"vmd5"), blob(4, b"rec.amr"), number(8, 3)]);
    let entry = message(&[blob(1, &info), blob(2, b"voice-uuid"), number(4, 1700000002)]);
    blob(1, &blob(1, &entry))
}

fn reply_meta() -> Vec<u8> {
    message(&[blob(6, b"u_target"), blob(7, b"u_source"), number(8, 77)])
}

fn reply_object(quoted: Vec<ContentObject>, texts: Vec<ContentObject>) -> ContentObject {
    ContentObject::Reply {
        reply_to: quoted,
        seq: 77,
        to_uid: "u_target".to_string(),
        from_uid: "u_source".to_string(),
        reply_msg: texts,
    }
}

#[test]
fn text_is_decoded_from_base64() {
    assert_eq!(TextElem.parse(&text_elem("hello")), Some(text_object("hello")));
    assert_eq!(
        TextElem.parse(&text_part(Some("5L2g5aW9".to_string()))),
        Some(text_object("你好"))
    );
    assert_eq!(TextElem::from_bytes(b"plain"), Some(text_object("plain")));
}

#[test]
fn empty_text_is_dropped() {
    assert_eq!(TextElem.parse(&text_elem("")), None);
    assert_eq!(TextElem.parse(&text_part(Some(String::new()))), None);
    assert_eq!(TextElem::from_bytes(&[]), None);
}

#[test]
fn text_that_cannot_be_read_is_dropped() {
    // no base64
    assert_eq!(TextElem.parse(&text_part(Some("***".to_string()))), None);
    // base64 of bytes that are no UTF-8
    assert_eq!(TextElem.parse(&text_part(Some("//8=".to_string()))), None);
    assert_eq!(TextElem::from_bytes(&[0xff, 0xff]), None);
    // no payload at all
    assert_eq!(TextElem.parse(&text_part(None)), None);
    // another kind of descriptor
    assert_eq!(TextElem.parse(&unknown()), None);
    assert_eq!(TextElem.parse(&common_elem(10, &image_body())), None);
}

#[test]
fn image_is_extracted() {
    let elem = common_elem(10, &image_body());
    assert_eq!(ImageElem.parse(&elem), Some(image_object()));
    let body = Value::Tree(Protobuf::deserialize(&image_body()).unwrap());
    assert_eq!(ImageElem::from_body(&body), Some(image_object()));
}

#[test]
fn image_fields_default_when_missing() {
    let entry = blob(1, &[]);
    let request = blob(2, &[]);
    let first = message(&[blob(1, &entry), blob(2, &request)]);
    let second = blob(1, &blob(11, &[]));
    let body = message(&[blob(1, &first), blob(2, &second)]);
    let expected = ContentObject::Image {
        media: MediaFile {
            url: "https://".to_string(),
            file_info: FileInfo {
                size: Value::Integer(0),
                md5: s(""),
                sha1: s(""),
                file_name: s(""),
                width: Some(Value::Integer(0)),
                height: Some(Value::Integer(0)),
                duration: None,
                format: None,
            },
            file_uuid: s(""),
            upload_time: s(""),
        },
        download_info: DownloadInfo {
            original_parameter: None,
            big_parameter: None,
            thumb_parameter: None,
            domain: s(""),
            url_path: s(""),
            rkey: s(""),
        },
    };
    assert_eq!(ImageElem.parse(&common_elem(10, &body)), Some(expected));
}

#[test]
fn image_url_skips_parts_that_are_no_text() {
    let entry = blob(1, &picture_info_bytes());
    let request = message(&[number(1, 5), blob(2, &[]), blob(3, b"host.example")]);
    let first = message(&[blob(1, &entry), blob(2, &request)]);
    let second = blob(1, &blob(11, &blob(30, &[0xff, 0xfe])));
    let body = message(&[blob(1, &first), blob(2, &second)]);
    match ImageElem.parse(&common_elem(10, &body)) {
        Some(ContentObject::Image { media, download_info }) => {
            // the path is a number and adds nothing; the key is a blob and adds its text
            assert_eq!(media.url, "https://host.example//4=");
            assert_eq!(download_info.url_path, Value::Integer(5));
            assert_eq!(download_info.rkey, Value::Bytes("//4=".to_string()));
        }
        other => panic!("no picture: {:?}", other),
    }
}

#[test]
fn image_without_a_needed_message_is_nothing() {
    // no file information at 1.1.1
    let request = blob(2, &blob(2, &[]));
    let keys = blob(2, &blob(1, &blob(11, &[])));
    let body = message(&[blob(1, &message(&[blob(1, &number(2, 1)), request.clone()])), keys.clone()]);
    assert_eq!(ImageElem.parse(&common_elem(10, &body)), None);
    // no download request at 1.2
    let entry = blob(1, &blob(1, &picture_info_bytes()));
    let body = message(&[blob(1, &entry), keys.clone()]);
    assert_eq!(ImageElem.parse(&common_elem(10, &body)), None);
    // no parameters at 1.2.2
    let body = message(&[blob(1, &message(&[entry.clone(), blob(2, &number(1, 1))])), keys]);
    assert_eq!(ImageElem.parse(&common_elem(10, &body)), None);
    // no key message at 2.1.11
    let body = message(&[blob(1, &message(&[entry, request])), blob(2, &blob(1, &number(1, 1)))]);
    assert_eq!(ImageElem.parse(&common_elem(10, &body)), None);
}

#[test]
fn image_needs_a_readable_body() {
    let no_base64 = business(CommonPart {
        service_type: Some(48),
        business_type: Some(10),
        pb_elem: Some("not base64!".to_string()),
    });
    assert_eq!(ImageElem.parse(&no_base64), None);
    let no_message = common_elem(10, &[0x0a, 0x05]);
    assert_eq!(ImageElem.parse(&no_message), None);
    let no_payload = business(CommonPart { service_type: Some(48), business_type: Some(10), pb_elem: None });
    assert_eq!(ImageElem.parse(&no_payload), None);
    assert_eq!(ImageElem.parse(&text_elem("hello")), None);
}

#[test]
fn voice_is_extracted() {
    let expected = ContentObject::Voice {
        duration: Value::Integer(3),
        media: MediaFile {
            url: String::new(),
            file_info: FileInfo {
                size: Value::Integer(4096),
                md5: s("vmd5"),
                sha1: s(""),
                file_name: s("rec.amr"),
                width: None,
                height: None,
                duration: Some(Value::Integer(3)),
                format: None,
            },
            file_uuid: s("voice-uuid"),
            upload_time: Value::Integer(1700000002),
        },
    };
    assert_eq!(VoiceElem.parse(&common_elem(12, &voice_body())), Some(expected));
    assert_eq!(VoiceElem.parse(&common_elem(12, &number(1, 1))), None);
    assert_eq!(VoiceElem::from_body(&Value::Integer(1)), None);
}

#[test]
fn video_is_extracted_with_its_thumbnail() {
    let body = message(&[film_entry("film-uuid", true), film_entry("thumb-uuid", false)]);
    match VideoElem.parse(&common_elem(11, &body)) {
        Some(ContentObject::Video { duration, thumb_url, video, thumb }) => {
            assert_eq!(duration, Value::Integer(12));
            assert_eq!(thumb_url, "");
            assert_eq!(video.url, "");
            assert_eq!(video.file_uuid, s("film-uuid"));
            assert_eq!(video.upload_time, Value::Integer(1700000001));
            assert_eq!(video.file_info.size, Value::Integer(999));
            assert_eq!(video.file_info.file_name, s("clip.mp4"));
            assert_eq!(video.file_info.width, Some(Value::Integer(1280)));
            assert_eq!(video.file_info.height, Some(Value::Integer(720)));
            assert_eq!(video.file_info.duration, Some(Value::Integer(12)));
            assert_eq!(video.file_info.format, Some(Value::Integer(2)));
            let thumb = thumb.expect("a thumbnail");
            assert_eq!(thumb.file_uuid, s("thumb-uuid"));
            assert_eq!(thumb.url, "");
            assert_eq!(thumb.file_info.width, Some(Value::Integer(1280)));
            assert_eq!(thumb.file_info.duration, None);
            assert_eq!(thumb.file_info.format, None);
        }
        other => panic!("no video: {:?}", other),
    }
}

#[test]
fn video_without_a_thumbnail_is_no_fault() {
    // the second entry has no file at its field 1
    let body = message(&[film_entry("film-uuid", true), blob(1, &blob(1, &number(3, 1)))]);
    match VideoElem.parse(&common_elem(11, &body)) {
        Some(ContentObject::Video { duration, video, thumb, .. }) => {
            assert_eq!(duration, Value::Integer(12));
            assert_eq!(video.file_uuid, s("film-uuid"));
            assert_eq!(thumb, None);
        }
        other => panic!("no video: {:?}", other),
    }
}

#[test]
fn video_with_a_single_entry_has_no_thumbnail() {
    match VideoElem.parse(&common_elem(11, &film_entry("film-uuid", true))) {
        Some(ContentObject::Video { duration, thumb_url, video, thumb }) => {
            assert_eq!(duration, Value::Integer(12));
            assert_eq!(thumb_url, "");
            assert_eq!(video.file_uuid, s("film-uuid"));
            assert_eq!(video.file_info.size, Value::Integer(999));
            assert_eq!(video.file_info.duration, Some(Value::Integer(12)));
            assert_eq!(thumb, None);
        }
        other => panic!("no video: {:?}", other),
    }
}

#[test]
fn video_of_one_entry_is_read_from_its_base64_text() {
    // field 1 occurs once: 1.1.1 holds size 7 and duration 3
    let elem = business(CommonPart {
        service_type: Some(48),
        business_type: Some(11),
        pb_elem: Some("CggKBgoECAdAAw==".to_string()),
    });
    let expected = ContentObject::Video {
        duration: Value::Integer(3),
        thumb_url: String::new(),
        video: MediaFile {
            url: String::new(),
            file_info: FileInfo {
                size: Value::Integer(7),
                md5: s(""),
                sha1: s(""),
                file_name: s(""),
                width: Some(Value::Integer(0)),
                height: Some(Value::Integer(0)),
                duration: Some(Value::Integer(3)),
                format: Some(Value::Integer(0)),
            },
            file_uuid: s(""),
            upload_time: Value::Integer(0),
        },
        thumb: None,
    };
    assert_eq!(VideoElem.parse(&elem), Some(expected));
}

#[test]
fn video_needs_a_film() {
    // the first entry has no file
    let body = message(&[blob(1, &blob(1, &number(3, 1))), film_entry("thumb-uuid", false)]);
    assert_eq!(VideoElem.parse(&common_elem(11, &body)), None);
    // the one entry has no file
    assert_eq!(VideoElem.parse(&common_elem(11, &blob(1, &number(3, 1)))), None);
    // the one entry has a file without metadata
    assert_eq!(VideoElem.parse(&common_elem(11, &blob(1, &blob(1, &number(2, 1))))), None);
    // no entry at all
    assert_eq!(VideoElem.parse(&common_elem(11, &number(2, 1))), None);
    assert_eq!(VideoElem::from_body(&Value::Array(vec![])), None);
}

#[test]
fn common_selects_by_business_type() {
    let common = CommonElem::new();
    assert_eq!(common.parse(&common_elem(10, &image_body())), Some(image_object()));
    assert!(matches!(
        common.parse(&common_elem(12, &voice_body())),
        Some(ContentObject::Voice { .. })
    ));
    let film = message(&[film_entry("a", true), film_entry("b", false)]);
    assert!(matches!(common.parse(&common_elem(11, &film)), Some(ContentObject::Video { .. })));
    // the body of a picture is no voice message, but the kinds share their path
    assert!(matches!(
        common.parse(&common_elem(12, &image_body())),
        Some(ContentObject::Voice { .. })
    ));
    // and read as a video, the body of a picture is a film without thumbnail
    assert!(matches!(
        common.parse(&common_elem(11, &image_body())),
        Some(ContentObject::Video { thumb: None, .. })
    ));
}

#[test]
fn common_knows_one_service_type_and_three_business_types() {
    let common = CommonElem::new();
    assert_eq!(common.parse(&common_elem(13, &image_body())), None);
    assert_eq!(common.parse(&common_elem(0, &image_body())), None);
    let other_service = business(CommonPart {
        service_type: Some(33),
        business_type: Some(10),
        pb_elem: Some(b64(&image_body())),
    });
    assert_eq!(common.parse(&other_service), None);
    let no_service = business(CommonPart {
        service_type: None,
        business_type: Some(10),
        pb_elem: Some(b64(&image_body())),
    });
    assert_eq!(common.parse(&no_service), None);
    let no_business = business(CommonPart {
        service_type: Some(48),
        business_type: None,
        pb_elem: Some(b64(&image_body())),
    });
    assert_eq!(common.parse(&no_business), None);
    assert_eq!(common.parse(&text_elem("hello")), None);
    assert_eq!(CommonElem::business_kind(10), Some(BusinessKind::Image));
    assert_eq!(CommonElem::business_kind(11), Some(BusinessKind::Video));
    assert_eq!(CommonElem::business_kind(12), Some(BusinessKind::Voice));
    assert_eq!(CommonElem::business_kind(9), None);
}

#[test]
fn common_compares_the_whole_business_type() {
    let common = CommonElem::new();
    for code in [(1u64 << 32) + 10, (1u64 << 32) + 11, (1u64 << 32) + 12, 4294967306, u64::MAX] {
        assert_eq!(common.parse(&common_elem(code, &image_body())), None);
        assert_eq!(CommonElem::business_kind(code), None);
    }
}

#[test]
fn reply_is_extracted() {
    let marker = quote(SrcMsg {
        elems: Some(vec![text_elem("quoted"), unknown()]),
        pb_reserve: Some(b64(&reply_meta())),
    });
    assert_eq!(
        ReplyElem.parse(&marker),
        Some(reply_object(vec![text_object("quoted")], vec![]))
    );
}

#[test]
fn reply_metadata_defaults_when_missing() {
    let marker = quote(SrcMsg { elems: Some(vec![]), pb_reserve: Some(String::new()) });
    assert_eq!(
        ReplyElem.parse(&marker),
        Some(ContentObject::Reply {
            reply_to: vec![],
            seq: 0,
            to_uid: String::new(),
            from_uid: String::new(),
            reply_msg: vec![],
        })
    );
    // a sequence number beyond the signed range, and participants that are no text
    let meta = Value::Tree(
        Protobuf::deserialize(&message(&[number(6, 1), number(8, u64::MAX)])).unwrap(),
    );
    assert_eq!(
        ReplyElem::from_parts(vec![], &meta),
        ContentObject::Reply {
            reply_to: vec![],
            seq: 0,
            to_uid: String::new(),
            from_uid: String::new(),
            reply_msg: vec![],
        }
    );
}

#[test]
fn reply_needs_its_group_and_its_metadata() {
    let no_group = quote(SrcMsg { elems: None, pb_reserve: Some(b64(&reply_meta())) });
    assert_eq!(ReplyElem.parse(&no_group), None);
    let no_meta = quote(SrcMsg { elems: Some(vec![]), pb_reserve: None });
    assert_eq!(ReplyElem.parse(&no_meta), None);
    let bad_meta = quote(SrcMsg { elems: Some(vec![]), pb_reserve: Some("%".to_string()) });
    assert_eq!(ReplyElem.parse(&bad_meta), None);
    let broken_meta = quote(SrcMsg { elems: Some(vec![]), pb_reserve: Some(b64(&[0x0a, 0x09])) });
    assert_eq!(ReplyElem.parse(&broken_meta), None);
    assert_eq!(ReplyElem.parse(&text_elem("hello")), None);
}

#[test]
fn plain_group_keeps_order_and_skips_the_unknown() {
    let group = vec![text_elem("hello"), common_elem(10, &image_body()), unknown()];
    assert_eq!(ElemParser::new(group).build(), vec![text_object("hello"), image_object()]);
}

#[test]
fn plain_group_skips_what_yields_nothing() {
    let group = vec![
        unknown(),
        text_elem(""),
        text_elem("a"),
        common_elem(99, &image_body()),
        text_elem("b"),
        text_part(None),
        common_elem(10, &image_body()),
        text_elem("c"),
    ];
    assert_eq!(
        ElemParser::new(group).build(),
        vec![text_object("a"), text_object("b"), image_object(), text_object("c")]
    );
    assert_eq!(ElemParser::new(vec![]).build(), vec![]);
}

#[test]
fn reply_group_becomes_one_reply() {
    let quoted = vec![text_elem("quoted"), common_elem(10, &image_body())];
    let marker = quote(SrcMsg { elems: Some(quoted), pb_reserve: Some(b64(&reply_meta())) });
    let group = vec![marker, text_elem("first"), text_elem("second")];
    let quoted_again = vec![text_elem("quoted"), common_elem(10, &image_body())];
    assert_eq!(
        ElemParser::new(group).build(),
        vec![reply_object(
            ElemParser::new(quoted_again).build(),
            vec![text_object("first"), text_object("second")]
        )]
    );
}

#[test]
fn reply_group_takes_texts_on_both_sides_of_the_marker() {
    let marker = quote(SrcMsg {
        elems: Some(vec![text_elem("quoted")]),
        pb_reserve: Some(b64(&reply_meta())),
    });
    let group = vec![
        text_elem("first"),
        common_elem(10, &image_body()),
        marker,
        text_elem(""),
        text_elem("second"),
    ];
    assert_eq!(
        ElemParser::new(group).build(),
        vec![reply_object(
            vec![text_object("quoted")],
            vec![text_object("first"), text_object("second")]
        )]
    );
}

#[test]
fn reply_group_without_a_usable_marker_is_empty() {
    let group = vec![
        text_elem("first"),
        quote(SrcMsg { elems: None, pb_reserve: None }),
        text_elem("second"),
    ];
    assert_eq!(ElemParser::new(group).build(), vec![]);
}

#[test]
fn reply_group_uses_its_first_usable_marker() {
    let unusable = quote(SrcMsg { elems: Some(vec![text_elem("lost")]), pb_reserve: None });
    let first = quote(SrcMsg {
        elems: Some(vec![text_elem("one")]),
        pb_reserve: Some(b64(&reply_meta())),
    });
    let second = quote(SrcMsg {
        elems: Some(vec![text_elem("two")]),
        pb_reserve: Some(b64(&number(8, 5))),
    });
    let group = vec![unusable, first, text_elem("mine"), second];
    assert_eq!(
        ElemParser::new(group).build(),
        vec![reply_object(vec![text_object("one")], vec![text_object("mine")])]
    );
}

#[test]
fn replies_nest() {
    let innermost = quote(SrcMsg {
        elems: Some(vec![text_elem("oldest")]),
        pb_reserve: Some(b64(&reply_meta())),
    });
    let inner = quote(SrcMsg {
        elems: Some(vec![innermost, text_elem("older")]),
        pb_reserve: Some(b64(&reply_meta())),
    });
    let group = vec![inner, text_elem("newest")];
    let oldest = reply_object(vec![text_object("oldest")], vec![text_object("older")]);
    assert_eq!(
        ElemParser::new(group).build(),
        vec![reply_object(vec![oldest], vec![text_object("newest")])]
    );
}

fn text_and_business(text: &str, business_type: u64, body: &[u8]) -> Elem {
    Elem {
        src_msg: None,
        text: Some(TextPart { payload: Some(b64(text.as_bytes())) }),
        common_elem: Some(CommonPart {
            service_type: Some(48),
            business_type: Some(business_type),
            pb_elem: Some(b64(body)),
        }),
    }
}

#[test]
fn plain_group_tries_text_first_and_then_the_business_part() {
    // the text yields an object: the business part is not looked at
    let both = text_and_business("caption", 10, &image_body());
    assert_eq!(ElemParser::new(vec![both]).build(), vec![text_object("caption")]);
    // the text yields nothing: the business part is tried
    let empty_text = text_and_business("", 10, &image_body());
    assert_eq!(ElemParser::new(vec![empty_text]).build(), vec![image_object()]);
    let no_payload = Elem {
        src_msg: None,
        text: Some(TextPart { payload: None }),
        common_elem: Some(CommonPart {
            service_type: Some(48),
            business_type: Some(10),
            pb_elem: Some(b64(&image_body())),
        }),
    };
    assert_eq!(ElemParser::new(vec![no_payload]).build(), vec![image_object()]);
    // neither yields
    let neither = text_and_business("", 13, &image_body());
    assert_eq!(ElemParser::new(vec![neither]).build(), vec![]);
}

#[test]
fn each_extractor_reads_its_own_part() {
    let both = text_and_business("caption", 10, &image_body());
    assert_eq!(TextElem.parse(&both), Some(text_object("caption")));
    assert_eq!(ImageElem.parse(&both), Some(image_object()));
    assert_eq!(CommonElem::new().parse(&both), Some(image_object()));
    assert_eq!(ReplyElem.parse(&both), None);
}

#[test]
fn text_inside_a_marker_is_no_accompanying_text() {
    let marker = Elem {
        src_msg: Some(SrcMsg {
            elems: Some(vec![text_elem("quoted")]),
            pb_reserve: Some(b64(&reply_meta())),
        }),
        text: Some(TextPart { payload: Some(b64(b"inside")) }),
        common_elem: None,
    };
    let group = vec![marker, text_elem("mine")];
    assert_eq!(
        ElemParser::new(group).build(),
        vec![reply_object(vec![text_object("quoted")], vec![text_object("mine")])]
    );
}
