use actix_web::chunked::{read_region, ChunkedReadFile, ReadError};
use actix_web::http::{Body, EntityTag, HttpRequest, Method, TagCondition};
use actix_web::named::{
    path_file_name, ContentDisposition, DispositionType, FileConfig, FileError, FileMetadata,
    FileTime, NamedFile,
};
use actix_web::range::HttpRange;

fn metadata(len: u64) -> FileMetadata {
    FileMetadata { len, ino: 0x1f, modified: Some(FileTime { secs: 100_000_000, nanos: 7 }) }
}

fn file(len: u64) -> NamedFile {
    NamedFile::from_file(b"/srv/bar.txt".to_vec(), metadata(len)).ok().unwrap()
}

fn get() -> HttpRequest {
    HttpRequest::new(Method::Get, b"/bar.txt".to_vec())
}

fn with_range(mut req: HttpRequest, h: &str) -> HttpRequest {
    req.range = Some(h.as_bytes().to_vec());
    req
}

fn text(v: &Option<Vec<u8>>) -> String {
    String::from_utf8(v.clone().unwrap()).unwrap()
}

#[test]
fn range_request_scenario() {
    let f = file(1000);
    let resp = f.respond_to(&with_range(get(), "bytes=100-199"));
    assert_eq!(resp.status, 206);
    assert_eq!(text(&resp.headers.content_range), "bytes 100-199/1000");
    assert_eq!(resp.headers.content_length, Some(100));
    match resp.body {
        Body::File { offset, length } => {
            let content: Vec<u8> = (0..1000u32).map(|i| (i % 251) as u8).collect();
            let body = read_region(&content, offset, length);
            assert_eq!(body.len(), 100);
            assert_eq!(body, content[100..200].to_vec());
        }
        _ => panic!("expected a file body"),
    }
}

#[test]
fn if_modified_since_own_last_modified_is_not_modified() {
    let f = file(1000);
    let first = f.respond_to(&get());
    let lm = first.headers.last_modified.unwrap();
    let mut req = get();
    req.if_modified_since = Some(lm);
    let resp = f.respond_to(&req);
    assert_eq!(resp.status, 304);
    assert!(matches!(resp.body, Body::Empty));

    req.if_modified_since = Some(lm - 1);
    assert_eq!(f.respond_to(&req).status, 200);
}

#[test]
fn head_matches_get() {
    let f = file(1000);
    for req in [get(), with_range(get(), "bytes=10-19"), with_range(get(), "bytes=5000-")] {
        let g = f.respond_to(&req);
        let mut head_req = req.clone();
        head_req.method = Method::Head;
        let h = f.respond_to(&head_req);
        assert_eq!(h.status, g.status);
        assert_eq!(format!("{:?}", h.headers), format!("{:?}", g.headers));
        assert!(matches!(h.body, Body::Empty));
    }
}

#[test]
fn full_get_and_validators() {
    let f = file(1000);
    let resp = f.respond_to(&get());
    assert_eq!(resp.status, 200);
    assert_eq!(text(&resp.headers.content_type), "text/plain");
    assert_eq!(text(&resp.headers.content_disposition), "inline; filename=\"bar.txt\"");
    assert_eq!(text(&resp.headers.accept_ranges), "bytes");
    assert_eq!(resp.headers.content_length, Some(1000));
    assert!(resp.headers.content_range.is_none());
    let etag = resp.headers.etag.unwrap();
    assert!(!etag.weak);
    assert_eq!(etag.tag, b"1f:3e8:5f5e100:7".to_vec());
    assert_eq!(resp.headers.last_modified, Some(100_000_000));
    assert!(matches!(resp.body, Body::File { offset: 0, length: 1000 }));
}

#[test]
fn if_none_match_current_validator() {
    let f = file(1000);
    let tag = f.etag().unwrap();
    for m in [Method::Get, Method::Head] {
        let mut req = HttpRequest::new(m, b"/".to_vec());
        req.if_none_match = Some(TagCondition::Items(vec![EntityTag::weak(tag.tag.clone())]));
        let resp = f.respond_to(&req);
        assert_eq!(resp.status, 304);
        assert!(matches!(resp.body, Body::Empty));
    }
    let mut req = get();
    req.if_none_match = Some(TagCondition::Any);
    assert_eq!(f.respond_to(&req).status, 304);
    req.if_none_match = Some(TagCondition::Items(vec![EntityTag::strong(b"other".to_vec())]));
    req.if_modified_since = Some(200_000_000);
    assert_eq!(f.respond_to(&req).status, 200);
}

#[test]
fn if_match_mismatch_is_precondition_failed() {
    let f = file(1000);
    let mut req = with_range(get(), "bytes=0-9");
    req.if_match = Some(TagCondition::Items(vec![EntityTag::strong(b"nope".to_vec())]));
    let resp = f.respond_to(&req);
    assert_eq!(resp.status, 412);
    assert!(matches!(resp.body, Body::Empty));
    assert!(resp.headers.content_range.is_none());
    assert_eq!(resp.headers.content_length, Some(1000));
    assert!(resp.headers.etag.is_some());

    let tag = f.etag().unwrap();
    req.if_match = Some(TagCondition::Items(vec![EntityTag::weak(tag.tag.clone())]));
    assert_eq!(f.respond_to(&req).status, 412);
    req.if_match = Some(TagCondition::Items(vec![tag]));
    assert_eq!(f.respond_to(&req).status, 206);
    req.if_match = Some(TagCondition::Any);
    assert_eq!(f.respond_to(&req).status, 206);
}

#[test]
fn if_unmodified_since_before_change() {
    let f = file(10);
    let mut req = get();
    req.if_unmodified_since = Some(99_999_999);
    assert_eq!(f.respond_to(&req).status, 412);
    req.if_unmodified_since = Some(100_000_000);
    assert_eq!(f.respond_to(&req).status, 200);
}

#[test]
fn out_of_bounds_range_unsatisfiable() {
    let f = file(1000);
    for h in ["bytes=1000-1005", "bytes=2000-", "bytes=", "bytes=a-b", "items=0-1", "bytes=5-2", "bytes=-0"] {
        let resp = f.respond_to(&with_range(get(), h));
        assert_eq!(resp.status, 416, "{}", h);
        assert_eq!(text(&resp.headers.content_range), "bytes */1000");
        assert!(matches!(resp.body, Body::Empty));
    }
}

#[test]
fn range_header_not_text_is_unsatisfiable() {
    let f = file(1000);
    let mut req = get();
    req.range = Some(vec![b'b', 0x80]);
    let resp = f.respond_to(&req);
    assert_eq!(resp.status, 416);
    assert_eq!(text(&resp.headers.content_range), "bytes */1000");
    assert!(matches!(resp.body, Body::Empty));
}

#[test]
fn suffix_and_open_ranges() {
    let f = file(1000);
    let resp = f.respond_to(&with_range(get(), "bytes=-100"));
    assert_eq!(resp.status, 206);
    assert_eq!(text(&resp.headers.content_range), "bytes 900-999/1000");
    let resp = f.respond_to(&with_range(get(), "bytes=0-"));
    assert_eq!(resp.status, 206);
    assert_eq!(text(&resp.headers.content_range), "bytes 0-999/1000");
    let resp = f.respond_to(&with_range(get(), "bytes=990-5000"));
    assert_eq!(text(&resp.headers.content_range), "bytes 990-999/1000");
    assert_eq!(resp.headers.content_length, Some(10));
    let resp = f.respond_to(&with_range(get(), "bytes= 1-2 , 5-6"));
    assert_eq!(resp.status, 206);
    assert_eq!(text(&resp.headers.content_range), "bytes 1-2/1000");
}

#[test]
fn repeated_request_same_answer() {
    let f = file(1000);
    let mut req = with_range(get(), "bytes=3-4");
    req.if_none_match = Some(TagCondition::Items(vec![EntityTag::strong(b"x".to_vec())]));
    let a = f.respond_to(&req);
    let b = f.respond_to(&req);
    assert_eq!(a.status, b.status);
    assert_eq!(format!("{:?}", a.headers.etag), format!("{:?}", b.headers.etag));
    assert_eq!(a.headers.last_modified, b.headers.last_modified);
}

#[test]
fn method_not_allowed() {
    let f = file(10);
    let resp = f.respond_to(&HttpRequest::new(Method::Post, b"/".to_vec()));
    assert_eq!(resp.status, 405);
    assert_eq!(text(&resp.headers.allow), "GET, HEAD");
    assert_eq!(text(&resp.headers.content_type), "text/plain");
    match resp.body {
        Body::Bytes(b) => assert_eq!(b, b"This resource only supports GET and HEAD.".to_vec()),
        _ => panic!("expected a message"),
    }
}

#[test]
fn custom_status_skips_conditionals() {
    let f = file(10).set_status_code(404);
    let mut req = with_range(get(), "bytes=0-1");
    req.if_match = Some(TagCondition::Items(vec![]));
    let resp = f.respond_to(&req);
    assert_eq!(resp.status, 404);
    assert!(resp.headers.etag.is_none());
    assert!(matches!(resp.body, Body::File { offset: 0, length: 10 }));
}

#[test]
fn validators_can_be_switched_off() {
    let mut cfg = FileConfig::new();
    cfg.use_etag = false;
    cfg.use_last_modified = false;
    let f = NamedFile::from_file_with_config(b"a.txt".to_vec(), metadata(3), cfg).ok().unwrap();
    let resp = f.respond_to(&get());
    assert!(resp.headers.etag.is_none());
    assert!(resp.headers.last_modified.is_none());
    let mut req = get();
    req.if_match = Some(TagCondition::Items(vec![EntityTag::strong(b"1f:3:5f5e100:7".to_vec())]));
    assert_eq!(f.respond_to(&req).status, 412);
}

#[test]
fn disposition_by_media_type() {
    let f = NamedFile::from_file(b"dir/archive.zip".to_vec(), metadata(3)).ok().unwrap();
    let resp = f.respond_to(&get());
    assert_eq!(text(&resp.headers.content_type), "application/zip");
    assert_eq!(text(&resp.headers.content_disposition), "attachment; filename=\"archive.zip\"");
    let f = NamedFile::from_file(b"pic.png".to_vec(), metadata(3)).ok().unwrap();
    let resp = f.respond_to(&get());
    assert_eq!(text(&resp.headers.content_type), "image/png");
    assert_eq!(text(&resp.headers.content_disposition), "inline; filename=\"pic.png\"");
    let f = NamedFile::from_file(b"noext".to_vec(), metadata(3)).ok().unwrap();
    let resp = f.respond_to(&get());
    assert_eq!(text(&resp.headers.content_type), "application/octet-stream");
}

#[test]
fn setters_change_headers() {
    let cd = ContentDisposition {
        disposition: DispositionType::Attachment,
        filename: Some(b"a\"b.txt".to_vec()),
    };
    let f = file(3)
        .set_content_type(b"text/csv".to_vec())
        .set_content_disposition(cd)
        .set_content_encoding(actix_web::http::ContentEncoding::Gzip);
    let resp = f.respond_to(&get());
    assert_eq!(text(&resp.headers.content_type), "text/csv");
    assert_eq!(text(&resp.headers.content_disposition), "attachment; filename=\"a\\\"b.txt\"");
    assert_eq!(resp.headers.content_encoding, Some(actix_web::http::ContentEncoding::Gzip));
    assert_eq!(f.path(), b"/srv/bar.txt");
}

#[test]
fn file_names() {
    assert_eq!(path_file_name(b"/a/b/"), Some(b"b".to_vec()));
    assert_eq!(path_file_name(b"a/."), Some(b"a".to_vec()));
    assert_eq!(path_file_name(b"x.txt"), Some(b"x.txt".to_vec()));
    assert_eq!(path_file_name(b"/"), None);
    assert_eq!(path_file_name(b""), None);
    assert_eq!(path_file_name(b"a/.."), None);
    assert!(matches!(
        NamedFile::from_file(b"/".to_vec(), metadata(1)),
        Err(FileError::NoFileName)
    ));
}

#[test]
fn no_modification_time_no_validators() {
    let md = FileMetadata { len: 5, ino: 1, modified: None };
    let f = NamedFile::from_file(b"a.txt".to_vec(), md).ok().unwrap();
    assert!(f.etag().is_none());
    assert!(f.last_modified().is_none());
    let mut req = get();
    req.if_modified_since = Some(0);
    assert_eq!(f.respond_to(&req).status, 200);
}

#[test]
fn parse_ranges() {
    assert_eq!(HttpRange::parse(b"", 10), Ok(vec![]));
    assert_eq!(
        HttpRange::parse(b"bytes=0-4,-2", 10),
        Ok(vec![HttpRange { start: 0, length: 5 }, HttpRange { start: 8, length: 2 }])
    );
    assert_eq!(HttpRange::parse(b"bytes=20-30, 1-1", 10), Ok(vec![HttpRange { start: 1, length: 1 }]));
    assert_eq!(HttpRange::parse(b"bytes=20-30", 10), Err(()));
    assert_eq!(HttpRange::parse(b"bytes=1-2,x", 10), Err(()));
    assert_eq!(HttpRange::parse(b"bytes=+3-4", 10), Ok(vec![HttpRange { start: 3, length: 2 }]));
    assert_eq!(HttpRange::parse(b"bytes=1-2-3", 10), Ok(vec![HttpRange { start: 1, length: 2 }]));
    assert_eq!(HttpRange::parse(b"bytes=99999999999999999999-", 10), Err(()));
}

#[test]
fn chunked_reader_bounds() {
    let mut r = ChunkedReadFile::new(5, 70000);
    assert_eq!(r.next_read(), Some((5, 65536)));
    assert_eq!(r.advance(0), Err(ReadError::UnexpectedEof));
    assert_eq!(r.advance(65536), Ok(()));
    assert_eq!(r.next_read(), Some((65541, 4464)));
    assert_eq!(r.advance(4464), Ok(()));
    assert!(r.is_done());
    assert_eq!(r.next_read(), None);

    let content: Vec<u8> = (0..200_000u32).map(|i| (i % 7) as u8).collect();
    assert_eq!(read_region(&content, 5, 150_000), content[5..150_005].to_vec());
}
