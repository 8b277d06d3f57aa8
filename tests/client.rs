use owo::{
    delete_outcome, fill_step, list_outcome, upload_form, FillStep, check_status, content_kind, delete_confirmation, delete_request, display_url,
    list_files_request, list_header, read_up_to, response_outcome, shorten_outcome,
    shorten_request, sniff, status_error, upload_request, ApiError, DeleteResponse, Entry,
    EntryError, File, FileListData, FileListResponse, Method, PeekedReader, ReadError,
    UploadResponse, API_BASE, FALLBACK_MIME, FALLBACK_NAME, SNIFF_LEN, USER_AGENT,
};
use std::io::{Cursor, Read};

fn record(kind: i64) -> FileListData {
    FileListData {
        bucket: "public".to_string(),
        key: "/7IqAPwr".to_string(),
        dir: "/".to_string(),
        kind,
        dest_url: None,
        content_type: None,
        content_length: None,
        created_at: "2023-01-01T00:00:00Z".to_string(),
        deleted_at: None,
        delete_reason: None,
        md5_hash: None,
        sha256_hash: None,
        associated_with_current_user: true,
    }
}

fn pairs(q: &[(String, String)]) -> Vec<(&str, &str)> {
    q.iter().map(|(a, b)| (a.as_str(), b.as_str())).collect()
}

#[test]
fn shorten_returns_body_verbatim() {
    let req = shorten_request("T", "https://example.com");
    assert_eq!(req.method, Method::Get);
    assert_eq!(req.url, "https://api.awau.moe/shorten/polr");
    assert_eq!(pairs(&req.query), vec![("action", "shorten"), ("url", "https://example.com")]);
    assert_eq!(req.authorization, "T");
    assert_eq!(req.user_agent, USER_AGENT);
    assert_eq!(
        shorten_outcome(200, "shortened-ok".to_string()),
        Ok("shortened-ok".to_string())
    );
}

#[test]
fn unauthorized_for_every_operation() {
    assert_eq!(shorten_outcome(401, "nope".to_string()), Err(ApiError::Unauthorized));
    assert_eq!(check_status(401), Err(ApiError::Unauthorized));
    let upload: Option<UploadResponse> = None;
    assert_eq!(response_outcome(401, upload).err(), Some(ApiError::Unauthorized));
    let list: Option<FileListResponse> = None;
    assert_eq!(response_outcome(401, list).err(), Some(ApiError::Unauthorized));
    let deleted = Some(DeleteResponse { success: true, data: record(0) });
    assert_eq!(response_outcome(401, deleted).err(), Some(ApiError::Unauthorized));
}

#[test]
fn other_statuses_carry_their_code() {
    let codes: [u16; 6] = [201, 204, 400, 403, 404, 500];
    for c in codes {
        assert_eq!(status_error(c), ApiError::Status(c));
        assert_eq!(check_status(c), Err(ApiError::Status(c)));
        assert_eq!(shorten_outcome(c, String::new()), Err(ApiError::Status(c)));
    }
    assert_ne!(status_error(400), status_error(404));
    assert_eq!(check_status(200), Ok(()));
}

#[test]
fn ok_reply_keeps_decoded_record() {
    let resp = UploadResponse {
        success: true,
        files: vec![File {
            success: true,
            hash: "abc123".to_string(),
            name: "owo.png".to_string(),
            url: "xyz.png".to_string(),
            size: Some(42),
        }],
    };
    let got = response_outcome(200, Some(resp)).unwrap();
    assert!(got.success);
    assert_eq!(got.files.len(), 1);
    assert_eq!(got.files[0].hash, "abc123");
    assert_eq!(got.files[0].name, "owo.png");
    assert_eq!(got.files[0].url, "xyz.png");
    assert_eq!(got.files[0].size, Some(42));
    let none: Option<FileListResponse> = None;
    assert_eq!(response_outcome(200, none).err(), Some(ApiError::Decode));
}

#[test]
fn request_addresses() {
    let list = list_files_request("K", 8, 0);
    assert_eq!(list.method, Method::Get);
    assert_eq!(list.url, "https://api.awau.moe/objects");
    assert_eq!(pairs(&list.query), vec![("limit", "8"), ("offset", "0")]);
    let neg = list_files_request("K", -15, 1234567);
    assert_eq!(pairs(&neg.query), vec![("limit", "-15"), ("offset", "1234567")]);
    let del = delete_request("K", "7IqAPwr");
    assert_eq!(del.method, Method::Delete);
    assert_eq!(del.url, "https://api.awau.moe/objects/7IqAPwr");
    assert!(del.query.is_empty());
    let up = upload_request("K", false);
    assert_eq!(up.method, Method::Post);
    assert_eq!(up.url, format!("{API_BASE}/upload/pomf"));
    let assoc = upload_request("K", true);
    assert_eq!(assoc.url, "https://api.awau.moe/upload/pomf/associated");
    assert_eq!(assoc.authorization, "K");
}

#[test]
fn display_and_confirmation_lines() {
    let resp = UploadResponse {
        success: true,
        files: vec![File {
            success: true,
            hash: "h".to_string(),
            name: "n".to_string(),
            url: "abc.png".to_string(),
            size: None,
        }],
    };
    assert_eq!(display_url("owo.whats-th.is", &resp), Some("https://owo.whats-th.is/abc.png".to_string()));
    let empty = UploadResponse { success: false, files: vec![] };
    assert_eq!(display_url("owo.whats-th.is", &empty), None);
    let mut data = record(2);
    data.deleted_at = Some("2023-02-02".to_string());
    data.delete_reason = Some("user request".to_string());
    let deleted = DeleteResponse { success: true, data };
    assert_eq!(
        delete_confirmation(&deleted),
        Some("Success! Object /7IqAPwr deleted at 2023-02-02".to_string())
    );
    let kept = DeleteResponse { success: true, data: record(0) };
    assert_eq!(delete_confirmation(&kept), None);
    assert_eq!(list_header(8, 0), "Showing 8 entries, from offset 0\n");
}

#[test]
fn sniff_recognises_png() {
    let png: [u8; 8] = [0x89, 0x50, 0x4E, 0x47, 0x0D, 0x0A, 0x1A, 0x0A];
    assert_eq!(sniff(&png), ("image/png".to_string(), "owo.png".to_string()));
}

#[test]
fn sniff_falls_back() {
    let text = b"just some plain words";
    assert_eq!(sniff(text), (FALLBACK_MIME.to_string(), FALLBACK_NAME.to_string()));
    assert_eq!(sniff(&[]), ("application/octet-stream".to_string(), "owo".to_string()));
    assert_eq!(content_kind(None), ("application/octet-stream".to_string(), "owo".to_string()));
    assert_eq!(
        content_kind(Some(("image/gif".to_string(), "gif".to_string()))),
        ("image/gif".to_string(), "owo.gif".to_string())
    );
}

fn sent_bytes(input: &[u8]) -> Vec<u8> {
    let mut src = Cursor::new(input.to_vec());
    let mut buf = [0u8; SNIFF_LEN];
    let n = read_up_to(&mut src, &mut buf).unwrap();
    assert_eq!(n, input.len().min(SNIFF_LEN));
    assert_eq!(&buf[..n], &input[..n]);
    let mut reader = PeekedReader::new(&buf, n, src);
    let mut out = Vec::new();
    let mut chunk = [0u8; 300];
    loop {
        let k = reader.read(&mut chunk).unwrap();
        if k == 0 {
            break;
        }
        out.extend_from_slice(&chunk[..k]);
    }
    out
}

#[test]
fn upload_stream_keeps_every_byte() {
    for len in [0usize, 1, 1000, 1023, 1024, 1025, 5000] {
        let input: Vec<u8> = (0..len).map(|i| (i * 7 % 251) as u8).collect();
        assert_eq!(sent_bytes(&input), input, "length {len}");
    }
}

struct Interrupting {
    interrupts: usize,
    data: Cursor<Vec<u8>>,
}

impl Read for Interrupting {
    fn read(&mut self, buf: &mut [u8]) -> std::io::Result<usize> {
        if self.interrupts > 0 {
            self.interrupts -= 1;
            return Err(std::io::Error::from(std::io::ErrorKind::Interrupted));
        }
        let n = buf.len().min(3);
        self.data.read(&mut buf[..n])
    }
}

struct Broken;

impl Read for Broken {
    fn read(&mut self, _buf: &mut [u8]) -> std::io::Result<usize> {
        Err(std::io::Error::other("gone"))
    }
}

#[test]
fn read_up_to_retries_and_fails() {
    let mut src = Interrupting { interrupts: 3, data: Cursor::new(b"hello world".to_vec()) };
    let mut buf = [0u8; 8];
    assert_eq!(read_up_to(&mut src, &mut buf).unwrap(), 8);
    assert_eq!(&buf, b"hello wo");
    let mut buf = [0u8; 4];
    assert!(matches!(read_up_to(&mut Broken, &mut buf), Err(ReadError::Io(_))));
}

#[test]
fn entry_per_kind() {
    let mut file = record(0);
    file.content_type = Some("image/png".to_string());
    file.content_length = Some(2048);
    file.md5_hash = Some("d41d8cd9".to_string());
    let e = file.entry().unwrap();
    assert_eq!(
        e.render(),
        "\nType: File\nKey: /7IqAPwr\nCreation Date: 2023-01-01T00:00:00Z\nMIME Type: image/png\nFile Length: 2048\nMD5 Hash: d41d8cd9\n"
    );

    let mut redirect = record(1);
    redirect.dest_url = Some("https://example.com".to_string());
    let e = redirect.entry().unwrap();
    assert_eq!(
        e,
        Entry::Redirect {
            key: "/7IqAPwr".to_string(),
            dest_url: "https://example.com".to_string(),
            created_at: "2023-01-01T00:00:00Z".to_string(),
        }
    );
    assert_eq!(
        e.render(),
        "\nType: Redirect\nKey: /7IqAPwr\nRedirect URL: https://example.com\nCreation Date: 2023-01-01T00:00:00Z\n"
    );

    let mut tomb = record(2);
    tomb.deleted_at = Some("2023-03-03".to_string());
    tomb.delete_reason = Some("user request".to_string());
    assert_eq!(
        tomb.entry().unwrap().render(),
        "\nType: Tombstone\nKey: /7IqAPwr\nCreation Date: 2023-01-01T00:00:00Z\nDeletion Date: 2023-03-03\nReason For Deletion: user request\n"
    );
}

#[test]
fn entry_missing_or_unknown() {
    let mut file = record(0);
    file.content_type = Some("image/png".to_string());
    file.md5_hash = Some("d41d8cd9".to_string());
    assert_eq!(file.entry(), Err(EntryError::MissingField));
    assert_eq!(record(1).entry(), Err(EntryError::MissingField));
    let mut tomb = record(2);
    tomb.deleted_at = Some("2023-03-03".to_string());
    assert_eq!(tomb.entry(), Err(EntryError::MissingField));
    assert_eq!(record(7).entry(), Err(EntryError::UnknownKind(7)));
    assert_eq!(record(-1).entry(), Err(EntryError::UnknownKind(-1)));
}

#[test]
fn listing_renders_known_kinds_in_order() {
    let mut redirect = record(1);
    redirect.dest_url = Some("https://example.com".to_string());
    let mut tomb = record(2);
    tomb.key = "/gone".to_string();
    tomb.deleted_at = Some("2023-03-03".to_string());
    tomb.delete_reason = Some("spam".to_string());
    let page = FileListResponse { success: true, total_objects: 3, data: vec![redirect, record(9), tomb] };
    assert_eq!(
        page.listing(),
        Ok("\nType: Redirect\nKey: /7IqAPwr\nRedirect URL: https://example.com\nCreation Date: 2023-01-01T00:00:00Z\n\nType: Tombstone\nKey: /gone\nCreation Date: 2023-01-01T00:00:00Z\nDeletion Date: 2023-03-03\nReason For Deletion: spam\n".to_string())
    );
    let bad = FileListResponse { success: true, total_objects: 2, data: vec![record(9), record(0)] };
    assert_eq!(bad.listing(), Err(EntryError::MissingField));
    let empty = FileListResponse { success: true, total_objects: 0, data: vec![] };
    assert_eq!(empty.listing(), Ok(String::new()));
}

#[test]
fn read_up_to_short_input() {
    let mut src = Cursor::new(b"hello".to_vec());
    let mut buf = [0u8; 1024];
    assert_eq!(read_up_to(&mut src, &mut buf).unwrap(), 5);
    assert_eq!(&buf[..5], b"hello");
    assert!(buf[5..].iter().all(|b| *b == 0));
}

#[test]
fn read_up_to_stops_when_full() {
    let mut src = Cursor::new(vec![7u8; 2000]);
    let mut buf = [0u8; 1024];
    assert_eq!(read_up_to(&mut src, &mut buf).unwrap(), 1024);
    assert_eq!(buf, [7u8; 1024]);
    assert_eq!(src.position(), 1024);

    let mut exact = Cursor::new(vec![9u8; 1024]);
    let mut buf = [0u8; 1024];
    assert_eq!(read_up_to(&mut exact, &mut buf).unwrap(), 1024);
    assert_eq!(buf, [9u8; 1024]);
    assert_eq!(exact.position(), 1024);

    let mut empty: [u8; 0] = [];
    assert_eq!(read_up_to(&mut Broken, &mut empty).unwrap(), 0);
}

#[test]
fn fill_step_per_answer() {
    assert!(matches!(fill_step(3, 10, 5, Ok(0)), FillStep::Done(3)));
    assert!(matches!(fill_step(3, 10, 5, Ok(4)), FillStep::Continue(7)));
    assert!(matches!(fill_step(3, 10, 5, Err(ReadError::Interrupted)), FillStep::Retry(4)));
    assert!(matches!(fill_step(3, 10, 0, Err(ReadError::Interrupted)), FillStep::Fail(ReadError::Interrupted)));
    let e = std::io::Error::other("gone");
    match fill_step(3, 10, 5, Err(ReadError::Io(e))) {
        FillStep::Fail(ReadError::Io(e)) => assert_eq!(e.to_string(), "gone"),
        other => panic!("unexpected {other:?}"),
    }
}

#[test]
fn deletion_record_is_checked() {
    let mut data = record(2);
    data.deleted_at = Some("2023-02-02".to_string());
    data.delete_reason = Some("spam".to_string());
    let ok = delete_outcome(200, Some(DeleteResponse { success: true, data: data.clone() })).unwrap();
    assert_eq!(ok.data.key, "/7IqAPwr");
    let mut partial = record(2);
    partial.delete_reason = Some("spam".to_string());
    let bad = DeleteResponse { success: true, data: partial };
    assert_eq!(delete_outcome(200, Some(bad)).err(), Some(ApiError::Decode));
    assert_eq!(delete_outcome(200, None).err(), Some(ApiError::Decode));
    let mut file = record(0);
    file.content_type = Some("image/png".to_string());
    file.content_length = Some(10);
    file.md5_hash = Some("d41d8cd9".to_string());
    let kept = delete_outcome(200, Some(DeleteResponse { success: true, data: file })).unwrap();
    assert_eq!(kept.data.kind, 0);
    assert_eq!(kept.data.content_length, Some(10));
    assert_eq!(kept.data.deleted_at, None);
    assert!(delete_confirmation(&kept).is_none());
    let odd = delete_outcome(200, Some(DeleteResponse { success: false, data: record(5) })).unwrap();
    assert_eq!(odd.data.kind, 5);
    assert!(!odd.success);
    assert_eq!(delete_outcome(401, Some(DeleteResponse { success: true, data })).err(), Some(ApiError::Unauthorized));
}

#[test]
fn listing_reply_is_checked() {
    let page = FileListResponse { success: true, total_objects: 1, data: vec![record(9)] };
    assert_eq!(list_outcome(200, Some(page)).unwrap().total_objects, 1);
    let bad = FileListResponse { success: true, total_objects: 1, data: vec![record(1)] };
    assert_eq!(list_outcome(200, Some(bad)).err(), Some(ApiError::Decode));
    assert_eq!(list_outcome(500, None).err(), Some(ApiError::Status(500)));
}

#[test]
fn upload_body_layout() {
    let form = upload_form("image/png", "owo.png");
    assert_eq!(pairs(&form.text_fields), vec![("type", "image/png")]);
    assert_eq!(form.file_field, "files[]");
    assert_eq!(form.file_name, "owo.png");
    assert_eq!(form.mime_type, "image/png");
}

#[test]
fn decimal_extremes() {
    let req = list_files_request("K", i64::MIN, i64::MAX);
    assert_eq!(
        pairs(&req.query),
        vec![("limit", "-9223372036854775808"), ("offset", "9223372036854775807")]
    );
    assert_eq!(list_header(10, 100), "Showing 10 entries, from offset 100\n");
}
