use files_sdk::client::Method;
use files_sdk::file_actions::FileActionHandler;
use files_sdk::file_comments::FileCommentHandler;
use files_sdk::files::files::{
    DirectoryUpload, EntryPath,
    directory_transfer, remote_file_path, transfer_method, transfer_method_from_upper, transfer_of,
    TransferMethod,
};
use files_sdk::files::folders::{listing_error, stream_page_size, FolderWalk, DEFAULT_PAGE_SIZE};
use files_sdk::files::{FileHandler, FolderHandler};
use files_sdk::request::Payload;
use files_sdk::utils::encode_path;
use files_sdk::{FileEntity, FileUploadPartEntity, FilesClient, FilesError, PaginationInfo};

#[test]
fn encode_path_examples() {
    assert_eq!(encode_path("/my folder/file.txt"), "/my%20folder/file.txt");
    assert_eq!(encode_path("/data/file[2024].txt"), "/data/file%5B2024%5D.txt");
    assert_eq!(encode_path("/files/report@#1.txt"), "/files/report%40%231.txt");
    assert_eq!(encode_path("/文档"), "/%E6%96%87%E6%A1%A3");
    assert_eq!(encode_path("/a-b_c.d~e"), "/a-b_c.d~e");
}

#[test]
fn encode_path_adds_leading_slash() {
    assert_eq!(encode_path("docs/a b"), "/docs/a%20b");
    assert_eq!(encode_path(""), "");
    assert_eq!(encode_path("/"), "/");
}

#[test]
fn file_requests_use_encoded_paths() {
    let c = FileHandler::download_file_request("/a b.txt");
    assert_eq!(c.method, Method::Get);
    assert_eq!(c.path, "/files/a%20b.txt");
    assert_eq!(FileHandler::delete_file_request("/d", true).path, "/files/d?recursive=true");
    assert_eq!(FileHandler::delete_file_request("/d", false).path, "/files/d");
    let c = FileHandler::update_file_request("/x", None, Some("2024-01-01".to_string()), None);
    assert_eq!(c.method, Method::Patch);
    match c.payload {
        Payload::Fields(b) => {
            assert_eq!(b.fields.len(), 1);
            assert_eq!(b.fields[0].0, "provided_mtime");
        }
        _ => panic!("expected fields"),
    }
}

#[test]
fn download_uri_present_or_not_found() {
    let mut f = FileEntity::default();
    match FileHandler::download_uri(&f, "/p.txt") {
        Err(FilesError::NotFound { message, resource_type, path }) => {
            assert_eq!(message, "No download URI available");
            assert_eq!(resource_type, Some("file".to_string()));
            assert_eq!(path, Some("/p.txt".to_string()));
        }
        _ => panic!("expected not found"),
    }
    f.download_uri = Some("https://dl/x".to_string());
    assert_eq!(FileHandler::download_uri(&f, "/p.txt").unwrap(), "https://dl/x");
}

#[test]
fn transfer_methods() {
    assert_eq!(transfer_method(&None), TransferMethod::Put);
    assert_eq!(transfer_method(&Some("post".to_string())), TransferMethod::Post);
    assert_eq!(transfer_method(&Some("POST".to_string())), TransferMethod::Post);
    assert_eq!(transfer_method(&Some("put".to_string())), TransferMethod::Put);
    assert_eq!(transfer_method(&Some("patch".to_string())), TransferMethod::Put);
    assert_eq!(transfer_method_from_upper("POST"), TransferMethod::Post);
    assert_eq!(transfer_method_from_upper("post"), TransferMethod::Put);
}

fn part(uri: Option<&str>, method: Option<&str>, r: Option<&str>) -> FileUploadPartEntity {
    FileUploadPartEntity {
        upload_uri: uri.map(|s| s.to_string()),
        http_method: method.map(|s| s.to_string()),
        ref_: r.map(|s| s.to_string()),
        ..Default::default()
    }
}

#[test]
fn upload_plan_without_parts_fails() {
    match FileHandler::plan_upload("/a", &vec![]) {
        Err(FilesError::ApiError { code, message, endpoint }) => {
            assert_eq!(code, 500);
            assert_eq!(message, "No upload parts returned from begin_upload");
            assert!(endpoint.is_none());
        }
        _ => panic!("expected an API error"),
    }
}

#[test]
fn upload_plan_follows_first_part() {
    let parts = vec![part(Some("https://up/1"), Some("post"), Some("r-1")), part(Some("https://up/2"), None, None)];
    let plan = FileHandler::plan_upload("/a b", &parts).unwrap();
    let t = plan.transfer.unwrap();
    assert_eq!(t.uri, "https://up/1");
    assert_eq!(t.method, TransferMethod::Post);
    assert_eq!(plan.finish.method, Method::Post);
    assert_eq!(plan.finish.path, "/files/a%20b");
    match plan.finish.payload {
        Payload::Form(f) => assert_eq!(
            f,
            vec![("action".to_string(), "end".to_string()), ("ref".to_string(), "r-1".to_string())]
        ),
        _ => panic!("expected a form"),
    }
    let plan = FileHandler::plan_upload("/b", &vec![part(None, None, None)]).unwrap();
    assert!(plan.transfer.is_none());
    match plan.finish.payload {
        Payload::Form(f) => assert_eq!(f, vec![("action".to_string(), "end".to_string())]),
        _ => panic!("expected a form"),
    }
}

#[test]
fn directory_transfers() {
    assert!(directory_transfer(&vec![]).is_none());
    let t = directory_transfer(&vec![part(Some("u"), Some("Put"), None)]).unwrap();
    assert_eq!(t.method, TransferMethod::Put);
    assert!(transfer_of(&part(None, Some("POST"), None)).is_none());
}

#[test]
fn remote_paths_of_directory_uploads() {
    assert_eq!(remote_file_path("/remote//", "sub\\file.txt"), "/remote/sub/file.txt");
    assert_eq!(remote_file_path("/remote", "a/b.txt"), "/remote/a/b.txt");
    assert_eq!(remote_file_path("/", "x"), "/x");
}

#[test]
fn folder_paths() {
    assert_eq!(FolderHandler::list_folder_path("/", None, None), "/folders/");
    assert_eq!(
        FolderHandler::list_folder_path("/my docs", Some(50), Some("abc".to_string())),
        "/folders/my%20docs?per_page=50&cursor=abc"
    );
    assert_eq!(
        FolderHandler::search_folder_path("/", "report", Some(10)),
        "/folders/?search=report&per_page=10"
    );
    let c = FolderHandler::create_folder_request("/p/q", true);
    assert_eq!(c.method, Method::Post);
    assert_eq!(c.path, "/folders/p/q");
    assert_eq!(FolderHandler::delete_folder_request("/p", true).path, "/folders/p?recursive=true");
}

#[test]
fn listing_requests_send_only_the_key() {
    let client = FilesClient::builder().api_key("k").base_url("https://h").build().unwrap();
    let h = FolderHandler::new(client);
    let r = h.list_folder_request("/a", Some(2), None);
    assert_eq!(r.method, Method::Get);
    assert_eq!(r.url, "https://h/folders/a?per_page=2");
    assert_eq!(r.headers, vec![("X-FilesAPI-Key".to_string(), "k".to_string())]);
}

#[test]
fn folder_walk_follows_cursors() {
    let client = FilesClient::builder().api_key("k").base_url("https://h").build().unwrap();
    let h = FolderHandler::new(client);
    let mut w = FolderWalk::new("/d", DEFAULT_PAGE_SIZE);
    assert_eq!(w.next_request(&h).unwrap().url, "https://h/folders/d?per_page=1000");
    w.advance(&PaginationInfo::from_header_values(Some("c2"), None));
    assert_eq!(w.next_request(&h).unwrap().url, "https://h/folders/d?per_page=1000&cursor=c2");
    w.advance(&PaginationInfo::from_header_values(None, Some("c1")));
    assert!(w.next_request(&h).is_none());
}

#[test]
fn pagination_and_listing_errors() {
    let p = PaginationInfo::from_header_values(Some("n"), Some("p"));
    assert!(p.has_next());
    assert_eq!(p.cursor_prev, Some("p".to_string()));
    assert!(!PaginationInfo::from_header_values(None, None).has_next());
    assert!(listing_error(200, "ok".to_string()).is_none());
    match listing_error(403, "denied".to_string()) {
        Some(FilesError::ApiError { code, message, endpoint: None }) => {
            assert_eq!(code, 403);
            assert_eq!(message, "denied");
        }
        _ => panic!("expected an API error"),
    }
    assert_eq!(stream_page_size(None), 1000);
    assert_eq!(stream_page_size(Some(7)), 7);
}

#[test]
fn pagination_from_response_headers() {
    let mut headers = http::HeaderMap::new();
    headers.insert("x-files-cursor-next", http::HeaderValue::from_static("next-1"));
    let p = PaginationInfo::from_headers(&headers);
    assert_eq!(p.cursor_next, Some("next-1".to_string()));
    assert_eq!(p.cursor_prev, None);
    assert!(p.has_next());
    headers.insert("X-Files-Cursor-Prev", http::HeaderValue::from_static("prev-0"));
    let p = PaginationInfo::from_headers(&headers);
    assert_eq!(p.cursor_prev, Some("prev-0".to_string()));
    let empty = http::HeaderMap::new();
    assert!(!PaginationInfo::from_headers(&empty).has_next());
}

#[test]
fn file_actions_encode_paths() {
    let c = FileActionHandler::begin_upload_request("/files/report@#1.txt", Some(3), true);
    assert_eq!(c.path, "/file_actions/begin_upload/files/report%40%231.txt");
    let c = FileActionHandler::begin_multipart_upload_request("/a b", 10, 2, false);
    assert_eq!(c.path, "/file_actions/begin_upload/a%20b");
    let c = FileActionHandler::copy_file_request("/x#y", "/z#w");
    assert_eq!(c.path, "/file_actions/copy/x%23y");
    match c.payload {
        Payload::Fields(b) => assert!(matches!(&b.fields[0].1, files_sdk::request::JsonField::Str(s) if s == "/z#w")),
        _ => panic!("expected fields"),
    }
    assert_eq!(FileActionHandler::move_file_request("/m n", "/o").path, "/file_actions/move/m%20n");
    assert_eq!(FileActionHandler::get_metadata_request("/q?").path, "/file_actions/metadata/q%3F");
    assert_eq!(FileCommentHandler::list_request("/r s").path, "/file_comments/files/r%20s");
}

#[test]
fn directory_upload_steps() {
    let mut plan = DirectoryUpload::new("/remote/", 2);
    assert!(matches!(plan.plan_entry(false, EntryPath::Relative("sub".to_string())), Ok(None)));
    let target = plan.plan_entry(true, EntryPath::Relative("sub\\a.txt".to_string())).unwrap().unwrap();
    assert_eq!(target, "/remote/sub/a.txt");
    assert_eq!(plan.record(target), (1, 2));
    match plan.plan_entry(true, EntryPath::NotUtf8("/x/\u{fffd}".to_string())) {
        Err(FilesError::IoError(m)) => assert_eq!(m, "Invalid UTF-8 in path: /x/\u{fffd}"),
        _ => panic!("expected an I/O error"),
    }
    match plan.plan_entry(true, EntryPath::NotBelow("prefix not found".to_string())) {
        Err(FilesError::IoError(m)) => assert_eq!(m, "Failed to strip prefix: prefix not found"),
        _ => panic!("expected an I/O error"),
    }
    assert_eq!(plan.record("/remote/b".to_string()), (2, 2));
    assert_eq!(plan.count(), 2);
    assert_eq!(plan.finish(), vec!["/remote/sub/a.txt".to_string(), "/remote/b".to_string()]);
}
