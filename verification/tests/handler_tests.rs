use files_sdk::admin::{HistoryHandler, InvoiceHandler, SiteHandler};
use files_sdk::automation::{AutomationHandler, BehaviorHandler, RemoteServerHandler};
use files_sdk::client::Method;
use files_sdk::file_actions::FileActionHandler;
use files_sdk::file_comments::FileCommentHandler;
use files_sdk::files::{FileHandler, FolderHandler};
use files_sdk::groups::GroupHandler;
use files_sdk::api_keys::ApiKeyHandler;
use files_sdk::inbox_uploads::InboxUploadHandler;
use files_sdk::messages::{MessageHandler, NotificationHandler};
use files_sdk::payments::PaymentHandler;
use files_sdk::request::{JsonField, Payload};
use files_sdk::sftp_host_keys::SftpHostKeyHandler;
use files_sdk::FilesClient;

fn client() -> FilesClient {
    FilesClient::builder().api_key("test-key").build().unwrap()
}

#[test]
fn history_test_handler_creation() {
    let client = FilesClient::builder().api_key("test-key").build().unwrap();
    let _handler = HistoryHandler::new(client);
}

#[test]
fn invoices_test_handler_creation() {
    let client = FilesClient::builder().api_key("test-key").build().unwrap();
    let _handler = InvoiceHandler::new(client);
}

#[test]
fn site_test_handler_creation() {
    let client = FilesClient::builder().api_key("test-key").build().unwrap();
    let _handler = SiteHandler::new(client);
}

#[test]
fn api_keys_test_handler_creation() {
    let client = FilesClient::builder().api_key("test-key").build().unwrap();
    let _handler = ApiKeyHandler::new(client);
}

#[test]
fn automations_test_handler_creation() {
    let client = FilesClient::builder().api_key("test-key").build().unwrap();
    let _handler = AutomationHandler::new(client);
}

#[test]
fn behaviors_test_handler_creation() {
    let client = FilesClient::builder().api_key("test-key").build().unwrap();
    let _handler = BehaviorHandler::new(client);
}

#[test]
fn remote_servers_test_handler_creation() {
    let client = FilesClient::builder().api_key("test-key").build().unwrap();
    let _handler = RemoteServerHandler::new(client);
}

#[test]
fn file_actions_test_handler_creation() {
    let client = FilesClient::builder().api_key("test-key").build().unwrap();
    let _handler = FileActionHandler::new(client);
}

#[test]
fn file_comments_test_handler_creation() {
    let client = FilesClient::builder().api_key("test-key").build().unwrap();
    let _handler = FileCommentHandler::new(client);
}

#[test]
fn files_test_handler_creation() {
    let client = FilesClient::builder().api_key("test-key").build().unwrap();
    let _handler = FileHandler::new(client);
}

#[test]
fn folders_test_handler_creation() {
    let client = FilesClient::builder().api_key("test-key").build().unwrap();
    let _handler = FolderHandler::new(client);
}

#[test]
fn groups_test_handler_creation() {
    let client = FilesClient::builder().api_key("test-key").build().unwrap();
    let _handler = GroupHandler::new(client);
}

#[test]
fn inbox_uploads_test_handler_creation() {
    let client = FilesClient::builder().api_key("test-key").build().unwrap();
    let _handler = InboxUploadHandler::new(client);
}

#[test]
fn messages_test_handler_creation() {
    let client = FilesClient::builder().api_key("test-key").build().unwrap();
    let _handler = MessageHandler::new(client);
}

#[test]
fn notifications_test_handler_creation() {
    let client = FilesClient::builder().api_key("test-key").build().unwrap();
    let _handler = NotificationHandler::new(client);
}

#[test]
fn payments_test_handler_creation() {
    let client = FilesClient::builder().api_key("test-key").build().unwrap();
    let _handler = PaymentHandler::new(client);
}

#[test]
fn sftp_host_keys_test_handler_creation() {
    let client = FilesClient::builder().api_key("test-key").build().unwrap();
    let _handler = SftpHostKeyHandler::new(client);
}

#[test]
fn handler_keeps_its_client() {
    let h = GroupHandler::new(client());
    assert_eq!(h.client().api_key(), "test-key");
}

#[test]
fn get_and_delete_by_id() {
    let c = GroupHandler::get_request(42);
    assert_eq!(c.method, Method::Get);
    assert_eq!(c.path, "/groups/42");
    assert!(matches!(c.payload, Payload::Empty));
    let c = GroupHandler::delete_request(-7);
    assert_eq!(c.method, Method::Delete);
    assert_eq!(c.path, "/groups/-7");
    let c = GroupHandler::remove_user_request(3, 9);
    assert_eq!(c.path, "/groups/3/memberships/9");
}

#[test]
fn trailing_query_lists() {
    assert_eq!(GroupHandler::list_request(None, None).path, "/groups?");
    assert_eq!(
        GroupHandler::list_request(Some("abc".to_string()), Some(10)).path,
        "/groups?cursor=abc&per_page=10&"
    );
    assert_eq!(
        ApiKeyHandler::list_request(Some(5), None, Some(2)).path,
        "/api_keys?user_id=5&per_page=2&"
    );
}

#[test]
fn joined_query_lists() {
    assert_eq!(HistoryHandler::list_logins_request(None, None).path, "/history/login");
    assert_eq!(
        HistoryHandler::list_logins_request(Some("c1"), Some(25)).path,
        "/history/login?cursor=c1&per_page=25"
    );
    assert_eq!(
        HistoryHandler::list_for_user_request(8, None, Some(3)).path,
        "/history/users/8?per_page=3"
    );
}

#[test]
fn json_values_are_sent_as_text() {
    let sort: serde_json::Value = serde_json::from_str("{\"path\": \"asc\"}").unwrap();
    let c = BehaviorHandler::list_request(None, Some(10), Some(sort), None, Some("/a"));
    assert_eq!(c.path, "/behaviors?per_page=10&sort_by={\"path\":\"asc\"}&filter_prefix=/a");
    let filter: serde_json::Value = serde_json::from_str("[1, 2]").unwrap();
    let c = InboxUploadHandler::list_request(None, None, None, Some(filter), Some(4), None);
    assert_eq!(c.path, "/inbox_uploads?filter=[1,2]&inbox_registration_id=4");
}

#[test]
fn bodies_hold_the_given_fields_in_order() {
    let c = GroupHandler::create_request("Devs", Some("team"), Some(vec![1, 2]));
    assert_eq!(c.method, Method::Post);
    assert_eq!(c.path, "/groups");
    match c.payload {
        Payload::Fields(b) => {
            let names: Vec<&str> = b.fields.iter().map(|f| f.0.as_str()).collect();
            assert_eq!(names, vec!["name", "notes", "user_ids"]);
            assert!(matches!(&b.fields[0].1, JsonField::Str(s) if s == "Devs"));
            assert!(matches!(&b.fields[2].1, JsonField::IntList(v) if *v == vec![1, 2]));
        }
        _ => panic!("expected fields"),
    }
    let c = GroupHandler::update_request(5, None, Some("n"));
    assert_eq!(c.method, Method::Patch);
    assert_eq!(c.path, "/groups/5");
    match c.payload {
        Payload::Fields(b) => {
            assert_eq!(b.fields.len(), 1);
            assert_eq!(b.fields[0].0, "notes");
        }
        _ => panic!("expected fields"),
    }
}

#[test]
fn begin_upload_body() {
    let c = FileActionHandler::begin_upload_request("/a.txt", Some(12), true);
    assert_eq!(c.path, "/file_actions/begin_upload/a.txt");
    match c.payload {
        Payload::Fields(b) => {
            assert_eq!(b.fields.len(), 2);
            assert_eq!(b.fields[0].0, "mkdir_parents");
            assert_eq!(b.fields[1].0, "size");
        }
        _ => panic!("expected fields"),
    }
}
