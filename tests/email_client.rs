use zero2prod::domain::SubscriberEmail;
use zero2prod::email_client::{DispatchError, EmailClient, GatewayReply};

fn make_client(base_url: &str) -> EmailClient {
    let sender = SubscriberEmail::parse("sender@example.com".to_string()).unwrap();
    EmailClient::new(base_url.to_string(), sender, 200)
}

#[test]
fn send_email_succeeds_if_email_server_responds_200() {
    assert_eq!(EmailClient::dispatch_result(GatewayReply::Status(200)), Ok(()));
    assert_eq!(EmailClient::dispatch_result(GatewayReply::Status(299)), Ok(()));
}

#[test]
fn send_email_fails_if_email_server_responds_500() {
    assert_eq!(
        EmailClient::dispatch_result(GatewayReply::Status(500)),
        Err(DispatchError::Status(500))
    );
    assert_eq!(
        EmailClient::dispatch_result(GatewayReply::Status(404)),
        Err(DispatchError::Status(404))
    );
    assert_eq!(
        EmailClient::dispatch_result(GatewayReply::Status(302)),
        Err(DispatchError::Status(302))
    );
}

#[test]
fn send_email_times_out_if_email_server_takes_too_long() {
    assert_eq!(
        EmailClient::dispatch_result(GatewayReply::TimedOut),
        Err(DispatchError::TimedOut)
    );
    assert_eq!(
        EmailClient::dispatch_result(GatewayReply::Unreachable),
        Err(DispatchError::Unreachable)
    );
}

#[test]
fn request_goes_to_the_email_endpoint_with_all_fields() {
    let client = make_client("http://127.0.0.1:8080");
    let to = SubscriberEmail::parse("ursula_le_guin@gmail.com".to_string()).unwrap();
    let request = client.build_request(&to, "Hello", "<p>Hi</p>", "Hi");
    assert_eq!(request.url, "http://127.0.0.1:8080/email");
    assert_eq!(request.from, "sender@example.com");
    assert_eq!(request.to, "ursula_le_guin@gmail.com");
    assert_eq!(request.subject, "Hello");
    assert_eq!(request.html_body, "<p>Hi</p>");
    assert_eq!(request.text_body, "Hi");
}

#[test]
fn client_keeps_its_settings() {
    let client = make_client("https://api.postmarkapp.com");
    assert_eq!(client.base_url, "https://api.postmarkapp.com");
    assert_eq!(client.sender_email.as_ref(), "sender@example.com");
    assert_eq!(client.timeout_ms, 200);
    assert_eq!(EmailClient::auth_header(), "X-Postmark-Server-Token");
}
