use vulcan::communication::WebReply;

#[test]
fn success_reply_reports_success() {
    let reply = WebReply::success();
    assert!(reply.is_success());
    let WebReply::Generic { is_valid, message } = reply;
    assert!(is_valid);
    assert_eq!(message, "Request completed.");
}

#[test]
fn failure_reply_carries_the_reason() {
    let reply = WebReply::failure(String::from("driver refused the fade"));
    assert!(!reply.is_success());
    let WebReply::Generic { is_valid, message } = reply;
    assert!(!is_valid);
    assert_eq!(message, "driver refused the fade");
}
