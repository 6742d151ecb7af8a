use cache_gateway::{
    CacheOutcome, CacheState, Command, GetAction, Reply, decimal_string, delete_value, get_value,
    greet, reply_text, set_value,
};

fn respond_body(action: GetAction) -> (u16, String) {
    match action {
        GetAction::Respond(h) => (h.status, h.body),
        GetAction::Propagate => panic!("expected a response, not a framework error"),
    }
}

#[test]
fn greet_is_fixed() {
    let h = greet();
    assert_eq!(h.status, 200);
    assert_eq!(h.body, "Hello World");
}

#[test]
fn set_tokens() {
    let tokens = Command::SetValue("world".to_string()).tokens();
    assert_eq!(tokens, vec!["SET".to_string(), "hello".to_string(), "world".to_string()]);
}

#[test]
fn get_and_del_tokens() {
    assert_eq!(Command::GetValue.tokens(), vec!["GET".to_string(), "hello".to_string()]);
    assert_eq!(Command::DelValue.tokens(), vec!["DEL".to_string(), "hello".to_string()]);
}

#[test]
fn set_acknowledged_echoes_value() {
    let outcomes = vec![CacheOutcome::Answered(Reply::Status("OK".to_string()))];
    let h = set_value(&"world".to_string(), &outcomes);
    assert_eq!(h.status, 200);
    assert_eq!(h.body, "Set world");
}

#[test]
fn set_with_empty_value() {
    let outcomes = vec![CacheOutcome::Answered(Reply::Status("OK".to_string()))];
    let h = set_value(&String::new(), &outcomes);
    assert_eq!(h.status, 200);
    assert_eq!(h.body, "Set ");
}

#[test]
fn set_rejects_unexpected_reply() {
    let outcomes = vec![CacheOutcome::Answered(Reply::Integer(1))];
    let h = set_value(&"world".to_string(), &outcomes);
    assert_eq!(h.status, 500);
    assert_eq!(h.body, "Something went wrong");
}

#[test]
fn set_rejects_batch_with_one_failure() {
    let outcomes = vec![
        CacheOutcome::Answered(Reply::Status("OK".to_string())),
        CacheOutcome::CommandError,
        CacheOutcome::Answered(Reply::Status("OK".to_string())),
    ];
    let h = set_value(&"world".to_string(), &outcomes);
    assert_eq!(h.status, 500);
    assert_eq!(h.body, "Something went wrong");
}

#[test]
fn set_on_channel_failure_fails() {
    let h = set_value(&"world".to_string(), &vec![CacheOutcome::ChannelFailure]);
    assert_eq!(h.status, 500);
    assert_eq!(h.body, "Something went wrong");
}

#[test]
fn get_decodes_bulk_reply() {
    let action = get_value(&CacheOutcome::Answered(Reply::Bulk("world".to_string())));
    assert_eq!(respond_body(action), (200, "Get world".to_string()));
}

#[test]
fn get_on_nil_reports_absent_key() {
    let action = get_value(&CacheOutcome::Answered(Reply::Nil));
    assert_eq!(respond_body(action), (500, "Key not exist".to_string()));
}

#[test]
fn get_on_command_error_reports_connection() {
    let action = get_value(&CacheOutcome::CommandError);
    assert_eq!(respond_body(action), (500, "Unable to connect".to_string()));
}

#[test]
fn get_on_channel_failure_propagates() {
    let action = get_value(&CacheOutcome::ChannelFailure);
    assert!(matches!(action, GetAction::Propagate));
}

#[test]
fn delete_succeeds_on_one_removed() {
    let h = delete_value(&CacheOutcome::Answered(Reply::Integer(1)));
    assert_eq!(h.status, 200);
    assert_eq!(h.body, "Deleted");
}

#[test]
fn delete_fails_on_zero_removed() {
    let h = delete_value(&CacheOutcome::Answered(Reply::Integer(0)));
    assert_eq!(h.status, 500);
    assert_eq!(h.body, "");
}

#[test]
fn delete_fails_on_two_removed() {
    let h = delete_value(&CacheOutcome::Answered(Reply::Integer(2)));
    assert_eq!(h.status, 500);
    assert_eq!(h.body, "");
}

#[test]
fn delete_fails_on_non_integer_reply() {
    let h = delete_value(&CacheOutcome::Answered(Reply::Nil));
    assert_eq!(h.status, 500);
    assert_eq!(h.body, "");
    let h = delete_value(&CacheOutcome::ChannelFailure);
    assert_eq!(h.status, 500);
    assert_eq!(h.body, "");
}

#[test]
fn reply_text_cases() {
    assert_eq!(reply_text(&Reply::Status("OK".to_string())), Some("OK".to_string()));
    assert_eq!(reply_text(&Reply::Bulk("v".to_string())), Some("v".to_string()));
    assert_eq!(reply_text(&Reply::Integer(3)), Some("3".to_string()));
    assert_eq!(reply_text(&Reply::Nil), None);
    assert_eq!(reply_text(&Reply::Error("ERR".to_string())), None);
    assert_eq!(reply_text(&Reply::Array(vec![Reply::Nil])), None);
}

#[test]
fn set_then_get_round_trip() {
    let mut cache = CacheState::empty();
    let r1 = cache.apply(&Command::SetValue("anything at all".to_string()));
    let h = set_value(&"anything at all".to_string(), &vec![CacheOutcome::Answered(r1)]);
    assert_eq!((h.status, h.body.as_str()), (200, "Set anything at all"));
    let r2 = cache.apply(&Command::GetValue);
    let action = get_value(&CacheOutcome::Answered(r2));
    assert_eq!(respond_body(action), (200, "Get anything at all".to_string()));
}

#[test]
fn get_before_any_set_reports_absent_key() {
    let mut cache = CacheState::empty();
    let r = cache.apply(&Command::GetValue);
    let action = get_value(&CacheOutcome::Answered(r));
    assert_eq!(respond_body(action), (500, "Key not exist".to_string()));
}

#[test]
fn delete_after_set_then_again() {
    let mut cache = CacheState::empty();
    cache.apply(&Command::SetValue("v".to_string()));
    let r1 = cache.apply(&Command::DelValue);
    let h1 = delete_value(&CacheOutcome::Answered(r1));
    assert_eq!((h1.status, h1.body.as_str()), (200, "Deleted"));
    let r2 = cache.apply(&Command::DelValue);
    let h2 = delete_value(&CacheOutcome::Answered(r2));
    assert_eq!((h2.status, h2.body.as_str()), (500, ""));
}

#[test]
fn full_scenario() {
    let mut cache = CacheState::empty();

    let r = cache.apply(&Command::SetValue("world".to_string()));
    let h = set_value(&"world".to_string(), &vec![CacheOutcome::Answered(r)]);
    assert_eq!((h.status, h.body.as_str()), (200, "Set world"));

    let r = cache.apply(&Command::GetValue);
    let action = get_value(&CacheOutcome::Answered(r));
    assert_eq!(respond_body(action), (200, "Get world".to_string()));

    let r = cache.apply(&Command::DelValue);
    let h = delete_value(&CacheOutcome::Answered(r));
    assert_eq!((h.status, h.body.as_str()), (200, "Deleted"));

    let r = cache.apply(&Command::GetValue);
    let action = get_value(&CacheOutcome::Answered(r));
    assert_eq!(respond_body(action), (500, "Key not exist".to_string()));
}

#[test]
fn decimal_text() {
    assert_eq!(decimal_string(0), "0");
    assert_eq!(decimal_string(7), "7");
    assert_eq!(decimal_string(1590), "1590");
    assert_eq!(decimal_string(-42), "-42");
    assert_eq!(decimal_string(i64::MAX), "9223372036854775807");
    assert_eq!(decimal_string(i64::MIN), "-9223372036854775808");
}

#[test]
fn get_reads_integer_reply_as_text() {
    let action = get_value(&CacheOutcome::Answered(Reply::Integer(12)));
    assert_eq!(respond_body(action), (200, "Get 12".to_string()));
}
