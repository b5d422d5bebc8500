use ens_client::{Cli, Commands, Mode, ParameterMap, PreparedRequest, Rendered};
use ens_client::render::{render_event, render_subscriber};
use ens_client::router::PayloadShape;

fn cli(addr: &str, command: Option<Commands>) -> Cli {
    Cli { addr: addr.to_string(), command }
}

fn keys_of(map: &ParameterMap) -> Vec<String> {
    let mut keys = Vec::new();
    let mut i = 0;
    while i < map.len() {
        keys.push(map.key_at(i).clone());
        i += 1;
    }
    keys
}

fn value_of(map: &ParameterMap, key: &str) -> Option<String> {
    let mut i = 0;
    while i < map.len() {
        if map.key_at(i) == key {
            return Some(map.value_at(i).clone());
        }
        i += 1;
    }
    None
}

#[test]
fn from_str() {
    let json = r#"{"code":"200","message":"success","data":{"id":"7","tag":"error","name":"event","message":"test","createTime":"2023-05-20T18:22:21.421063","modifyTime":"2023-05-20T18:22:21.421081"}}"#;
    match render_event(json) {
        Rendered::Structured(response) => println!("{:#?}", response),
        Rendered::Raw(_) => panic!("a well-shaped envelope must decode"),
    }
}

#[test]
fn publish_params_have_exactly_its_fields() {
    let c = cli(
        "http://h",
        Some(Commands::Publish {
            tag: "error".to_string(),
            name: Some("event".to_string()),
            message: "test".to_string(),
        }),
    );
    let plan = c.plan().unwrap();
    assert_eq!(plan.route, "/publish");
    assert_eq!(plan.shape, PayloadShape::Event);
    let map = match plan.mode {
        Mode::Post(m) => m,
        Mode::Get(_) => panic!("publish travels as POST"),
    };
    assert_eq!(keys_of(&map), vec!["tag", "name", "message"]);
    assert_eq!(value_of(&map, "tag").unwrap(), "error");
    assert_eq!(value_of(&map, "name").unwrap(), "event");
    assert_eq!(value_of(&map, "message").unwrap(), "test");
}

#[test]
fn publish_without_name_omits_the_name_key() {
    let c = cli(
        "http://h",
        Some(Commands::Publish {
            tag: "error".to_string(),
            name: None,
            message: "test".to_string(),
        }),
    );
    let plan = c.plan().unwrap();
    let map = match plan.mode {
        Mode::Post(m) => m,
        Mode::Get(_) => panic!("publish travels as POST"),
    };
    assert_eq!(keys_of(&map), vec!["tag", "message"]);
    assert_eq!(value_of(&map, "name"), None);
}

#[test]
fn subscribe_params_have_exactly_its_fields() {
    let c = cli(
        "http://h",
        Some(Commands::Subscribe {
            tag: "error".to_string(),
            email: "a@b.com".to_string(),
        }),
    );
    let plan = c.plan().unwrap();
    assert_eq!(plan.route, "/subscribe");
    assert_eq!(plan.shape, PayloadShape::Subscriber);
    let map = match plan.mode {
        Mode::Post(m) => m,
        Mode::Get(_) => panic!("subscribe travels as POST"),
    };
    assert_eq!(keys_of(&map), vec!["tag", "email"]);
}

#[test]
fn unsubscribe_params_have_exactly_its_fields() {
    let c = cli(
        "http://h",
        Some(Commands::Unsubscribe {
            tag: "error".to_string(),
            email: "a@b.com".to_string(),
            verification_code: "1234".to_string(),
        }),
    );
    let plan = c.plan().unwrap();
    assert_eq!(plan.route, "/unsubscribe");
    assert_eq!(plan.shape, PayloadShape::Opaque);
    let map = match plan.mode {
        Mode::Post(m) => m,
        Mode::Get(_) => panic!("unsubscribe travels as POST"),
    };
    assert_eq!(keys_of(&map), vec!["tag", "email", "verificationCode"]);
    assert_eq!(value_of(&map, "verificationCode").unwrap(), "1234");
}

#[test]
fn send_verification_code_issues_a_get_with_the_email_query() {
    let c = cli(
        "http://h",
        Some(Commands::SendVerificationCode {
            email: "a@b.com".to_string(),
        }),
    );
    let plan = c.plan().unwrap();
    assert_eq!(plan.route, "/sendVerificationCode");
    assert_eq!(plan.shape, PayloadShape::Opaque);
    assert!(matches!(plan.mode, Mode::Get(_)));
    match c.prepare(plan.route.as_str(), plan.mode) {
        PreparedRequest::Get { url } => {
            assert_eq!(url, "http://h/sendVerificationCode?email=a@b.com");
        }
        PreparedRequest::Post { .. } => panic!("send-verification-code travels as GET"),
    }
}

#[test]
fn get_url_has_one_pair_per_entry_and_no_question_mark_when_empty() {
    let c = cli("http://h", None);
    let mut map = ParameterMap::new();
    map.insert("k1", "v1");
    map.insert("k2", "v2");
    match c.prepare("/r", Mode::Get(map)) {
        PreparedRequest::Get { url } => assert_eq!(url, "http://h/r?k1=v1&k2=v2"),
        PreparedRequest::Post { .. } => panic!("a Get mode prepares a GET"),
    }
    match c.prepare("/r", Mode::Get(ParameterMap::new())) {
        PreparedRequest::Get { url } => assert_eq!(url, "http://h/r"),
        PreparedRequest::Post { .. } => panic!("a Get mode prepares a GET"),
    }
}

#[test]
fn post_body_is_a_flat_json_object() {
    let c = cli("http://h", None);
    let mut map = ParameterMap::new();
    map.insert("tag", "error");
    map.insert("name", "event");
    map.insert("message", "test");
    match c.prepare("/publish", Mode::Post(map)) {
        PreparedRequest::Post { url, body } => {
            assert_eq!(url, "http://h/publish");
            assert_eq!(body, r#"{"message":"test","name":"event","tag":"error"}"#);
        }
        PreparedRequest::Get { .. } => panic!("a Post mode prepares a POST"),
    }
}

#[test]
fn post_body_does_not_depend_on_insertion_order() {
    let c = cli("http://h", None);
    let mut first = ParameterMap::new();
    first.insert("tag", "error");
    first.insert("message", "test");
    let mut second = ParameterMap::new();
    second.insert("message", "test");
    second.insert("tag", "error");
    let body_of = |mode| match c.prepare("/publish", mode) {
        PreparedRequest::Post { body, .. } => body,
        PreparedRequest::Get { .. } => panic!("a Post mode prepares a POST"),
    };
    assert_eq!(body_of(Mode::Post(first)), body_of(Mode::Post(second)));
}

#[test]
fn renderer_keeps_raw_text_when_the_body_is_not_json() {
    match render_event("not json") {
        Rendered::Raw(s) => assert_eq!(s, "not json"),
        Rendered::Structured(_) => panic!("plain text must not decode"),
    }
    match render_subscriber("not json") {
        Rendered::Raw(s) => assert_eq!(s, "not json"),
        Rendered::Structured(_) => panic!("plain text must not decode"),
    }
}

#[test]
fn renderer_keeps_raw_text_on_a_shape_mismatch() {
    // Valid JSON, but the envelope lacks the event fields under `data`.
    let json = r#"{"code":"500","message":"failure","data":null}"#;
    match render_event(json) {
        Rendered::Raw(s) => assert_eq!(s, json),
        Rendered::Structured(_) => panic!("an envelope without an event must not decode"),
    }
}

#[test]
fn publish_reply_renders_a_structured_event() {
    let json = r#"{"code":"200","message":"success","data":{"id":"7","tag":"error","name":"event","message":"test","createTime":"2023-05-20T18:22:21.421063","modifyTime":"2023-05-20T18:22:21.421081"}}"#;
    match render_event(json) {
        Rendered::Structured(r) => {
            assert_eq!(r.code, "200");
            assert_eq!(r.message, "success");
            assert_eq!(r.data.id, "7");
            assert_eq!(r.data.tag, "error");
            assert_eq!(r.data.name, "event");
            assert_eq!(r.data.message, "test");
            assert_eq!(r.data.create_time, "2023-05-20T18:22:21.421063");
            assert_eq!(r.data.modify_time, "2023-05-20T18:22:21.421081");
        }
        Rendered::Raw(_) => panic!("a well-shaped envelope must decode"),
    }
}

#[test]
fn subscribe_reply_renders_a_structured_subscriber() {
    let json = r#"{"code":"200","message":"success","data":{"id":"3","tag":"error","email":"a@b.com"}}"#;
    match render_subscriber(json) {
        Rendered::Structured(r) => {
            assert_eq!(r.code, "200");
            assert_eq!(r.data.id, "3");
            assert_eq!(r.data.tag, "error");
            assert_eq!(r.data.email, "a@b.com");
        }
        Rendered::Raw(_) => panic!("a well-shaped envelope must decode"),
    }
}

#[test]
fn round_trip_keeps_every_publish_field() {
    // The fields sent for a publish come back, under the same names, in the
    // event the server wraps; nothing is lost or renamed on either leg.
    let c = cli(
        "http://h",
        Some(Commands::Publish {
            tag: "error".to_string(),
            name: Some("event".to_string()),
            message: "test".to_string(),
        }),
    );
    let plan = c.plan().unwrap();
    let map = match plan.mode {
        Mode::Post(m) => m,
        Mode::Get(_) => panic!("publish travels as POST"),
    };
    let reply = format!(
        r#"{{"code":"200","message":"ok","data":{{"id":"1","tag":"{}","name":"{}","message":"{}","createTime":"t0","modifyTime":"t1"}}}}"#,
        value_of(&map, "tag").unwrap(),
        value_of(&map, "name").unwrap(),
        value_of(&map, "message").unwrap(),
    );
    match render_event(&reply) {
        Rendered::Structured(r) => {
            assert_eq!(r.data.tag, "error");
            assert_eq!(r.data.name, "event");
            assert_eq!(r.data.message, "test");
        }
        Rendered::Raw(_) => panic!("the echoed envelope must decode"),
    }
}

#[test]
fn round_trip_keeps_every_subscribe_field() {
    let c = cli(
        "http://h",
        Some(Commands::Subscribe {
            tag: "error".to_string(),
            email: "a@b.com".to_string(),
        }),
    );
    let plan = c.plan().unwrap();
    let map = match plan.mode {
        Mode::Post(m) => m,
        Mode::Get(_) => panic!("subscribe travels as POST"),
    };
    let reply = format!(
        r#"{{"code":"200","message":"ok","data":{{"id":"1","tag":"{}","email":"{}"}}}}"#,
        value_of(&map, "tag").unwrap(),
        value_of(&map, "email").unwrap(),
    );
    match render_subscriber(&reply) {
        Rendered::Structured(r) => {
            assert_eq!(r.data.tag, "error");
            assert_eq!(r.data.email, "a@b.com");
        }
        Rendered::Raw(_) => panic!("the echoed envelope must decode"),
    }
}

#[test]
fn no_operation_is_a_trivial_success() {
    let c = cli("http://h", None);
    assert!(c.plan().is_none());
}
