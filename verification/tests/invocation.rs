use mrsbfh::commands::extract::Extension;
use mrsbfh::commands::value::{Value, ARGS, BODY, SENDER};
use mrsbfh::commands::{Command, FromMessage, IntoError, Message, MessageParts, Parts};
use mrsbfh::errors::{Errors, ExtensionRejection};
use std::sync::{Arc, Mutex};

fn message(values: Vec<Value>) -> Message<Value> {
    let mut msg = Message::new();
    for value in values {
        msg.extensions_mut().insert(value);
    }
    msg
}

fn body(text: &str) -> Value {
    Value::Body(text.to_string())
}

fn sender(id: &str) -> Value {
    Value::Sender(id.to_string())
}

fn text_of(r: Result<(), Errors>) -> Option<String> {
    match r {
        Ok(()) => None,
        Err(e) => Some(e.message()),
    }
}

const MISSING_BODY: &str =
    "Extension of type `0` was not found. Perhaps you forgot to add it? See `axum::extract::Extension`.";
const MISSING_SENDER: &str =
    "Extension of type `1` was not found. Perhaps you forgot to add it? See `axum::extract::Extension`.";
const MISSING_ARGS: &str =
    "Extension of type `2` was not found. Perhaps you forgot to add it? See `axum::extract::Extension`.";

#[test]
fn blank_message_holds_nothing() {
    let msg: Message<Value> = Message::new();
    assert!(msg.extensions().is_empty());
    let msg: Message<Value> = Message::default();
    assert!(msg.extensions().get(BODY).is_none());
}

#[test]
fn message_round_trips_through_its_parts() {
    let msg = message(vec![body("hello")]);
    let parts = msg.into_parts();
    assert_eq!(parts.extensions.get(BODY), Some(&body("hello")));
    let msg = Message::from_parts(parts);
    assert_eq!(msg.extensions().get(BODY), Some(&body("hello")));
    assert_eq!(msg.extensions().len(), 1);
}

#[test]
fn new_parts_are_empty() {
    let parts: Parts<Value> = Parts::new();
    assert!(parts.extensions.is_empty());
}

#[test]
fn message_parts_expose_the_extensions() {
    let mut parts = MessageParts::new(message(vec![body("hello")]));
    assert_eq!(parts.extensions().get(BODY), Some(&body("hello")));
    parts.extensions_mut().insert(sender("@a:b"));
    assert_eq!(parts.extensions().len(), 2);
}

#[test]
fn extension_extractor_clones_the_stored_value() {
    let mut parts = MessageParts::new(message(vec![body("hello"), sender("@a:b")]));
    let first: Extension<Value, BODY> = Extension::from_message(&mut parts).ok().unwrap();
    assert_eq!(first.0, body("hello"));
    assert_eq!(*first, body("hello"));
    let again: Extension<Value, BODY> = Extension::from_message(&mut parts).ok().unwrap();
    assert_eq!(again.0, body("hello"));
    assert_eq!(parts.extensions().len(), 2);
}

#[test]
fn extension_extractor_rejects_a_missing_value() {
    let mut parts = MessageParts::new(message(vec![body("hello")]));
    let missing: Result<Extension<Value, ARGS>, ExtensionRejection> =
        Extension::from_message(&mut parts);
    match missing {
        Err(ExtensionRejection::MissingExtension(text)) => assert_eq!(text, MISSING_ARGS),
        _ => panic!("the arguments were never stored"),
    }
    assert_eq!(parts.extensions().len(), 1);
}

#[test]
fn parts_extractor_takes_the_whole_map() {
    let mut parts = MessageParts::new(message(vec![body("hello"), sender("@a:b")]));
    let taken: Parts<Value> = Parts::from_message(&mut parts).ok().unwrap();
    assert_eq!(taken.extensions.len(), 2);
    assert_eq!(taken.extensions.get(SENDER), Some(&sender("@a:b")));
    assert!(parts.extensions().is_empty());
}

#[test]
fn rejection_texts() {
    assert_eq!(
        ExtensionRejection::ExtensionsAlreadyExtracted.message(),
        "Extensions taken by other extractor"
    );
    assert_eq!(
        ExtensionRejection::MissingExtension("gone".to_string()).message(),
        "gone"
    );
    assert_eq!(Errors::CustomError("broken".to_string()).message(), "broken");
}

#[test]
fn failures_convert_by_their_text() {
    assert_eq!("plain".to_string().into_error().message(), "plain");
    assert_eq!(
        ExtensionRejection::ExtensionsAlreadyExtracted
            .into_error()
            .message(),
        "Extensions taken by other extractor"
    );
    assert_eq!(
        ExtensionRejection::MissingExtension("m".to_string())
            .into_error()
            .message(),
        "m"
    );
    assert_eq!(
        Errors::CustomError("same".to_string()).into_error().message(),
        "same"
    );
}

#[test]
fn handler_of_one_parameter_gets_its_value() {
    let seen = Arc::new(Mutex::new(Vec::new()));
    let log = Arc::clone(&seen);
    let handler = move |Extension(value): Extension<Value, BODY>| -> Result<(), String> {
        log.lock().unwrap().push(value);
        Ok(())
    };
    let r = Command::call(handler, message(vec![body("hello")]));
    assert_eq!(text_of(r), None);
    assert_eq!(*seen.lock().unwrap(), vec![body("hello")]);
}

#[test]
fn handler_is_not_called_when_a_parameter_is_missing() {
    let calls = Arc::new(Mutex::new(0));
    let count = Arc::clone(&calls);
    let handler = move |_body: Extension<Value, BODY>| -> Result<(), String> {
        *count.lock().unwrap() += 1;
        Ok(())
    };
    let r = Command::call(handler, message(vec![sender("@a:b")]));
    assert_eq!(text_of(r), Some(MISSING_BODY.to_string()));
    assert_eq!(*calls.lock().unwrap(), 0);
}

#[test]
fn handler_failure_becomes_the_invocation_error() {
    let handler =
        |_body: Extension<Value, BODY>| -> Result<(), String> { Err("no luck".to_string()) };
    let r = Command::call(handler, message(vec![body("hello")]));
    assert_eq!(text_of(r), Some("no luck".to_string()));
    let handler = |_body: Extension<Value, BODY>| -> Result<(), Errors> {
        Err(Errors::CustomError("custom".to_string()))
    };
    let r = Command::call(handler, message(vec![body("hello")]));
    assert_eq!(text_of(r), Some("custom".to_string()));
}

#[test]
fn first_rejection_in_declared_order_wins() {
    let handler = |_s: Extension<Value, SENDER>,
                   _a: Extension<Value, ARGS>|
     -> Result<(), String> { Ok(()) };
    let r = Command::call(handler, message(vec![body("only the body")]));
    assert_eq!(text_of(r), Some(MISSING_SENDER.to_string()));
    let handler = |_a: Extension<Value, ARGS>,
                   _s: Extension<Value, SENDER>|
     -> Result<(), String> { Ok(()) };
    let r = Command::call(handler, message(vec![body("only the body")]));
    assert_eq!(text_of(r), Some(MISSING_ARGS.to_string()));
}

#[test]
fn handler_of_two_parameters() {
    let seen = Arc::new(Mutex::new(Vec::new()));
    let log = Arc::clone(&seen);
    let handler = move |Extension(b): Extension<Value, BODY>,
                        Extension(s): Extension<Value, SENDER>|
          -> Result<(), String> {
        log.lock().unwrap().push((b, s));
        Ok(())
    };
    let r = Command::call(handler, message(vec![sender("@a:b"), body("hello")]));
    assert_eq!(text_of(r), None);
    assert_eq!(*seen.lock().unwrap(), vec![(body("hello"), sender("@a:b"))]);
}

#[test]
fn handler_of_three_parameters() {
    let seen = Arc::new(Mutex::new(Vec::new()));
    let log = Arc::clone(&seen);
    let handler = move |Extension(b): Extension<Value, BODY>,
                        Extension(s): Extension<Value, SENDER>,
                        Extension(a): Extension<Value, ARGS>|
          -> Result<(), String> {
        log.lock().unwrap().push((b, s, a));
        Ok(())
    };
    let stored = vec![
        Value::Args(vec!["x".to_string()]),
        sender("@a:b"),
        body("hello"),
    ];
    let r = Command::call(handler, message(stored));
    assert_eq!(text_of(r), None);
    assert_eq!(
        *seen.lock().unwrap(),
        vec![(body("hello"), sender("@a:b"), Value::Args(vec!["x".to_string()]))]
    );
}

#[test]
fn handler_of_four_parameters_sees_what_earlier_extractors_left() {
    let handler = |Extension(b): Extension<Value, BODY>,
                   Extension(s): Extension<Value, SENDER>,
                   all: Parts<Value>,
                   _late: Extension<Value, BODY>|
     -> Result<(), String> {
        assert_eq!(b, Value::Body("hello".to_string()));
        assert_eq!(s, Value::Sender("@a:b".to_string()));
        assert_eq!(all.extensions.len(), 2);
        Ok(())
    };
    let r = Command::call(handler, message(vec![sender("@a:b"), body("hello")]));
    assert_eq!(text_of(r), Some(MISSING_BODY.to_string()));
}

#[test]
fn parts_as_last_parameter_gets_everything() {
    let seen = Arc::new(Mutex::new(0));
    let log = Arc::clone(&seen);
    let handler = move |Extension(b): Extension<Value, BODY>,
                        all: Parts<Value>|
          -> Result<(), String> {
        assert_eq!(b, Value::Body("hello".to_string()));
        *log.lock().unwrap() = all.extensions.len();
        Ok(())
    };
    let r = Command::call(handler, message(vec![sender("@a:b"), body("hello")]));
    assert_eq!(text_of(r), None);
    assert_eq!(*seen.lock().unwrap(), 2);
}

#[test]
fn handler_of_five_parameters() {
    let seen = Arc::new(Mutex::new(0));
    let log = Arc::clone(&seen);
    let handler = move |_a: Extension<Value, BODY>,
                        _b: Extension<Value, SENDER>,
                        _c: Extension<Value, BODY>,
                        _d: Extension<Value, SENDER>,
                        e: Parts<Value>|
          -> Result<(), String> {
        *log.lock().unwrap() = e.extensions.len();
        Ok(())
    };
    let r = Command::call(handler, message(vec![sender("@a:b"), body("hello")]));
    assert_eq!(text_of(r), None);
    assert_eq!(*seen.lock().unwrap(), 2);
}

#[test]
fn handler_of_six_parameters() {
    let handler = |_a: Extension<Value, BODY>,
                   _b: Extension<Value, BODY>,
                   _c: Extension<Value, BODY>,
                   _d: Extension<Value, BODY>,
                   _e: Extension<Value, BODY>,
                   _f: Extension<Value, ARGS>|
     -> Result<(), String> { Ok(()) };
    let r = Command::call(handler, message(vec![body("hello")]));
    assert_eq!(text_of(r), Some(MISSING_ARGS.to_string()));
}

#[test]
fn handler_of_seven_parameters() {
    let handler = |_a: Extension<Value, BODY>,
                   _b: Extension<Value, BODY>,
                   _c: Extension<Value, BODY>,
                   _d: Extension<Value, BODY>,
                   _e: Extension<Value, BODY>,
                   _f: Extension<Value, BODY>,
                   Extension(g): Extension<Value, SENDER>|
     -> Result<(), String> {
        match g {
            Value::Sender(id) => Err(id),
            _ => Ok(()),
        }
    };
    let r = Command::call(handler, message(vec![body("hello"), sender("@a:b")]));
    assert_eq!(text_of(r), Some("@a:b".to_string()));
}

#[test]
fn handler_of_eight_parameters() {
    let seen = Arc::new(Mutex::new(Vec::new()));
    let log = Arc::clone(&seen);
    let handler = move |Extension(a): Extension<Value, BODY>,
                        Extension(b): Extension<Value, SENDER>,
                        Extension(c): Extension<Value, ARGS>,
                        _d: Extension<Value, BODY>,
                        _e: Extension<Value, SENDER>,
                        _f: Extension<Value, ARGS>,
                        _g: Extension<Value, BODY>,
                        h: Parts<Value>|
          -> Result<(), String> {
        log.lock().unwrap().push((a, b, c));
        assert_eq!(h.extensions.len(), 3);
        Ok(())
    };
    let stored = vec![
        Value::Args(vec!["x".to_string()]),
        sender("@a:b"),
        body("hello"),
    ];
    let r = Command::call(handler, message(stored));
    assert_eq!(text_of(r), None);
    assert_eq!(
        *seen.lock().unwrap(),
        vec![(body("hello"), sender("@a:b"), Value::Args(vec!["x".to_string()]))]
    );
}
