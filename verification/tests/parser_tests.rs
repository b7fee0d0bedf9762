use hubbub::bridge::{RawEvent, deliver_complete_script, dispatch};
use hubbub::marshal::RawTag;
use hubbub::parser::{FeedOutcome, FeederState, Parser};
use hubbub::status::EngineError;
use hubbub::tree::TreeBuilder;

fn ready_parser() -> Parser {
    let mut parser = Parser::new(b"UTF-8".to_vec(), false);
    parser.set_tree_handler().unwrap();
    parser
}

#[test]
fn fresh_handle_is_idle() {
    let parser = Parser::new(b"UTF-8".to_vec(), true);
    assert_eq!(parser.state(), FeederState::Idle);
    assert!(!parser.is_installed());
    assert_eq!(parser.open_script_windows(), 0);
    assert_eq!(parser.encoding_hint(), &b"UTF-8".to_vec());
    assert!(parser.encoding_fixed());
}

#[test]
fn feeding_without_a_handler_is_refused() {
    let mut parser = Parser::new(b"UTF-8".to_vec(), false);
    let chunk = b"<p>".to_vec();
    assert_eq!(parser.parse_chunk(&chunk), Err(EngineError::ProtocolViolation));
    assert_eq!(parser.state(), FeederState::Idle);
}

#[test]
fn installing_after_feeding_started_is_refused() {
    let mut parser = ready_parser();
    parser.parse_chunk(&b"<p>".to_vec()).unwrap();
    parser.parse_chunk_status(0).unwrap();
    assert_eq!(parser.set_tree_handler(), Err(EngineError::ProtocolViolation));
}

#[test]
fn configuration_is_one_shot_before_feeding() {
    let mut parser = ready_parser();
    assert_eq!(parser.set_document_node(7), Ok(()));
    assert_eq!(parser.document_node(), 7);
    assert_eq!(parser.enable_scripting(true), Ok(()));
    assert!(parser.scripting_enabled());
    assert_eq!(parser.enable_styling(true), Ok(()));
    assert!(parser.styling_enabled());

    parser.parse_chunk(&b"<p>".to_vec()).unwrap();
    parser.parse_chunk_status(0).unwrap();
    assert_eq!(parser.set_document_node(9), Err(EngineError::ProtocolViolation));
    assert_eq!(parser.enable_scripting(false), Err(EngineError::ProtocolViolation));
    assert_eq!(parser.enable_styling(false), Err(EngineError::ProtocolViolation));
    assert_eq!(parser.document_node(), 7);
}

#[test]
fn feed_lifecycle_interprets_status_codes() {
    let mut parser = ready_parser();
    assert_eq!(parser.parse_chunk(&b"<p>".to_vec()), Ok(()));
    assert_eq!(parser.state(), FeederState::Feeding);
    assert_eq!(parser.parse_chunk_status(0), Ok(FeedOutcome::NeedsMoreData));
    assert_eq!(parser.state(), FeederState::NeedsMoreData);

    assert_eq!(parser.parse_chunk(&b"Hi".to_vec()), Ok(()));
    assert_eq!(parser.parse_chunk_status(9), Ok(FeedOutcome::NeedsMoreData));

    assert_eq!(parser.parse_chunk(&b"<script>".to_vec()), Ok(()));
    assert_eq!(parser.parse_chunk_status(3), Ok(FeedOutcome::Paused));
    assert_eq!(parser.state(), FeederState::Paused);

    // A paused feeder resumes by feeding again.
    assert_eq!(parser.parse_chunk(&b"</script>".to_vec()), Ok(()));
    assert_eq!(parser.parse_chunk_status(2), Ok(FeedOutcome::EncodingChanged));
    assert_eq!(parser.state(), FeederState::NeedsMoreData);
}

#[test]
fn feed_failure_marks_the_handle_unusable() {
    let mut parser = ready_parser();
    parser.parse_chunk(&b"<p>".to_vec()).unwrap();
    assert_eq!(parser.parse_chunk_status(5), Err(EngineError::NoMemory));
    assert_eq!(parser.state(), FeederState::Failed);
    assert_eq!(parser.parse_chunk(&b"more".to_vec()), Err(EngineError::ProtocolViolation));
}

#[test]
fn malformed_input_statuses_surface_as_typed_errors() {
    let mut parser = ready_parser();
    parser.parse_chunk(&b"x".to_vec()).unwrap();
    assert_eq!(parser.parse_chunk_status(6), Err(EngineError::BadParameter));

    let mut parser = ready_parser();
    parser.parse_chunk(&b"x".to_vec()).unwrap();
    assert_eq!(parser.parse_chunk_status(7), Err(EngineError::Invalid));

    let mut parser = ready_parser();
    parser.parse_chunk(&b"x".to_vec()).unwrap();
    assert_eq!(parser.parse_chunk_status(10), Err(EngineError::BadEncoding));

    // A code outside the documented domain is never swallowed.
    let mut parser = ready_parser();
    parser.parse_chunk(&b"x".to_vec()).unwrap();
    assert_eq!(parser.parse_chunk_status(4), Err(EngineError::Unknown));
}

#[test]
fn reentrant_feeding_is_refused() {
    let mut parser = ready_parser();
    parser.parse_chunk(&b"<p>".to_vec()).unwrap();
    // A second feed while the engine call is on the stack.
    assert_eq!(parser.parse_chunk(&b"oops".to_vec()), Err(EngineError::ProtocolViolation));
    assert_eq!(parser.state(), FeederState::Feeding);
}

#[test]
fn insert_outside_script_window_is_a_protocol_violation() {
    let mut parser = ready_parser();
    let chunk = b"<b>hi</b>".to_vec();
    // Before any feed.
    assert_eq!(parser.insert_chunk(&chunk), Err(EngineError::ProtocolViolation));
    // During a feed but outside any script-completion notification.
    parser.parse_chunk(&b"<script></script>".to_vec()).unwrap();
    assert_eq!(parser.insert_chunk(&chunk), Err(EngineError::ProtocolViolation));
    // Between feeds.
    parser.parse_chunk_status(0).unwrap();
    assert_eq!(parser.insert_chunk(&chunk), Err(EngineError::ProtocolViolation));
}

#[test]
fn insert_inside_script_window_is_accepted() {
    let mut parser = ready_parser();
    parser.parse_chunk(&b"<script src=x></script>".to_vec()).unwrap();
    // The engine delivers the script-completion notification; the bridge
    // opens the window around the client's handler.
    parser.enter_script_window().unwrap();
    let injected = b"<p>from script</p>".to_vec();
    assert_eq!(parser.insert_chunk(&injected), Ok(()));
    assert_eq!(parser.insert_chunk_status(0), Ok(FeedOutcome::NeedsMoreData));
    assert_eq!(parser.state(), FeederState::Feeding);
    parser.exit_script_window().unwrap();
    // The window is closed again.
    assert_eq!(parser.insert_chunk(&injected), Err(EngineError::ProtocolViolation));
    parser.parse_chunk_status(0).unwrap();
}

#[test]
fn script_completion_delivery_brackets_the_window() {
    let mut parser = ready_parser();
    let mut builder = TreeBuilder::new();
    let script = match dispatch(&mut builder, &RawEvent::CreateElement {
        tag: RawTag { ns: 1, name: b"script".to_vec(), attributes: Vec::new(),
            self_closing: false },
    }) {
        hubbub::bridge::Response::Node(n) => n,
        _ => panic!("expected a node"),
    };

    // Outside an engine call the notification is refused undelivered.
    assert_eq!(
        deliver_complete_script(&mut parser, &mut builder, script),
        Err(EngineError::ProtocolViolation)
    );
    assert_eq!(builder.script_count(), 0);

    // During a feed it is delivered, and the window closes with it.
    parser.parse_chunk(&b"<script>x</script>".to_vec()).unwrap();
    assert_eq!(deliver_complete_script(&mut parser, &mut builder, script), Ok(()));
    assert_eq!(builder.script_count(), 1);
    assert_eq!(parser.open_script_windows(), 0);
    assert_eq!(parser.insert_chunk(&b"y".to_vec()), Err(EngineError::ProtocolViolation));
    parser.parse_chunk_status(0).unwrap();
}

#[test]
fn script_windows_only_open_during_a_feed() {
    let mut parser = ready_parser();
    assert_eq!(parser.enter_script_window(), Err(EngineError::ProtocolViolation));
    assert_eq!(parser.exit_script_window(), Err(EngineError::ProtocolViolation));
    parser.parse_chunk(&b"x".to_vec()).unwrap();
    parser.enter_script_window().unwrap();
    parser.enter_script_window().unwrap();
    assert_eq!(parser.open_script_windows(), 2);
    parser.exit_script_window().unwrap();
    parser.exit_script_window().unwrap();
    assert_eq!(parser.open_script_windows(), 0);
}

#[test]
fn completion_closes_the_handle_to_input() {
    let mut parser = ready_parser();
    parser.parse_chunk(&b"<p>Hi</p>".to_vec()).unwrap();
    parser.parse_chunk_status(0).unwrap();
    assert_eq!(parser.completed(), Ok(()));
    assert_eq!(parser.state(), FeederState::Feeding);
    assert_eq!(parser.completed_status(0), Ok(()));
    assert_eq!(parser.state(), FeederState::Completed);

    // After completion, feeding and inserting are invalid.
    assert_eq!(parser.parse_chunk(&b"more".to_vec()), Err(EngineError::ProtocolViolation));
    assert_eq!(parser.insert_chunk(&b"more".to_vec()), Err(EngineError::ProtocolViolation));
    assert_eq!(parser.completed(), Err(EngineError::ProtocolViolation));
}

#[test]
fn completion_of_an_empty_document_is_allowed() {
    let mut parser = ready_parser();
    assert_eq!(parser.completed(), Ok(()));
    assert_eq!(parser.completed_status(0), Ok(()));
    assert_eq!(parser.state(), FeederState::Completed);
}

#[test]
fn completion_failure_fails_the_handle() {
    let mut parser = ready_parser();
    parser.completed().unwrap();
    assert_eq!(parser.completed_status(5), Err(EngineError::NoMemory));
    assert_eq!(parser.state(), FeederState::Failed);
}

#[test]
fn destruction_is_allowed_only_at_rest() {
    let mut parser = ready_parser();
    assert!(parser.can_destroy());
    parser.parse_chunk(&b"x".to_vec()).unwrap();
    assert!(!parser.can_destroy());
    parser.enter_script_window().unwrap();
    assert!(!parser.can_destroy());
    parser.exit_script_window().unwrap();
    parser.parse_chunk_status(0).unwrap();
    assert!(parser.can_destroy());
}

/// One feed call as an embedder runs it: the handle admits the feed, the
/// engine works through the chunk invoking callbacks synchronously, and
/// the status is reported back — here for the input `"<p>Hi</p>"`.
#[test]
fn one_feed_call_with_synchronous_callbacks() {
    let mut parser = ready_parser();
    let mut builder = TreeBuilder::new();
    let root = builder.create_root();
    parser.set_document_node(root).unwrap();

    let chunk = b"<p>Hi</p>".to_vec();
    parser.parse_chunk(&chunk).unwrap();

    // Within the engine call, the callbacks for this chunk arrive.
    let p = match dispatch(&mut builder, &RawEvent::CreateElement {
        tag: RawTag { ns: 1, name: b"p".to_vec(), attributes: Vec::new(), self_closing: false },
    }) {
        hubbub::bridge::Response::Node(n) => n,
        _ => panic!("expected a node"),
    };
    let text = match dispatch(&mut builder, &RawEvent::CreateText { data: b"Hi".to_vec() }) {
        hubbub::bridge::Response::Node(n) => n,
        _ => panic!("expected a node"),
    };
    dispatch(&mut builder, &RawEvent::AppendChild { parent: p, child: text });
    dispatch(&mut builder, &RawEvent::AppendChild { parent: root, child: p });

    assert_eq!(parser.parse_chunk_status(0), Ok(FeedOutcome::NeedsMoreData));
    parser.completed().unwrap();
    parser.completed_status(0).unwrap();

    assert_eq!(parser.state(), FeederState::Completed);
    assert_eq!(builder.node_count(), 3);
    assert_eq!(builder.parent_identity(p), root);
    assert_eq!(builder.parent_identity(text), p);
    assert!(!builder.is_poisoned());
}

#[test]
fn status_reports_are_refused_without_a_matching_call() {
    let mut parser = ready_parser();
    assert_eq!(parser.parse_chunk_status(0), Err(EngineError::ProtocolViolation));
    assert_eq!(parser.insert_chunk_status(0), Err(EngineError::ProtocolViolation));
    assert_eq!(parser.completed_status(0), Err(EngineError::ProtocolViolation));
}
