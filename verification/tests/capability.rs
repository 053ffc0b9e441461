use wifidirect::common::{Node, Publisher, Socket};
use wifidirect::scripted::ScriptedPublisher;
use wifidirect::win::{wrap_outcome, PublisherError, WinError};

fn access_denied() -> PublisherError {
    PublisherError { code: -2147024891, message: String::from("Access is denied.") }
}

#[test]
fn wrap_outcome_passes_success_through() {
    let wrapped = wrap_outcome(Ok(()));
    assert!(wrapped.is_ok());
}

#[test]
fn wrap_outcome_carries_the_native_error_unchanged() {
    let wrapped = wrap_outcome(Err(access_denied()));
    match wrapped {
        Err(WinError::Publisher(e)) => {
            assert_eq!(e.code, -2147024891);
            assert_eq!(e.message, "Access is denied.");
        }
        Ok(()) => panic!("a failed native call must not become a success"),
    }
}

#[test]
fn start_returns_success_when_the_native_call_succeeds() {
    let mut publisher = ScriptedPublisher::new(vec![Ok(())], vec![]);
    assert!(publisher.start().is_ok());
    // past the script, a start call also reports success
    assert!(publisher.start().is_ok());
}

#[test]
fn start_wraps_the_native_error_unchanged() {
    let mut publisher = ScriptedPublisher::new(vec![Err(access_denied())], vec![]);
    match publisher.start() {
        Err(WinError::Publisher(e)) => {
            assert_eq!(e.code, -2147024891);
            assert_eq!(e.message, "Access is denied.");
        }
        Ok(()) => panic!("a failed native start must not become a success"),
    }
}

#[test]
fn stop_returns_success_when_the_native_call_succeeds() {
    let mut publisher = ScriptedPublisher::new(vec![], vec![Ok(())]);
    assert!(publisher.stop().is_ok());
    assert!(publisher.stop().is_ok());
}

#[test]
fn stop_wraps_the_native_error_unchanged() {
    let mut publisher = ScriptedPublisher::new(vec![], vec![Err(access_denied())]);
    match publisher.stop() {
        Err(WinError::Publisher(e)) => {
            assert_eq!(e.code, -2147024891);
            assert_eq!(e.message, "Access is denied.");
        }
        Ok(()) => panic!("a failed native stop must not become a success"),
    }
}

#[test]
fn scripted_outcomes_are_consumed_from_the_end() {
    let mut publisher =
        ScriptedPublisher::new(vec![Ok(()), Err(access_denied())], vec![]);
    assert!(publisher.start().is_err());
    assert!(publisher.start().is_ok());
    assert_eq!(publisher.remaining_start_outcomes(), 0);
}

#[test]
fn a_started_node_makes_exactly_one_start_call_on_its_publisher() {
    // Were start suppressed, the node would report success and leave both
    // outcomes in place; were it duplicated, at most one outcome would remain.
    let publisher =
        ScriptedPublisher::new(vec![Ok(()), Err(access_denied())], vec![Ok(())]);
    let mut node = Node::new(publisher, None);
    match node.start() {
        Err(WinError::Publisher(e)) => assert_eq!(e.code, -2147024891),
        Ok(()) => panic!("the node must forward the publisher's failure"),
    }
    assert_eq!(node.publisher_ref().remaining_start_outcomes(), 1);
    assert_eq!(node.publisher_ref().remaining_stop_outcomes(), 1);
}

#[test]
fn a_started_node_forwards_the_publisher_success() {
    let publisher = ScriptedPublisher::new(vec![Ok(())], vec![]);
    let mut node = Node::new(publisher, Some(Socket));
    assert!(node.start().is_ok());
    assert_eq!(node.publisher_ref().remaining_start_outcomes(), 0);
    assert!(node.socket_ref().is_some());
}

#[test]
fn a_node_keeps_the_socket_it_was_built_with() {
    let publisher = ScriptedPublisher::new(vec![], vec![]);
    let node = Node::new(publisher, None);
    assert!(node.socket_ref().is_none());
}
