use ffgraph::error::{get_errors, Cause, Error, Message};
use ffgraph::event::ErrorMessage;

#[test]
fn get_errors_walks_the_chain_outermost_first() {
    let chain = Cause::caused_by("cannot load", Cause::caused_by("cannot read", Cause::new("no such file")));
    assert_eq!(get_errors(&chain), vec!["cannot load", "cannot read", "no such file"]);
}

#[test]
fn get_errors_of_a_single_failure() {
    assert_eq!(get_errors(&Cause::new("alone")), vec!["alone"]);
}

#[test]
fn cause_constructors_keep_their_parts() {
    let inner = Cause::new("inner");
    assert_eq!(inner.description, "inner");
    assert_eq!(inner.source, None);
    let outer = Cause::caused_by("outer", Cause::new("inner"));
    assert_eq!(outer.description, "outer");
    assert_eq!(outer.source, Some(Box::new(Cause::new("inner"))));
}

#[test]
fn message_hands_results_on() {
    let fine: Result<u32, Cause> = Ok(7);
    assert_eq!(fine.message("never shown"), Ok(7));
    assert_eq!(Some("value").message("never shown"), Ok("value"));
}

#[test]
fn message_wraps_a_failed_result() {
    let failed: Result<u32, Cause> = Err(Cause::caused_by("top", Cause::new("bottom")));
    let error = failed.message("failed to open path x").unwrap_err();
    assert_eq!(error.message(), "failed to open path x");
    assert_eq!(error.errors(), &vec!["top".to_string(), "bottom".to_string()]);
}

#[test]
fn message_on_none_has_no_causes() {
    let missing: Option<u32> = None;
    let error = missing.message("failed to get first window config").unwrap_err();
    assert_eq!(error.message(), "failed to get first window config");
    assert!(error.errors().is_empty());
    assert_eq!(error, Error::new("failed to get first window config".to_string(), vec![]));
}

#[test]
fn error_message_event_carries_the_error() {
    let error = Error::new("m".to_string(), vec!["e".to_string()]);
    let event = ErrorMessage(error.clone());
    assert_eq!(event.0, error);
}
