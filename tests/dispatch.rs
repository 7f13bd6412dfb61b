use komodo_rpc::dispatch::{step, Attempt, Step, BOOTING_CODE};
use komodo_rpc::error::ClientError;
use komodo_rpc::response::{EnvelopeViolation, RpcError, RpcResponse};

fn with_result(v: u32) -> RpcResponse<u32> {
    RpcResponse { id: "777".to_string(), result: Some(v), error: None }
}

fn with_error(code: i32) -> RpcResponse<u32> {
    RpcResponse {
        id: "777".to_string(),
        result: None,
        error: Some(RpcError { code, message: "failure".to_string() }),
    }
}

#[test]
fn result_finishes_on_first_exchange() {
    match step(Attempt::First, Ok(with_result(5))) {
        Step::Finish(Ok(Ok(v))) => assert_eq!(v, 5),
        other => panic!("unexpected {:?}", other),
    }
}

#[test]
fn other_error_is_returned_without_retry() {
    match step(Attempt::First, Ok(with_error(-5))) {
        Step::Finish(Ok(Err(e))) => {
            assert_eq!(e.code, -5);
            assert_eq!(e.message, "failure");
        },
        other => panic!("unexpected {:?}", other),
    }
}

#[test]
fn booting_error_is_resent_once() {
    assert_eq!(BOOTING_CODE, -28);
    assert!(matches!(step(Attempt::First, Ok(with_error(-28))), Step::Resend));
}

#[test]
fn second_booting_error_is_returned() {
    match step(Attempt::Second, Ok(with_error(-28))) {
        Step::Finish(Ok(Err(e))) => assert_eq!(e.code, -28),
        other => panic!("unexpected {:?}", other),
    }
}

#[test]
fn second_exchange_result_is_returned() {
    match step(Attempt::Second, Ok(with_result(9))) {
        Step::Finish(Ok(Ok(v))) => assert_eq!(v, 9),
        other => panic!("unexpected {:?}", other),
    }
    match step(Attempt::Second, Ok(with_error(-8))) {
        Step::Finish(Ok(Err(e))) => assert_eq!(e.code, -8),
        other => panic!("unexpected {:?}", other),
    }
}

#[test]
fn transport_failure_is_not_retried() {
    for attempt in [Attempt::First, Attempt::Second] {
        let e = std::io::Error::new(std::io::ErrorKind::ConnectionRefused, "refused");
        match step::<u32>(attempt, Err(ClientError::Transport(e))) {
            Step::Finish(Err(ClientError::Transport(e))) => {
                assert_eq!(e.kind(), std::io::ErrorKind::ConnectionRefused)
            },
            other => panic!("unexpected {:?}", other),
        }
    }
}

#[test]
fn decode_failure_is_not_retried() {
    let e = serde_json::from_str::<u32>("not json").unwrap_err();
    assert!(matches!(
        step::<u32>(Attempt::First, Err(ClientError::Json(e))),
        Step::Finish(Err(ClientError::Json(_)))
    ));
}

#[test]
fn broken_envelopes_are_reported() {
    let both = RpcResponse {
        id: "777".to_string(),
        result: Some(1u32),
        error: Some(RpcError { code: -28, message: "booting".to_string() }),
    };
    assert!(matches!(
        step(Attempt::First, Ok(both)),
        Step::Finish(Err(ClientError::Envelope(EnvelopeViolation::BothPresent)))
    ));
    let neither: RpcResponse<u32> = RpcResponse { id: "777".to_string(), result: None, error: None };
    assert!(matches!(
        step(Attempt::First, Ok(neither)),
        Step::Finish(Err(ClientError::Envelope(EnvelopeViolation::NonePresent)))
    ));
}
