use rpc_lib::{Error, ErrorKind, ResponseError};

#[test]
fn error_new_keeps_the_kind() {
    let error = Error::new(ErrorKind::Transport("connection reset".to_string()));
    assert_eq!(error.kind(), &ErrorKind::Transport("connection reset".to_string()));
    let error = Error::new(ErrorKind::EmptyResult);
    assert_eq!(error.kind(), &ErrorKind::EmptyResult);
}

#[test]
fn error_from_kind_keeps_the_kind() {
    let error = Error::from(ErrorKind::Serialization("bad".to_string()));
    assert_eq!(error.kind(), &ErrorKind::Serialization("bad".to_string()));
    assert_eq!(error, Error::new(ErrorKind::Serialization("bad".to_string())));
}

#[test]
fn error_from_payload_is_a_protocol_error() {
    let payload = ResponseError { code: -32600, message: "Invalid Request".to_string() };
    let error: Error = payload.clone().into();
    assert_eq!(error.kind(), &ErrorKind::ProtocolError(payload));
}

#[test]
fn error_kinds_differ() {
    let kinds = [
        ErrorKind::Transport("x".to_string()),
        ErrorKind::Serialization("x".to_string()),
        ErrorKind::ProtocolError(ResponseError { code: 0, message: "x".to_string() }),
        ErrorKind::EmptyResult,
    ];
    for (i, a) in kinds.iter().enumerate() {
        for (j, b) in kinds.iter().enumerate() {
            assert_eq!(a == b, i == j);
        }
    }
}
