use rithmic_rs::error::classify_rp_code_error;
use rithmic_rs::text::sanitize_for_display;
use rithmic_rs::{ConnectionMessage, RithmicError, RithmicRequestError};

#[test]
fn request_error_display_formats_code_and_message() {
    let err = RithmicRequestError {
        rp_code: vec![
            "1039".to_string(),
            "FCM Id field is not received.".to_string(),
        ],
        code: Some("1039".to_string()),
        message: Some("FCM Id field is not received.".to_string()),
    };

    assert_eq!(err.to_display_string(), "[1039] FCM Id field is not received.");
}

#[test]
fn request_error_display_without_code_uses_message_only() {
    let err = RithmicRequestError {
        rp_code: vec![],
        code: None,
        message: Some("something happened".to_string()),
    };

    assert_eq!(err.to_display_string(), "something happened");
}

#[test]
fn request_error_display_single_element_omits_trailing_slash() {
    let err = RithmicRequestError {
        rp_code: vec!["5".to_string()],
        code: Some("5".to_string()),
        message: None,
    };

    assert_eq!(err.to_display_string(), "[5]");
}

#[test]
fn request_error_display_sanitizes_control_chars() {
    let err = RithmicRequestError {
        rp_code: vec![
            "3\n".to_string(),
            "bad\x1b[31mredinjection\r\ndropped".to_string(),
        ],
        code: Some("3\n".to_string()),
        message: Some("bad\x1b[31mredinjection\r\ndropped".to_string()),
    };

    assert_eq!(err.to_display_string(), "[3] bad[31mredinjectiondropped");
}

#[test]
fn request_error_equality() {
    let a = RithmicRequestError {
        rp_code: vec!["3".to_string(), "bad request".to_string()],
        code: Some("3".to_string()),
        message: Some("bad request".to_string()),
    };

    let b = RithmicRequestError {
        rp_code: vec!["3".to_string(), "bad request".to_string()],
        code: Some("3".to_string()),
        message: Some("bad request".to_string()),
    };

    let c = RithmicRequestError {
        rp_code: vec!["4".to_string(), "bad request".to_string()],
        code: Some("4".to_string()),
        message: Some("bad request".to_string()),
    };

    assert_eq!(a, b);
    assert_ne!(a, c);
}

#[test]
fn rithmic_error_equality_for_unit_variants() {
    assert_eq!(
        RithmicError::ConnectionClosed,
        RithmicError::ConnectionClosed
    );
    assert_ne!(RithmicError::ConnectionClosed, RithmicError::SendFailed);
}

#[test]
fn rithmic_error_source_chain_exposes_inner_request_error() {
    let inner = RithmicRequestError {
        rp_code: vec!["3".to_string(), "bad".to_string()],
        code: Some("3".to_string()),
        message: Some("bad".to_string()),
    };

    let err = RithmicError::RequestRejected(inner.clone());
    let src = err
        .source()
        .expect("source should be Some for RequestRejected");

    assert_eq!(src.to_display_string(), inner.to_display_string());

    assert!(
        RithmicError::ConnectionClosed.source().is_none(),
        "unit variants should have no source"
    );
}

#[test]
fn plant_rejection_mapping_produces_request_rejected() {
    let err = RithmicRequestError {
        rp_code: vec!["3".to_string(), "bad request".to_string()],
        code: Some("3".to_string()),
        message: Some("bad request".to_string()),
    };

    let mapped = RithmicError::RequestRejected(err.clone());

    match mapped {
        RithmicError::RequestRejected(inner) => {
            assert_eq!(inner, err);
            assert_eq!(inner.code.as_deref(), Some("3"));
            assert_eq!(inner.message.as_deref(), Some("bad request"));
            assert_eq!(
                inner.rp_code,
                vec!["3".to_string(), "bad request".to_string()]
            );
        }
        other => panic!("expected RequestRejected, got {other:?}"),
    }

    let display = RithmicError::RequestRejected(err).to_display_string();

    assert_eq!(display, "request rejected: [3] bad request");
}

#[test]
fn rithmic_error_request_rejected_display_delegates() {
    let err = RithmicError::RequestRejected(RithmicRequestError {
        rp_code: vec![
            "7".to_string(),
            "an error occurred while parsing data.".to_string(),
        ],
        code: Some("7".to_string()),
        message: Some("an error occurred while parsing data.".to_string()),
    });

    assert_eq!(
        err.to_display_string(),
        "request rejected: [7] an error occurred while parsing data."
    );
}

#[test]
fn rithmic_error_protocol_error_display() {
    let err = RithmicError::ProtocolError("decode failed".to_string());

    assert_eq!(err.to_display_string(), "protocol error: decode failed");
}

#[test]
fn heartbeat_timeout_display() {
    assert_eq!(
        RithmicError::HeartbeatTimeout.to_display_string(),
        "heartbeat timeout"
    );
}

#[test]
fn forced_logout_display() {
    assert_eq!(
        RithmicError::ForcedLogout("srv reason".into()).to_display_string(),
        "forced logout: srv reason"
    );
}

#[test]
fn forced_logout_sanitizes_control_chars() {
    let err = RithmicError::ForcedLogout("bad\nreason".into());
    assert_eq!(err.to_display_string(), "forced logout: badreason");
}

#[test]
fn is_connection_issue_true_for_transport_variants() {
    assert!(RithmicError::ConnectionFailed("x".into()).is_connection_issue());
    assert!(RithmicError::ConnectionClosed.is_connection_issue());
    assert!(RithmicError::SendFailed.is_connection_issue());
    assert!(RithmicError::HeartbeatTimeout.is_connection_issue());
    assert!(RithmicError::ForcedLogout("x".into()).is_connection_issue());
}

#[test]
fn is_connection_issue_false_for_protocol_variants() {
    let req = RithmicRequestError {
        rp_code: vec!["3".into(), "x".into()],
        code: Some("3".into()),
        message: Some("x".into()),
    };
    assert!(!RithmicError::RequestRejected(req).is_connection_issue());
    assert!(!RithmicError::ProtocolError("x".into()).is_connection_issue());
    assert!(!RithmicError::InvalidArgument("x".into()).is_connection_issue());
    assert!(!RithmicError::EmptyResponse.is_connection_issue());
}

#[test]
fn as_connection_message_heartbeat_timeout() {
    assert!(matches!(
        RithmicError::HeartbeatTimeout.as_connection_message(),
        ConnectionMessage::HeartbeatTimeout
    ));
}

#[test]
fn as_connection_message_connection_failed() {
    assert!(matches!(
        RithmicError::ConnectionFailed("x".into()).as_connection_message(),
        ConnectionMessage::ConnectionError
    ));
}

#[test]
fn remaining_error_texts() {
    assert_eq!(
        RithmicError::ConnectionFailed("dns".into()).to_display_string(),
        "connection failed: dns"
    );
    assert_eq!(
        RithmicError::ConnectionClosed.to_display_string(),
        "connection closed"
    );
    assert_eq!(
        RithmicError::SendFailed.to_display_string(),
        "WebSocket send failed or timed out"
    );
    assert_eq!(RithmicError::EmptyResponse.to_display_string(), "empty response");
    assert_eq!(
        RithmicError::InvalidArgument("qty".into()).to_display_string(),
        "invalid argument: qty"
    );
}

#[test]
fn empty_code_shows_the_message_alone() {
    let err = RithmicRequestError {
        rp_code: vec!["".to_string(), "msg".to_string()],
        code: Some("".to_string()),
        message: Some("msg".to_string()),
    };
    assert_eq!(err.to_display_string(), "msg");

    let nothing = RithmicRequestError {
        rp_code: vec![],
        code: None,
        message: None,
    };
    assert_eq!(nothing.to_display_string(), "");
}

#[test]
fn sanitizing_removes_only_control_characters() {
    assert_eq!(sanitize_for_display("a\tb\u{7f}c\u{9f}d\u{a0}e"), "abcd\u{a0}e");
    assert_eq!(sanitize_for_display("plain"), "plain");
    assert_eq!(sanitize_for_display(""), "");
}

#[test]
fn rp_code_success_and_benign_replies_report_no_error() {
    assert_eq!(classify_rp_code_error(&vec![]), None);
    assert_eq!(classify_rp_code_error(&vec!["0".to_string()]), None);
    assert_eq!(
        classify_rp_code_error(&vec!["7".to_string(), "no data".to_string()]),
        None
    );
}

#[test]
fn rp_code_rejections_keep_the_whole_payload() {
    assert_eq!(
        classify_rp_code_error(&vec!["5".to_string()]),
        Some(RithmicError::RequestRejected(RithmicRequestError {
            rp_code: vec!["5".to_string()],
            code: Some("5".to_string()),
            message: None,
        }))
    );
    assert_eq!(
        classify_rp_code_error(&vec![
            "7".to_string(),
            "an error occurred while parsing data.".to_string()
        ]),
        Some(RithmicError::RequestRejected(RithmicRequestError {
            rp_code: vec![
                "7".to_string(),
                "an error occurred while parsing data.".to_string()
            ],
            code: Some("7".to_string()),
            message: Some("an error occurred while parsing data.".to_string()),
        }))
    );
}
