use grpcio::error::CodecCause;
use grpcio::error::Error;
use grpcio::error::RpcStatus;

use protobuf::error::WireError;
use protobuf::ProtobufError;

fn sample_status() -> RpcStatus {
    RpcStatus { code: 14, message: Some(String::from("unavailable")) }
}

fn all_variants() -> Vec<Error> {
    vec![
        Error::Codec(CodecCause { detail: String::from("bad tag") }),
        Error::CallFailure(8),
        Error::RpcFailure(sample_status()),
        Error::RpcFinished(Some(sample_status())),
        Error::RpcFinished(None),
        Error::RemoteStopped,
        Error::ShutdownFailed,
        Error::BindFail(String::from("0.0.0.0"), 50051),
        Error::QueueShutdown,
        Error::GoogleAuthenticationFailed,
        Error::InvalidMetadata(String::from("key contains space")),
    ]
}

#[test]
fn test_convert() {
    let error = ProtobufError::WireError(WireError::UnexpectedEof);
    let e: Error = error.into();
    assert_eq!(e.description(), "Codec Error");
    assert!(e.cause().is_some());
}

#[test]
fn category_description_fixed_per_variant() {
    let expected = [
        "Codec Error",
        "Call Error",
        "Request Error",
        "Finish Error",
        "Finish Error",
        "Remote is stopped.",
        "Failed to shutdown.",
        "Bind Error",
        "completion queue shutdown",
        "Could not create google default credentials.",
        "invalid format of metadata",
    ];
    let errors = all_variants();
    assert_eq!(errors.len(), expected.len());
    for (e, want) in errors.iter().zip(expected.iter()) {
        assert_eq!(e.description(), *want);
    }
}

#[test]
fn category_description_ignores_payload() {
    let a = Error::BindFail(String::from("localhost"), 1);
    let b = Error::BindFail(String::from("[::1]"), 65535);
    assert_eq!(a.description(), b.description());
    let c = Error::InvalidMetadata(String::from("x"));
    let d = Error::InvalidMetadata(String::from("y"));
    assert_eq!(c.description(), d.description());
}

#[test]
fn render_is_injective_across_variants_and_payloads() {
    let mut errors = all_variants();
    errors.push(Error::CallFailure(9));
    errors.push(Error::BindFail(String::from("0.0.0.0"), 50052));
    errors.push(Error::BindFail(String::from("0.0.0.1"), 50051));
    errors.push(Error::InvalidMetadata(String::from("key contains tab")));
    errors.push(Error::Codec(CodecCause { detail: String::from("bad wire type") }));
    errors.push(Error::RpcFailure(RpcStatus { code: 14, message: None }));
    errors.push(Error::RpcFailure(RpcStatus { code: 4, message: Some(String::from("unavailable")) }));
    let rendered: Vec<String> = errors.iter().map(|e| e.render()).collect();
    for i in 0..rendered.len() {
        for j in 0..rendered.len() {
            if i != j {
                assert_ne!(rendered[i], rendered[j]);
            }
        }
    }
}

#[test]
fn cause_present_exactly_for_codec() {
    for e in all_variants() {
        match e {
            Error::Codec(_) => assert!(e.cause().is_some()),
            _ => assert!(e.cause().is_none()),
        }
    }
}

#[test]
#[allow(deprecated)]
fn prost_decode_error_round_trip() {
    let source = prost::DecodeError::new("invalid varint");
    let direct = format!("{:?}", prost::DecodeError::new("invalid varint"));
    let e: Error = source.into();
    assert!(matches!(e, Error::Codec(_)));
    let cause = e.cause().expect("codec error must carry its cause");
    assert_eq!(cause.describe(), direct);
    assert!(cause.describe().contains("invalid varint"));
}

#[test]
fn protobuf_error_round_trip() {
    let source = ProtobufError::WireError(WireError::UnexpectedEof);
    let direct = format!("{:?}", ProtobufError::WireError(WireError::UnexpectedEof));
    let e: Error = source.into();
    assert!(matches!(e, Error::Codec(_)));
    let cause = e.cause().expect("codec error must carry its cause");
    assert_eq!(cause.describe(), direct);
    assert!(cause.describe().contains("UnexpectedEof"));
}

#[test]
fn rpc_finished_with_and_without_status() {
    let unknown = Error::RpcFinished(None);
    let known = Error::RpcFinished(Some(sample_status()));
    assert_ne!(unknown.render(), known.render());
    assert_eq!(unknown.description(), "Finish Error");
    assert_eq!(known.description(), "Finish Error");
    assert_eq!(unknown.render(), "RpcFinished(None)");
    assert_eq!(
        known.render(),
        "RpcFinished(Some(RpcStatus { code: 14, message: Some(\"unavailable\") }))"
    );
}

#[test]
fn bind_fail_scenario() {
    let e = Error::BindFail(String::from("0.0.0.0"), 50051);
    assert_eq!(e.description(), "Bind Error");
    let r = e.render();
    assert!(r.contains("0.0.0.0"));
    assert!(r.contains("50051"));
    assert_eq!(r, "BindFail(\"0.0.0.0\", 50051)");
}

#[test]
fn invalid_metadata_scenario() {
    let e = Error::InvalidMetadata(String::from("key contains space"));
    assert_eq!(e.description(), "invalid format of metadata");
    let r = e.render();
    assert!(r.contains("key contains space"));
    assert_eq!(r, "InvalidMetadata(\"key contains space\")");
}

#[test]
fn queue_shutdown_scenario() {
    let e = Error::QueueShutdown;
    assert_eq!(e.description(), "completion queue shutdown");
    assert_eq!(e.render(), "QueueShutdown");
}

#[test]
fn call_failure_renders_code_in_decimal() {
    assert_eq!(Error::CallFailure(0).render(), "CallFailure(0)");
    assert_eq!(Error::CallFailure(8).render(), "CallFailure(8)");
    assert_eq!(Error::CallFailure(4000000000).render(), "CallFailure(4000000000)");
}

#[test]
fn rpc_failure_renders_status() {
    let e = Error::RpcFailure(RpcStatus { code: 14, message: None });
    assert_eq!(e.description(), "Request Error");
    assert_eq!(e.render(), "RpcFailure(RpcStatus { code: 14, message: None })");
}

#[test]
fn codec_constructor_wraps_detail() {
    let e = Error::codec(String::from("truncated message"));
    assert!(matches!(e, Error::Codec(_)));
    assert_eq!(e.render(), "Codec(truncated message)");
    assert_eq!(e.cause().unwrap().describe(), "truncated message");
}

#[test]
fn unit_variants_render_as_their_names() {
    assert_eq!(Error::RemoteStopped.render(), "RemoteStopped");
    assert_eq!(Error::ShutdownFailed.render(), "ShutdownFailed");
    assert_eq!(Error::GoogleAuthenticationFailed.render(), "GoogleAuthenticationFailed");
}

#[test]
fn result_alias_carries_the_error() {
    let ok: grpcio::error::Result<u32> = Ok(7);
    assert!(matches!(ok, Ok(7)));
    let err: grpcio::error::Result<u32> = Err(Error::RemoteStopped);
    match err {
        Ok(_) => panic!("expected an error"),
        Err(e) => assert_eq!(e.description(), "Remote is stopped."),
    }
}
