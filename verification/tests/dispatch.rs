use da_client::client::DAError;
use da_client::client::DataAvailabilityClient;
use da_client::client::DispatchResult;
use da_client::client::RpcError;
use da_client::client::RpcResponse;
use da_client::client::SyscoinClient;
use da_client::client::WireOutcome;

fn test_client() -> SyscoinClient {
    SyscoinClient::new(
        String::from("http://127.0.0.1:8370"),
        String::from("user"),
        String::from("pw"),
    )
}

#[test]
fn successful_response_yields_the_version_handle() {
    let response = RpcResponse {
        result: Some(DispatchResult { vh: String::from("abc123") }),
        error: None,
    };
    let r = SyscoinClient::interpret_response(response);
    assert_eq!(r.unwrap().vh, "abc123");
}

#[test]
fn backend_error_yields_network_error_with_its_message() {
    let response = RpcResponse {
        result: Some(DispatchResult { vh: String::from("ignored") }),
        error: Some(RpcError { code: 1, message: String::from("insufficient funds") }),
    };
    let r = SyscoinClient::interpret_response(response);
    match r {
        Err(DAError::NetworkError { message }) => {
            assert!(message.contains("insufficient funds"));
            assert_eq!(message, "RPC error: insufficient funds");
        }
        other => panic!("expected a network-class error, got {:?}", other),
    }
}

#[test]
fn empty_envelope_yields_serialization_error() {
    let response = RpcResponse { result: None, error: None };
    let r = SyscoinClient::interpret_response(response);
    assert!(matches!(r, Err(DAError::SerializationError { .. })));
}

#[test]
fn transport_failure_yields_network_error_with_the_transport_fault() {
    let client = test_client();
    let outcome = WireOutcome::TransportFailure { message: String::from("connection refused") };
    let r = client.conclude_dispatch(outcome);
    match r {
        Err(DAError::NetworkError { message }) => {
            assert_eq!(message, "connection refused");
        }
        other => panic!("expected a network-class error, got {:?}", other),
    }
}

#[test]
fn undecodable_body_yields_serialization_error_with_the_decode_fault() {
    let client = test_client();
    let outcome = WireOutcome::DecodeFailure { message: String::from("expected value at line 1") };
    let r = client.conclude_dispatch(outcome);
    match r {
        Err(DAError::SerializationError { message }) => {
            assert_eq!(message, "expected value at line 1");
        }
        other => panic!("expected a serialization-class error, got {:?}", other),
    }
}

#[test]
fn decoded_envelope_concludes_by_interpretation() {
    let client = test_client();
    let outcome = WireOutcome::Response {
        response: RpcResponse {
            result: Some(DispatchResult { vh: String::from("deadbeef") }),
            error: None,
        },
    };
    let r = client.conclude_dispatch(outcome);
    assert_eq!(r.unwrap().vh, "deadbeef");
}

#[test]
fn size_limit_reports_no_known_bound() {
    let client = test_client();
    assert_eq!(client.blob_size_limit(), None);
    let _request = client.prepare_dispatch(&vec![0u8; 100_000]);
    assert_eq!(client.blob_size_limit(), None);
    assert_eq!(client.blob_size_limit(), None);
}

#[test]
fn prepared_request_carries_endpoint_credentials_and_json_body() {
    let client = test_client();
    let request = client.prepare_dispatch(&vec![0xab, 0x01]);
    assert_eq!(request.endpoint, "http://127.0.0.1:8370/");
    assert_eq!(request.user, "user");
    assert_eq!(request.password, "pw");
    assert_eq!(
        request.body,
        "{\"method\":\"syscoincreatenevmblob\",\"params\":{\"data\":\"ab01\"}}"
    );
}

#[test]
fn prepared_body_is_well_formed_json() {
    let client = test_client();
    let request = client.prepare_dispatch(&vec![0xab, 0x01]);
    let value: serde_json::Value = serde_json::from_str(&request.body).unwrap();
    assert_eq!(value.get("method").unwrap().as_str().unwrap(), "syscoincreatenevmblob");
    let params = value.get("params").unwrap();
    assert_eq!(params.get("data").unwrap().as_str().unwrap(), "ab01");
}

#[test]
fn clone_shares_configuration_and_dispatches_independently() {
    let client = test_client();
    let duplicate = client.clone_boxed();
    assert_eq!(*duplicate, client);

    let blob = vec![0x01, 0x02];
    assert_eq!(client.prepare_dispatch(&blob), duplicate.prepare_dispatch(&blob));

    let ok_outcome = WireOutcome::Response {
        response: RpcResponse {
            result: Some(DispatchResult { vh: String::from("from-original") }),
            error: None,
        },
    };
    let err_outcome = WireOutcome::Response {
        response: RpcResponse {
            result: None,
            error: Some(RpcError { code: 7, message: String::from("rejected") }),
        },
    };
    let r1 = client.conclude_dispatch(ok_outcome);
    let r2 = duplicate.conclude_dispatch(err_outcome);
    assert_eq!(r1.unwrap().vh, "from-original");
    assert!(matches!(r2, Err(DAError::NetworkError { .. })));
}

#[test]
fn error_message_accessor_returns_the_carried_message() {
    let network = DAError::NetworkError { message: String::from("timed out") };
    let serialization = DAError::SerializationError { message: String::from("bad json") };
    assert_eq!(network.message().as_str(), "timed out");
    assert_eq!(serialization.message().as_str(), "bad json");
}
