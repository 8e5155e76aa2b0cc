use vlottoidx::{
    build_request, check_http_status, conclude_bare_decode, conclude_null_decode,
    conclude_result_decode, endpoint_url, interpret_envelope, JsonRpcError, RequestCounter,
    ResponseStep, RpcCredentials, RpcError, VerusJsonRpcResponse,
};

#[test]
fn request_ids_count_up_and_never_repeat() {
    let mut counter = RequestCounter::new();
    let mut seen = std::collections::HashSet::new();
    for n in 1..=1000u64 {
        let id = counter.next_request_id().unwrap();
        assert_eq!(id, format!("verusidx_{}", n));
        assert!(seen.insert(id));
    }
    assert_eq!(seen.len(), 1000);
}

#[test]
fn endpoint_has_host_port_and_slash() {
    let c = RpcCredentials {
        username: "u".to_string(),
        password: "p".to_string(),
        host: "127.0.0.1".to_string(),
        port: 27486,
    };
    assert_eq!(endpoint_url(&c), "http://127.0.0.1:27486/");
}

#[test]
fn request_envelope_is_tagged_one_point_zero() {
    let r = build_request("getinfo", vec![1u8, 2], "verusidx_7".to_string());
    assert_eq!(r.jsonrpc, "1.0");
    assert_eq!(r.method, "getinfo");
    assert_eq!(r.params, vec![1u8, 2]);
    assert_eq!(r.id, "verusidx_7");
}

#[test]
fn http_status_outside_success_fails_with_body() {
    assert!(check_http_status(200, "200 OK", "").is_ok());
    assert!(check_http_status(299, "299", "").is_ok());
    match check_http_status(401, "401 Unauthorized", "denied") {
        Err(RpcError::RpcCall(m)) => assert_eq!(m, "HTTP 401 Unauthorized: denied"),
        other => panic!("unexpected {:?}", other),
    }
    assert!(check_http_status(199, "199", "").is_err());
    assert!(check_http_status(300, "300 Multiple Choices", "").is_err());
}

fn envelope(result: Option<u32>, error: Option<(i32, &str)>) -> VerusJsonRpcResponse<u32> {
    VerusJsonRpcResponse {
        result,
        error: error.map(|(code, message)| JsonRpcError { code, message: message.to_string() }),
        id: "verusidx_1".to_string(),
    }
}

#[test]
fn an_error_object_fails_even_with_a_result() {
    match interpret_envelope(envelope(Some(5), Some((-6, "short")))) {
        ResponseStep::Failed(RpcError::InsufficientFunds(m)) => assert_eq!(m, "short"),
        other => panic!("unexpected {:?}", other),
    }
    match interpret_envelope(envelope(None, Some((-4, "locked")))) {
        ResponseStep::Failed(RpcError::WalletLocked) => {}
        other => panic!("unexpected {:?}", other),
    }
}

#[test]
fn a_result_is_decoded() {
    assert!(matches!(interpret_envelope(envelope(Some(5), None)), ResponseStep::Decode(5)));
}

#[test]
fn no_result_and_no_error_decodes_a_null() {
    assert!(matches!(interpret_envelope(envelope(None, None)), ResponseStep::DecodeNull));
    assert_eq!(conclude_null_decode("closeoffers", Some(())).unwrap(), ());
    match conclude_null_decode::<u32>("getblockcount", None) {
        Err(RpcError::JsonParse(m)) => assert_eq!(m, "No result field found for method: getblockcount"),
        other => panic!("unexpected {:?}", other),
    }
}

#[test]
fn decode_failures_name_the_method() {
    assert_eq!(conclude_result_decode::<u32>("getinfo", Ok(3)).unwrap(), 3);
    match conclude_result_decode::<u32>("getinfo", Err("invalid type".to_string())) {
        Err(RpcError::JsonParse(m)) => assert_eq!(m, "Failed to deserialize result for getinfo: invalid type"),
        other => panic!("unexpected {:?}", other),
    }
    match conclude_bare_decode::<u32>("getinfo", Err("expected value".to_string())) {
        Err(RpcError::JsonParse(m)) => assert_eq!(m, "Failed to parse response for getinfo: expected value"),
        other => panic!("unexpected {:?}", other),
    }
    assert_eq!(conclude_bare_decode::<u32>("getinfo", Ok(9)).unwrap(), 9);
}
