use photoproof_desktop::embedders::{
    decode_embedding, decode_error, decode_ready_wire, image_request_body, ready_response, rpc_response,
    text_request_body, ConnectorFailure, ExecutionSelection, ModelExecution, ReadyWire, RpcStep, SessionWire,
    MAX_TEXT_BYTES, RESP_EMBEDDING, RESP_ERROR, RESP_EXECUTION, RESP_READY,
};

fn session(selected: &str, measurement: &str, providers: &[&str]) -> SessionWire {
    let list: Vec<String> = providers.iter().map(|p| p.to_string()).collect();
    SessionWire {
        requested: list.clone(),
        available: list.clone(),
        registered: list.clone(),
        selected: selected.to_string(),
        actual: list,
        fallback_reason: None,
        measurement: measurement.to_string(),
        profile_path: None,
    }
}

fn wire(model_id: &str, dims: usize, sessions: Vec<SessionWire>) -> ReadyWire {
    ReadyWire { model_id: model_id.to_string(), dims, sessions }
}

fn embedding_body(model_id: &str, components: &[f32]) -> Vec<u8> {
    let mut body = Vec::new();
    body.extend_from_slice(&(model_id.len() as u16).to_le_bytes());
    body.extend_from_slice(model_id.as_bytes());
    body.extend_from_slice(&(components.len() as u32).to_le_bytes());
    for c in components {
        body.extend_from_slice(&c.to_bits().to_le_bytes());
    }
    body
}

#[test]
fn error_frames_decode_as_text_and_refuse_invalid_utf8() {
    assert_eq!(decode_error(b"model missing").unwrap(), "model missing");
    assert!(decode_error(&[0xff, 0xfe]).is_err());
    let long = vec![b'a'; MAX_TEXT_BYTES + 1];
    assert_eq!(decode_error(&long).unwrap_err(), "embedder helper error exceeds limit");
}

#[test]
fn embedding_frames_keep_the_model_and_component_bits() {
    let body = embedding_body("clip-b32", &[1.0, -0.5, 0.25]);
    let frame = decode_embedding(&body).expect("valid embedding");
    assert_eq!(frame.model_id, "clip-b32");
    assert_eq!(frame.vector_bits, vec![1.0f32.to_bits(), (-0.5f32).to_bits(), 0.25f32.to_bits()]);
}

#[test]
fn embedding_frames_refuse_bad_shapes() {
    assert_eq!(decode_embedding(&[1, 0, 0]).unwrap_err(), "short embedder helper embedding frame");
    let mut zero_model = embedding_body("m", &[1.0]);
    zero_model[0] = 0;
    assert_eq!(decode_embedding(&zero_model).unwrap_err(), "invalid embedder helper model length");
    let mut trailing = embedding_body("m", &[1.0]);
    trailing.push(0);
    assert_eq!(decode_embedding(&trailing).unwrap_err(), "invalid embedder helper vector length");
    let empty = embedding_body("m", &[]);
    assert_eq!(decode_embedding(&empty).unwrap_err(), "invalid embedder helper vector length");
    let mut bad_utf8 = embedding_body("mm", &[1.0]);
    bad_utf8[2] = 0xff;
    assert!(decode_embedding(&bad_utf8).is_err());
}

#[test]
fn text_requests_carry_the_bytes_and_refuse_oversized_text() {
    assert_eq!(text_request_body("héllo").unwrap(), "héllo".as_bytes().to_vec());
    let long = "a".repeat(MAX_TEXT_BYTES + 1);
    match text_request_body(&long) {
        Err(ConnectorFailure::Backend { status, message }) => {
            assert_eq!(status, 413);
            assert_eq!(message, "embedder text request exceeds protocol limit");
        }
        other => panic!("unexpected {other:?}"),
    }
}

#[test]
fn image_requests_prefix_dimensions_and_check_the_pixel_count() {
    let pixels = vec![7u8; 2 * 1 * 3];
    let body = image_request_body(2, 1, &pixels).unwrap();
    assert_eq!(&body[0..4], &[2, 0, 0, 0]);
    assert_eq!(&body[4..8], &[1, 0, 0, 0]);
    assert_eq!(&body[8..], &pixels[..]);
    match image_request_body(2, 2, &pixels) {
        Err(ConnectorFailure::Backend { status, message }) => {
            assert_eq!(status, 422);
            assert_eq!(message, "invalid embedder image payload");
        }
        other => panic!("unexpected {other:?}"),
    }
    assert!(image_request_body(0, 1, &[]).is_err());
}

#[test]
fn ready_payloads_are_checked_against_the_closed_vocabulary() {
    let ok = decode_ready_wire(&wire("clip-b32", 512, vec![session("cpu", "configured", &["CPU"])])).unwrap();
    assert_eq!(ok.model_id, "clip-b32");
    assert_eq!(ok.dims, 512);
    assert_eq!(ok.execution.sessions.len(), 1);
    assert_eq!(ok.execution.sessions[0].selected, ExecutionSelection::Cpu);
    assert_eq!(ok.execution.sessions[0].measurement, "configured");

    match decode_ready_wire(&wire("clip-b32", 512, vec![session("gpu", "configured", &["CPU"])])) {
        Err(ConnectorFailure::Decode(m)) => assert_eq!(m, "unknown helper execution selection gpu"),
        other => panic!("unexpected {other:?}"),
    }
    match decode_ready_wire(&wire("clip-b32", 512, vec![session("cpu", "configured", &["Metal"])])) {
        Err(ConnectorFailure::Decode(m)) => assert_eq!(m, "invalid helper requested provider list"),
        other => panic!("unexpected {other:?}"),
    }
    assert!(decode_ready_wire(&wire("clip-b32", 0, vec![])).is_err());
    assert!(decode_ready_wire(&wire("", 512, vec![])).is_err());
}

#[test]
fn first_frame_answers_ready_error_or_unexpected_opcode() {
    let ready = ready_response(RESP_READY, &[], Ok(wire("text-m", 384, vec![]))).unwrap();
    assert_eq!(ready.model_id, "text-m");
    match ready_response(RESP_ERROR, b"no model", Err("unused".into())) {
        Err(ConnectorFailure::Backend { status, message }) => {
            assert_eq!(status, 500);
            assert_eq!(message, "no model");
        }
        other => panic!("unexpected {other:?}"),
    }
    match ready_response(RESP_READY, &[], Err("bad json".into())) {
        Err(ConnectorFailure::Decode(m)) => assert_eq!(m, "bad json"),
        other => panic!("unexpected {other:?}"),
    }
    match ready_response(7, &[], Err("unused".into())) {
        Err(ConnectorFailure::Decode(m)) => assert_eq!(m, "expected helper ready frame, got opcode 7"),
        other => panic!("unexpected {other:?}"),
    }
}

#[test]
fn inference_allows_one_execution_update_before_the_embedding() {
    let mut execution = ModelExecution { model_id: "clip-b32".into(), sessions: vec![] };
    let update = Ok(wire("clip-b32", 512, vec![session("cuda", "profiled", &["CUDA", "CPU"])]));
    match rpc_response(&mut execution, 0, RESP_EXECUTION, &[], update) {
        RpcStep::ReadNext => {}
        other => panic!("unexpected {other:?}"),
    }
    assert_eq!(execution.sessions.len(), 1);
    assert_eq!(execution.sessions[0].selected, ExecutionSelection::Cuda);

    let again = Ok(wire("clip-b32", 512, vec![]));
    match rpc_response(&mut execution, 1, RESP_EXECUTION, &[], again) {
        RpcStep::Finish(Err(ConnectorFailure::Decode(m))) => {
            assert_eq!(m, "helper execution update had no terminal response")
        }
        other => panic!("unexpected {other:?}"),
    }

    let body = embedding_body("clip-b32", &[0.5]);
    match rpc_response(&mut execution, 1, RESP_EMBEDDING, &body, Err("unused".into())) {
        RpcStep::Finish(Ok(frame)) => assert_eq!(frame.vector_bits, vec![0.5f32.to_bits()]),
        other => panic!("unexpected {other:?}"),
    }
}

#[test]
fn inference_refuses_a_model_change_and_unknown_opcodes() {
    let mut execution = ModelExecution { model_id: "clip-b32".into(), sessions: vec![] };
    let other_model = Ok(wire("clip-l14", 768, vec![]));
    match rpc_response(&mut execution, 0, RESP_EXECUTION, &[], other_model) {
        RpcStep::Finish(Err(ConnectorFailure::Decode(m))) => {
            assert_eq!(m, "helper execution update changed model identity")
        }
        other => panic!("unexpected {other:?}"),
    }
    assert_eq!(execution.model_id, "clip-b32");
    match rpc_response(&mut execution, 0, 42, &[], Err("unused".into())) {
        RpcStep::Finish(Err(ConnectorFailure::Decode(m))) => assert_eq!(m, "unexpected helper response opcode 42"),
        other => panic!("unexpected {other:?}"),
    }
    match rpc_response(&mut execution, 0, RESP_ERROR, b"oom", Err("unused".into())) {
        RpcStep::Finish(Err(ConnectorFailure::Backend { status, message })) => {
            assert_eq!(status, 500);
            assert_eq!(message, "oom");
        }
        other => panic!("unexpected {other:?}"),
    }
}
