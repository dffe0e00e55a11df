use photoproof_desktop::dto::{EmbedderSlot, EmbedderState};
use photoproof_desktop::embedders::{
    helper_args_failure, read_frame, validate_helper_args, write_frame, Attempt, ConnectorFailure, BuiltHelper, ClockReading, EmbedderBackend, EmbedderHost,
    FrameErrorKind, HostCommand, KnownModels, ModelExecution, ProcessPlan, Role, RuntimePlan, Slot,
    TextEmbedderBackend, MAX_FRAME_BYTES, OP_EMBED_TEXT,
};

fn run_plan(clip: Option<&str>, text: Option<&str>) -> RuntimePlan {
    let run = |id: Option<&str>| match id {
        Some(id) => ProcessPlan::Run { model_id: id.to_owned() },
        None => ProcessPlan::NotConfigured { reason: "test".into(), fixable_by_download: false },
    };
    RuntimePlan {
        effective_tier: 1,
        llm: run(None),
        asr: run(None),
        clip_embedder: run(clip),
        text_embedder: run(text),
    }
}

fn attempt(id: u64, model_id: &str, generation: u64) -> Attempt {
    Attempt {
        id,
        model_id: model_id.into(),
        generation,
        started_epoch_ms: 1_767_225_600_000,
        started_mono_ms: 0,
    }
}

fn known(clip: &[&str], text: &[&str]) -> KnownModels {
    KnownModels {
        clip: clip.iter().map(|s| s.to_string()).collect(),
        text: text.iter().map(|s| s.to_string()).collect(),
    }
}

fn at(mono_ms: u64) -> ClockReading {
    ClockReading { epoch_ms: 1_767_225_600_000 + mono_ms as i64, monotonic_ms: mono_ms }
}

fn dispatched(cmds: &[HostCommand], role: Role) -> Attempt {
    cmds.iter()
        .find_map(|c| match c {
            HostCommand::Dispatch { role: r, attempt } if *r == role => Some(attempt.clone_attempt()),
            _ => None,
        })
        .expect("dispatch command")
}

fn idle_slot(generation: u64) -> EmbedderSlot {
    EmbedderSlot {
        state: EmbedderState::Idle,
        attempt_id: None,
        model_id: None,
        generation,
        started_at: None,
        error: None,
        execution: None,
    }
}

#[test]
fn protocol_rejects_oversized_frames_before_body_allocation() {
    let mut bytes = Vec::new();
    bytes.extend_from_slice(b"PPE1");
    bytes.push(OP_EMBED_TEXT);
    bytes.extend_from_slice(&((MAX_FRAME_BYTES + 1) as u32).to_le_bytes());
    let error = read_frame(&bytes).unwrap_err();
    assert_eq!(error.kind(), FrameErrorKind::InvalidData);
}

#[test]
fn frames_round_trip_and_reject_a_bad_magic_or_short_body() {
    let bytes = write_frame(OP_EMBED_TEXT, b"hello").unwrap();
    assert_eq!(&bytes[..4], b"PPE1");
    assert_eq!(bytes[4], OP_EMBED_TEXT);
    assert_eq!(&bytes[5..9], &5u32.to_le_bytes());
    assert_eq!(read_frame(&bytes).unwrap(), (OP_EMBED_TEXT, b"hello".to_vec()));
    let mut bad = bytes.clone();
    bad[0] = b'X';
    assert_eq!(read_frame(&bad).unwrap_err().kind(), FrameErrorKind::InvalidData);
    assert_eq!(read_frame(&bytes[..7]).unwrap_err().kind(), FrameErrorKind::UnexpectedEof);
    assert_eq!(read_frame(&bytes[..bytes.len() - 1]).unwrap_err().kind(), FrameErrorKind::UnexpectedEof);
}

#[test]
fn fresh_host_is_degraded_and_idle() {
    let host = EmbedderHost::new();
    assert!(!host.text_ready());
    assert!(!host.clip_ready());
    let ids = host.ready_vector_identities();
    assert!(ids.text.is_none());
    assert!(ids.clip.is_none());
    let lines = host.debug_lines().join("\n");
    assert!(lines.contains("text-embedder: idle"));
    assert!(lines.contains("clip-embedder: idle"));
}

#[test]
fn slot_to_dto_maps_lifecycle_and_attempt_identity() {
    assert_eq!(Slot::Idle.to_dto(7), idle_slot(7));
    let active = attempt(4, "m", 8);
    assert_eq!(
        Slot::Building { attempt: active.clone_attempt() }.to_dto(8),
        EmbedderSlot {
            state: EmbedderState::Building,
            attempt_id: Some(4),
            model_id: Some("m".into()),
            generation: 8,
            started_at: Some("2026-01-01T00:00:00.000Z".into()),
            error: None,
            execution: None,
        }
    );
    let failed = Slot::Failed { attempt: active, msg: "ort load failed: boom".into() }.to_dto(8);
    assert_eq!(failed.state, EmbedderState::Failed);
    assert_eq!(failed.error.as_deref(), Some("ort load failed: boom"));
}

#[test]
fn fresh_host_slots_are_idle_no_error() {
    let host = EmbedderHost::new();
    assert_eq!(host.text_slot(), idle_slot(0));
    assert_eq!(host.clip_slot(), idle_slot(0));
}

#[test]
fn dispatch_failure_is_terminal_failed_and_does_not_poison_other_role() {
    let mut host = EmbedderHost::with_timeout(10_000);
    let cmds = host.apply(
        &run_plan(Some("clip-model"), Some("text-model")),
        EmbedderBackend::LocalOrt,
        TextEmbedderBackend::LocalOrt,
        &known(&["clip-model"], &["text-model"]),
        at(0),
    );
    let text_attempt = dispatched(&cmds, Role::Text);
    let clip_attempt = dispatched(&cmds, Role::Clip);
    assert!(host.fail_attempt(Role::Text, &text_attempt, "text embedder build dispatch failed: no worker".into()));

    let text = host.text_slot();
    assert_eq!(text.state, EmbedderState::Failed);
    assert!(text.error.as_deref().unwrap().contains("dispatch failed"));
    assert_eq!(text.model_id.as_deref(), Some("text-model"));
    assert_eq!(host.clip_slot().state, EmbedderState::Queued);

    assert!(host.begin_build(Role::Clip, &clip_attempt));
    assert!(host.land_build(Role::Clip, &clip_attempt, Err("no model files".into())));
    assert_eq!(host.clip_slot().state, EmbedderState::Failed);
    assert_eq!(host.text_slot().state, EmbedderState::Failed);
}

#[test]
fn queued_attempt_times_out_and_late_job_never_calls_native_builder() {
    let mut host = EmbedderHost::with_timeout(5_000);
    let cmds = host.apply(
        &run_plan(Some("clip-model"), None),
        EmbedderBackend::LocalOrt,
        TextEmbedderBackend::LocalOrt,
        &known(&["clip-model"], &[]),
        at(0),
    );
    let queued = host.clip_slot();
    assert_eq!(queued.state, EmbedderState::Queued);
    assert_eq!(queued.attempt_id, Some(1));
    assert_eq!(queued.model_id.as_deref(), Some("clip-model"));
    assert_eq!(queued.generation, 1);
    assert!(queued.started_at.is_some());

    host.expire_timed_out(6_000);
    let failed = host.clip_slot();
    assert_eq!(failed.state, EmbedderState::Failed);
    assert!(failed.error.as_deref().unwrap().contains("timed out"));
    assert_eq!(
        failed.error.as_deref(),
        Some("clip embedder build timed out after 5s; native build landing invalidated")
    );

    let late = dispatched(&cmds, Role::Clip);
    assert!(!host.begin_build(Role::Clip, &late), "the late job must not reach the native builder");
    assert_eq!(host.clip_slot().state, EmbedderState::Failed);
}

#[test]
fn plan_drop_invalidates_a_queued_attempt_before_native_build() {
    let mut host = EmbedderHost::with_timeout(10_000);
    let models = known(&["clip-model"], &[]);
    let cmds = host.apply(
        &run_plan(Some("clip-model"), None),
        EmbedderBackend::LocalOrt,
        TextEmbedderBackend::LocalOrt,
        &models,
        at(0),
    );
    assert_eq!(host.clip_slot().state, EmbedderState::Queued);
    host.apply(&run_plan(None, None), EmbedderBackend::LocalOrt, TextEmbedderBackend::LocalOrt, &models, at(1));
    assert_eq!(host.clip_slot().state, EmbedderState::Idle);

    let job = dispatched(&cmds, Role::Clip);
    assert!(!host.begin_build(Role::Clip, &job));
    assert_eq!(host.clip_slot().state, EmbedderState::Idle);
}

#[test]
fn shutdown_is_terminal_stopping_and_invalidates_queued_jobs() {
    let mut host = EmbedderHost::with_timeout(10_000);
    let cmds = host.apply(
        &run_plan(Some("clip-model"), None),
        EmbedderBackend::LocalOrt,
        TextEmbedderBackend::LocalOrt,
        &known(&["clip-model"], &[]),
        at(0),
    );
    host.shutdown();
    let stopped = host.clip_slot();
    assert_eq!(stopped.state, EmbedderState::Stopping);
    assert_eq!(stopped.model_id.as_deref(), Some("clip-model"));

    let job = dispatched(&cmds, Role::Clip);
    assert!(!host.begin_build(Role::Clip, &job));
    assert_eq!(host.clip_slot().state, EmbedderState::Stopping);
}

#[test]
fn unknown_model_id_fails_dark_never_panics() {
    let mut host = EmbedderHost::new();
    let cmds = host.apply(
        &run_plan(Some("not-a-clip"), Some("not-a-text")),
        EmbedderBackend::LocalOrt,
        TextEmbedderBackend::LocalOrt,
        &known(&[], &[]),
        at(0),
    );
    assert!(cmds.is_empty(), "nothing to dispatch for an unknown model");
    assert!(!host.text_ready());
    assert!(!host.clip_ready());
    let lines = host.debug_lines().join("\n");
    assert!(lines.contains("clip-embedder: FAILED"), "{lines}");
    assert!(lines.contains("text-embedder: FAILED"), "{lines}");
    let clip = host.clip_slot();
    assert_eq!(clip.state, EmbedderState::Failed);
    assert_eq!(clip.error.as_deref(), Some("no ort clip recipe for not-a-clip"));
    let text = host.text_slot();
    assert_eq!(text.state, EmbedderState::Failed);
    assert_eq!(text.error.as_deref(), Some("no ort text recipe for not-a-text"));
}

#[test]
fn dark_plan_and_remote_backend_stay_idle() {
    let mut host = EmbedderHost::new();
    let models = known(&["ViT-H-14-378-quickgelu__dfn5b"], &["embeddinggemma-300m-q8"]);
    host.apply(&run_plan(None, None), EmbedderBackend::LocalOrt, TextEmbedderBackend::LocalOrt, &models, at(0));
    assert!(host.debug_lines().join("\n").contains("text-embedder: idle"));

    let cmds = host.apply(
        &run_plan(Some("ViT-H-14-378-quickgelu__dfn5b"), Some("embeddinggemma-300m-q8")),
        EmbedderBackend::OpenaiCompatible,
        TextEmbedderBackend::OpenaiCompatible,
        &models,
        at(1),
    );
    assert!(cmds.is_empty());
    let lines = host.debug_lines().join("\n");
    assert!(lines.contains("clip-embedder: idle"), "{lines}");
    assert!(lines.contains("text-embedder: idle"), "{lines}");
}

#[test]
fn drop_to_idle_discards_a_stale_inflight_build() {
    let mut host = EmbedderHost::new();
    let models = known(&["ViT-H-14-378-quickgelu__dfn5b"], &[]);
    let cmds = host.apply(
        &run_plan(Some("ViT-H-14-378-quickgelu__dfn5b"), None),
        EmbedderBackend::LocalOrt,
        TextEmbedderBackend::LocalOrt,
        &models,
        at(0),
    );
    let in_flight = dispatched(&cmds, Role::Clip);
    assert!(host.begin_build(Role::Clip, &in_flight));
    let dispatch_gen = host.clip.generation;
    host.apply(&run_plan(None, None), EmbedderBackend::LocalOrt, TextEmbedderBackend::LocalOrt, &models, at(1));
    assert!(host.clip.generation > dispatch_gen);

    assert!(!host.land_build(Role::Clip, &in_flight, Err("stale".into())));
    assert!(!host.clip_ready());
    assert!(host.debug_lines().join("\n").contains("clip-embedder: idle"));
    let ready = BuiltHelper {
        model_id: "ViT-H-14-378-quickgelu__dfn5b".into(),
        dims: 1024,
        execution: ModelExecution { model_id: "ViT-H-14-378-quickgelu__dfn5b".into(), sessions: Vec::new() },
    };
    assert!(!host.land_build(Role::Clip, &in_flight, Ok(ready)));
    assert!(!host.clip_ready());
}

#[test]
fn a_current_build_lands_ready_and_is_reported_as_a_vector_writer() {
    let mut host = EmbedderHost::new();
    let cmds = host.apply(
        &run_plan(None, Some("embeddinggemma-300m-q8")),
        EmbedderBackend::LocalOrt,
        TextEmbedderBackend::LocalOrt,
        &known(&[], &["embeddinggemma-300m-q8"]),
        at(0),
    );
    let job = dispatched(&cmds, Role::Text);
    assert!(host.begin_build(Role::Text, &job));
    assert!(host.publish_helper(Role::Text, &job));
    let built = BuiltHelper {
        model_id: "embeddinggemma-300m-q8".into(),
        dims: 768,
        execution: ModelExecution { model_id: "embeddinggemma-300m-q8".into(), sessions: Vec::new() },
    };
    assert!(host.land_build(Role::Text, &job, Ok(built)));
    assert!(host.text_ready());
    assert!(host.model_in_use("embeddinggemma-300m-q8"));
    let ids = host.ready_vector_identities();
    assert_eq!(ids.text, Some(("embeddinggemma-300m-q8".to_string(), job.generation)));
    assert_eq!(host.text_slot().execution.map(|e| e.model_id), Some("embeddinggemma-300m-q8".to_string()));

    let reaped = host.cancel_model("embeddinggemma-300m-q8");
    assert!(matches!(reaped.as_slice(), [HostCommand::Terminate { role: Role::Text, generation }] if *generation == job.generation));
    assert_eq!(host.text_slot().state, EmbedderState::Idle);
    assert!(!host.model_in_use("embeddinggemma-300m-q8"));
}

#[test]
fn apply_after_shutdown_is_a_no_op() {
    let mut host = EmbedderHost::new();
    host.shutdown();
    let cmds = host.apply(
        &run_plan(Some("ViT-H-14-378-quickgelu__dfn5b"), Some("embeddinggemma-300m-q8")),
        EmbedderBackend::LocalOrt,
        TextEmbedderBackend::LocalOrt,
        &known(&["ViT-H-14-378-quickgelu__dfn5b"], &["embeddinggemma-300m-q8"]),
        at(0),
    );
    assert!(cmds.is_empty());
    let lines = host.debug_lines().join("\n");
    assert!(lines.contains("clip-embedder: stopping"), "{lines}");
    assert!(lines.contains("text-embedder: stopping"), "{lines}");
}

#[test]
fn explicit_restart_resets_only_failed_embedder_slots() {
    let mut host = EmbedderHost::new();
    host.text.slot = Slot::Failed {
        attempt: attempt(1, "embeddinggemma-300m-q8", 0),
        msg: "native load failed".into(),
    };
    host.clip.slot = Slot::Building { attempt: attempt(2, "ViT-H-14-378-quickgelu__dfn5b", 0) };
    let text_gen = host.text.generation;
    let clip_gen = host.clip.generation;

    host.retry_failed();

    assert!(matches!(host.text.slot, Slot::Idle));
    assert!(matches!(host.clip.slot, Slot::Building { .. }));
    assert_eq!(host.text.generation, text_gen + 1);
    assert_eq!(host.clip.generation, clip_gen);
}

#[test]
fn helper_arguments_are_checked_before_a_helper_starts() {
    assert!(helper_args_failure("dfn5b_v1.0", true, true, "/models").is_none());
    assert!(matches!(
        helper_args_failure("dfn5b", false, true, "/models"),
        Some(ConnectorFailure::Backend { status: 400, message }) if message == "invalid embedder helper model id"
    ));
    assert!(matches!(
        helper_args_failure("bad id!", true, true, "/models"),
        Some(ConnectorFailure::Backend { status: 400, .. })
    ));
    assert!(matches!(
        helper_args_failure("dfn5b", true, false, "models"),
        Some(ConnectorFailure::Backend { status: 400, message }) if message == "invalid embedder helper models directory"
    ));
    assert!(validate_helper_args("dfn5b", true, "/models").is_ok());
    assert!(validate_helper_args("dfn5b", true, "relative/models").is_err());
}
