use webproof::params::NotaryConfigBuilder;
use webproof::params::NotarizeParamsBuilder;
use webproof::errors::NotarizeParamsBuilderError;
use webproof::envelope::to_json;
use webproof::pipeline::pipeline_start;
use webproof::pipeline::pipeline_step;
use webproof::pipeline::simple_web_proof_request;
use webproof::pipeline::web_proof_response;
use webproof::pipeline::PipelineAction;
use webproof::pipeline::PipelineEvent;
use webproof::pipeline::PipelineState;
use webproof::redaction::no_redaction_config;
use webproof::redaction::DiscloseAll;
use webproof::redaction::RedactionPolicy;
use webproof::validate::WebProofRequest;
use webproof::TLSN_VERSION;

#[test]
fn test_to_json_structure() {
    let json_str = to_json("48656c6c6f20576f726c64", "127.0.0.1", 7047);
    let json: serde_json::Value = serde_json::from_str(&json_str).unwrap();

    assert!(json.is_object());
    assert_eq!(json["presentationJson"]["version"], TLSN_VERSION);
    assert_eq!(json["presentationJson"]["data"], "48656c6c6f20576f726c64");
    assert_eq!(json["presentationJson"]["meta"]["notaryUrl"], "https://127.0.0.1:7047");
    assert_eq!(json["presentationJson"]["meta"]["websocketProxyUrl"], "");
}

#[test]
fn full_run_with_default_notary() {
    let request = WebProofRequest {
        url: "https://lotr-api.online/auth_header_require".to_string(),
        host: None,
        notary: None,
        method: None,
        headers: vec!["Authorization: s3cret_t0ken".to_string()],
        data: None,
        max_sent_data: None,
        max_recv_data: None,
    };
    let (state, action) = pipeline_start(request);
    let params = match action {
        PipelineAction::CallNotarize { params } => params,
        _ => panic!("a valid request must reach the notarize capability"),
    };
    assert_eq!(params.headers, vec![("Authorization".to_string(), "s3cret_t0ken".to_string())]);
    assert_eq!(params.server_domain, "lotr-api.online");
    assert_eq!(params.uri, "/auth_header_require");

    let (state, action) = pipeline_step(state, PipelineEvent::NotarizeOk { sent_len: 120, recv_len: 300 });
    let redaction = match action {
        PipelineAction::CallPresent { redaction } => redaction,
        _ => panic!("notarization success must reach the presentation capability"),
    };
    assert_eq!(redaction.sent.len(), 1);
    assert_eq!((redaction.sent[0].start, redaction.sent[0].end), (0, 120));
    assert_eq!((redaction.recv[0].start, redaction.recv[0].end), (0, 300));

    let presentation: Vec<u8> = vec![0x01, 0x02, 0xab];
    let (state, action) = pipeline_step(state, PipelineEvent::PresentOk { presentation: presentation.clone() });
    let proof_json = match action {
        PipelineAction::Emit { proof_json } => proof_json,
        _ => panic!("presentation success must emit the envelope"),
    };
    assert!(matches!(state, PipelineState::Done { .. }));

    let json: serde_json::Value = serde_json::from_str(&proof_json).unwrap();
    assert_eq!(json["presentationJson"]["version"], TLSN_VERSION);
    assert_eq!(json["presentationJson"]["data"], hex::encode(&presentation));
    assert!(!json["presentationJson"]["data"].as_str().unwrap().is_empty());
    assert_eq!(
        json["presentationJson"]["meta"]["notaryUrl"],
        "https://test-notary.vlayer.xyz:443"
    );
}

#[test]
fn invalid_url_yields_structured_failure() {
    let request = WebProofRequest {
        url: "not a url".to_string(),
        host: None,
        notary: None,
        method: None,
        headers: vec![],
        data: None,
        max_sent_data: None,
        max_recv_data: None,
    };
    let (state, action) = pipeline_start(request);
    assert!(matches!(state, PipelineState::Failed { .. }));
    let error = match action {
        PipelineAction::Abort { error } => error,
        _ => panic!("an invalid request must abort"),
    };
    assert!(error.contains("not a url"));
    let response = web_proof_response(Err(error));
    assert!(!response.success);
    assert!(response.data.is_none());
    assert!(response.error.unwrap().contains("not a url"));
}

#[test]
fn bad_header_aborts_before_any_capability_call() {
    // The one entry to any external capability is a CallNotarize action, and
    // none is emitted here.
    let request = WebProofRequest {
        url: "https://example.com/".to_string(),
        host: None,
        notary: None,
        method: None,
        headers: vec!["BadHeader".to_string()],
        data: None,
        max_sent_data: None,
        max_recv_data: None,
    };
    let mut capability_calls: usize = 0;
    let (state, action) = pipeline_start(request);
    if let PipelineAction::CallNotarize { .. } = &action {
        capability_calls += 1;
    }
    assert!(matches!(state, PipelineState::Failed { .. }));
    assert_eq!(capability_calls, 0);
    match action {
        PipelineAction::Abort { error } => assert!(error.contains("BadHeader")),
        _ => panic!("a bad header must abort the run"),
    }
}

#[test]
fn capability_errors_propagate_unmodified() {
    let state = PipelineState::Notarizing {
        notary_host: "n.example".to_string(),
        notary_port: 7047,
    };
    let (state, action) = pipeline_step(
        state,
        PipelineEvent::NotarizeErr { error: "connection refused".to_string() },
    );
    assert!(matches!(state, PipelineState::Failed { .. }));
    match action {
        PipelineAction::Abort { error } => assert_eq!(error, "connection refused"),
        _ => panic!("a notarize failure must abort"),
    }
}

#[test]
fn success_response_carries_data_only() {
    let response = web_proof_response(Ok("{}".to_string()));
    assert!(response.success);
    assert_eq!(response.data.unwrap(), "{}");
    assert!(response.error.is_none());
}

#[test]
fn simple_request_builds_http_notary_url() {
    let r = simple_web_proof_request("127.0.0.1", 7047, "https://example.com/");
    assert_eq!(r.url, "https://example.com/");
    assert_eq!(r.notary.unwrap(), "http://127.0.0.1:7047");
    assert!(r.host.is_none());
    assert!(r.method.is_none());
    assert!(r.headers.is_empty());
    assert!(r.data.is_none());
    assert!(r.max_sent_data.is_none());
    assert!(r.max_recv_data.is_none());
}

#[test]
fn disclose_all_policy_covers_whole_transcript() {
    let c = DiscloseAll.redaction_for(11, 3);
    assert_eq!(c.sent.len(), 1);
    assert_eq!((c.sent[0].start, c.sent[0].end), (0, 11));
    assert_eq!((c.recv[0].start, c.recv[0].end), (0, 3));
}

#[test]
fn disclose_all_covers_whole_transcript() {
    let c = no_redaction_config(7, 0);
    assert_eq!(c.sent.len(), 1);
    assert_eq!((c.sent[0].start, c.sent[0].end), (0, 7));
    assert_eq!((c.recv[0].start, c.recv[0].end), (0, 0));
}

#[test]
fn builder_reports_first_missing_field() {
    let r = NotarizeParamsBuilder::default().build();
    match r {
        Err(NotarizeParamsBuilderError::UninitializedField(f)) => assert_eq!(f, "notary_config"),
        _ => panic!("an empty builder must fail on the first missing field"),
    }
}

#[test]
fn notary_config_builder_completes() {
    let c = NotaryConfigBuilder::default()
        .host("n.example".to_string())
        .port(7047)
        .path_prefix("".to_string())
        .enable_tls(true)
        .build()
        .unwrap();
    assert_eq!(c.host, "n.example");
    assert_eq!(c.port, 7047);
    assert!(c.enable_tls);
}
