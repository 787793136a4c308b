//! The proof-generation pipeline as a state machine: validate, then notarize,
//! then present, then encode. The external capabilities (notarize, present)
//! run outside this library; each step here decides, from the last state and
//! the capability's outcome, the next state and the next action. No stage
//! begins before its predecessor succeeds, and a capability failure aborts
//! the whole run with the error unmodified.
use vstd::prelude::*;
use vstd::string::StrSliceExecFns;
use vstd::string::StringExecFns;

use crate::envelope::encode_web_proof;
use crate::envelope::envelope_json;
use crate::envelope::notary_url_str;
use crate::hexcode::hex_encode_spec;
use crate::params::NotarizeParams;
use crate::redaction::full_ranges;
use crate::redaction::no_redaction_config;
use crate::redaction::RedactionConfig;
use crate::strutil::dec_str;
use crate::strutil::push_u16;
use crate::errors::InputError;
use crate::validate::convert_err_matches;
use crate::validate::convert_request_to_params;
use crate::validate::params_of;
use crate::validate::request_ok;
use crate::validate::WebProofRequest;
use crate::TLSN_VERSION;

verus! {

/// Where one proof-generation run stands.
pub enum PipelineState {
    /// Waiting for the notarize capability.
    Notarizing { notary_host: String, notary_port: u16 },
    /// Waiting for the presentation capability.
    Presenting { notary_host: String, notary_port: u16 },
    /// The run succeeded; the envelope is ready.
    Done { proof_json: String },
    /// The run failed; no proof is emitted.
    Failed { error: String },
}

/// What the capability last invoked reported.
pub enum PipelineEvent {
    /// Notarization succeeded; the transcript has these lengths.
    NotarizeOk { sent_len: usize, recv_len: usize },
    /// Notarization failed; the error passes through unmodified.
    NotarizeErr { error: String },
    /// The presentation was created and serialized to these bytes.
    PresentOk { presentation: Vec<u8> },
    /// Creating the presentation failed; the error passes through unmodified.
    PresentErr { error: String },
}

/// What the driver must do next.
pub enum PipelineAction {
    /// Invoke the notarize capability with these parameters.
    CallNotarize { params: NotarizeParams },
    /// Invoke the presentation capability with this redaction.
    CallPresent { redaction: RedactionConfig },
    /// Hand the finished envelope to the caller.
    Emit { proof_json: String },
    /// Stop; hand the error to the caller.
    Abort { error: String },
}

/// The events a state is waiting for.
pub open spec fn state_accepts(s: PipelineState, e: PipelineEvent) -> bool {
    match (s, e) {
        (PipelineState::Notarizing { .. }, PipelineEvent::NotarizeOk { .. }) => true,
        (PipelineState::Notarizing { .. }, PipelineEvent::NotarizeErr { .. }) => true,
        (PipelineState::Presenting { .. }, PipelineEvent::PresentOk { .. }) => true,
        (PipelineState::Presenting { .. }, PipelineEvent::PresentErr { .. }) => true,
        _ => false,
    }
}

/// Validates the request and opens a run. Only a request that passes
/// validation reaches the notarize capability: an invalid one fails here,
/// before any external call, with the rendered message of the first
/// validation failure.
pub fn pipeline_start(request: WebProofRequest) -> (r: (PipelineState, PipelineAction))
    ensures
        request_ok(request@) ==> ({
            &&& r.1 matches PipelineAction::CallNotarize { params }
            &&& params@ == params_of(request@)
            &&& r.0 matches PipelineState::Notarizing { notary_host, notary_port }
            &&& notary_host@ == params_of(request@).notary_config.host
            &&& notary_port == params_of(request@).notary_config.port
        }),
        !request_ok(request@) ==> ({
            &&& r.0 matches PipelineState::Failed { error }
            &&& r.1 matches PipelineAction::Abort { error: aborted }
            &&& error@ == aborted@
            &&& exists|e: InputError|
                #[trigger] convert_err_matches(request@, e) && error@ == e.message_spec()
        }),
        r.1 is CallNotarize <==> request_ok(request@),
{
    let ghost requested = request@;
    match convert_request_to_params(request) {
        Ok(params) => {
            let notary_host = params.notary_config.host.clone();
            let notary_port = params.notary_config.port;
            (
                PipelineState::Notarizing { notary_host, notary_port },
                PipelineAction::CallNotarize { params },
            )
        },
        Err(e) => {
            let error = e.message();
            proof {
                assert(convert_err_matches(requested, e) && error@ == e.message_spec());
            }
            (
                PipelineState::Failed { error: error.clone() },
                PipelineAction::Abort { error },
            )
        },
    }
}

/// Advances a run by one capability outcome.
///
/// Success after notarization yields the default disclose-all redaction and
/// asks for the presentation; success after presentation yields the finished
/// envelope; either failure aborts with the capability's error unmodified.
pub fn pipeline_step(state: PipelineState, event: PipelineEvent) -> (r: (
    PipelineState,
    PipelineAction,
))
    requires
        state_accepts(state, event),
    ensures
        (state matches PipelineState::Notarizing { notary_host, notary_port } ==> {
            &&& (event matches PipelineEvent::NotarizeOk { sent_len, recv_len } ==> {
                &&& r.0 == (PipelineState::Presenting { notary_host, notary_port })
                &&& r.1 matches PipelineAction::CallPresent { redaction }
                &&& redaction@.sent == full_ranges(sent_len)
                &&& redaction@.recv == full_ranges(recv_len)
            })
            &&& (event matches PipelineEvent::NotarizeErr { error } ==> {
                &&& r.0 == (PipelineState::Failed { error })
                &&& r.1 == (PipelineAction::Abort { error })
            })
        }),
        (state matches PipelineState::Presenting { notary_host, notary_port } ==> {
            &&& (event matches PipelineEvent::PresentOk { presentation } ==> {
                &&& r.0 matches PipelineState::Done { proof_json }
                &&& proof_json@ == envelope_json(
                    TLSN_VERSION@,
                    hex_encode_spec(presentation@),
                    notary_url_str(notary_host@, notary_port),
                )
                &&& r.1 matches PipelineAction::Emit { proof_json: emitted }
                &&& emitted@ == proof_json@
            })
            &&& (event matches PipelineEvent::PresentErr { error } ==> {
                &&& r.0 == (PipelineState::Failed { error })
                &&& r.1 == (PipelineAction::Abort { error })
            })
        }),
{
    match (state, event) {
        (
            PipelineState::Notarizing { notary_host, notary_port },
            PipelineEvent::NotarizeOk { sent_len, recv_len },
        ) => {
            let redaction = no_redaction_config(sent_len, recv_len);
            (
                PipelineState::Presenting { notary_host, notary_port },
                PipelineAction::CallPresent { redaction },
            )
        },
        (PipelineState::Notarizing { .. }, PipelineEvent::NotarizeErr { error }) => {
            (
                PipelineState::Failed { error: error.clone() },
                PipelineAction::Abort { error },
            )
        },
        (
            PipelineState::Presenting { notary_host, notary_port },
            PipelineEvent::PresentOk { presentation },
        ) => {
            let proof_json = encode_web_proof(&presentation, notary_host.as_str(), notary_port);
            (
                PipelineState::Done { proof_json: proof_json.clone() },
                PipelineAction::Emit { proof_json },
            )
        },
        (PipelineState::Presenting { .. }, PipelineEvent::PresentErr { error }) => {
            (
                PipelineState::Failed { error: error.clone() },
                PipelineAction::Abort { error },
            )
        },
        (_, _) => {
            (
                PipelineState::Failed { error: String::new() },
                PipelineAction::Abort { error: String::new() },
            )
        },
    }
}

/// The structured result the embedding boundary observes: a success flag and
/// exactly one of the proof data or the error text.
pub struct WebProofResponse {
    pub success: bool,
    pub data: Option<String>,
    pub error: Option<String>,
}

/// A response is well formed when exactly one of data and error is populated,
/// matching the flag.
pub open spec fn response_wf(r: WebProofResponse) -> bool {
    if r.success {
        r.data is Some && r.error is None
    } else {
        r.data is None && r.error is Some
    }
}

/// The fail-soft boundary: converts the outcome of a whole run into the
/// structured response. No error crosses this boundary unconverted.
pub fn web_proof_response(result: Result<String, String>) -> (r: WebProofResponse)
    ensures
        response_wf(r),
        result matches Ok(proof_json) ==> r.success && r.data == Some(proof_json),
        result matches Err(message) ==> !r.success && r.error == Some(message),
{
    match result {
        Ok(proof_json) => WebProofResponse { success: true, data: Some(proof_json), error: None },
        Err(message) => WebProofResponse { success: false, data: None, error: Some(message) },
    }
}

/// The `http://<host>:<port>` notary URL the convenience entry point builds.
pub open spec fn simple_notary_url(host: Seq<char>, port: u16) -> Seq<char> {
    "http://"@ + host + ":"@ + dec_str(port as nat)
}

/// The request the convenience entry point submits: the URL alone, every
/// optional field empty, and the notary reached as `http://<host>:<port>`.
pub fn simple_web_proof_request(notary_host: &str, notary_port: u16, url: &str) -> (r:
    WebProofRequest)
    ensures
        r@.url == url@,
        r@.notary == Some(simple_notary_url(notary_host@, notary_port)),
        r@.host is None,
        r@.method is None,
        r@.headers == Seq::<Seq<char>>::empty(),
        r@.data is None,
        r@.max_sent_data is None,
        r@.max_recv_data is None,
{
    let mut notary = String::from_str("http://");
    notary.append(notary_host);
    notary.append(":");
    push_u16(&mut notary, notary_port);
    proof {
        assert(notary@ =~= simple_notary_url(notary_host@, notary_port));
    }
    let r = WebProofRequest {
        url: String::from_str(url),
        host: None,
        notary: Some(notary),
        method: None,
        headers: Vec::new(),
        data: None,
        max_sent_data: None,
        max_recv_data: None,
    };
    proof {
        assert(r@.headers =~= Seq::<Seq<char>>::empty());
    }
    r
}

} // verus!
