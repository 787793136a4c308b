//! The versioned wire envelope: a fixed-shape JSON object carrying the
//! hex-encoded presentation and the notary's display URL.
use vstd::prelude::*;
use vstd::string::StringExecFns;

use crate::hexcode::hex_encode;
use crate::hexcode::hex_encode_spec;
use crate::strutil::dec_str;
use crate::strutil::push_u16;
use crate::TLSN_VERSION;

verus! {

/// The notary display URL: `https://<host>:<port>`, a display convention
/// independent of the transport scheme actually used.
pub open spec fn notary_url_str(host: Seq<char>, port: u16) -> Seq<char> {
    "https://"@ + host + ":"@ + dec_str(port as nat)
}

/// The envelope text: one JSON object with the protocol version, the hex
/// data, and metadata naming the notary and reserving the websocket-proxy
/// field.
pub open spec fn envelope_json(version: Seq<char>, data: Seq<char>, notary_url: Seq<char>) -> Seq<
    char,
> {
    "{\"presentationJson\":{\"version\":\""@ + version + "\",\"data\":\""@ + data
        + "\",\"meta\":{\"notaryUrl\":\""@ + notary_url + "\",\"websocketProxyUrl\":\"\"}}}"@
}

/// Builds the JSON envelope around an already hex-encoded presentation.
pub fn to_json(encoded_presentation: &str, notary_host: &str, notary_port: u16) -> (r: String)
    ensures
        r@ == envelope_json(
            TLSN_VERSION@,
            encoded_presentation@,
            notary_url_str(notary_host@, notary_port),
        ),
{
    let mut r = String::from_str("{\"presentationJson\":{\"version\":\"");
    r.append(TLSN_VERSION);
    r.append("\",\"data\":\"");
    r.append(encoded_presentation);
    r.append("\",\"meta\":{\"notaryUrl\":\"");
    r.append("https://");
    r.append(notary_host);
    r.append(":");
    push_u16(&mut r, notary_port);
    r.append("\",\"websocketProxyUrl\":\"\"}}}");
    proof {
        assert(r@ =~= envelope_json(
            TLSN_VERSION@,
            encoded_presentation@,
            notary_url_str(notary_host@, notary_port),
        ));
    }
    r
}

/// Hex-encodes the serialized presentation and wraps it in the envelope.
pub fn encode_web_proof(presentation: &Vec<u8>, notary_host: &str, notary_port: u16) -> (r: String)
    ensures
        r@ == envelope_json(
            TLSN_VERSION@,
            hex_encode_spec(presentation@),
            notary_url_str(notary_host@, notary_port),
        ),
{
    let encoded = hex_encode(presentation);
    to_json(encoded.as_str(), notary_host, notary_port)
}

} // verus!
