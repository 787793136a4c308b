//! Redaction: which transcript byte ranges a presentation discloses. The
//! shipped default discloses everything; a policy is the extension point for
//! partial disclosure.
use vstd::prelude::*;

verus! {

/// A half-open range of transcript bytes.
#[derive(Clone, Copy, PartialEq, Eq, Structural, Debug)]
pub struct ByteRange {
    pub start: usize,
    pub end: usize,
}

/// The byte ranges disclosed from the sent and received transcripts.
pub struct RedactionConfig {
    pub sent: Vec<ByteRange>,
    pub recv: Vec<ByteRange>,
}

/// Mathematical image of `RedactionConfig`.
pub struct RedactionConfigView {
    pub sent: Seq<ByteRange>,
    pub recv: Seq<ByteRange>,
}

impl View for RedactionConfig {
    type V = RedactionConfigView;

    open spec fn view(&self) -> RedactionConfigView {
        RedactionConfigView { sent: self.sent@, recv: self.recv@ }
    }
}

/// Every range lies within a transcript of the given length.
pub open spec fn ranges_wf(rs: Seq<ByteRange>, len: usize) -> bool {
    forall|i: int| 0 <= i < rs.len() ==> (#[trigger] rs[i]).start <= rs[i].end <= len
}

/// The one range disclosing a whole transcript of the given length.
pub open spec fn full_ranges(len: usize) -> Seq<ByteRange> {
    seq![(ByteRange { start: 0, end: len })]
}

/// The default redaction: disclose the entire sent and received transcripts.
pub fn no_redaction_config(sent_len: usize, recv_len: usize) -> (r: RedactionConfig)
    ensures
        r@.sent == full_ranges(sent_len),
        r@.recv == full_ranges(recv_len),
{
    let mut sent: Vec<ByteRange> = Vec::new();
    sent.push(ByteRange { start: 0, end: sent_len });
    let mut recv: Vec<ByteRange> = Vec::new();
    recv.push(ByteRange { start: 0, end: recv_len });
    proof {
        assert(sent@ =~= full_ranges(sent_len));
        assert(recv@ =~= full_ranges(recv_len));
    }
    RedactionConfig { sent, recv }
}

/// A pluggable capability selecting the disclosed byte ranges from the
/// transcript lengths.
pub trait RedactionPolicy {
    /// Chooses the disclosed ranges; each must lie within its transcript.
    fn redaction_for(&self, sent_len: usize, recv_len: usize) -> (r: RedactionConfig)
        ensures
            ranges_wf(r@.sent, sent_len),
            ranges_wf(r@.recv, recv_len),
    ;
}

/// The shipped default policy: disclose everything.
pub struct DiscloseAll;

impl RedactionPolicy for DiscloseAll {
    fn redaction_for(&self, sent_len: usize, recv_len: usize) -> (r: RedactionConfig)
        ensures
            r@.sent == full_ranges(sent_len),
            r@.recv == full_ranges(recv_len),
    {
        no_redaction_config(sent_len, recv_len)
    }
}

} // verus!
