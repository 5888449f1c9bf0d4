//! Log-record formatting.
//!
//! One received message becomes one line of the log file:
//! `<timestamp>;<topic>;<payload>\n`. No escaping of `;` or newline inside
//! the topic or payload is performed; that is a deliberate limitation of the
//! format, kept as it is.

use vstd::prelude::*;

verus! {

/// The log line for one message: timestamp, topic and payload joined by `;`,
/// terminated by a newline.
pub open spec fn record_of(ts: Seq<char>, topic: Seq<char>, payload: Seq<char>) -> Seq<char> {
    ts + seq![';'] + topic + seq![';'] + payload + seq!['\n']
}

/// A well-formed timestamp text: non-empty and free of the record format's
/// two delimiter characters, so the timestamp field of a record ends at the
/// first `;` of the line.
pub open spec fn timestamp_wf(ts: Seq<char>) -> bool {
    &&& ts.len() > 0
    &&& forall|i: int| 0 <= i < ts.len() ==> ts[i] != ';' && ts[i] != '\n'
}

/// Builds the log line for one message from an already-rendered timestamp.
pub fn format_record(ts: &str, topic: &str, payload: &str) -> (r: String)
    ensures
        r@ == record_of(ts@, topic@, payload@),
{
    let mut r = ts.to_owned();
    r.append(";");
    r.append(topic);
    r.append(";");
    r.append(payload);
    r.append("\n");
    proof {
        reveal_strlit(";");
        reveal_strlit("\n");
        assert(";"@ =~= seq![';']);
        assert("\n"@ =~= seq!['\n']);
        assert(r@ =~= record_of(ts@, topic@, payload@));
    }
    r
}

/// The shape of a log line: it is exactly long enough for its three fields
/// and two `;` plus the final newline, the timestamp stands verbatim at the
/// front and — being well formed — ends at the line's first `;`, and the
/// line ends with the newline. (Topic and payload follow unescaped; a `;`
/// or newline inside them is the format's known limitation.)
pub proof fn lemma_record_shape(ts: Seq<char>, topic: Seq<char>, payload: Seq<char>)
    requires
        timestamp_wf(ts),
    ensures
        ({
            let r = record_of(ts, topic, payload);
            &&& r.len() == ts.len() + topic.len() + payload.len() + 3
            &&& r.subrange(0, ts.len() as int) =~= ts
            &&& r[ts.len() as int] == ';'
            &&& r[r.len() - 1] == '\n'
            &&& forall|i: int| 0 <= i < ts.len() ==> r[i] != ';'
        }),
{
    let r = record_of(ts, topic, payload);
    assert(r.subrange(0, ts.len() as int) =~= ts);
    assert(forall|i: int| 0 <= i < ts.len() ==> r[i] == ts[i]);
}

/// Relies on chrono: `Utc::now().to_rfc3339()` renders the current instant
/// as RFC 3339 text, built only from ASCII digits and the punctuation
/// `- T : . +`, so it is non-empty and never contains `;` or a newline.
/// The instant itself depends on the clock, so nothing more is stated.
#[verifier::external_body]
fn now_rfc3339() -> (r: String)
    ensures
        timestamp_wf(r@),
{
    chrono::Utc::now().to_rfc3339()
}

/// Builds the log line for one message, timestamped with the current time.
/// Whatever instant the clock reports, the line is the record of some
/// well-formed timestamp with exactly this topic and payload.
pub fn make_record(topic: &str, payload: &str) -> (r: String)
    ensures
        exists|ts: Seq<char>| timestamp_wf(ts) && r@ == record_of(ts, topic@, payload@),
{
    let ts = now_rfc3339();
    let r = format_record(ts.as_str(), topic, payload);
    proof {
        assert(timestamp_wf(ts@) && r@ == record_of(ts@, topic@, payload@));
    }
    r
}

} // verus!
