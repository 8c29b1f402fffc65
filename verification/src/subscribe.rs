use vstd::prelude::*;
use crate::state::{SharedData, StateView};
use crate::text::{spec_parse_u8, parse_u8, str_eq};

verus! {

/// Which of the two subscribed topics a message arrived on, if either.
#[derive(Clone, Copy, Debug, PartialEq, Eq, Structural)]
pub enum TopicKind {
    Count,
    Message,
    Other,
}

/// The topic carrying the attendance count as decimal text.
pub open spec fn spec_count_topic() -> Seq<char> {
    "revspace/doorduino/checked-in"@
}

/// The topic carrying the free-text status message.
pub open spec fn spec_message_topic() -> Seq<char> {
    "revspace/sting/samla"@
}

pub fn count_topic() -> (r: &'static str)
    ensures
        r@ == spec_count_topic(),
{
    "revspace/doorduino/checked-in"
}

pub fn message_topic() -> (r: &'static str)
    ensures
        r@ == spec_message_topic(),
{
    "revspace/sting/samla"
}

pub open spec fn spec_classify(topic: Seq<char>) -> TopicKind {
    if topic == spec_count_topic() {
        TopicKind::Count
    } else if topic == spec_message_topic() {
        TopicKind::Message
    } else {
        TopicKind::Other
    }
}

/// Decide which field, if any, a topic name addresses.
pub fn classify_topic(topic: &str) -> (r: TopicKind)
    ensures
        r == spec_classify(topic@),
{
    if str_eq(topic, count_topic()) {
        TopicKind::Count
    } else if str_eq(topic, message_topic()) {
        TopicKind::Message
    } else {
        TopicKind::Other
    }
}

/// Relies on core::str::from_utf8: it returns `Ok` exactly on valid UTF-8,
/// and the returned string's characters are the decoding of the bytes.
#[verifier::external_body]
fn utf8_to_string(payload: &[u8]) -> (r: Option<String>)
    ensures
        r is Some <==> vstd::utf8::valid_utf8(payload@),
        r is Some ==> r.unwrap()@ == vstd::utf8::decode_utf8(payload@),
{
    match core::str::from_utf8(payload) {
        Ok(s) => Some(s.to_string()),
        Err(_) => None,
    }
}

/// What a count-topic payload yields: the written number, provided the bytes
/// are valid UTF-8 spelling a decimal that fits in a `u8`; nothing otherwise.
pub open spec fn spec_decode_count(payload: Seq<u8>) -> Option<u8> {
    if vstd::utf8::valid_utf8(payload) {
        spec_parse_u8(vstd::utf8::decode_utf8(payload))
    } else {
        None
    }
}

/// Decode a count-topic payload: UTF-8 text spelling a decimal in 0..=255.
pub fn decode_count_payload(payload: &[u8]) -> (r: Option<u8>)
    ensures
        r == spec_decode_count(payload@),
{
    match utf8_to_string(payload) {
        Some(text) => parse_u8(text.as_str()),
        None => None,
    }
}

/// Decode a message-topic payload: any valid UTF-8 text, taken verbatim.
pub fn decode_message_payload(payload: &[u8]) -> (r: Option<String>)
    ensures
        r is Some <==> vstd::utf8::valid_utf8(payload@),
        r is Some ==> r.unwrap()@ == vstd::utf8::decode_utf8(payload@),
{
    utf8_to_string(payload)
}

/// The state after one decoded text arrives on a topic: a count-topic text
/// that parses overwrites the count, a message-topic text overwrites the
/// message, and everything else (unparsable counts, other topics) leaves
/// the state unchanged.
pub open spec fn spec_apply_text(s: StateView, topic: Seq<char>, text: Seq<char>) -> StateView {
    match spec_classify(topic) {
        TopicKind::Count => match spec_parse_u8(text) {
            Some(v) => StateView { n: v, msg: s.msg },
            None => s,
        },
        TopicKind::Message => StateView { n: s.n, msg: text },
        TopicKind::Other => s,
    }
}

/// Apply one decoded text to the state.
pub fn apply_text(state: &mut SharedData, topic: &str, text: String)
    ensures
        final(state)@ == spec_apply_text(old(state)@, topic@, text@),
{
    match classify_topic(topic) {
        TopicKind::Count => {
            match parse_u8(text.as_str()) {
                Some(v) => state.set_count(v),
                None => {},
            }
        },
        TopicKind::Message => state.set_message(text),
        TopicKind::Other => {},
    }
}

/// The state after one raw publish: its payload decoded as UTF-8 and applied,
/// with undecodable payloads discarded.
pub open spec fn spec_apply_publish(s: StateView, topic: Seq<char>, payload: Seq<u8>) -> StateView {
    if vstd::utf8::valid_utf8(payload) {
        spec_apply_text(s, topic, vstd::utf8::decode_utf8(payload))
    } else {
        s
    }
}

/// Apply one inbound publish to the state. Payloads that are not valid UTF-8,
/// count payloads that do not spell a decimal in 0..=255, and publishes on
/// unknown topics leave the state unchanged; nothing here fails.
pub fn apply_publish(state: &mut SharedData, topic: &str, payload: &[u8])
    ensures
        final(state)@ == spec_apply_publish(old(state)@, topic@, payload@),
{
    match utf8_to_string(payload) {
        Some(text) => apply_text(state, topic, text),
        None => {},
    }
}

/// The two topic names are distinct, so a publish addresses at most one field.
pub proof fn lemma_topics_distinct()
    ensures
        spec_count_topic() != spec_message_topic(),
{
    reveal_strlit("revspace/doorduino/checked-in");
    reveal_strlit("revspace/sting/samla");
    assert(spec_count_topic().len() == 29);
    assert(spec_message_topic().len() == 20);
}

/// On the count topic, a text spelling a decimal k in 0..=255 sets the count
/// to k and leaves the message; any other text leaves the state unchanged.
pub proof fn lemma_count_update(s: StateView, text: Seq<char>)
    ensures
        spec_parse_u8(text) matches Some(k) ==> spec_apply_text(s, spec_count_topic(), text)
            == (StateView { n: k, msg: s.msg }),
        spec_parse_u8(text) is None ==> spec_apply_text(s, spec_count_topic(), text) == s,
        spec_apply_text(s, spec_count_topic(), text).msg == s.msg,
{
}

/// On the message topic, any text becomes the message verbatim — the empty
/// text included — and the count stays.
pub proof fn lemma_message_update(s: StateView, text: Seq<char>)
    ensures
        spec_apply_text(s, spec_message_topic(), text) == (StateView { n: s.n, msg: text }),
{
    lemma_topics_distinct();
}

/// A publish on any topic other than the two subscribed ones leaves the
/// state unchanged.
pub proof fn lemma_other_topic(s: StateView, topic: Seq<char>, text: Seq<char>)
    requires
        spec_classify(topic) == TopicKind::Other,
    ensures
        spec_apply_text(s, topic, text) == s,
{
}

/// Applying the same decoded text twice leaves the same state as applying
/// it once.
pub proof fn lemma_apply_text_idempotent(s: StateView, topic: Seq<char>, text: Seq<char>)
    ensures
        spec_apply_text(spec_apply_text(s, topic, text), topic, text)
            == spec_apply_text(s, topic, text),
{
}

/// Applying the same publish twice leaves the same state as applying it once.
pub proof fn lemma_apply_publish_idempotent(s: StateView, topic: Seq<char>, payload: Seq<u8>)
    ensures
        spec_apply_publish(spec_apply_publish(s, topic, payload), topic, payload)
            == spec_apply_publish(s, topic, payload),
{
    lemma_apply_text_idempotent(s, topic, vstd::utf8::decode_utf8(payload));
}

/// The state after a whole sequence of publishes, applied in order.
pub open spec fn spec_apply_all(s: StateView, msgs: Seq<(Seq<char>, Seq<u8>)>) -> StateView
    decreases msgs.len(),
{
    if msgs.len() == 0 {
        s
    } else {
        spec_apply_publish(spec_apply_all(s, msgs.drop_last()), msgs.last().0, msgs.last().1)
    }
}

/// After any history of publishes followed by a count payload spelling k,
/// the count is k; the message is whatever the history left it.
pub proof fn lemma_count_publish_wins(
    s: StateView,
    history: Seq<(Seq<char>, Seq<u8>)>,
    payload: Seq<u8>,
)
    requires
        spec_decode_count(payload) is Some,
    ensures
        spec_apply_all(s, history.push((spec_count_topic(), payload))).n
            == spec_decode_count(payload).unwrap(),
        spec_apply_all(s, history.push((spec_count_topic(), payload))).msg
            == spec_apply_all(s, history).msg,
{
    let all = history.push((spec_count_topic(), payload));
    assert(all.drop_last() =~= history);
    lemma_count_update(spec_apply_all(s, history), vstd::utf8::decode_utf8(payload));
}

/// After any history of publishes, a count payload that does not spell a
/// decimal in 0..=255 leaves the state exactly as the history left it.
pub proof fn lemma_bad_count_publish_ignored(
    s: StateView,
    history: Seq<(Seq<char>, Seq<u8>)>,
    payload: Seq<u8>,
)
    requires
        spec_decode_count(payload) is None,
    ensures
        spec_apply_all(s, history.push((spec_count_topic(), payload)))
            == spec_apply_all(s, history),
{
    let all = history.push((spec_count_topic(), payload));
    assert(all.drop_last() =~= history);
    if vstd::utf8::valid_utf8(payload) {
        lemma_count_update(spec_apply_all(s, history), vstd::utf8::decode_utf8(payload));
    }
}

/// After any history of publishes followed by a UTF-8 message payload, the
/// message is exactly that text; the count is whatever the history left it.
pub proof fn lemma_message_publish_wins(
    s: StateView,
    history: Seq<(Seq<char>, Seq<u8>)>,
    payload: Seq<u8>,
)
    requires
        vstd::utf8::valid_utf8(payload),
    ensures
        spec_apply_all(s, history.push((spec_message_topic(), payload))).msg
            == vstd::utf8::decode_utf8(payload),
        spec_apply_all(s, history.push((spec_message_topic(), payload))).n
            == spec_apply_all(s, history).n,
{
    let all = history.push((spec_message_topic(), payload));
    assert(all.drop_last() =~= history);
    lemma_message_update(spec_apply_all(s, history), vstd::utf8::decode_utf8(payload));
}

} // verus!
