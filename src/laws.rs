use vstd::prelude::*;

use crate::ack::failure_text;
use crate::config::SinkConfig;
use crate::headers::header_value;
use crate::request::{request_model, ID_HEADER, SAVE_SUFFIX};
use crate::sink::{ack_model, acks_owed, route, ForwardingSink, InboundRecord};

verus! {

/// A record without the callback-URL header yields no request, and its
/// acknowledgment is a success.
pub proof fn lemma_missing_callback_url_is_success(cfg: SinkConfig, rec: InboundRecord)
    requires
        header_value(rec.headers@, cfg.callback_url_key@) is None,
    ensures
        route(cfg, rec) is None,
        ack_model(rec, None) == (rec.id@, None::<Seq<char>>),
{
}

/// A record with the callback-URL header but without the correlation-ID header
/// yields no request, and its acknowledgment is a success.
pub proof fn lemma_missing_correlation_id_is_success(cfg: SinkConfig, rec: InboundRecord)
    requires
        header_value(rec.headers@, cfg.callback_url_key@) is Some,
        header_value(rec.headers@, cfg.message_id_key@) is None,
    ensures
        route(cfg, rec) is None,
        ack_model(rec, None) == (rec.id@, None::<Seq<char>>),
{
}

/// A record with both headers yields exactly one request: to the callback URL
/// with `_save` appended, carrying the payload, and the correlation ID under the
/// configured key and under `id`. When a response comes back, the record is
/// acknowledged as a success.
pub proof fn lemma_forwarded_record(cfg: SinkConfig, rec: InboundRecord, url: Seq<char>, cid: Seq<char>)
    requires
        header_value(rec.headers@, cfg.callback_url_key@) == Some(url),
        header_value(rec.headers@, cfg.message_id_key@) == Some(cid),
    ensures
        route(cfg, rec) == Some(request_model(url, cfg.message_id_key@, cid, rec.value@)),
        request_model(url, cfg.message_id_key@, cid, rec.value@) == (
            url + SAVE_SUFFIX@,
            seq![(cfg.message_id_key@, cid), (ID_HEADER@, cid)],
            rec.value@,
        ),
        ack_model(rec, Some(Ok(()))) == (rec.id@, None::<Seq<char>>),
{
}

/// A record with both headers whose request fails in transport is acknowledged
/// under its own identifier as a failure with a non-empty message.
pub proof fn lemma_failed_forward_is_failure(cfg: SinkConfig, rec: InboundRecord, err: Seq<char>)
    requires
        route(cfg, rec) is Some,
    ensures
        ack_model(rec, Some(Err(err))).0 == rec.id@,
        ack_model(rec, Some(Err(err))).1 == Some(failure_text(err)),
        failure_text(err).len() > 0,
{
    reveal_strlit("Failed to send: ");
}

/// Once no request is out, the sink holds exactly one acknowledgment per record
/// consumed, in the order the records were consumed.
pub proof fn lemma_one_ack_per_record(s: ForwardingSink)
    requires
        s.wf(),
        s.in_flight() is None,
    ensures
        s.acks().len() == s.completed().len(),
        forall|i: int| 0 <= i < s.acks().len() ==> (#[trigger] s.acks()[i]).0 == s.completed()[i].0.id@,
{
    assert(acks_owed(s.completed()).len() == s.completed().len());
    assert forall|i: int| 0 <= i < s.acks().len() implies (#[trigger] s.acks()[i]).0
        == s.completed()[i].0.id@ by {
        assert(acks_owed(s.completed())[i] == ack_model(s.completed()[i].0, s.completed()[i].1));
    }
}

} // verus!
