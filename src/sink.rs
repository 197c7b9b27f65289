use vstd::prelude::*;

use crate::ack::{acks_view, failure_message, failure_text, Ack, AckModel};
use crate::config::SinkConfig;
use crate::headers::{resolution, resolve, Header};
use crate::request::{build_request, request_model, OutboundRequest, RequestModel};

verus! {

/// A record handed to the sink: its identifier, its headers and its payload.
pub struct InboundRecord {
    pub id: String,
    pub headers: Vec<Header>,
    pub value: Vec<u8>,
}

impl InboundRecord {
    pub fn new(id: String, headers: Vec<Header>, value: Vec<u8>) -> (r: InboundRecord)
        ensures
            r.id@ == id@,
            r.headers@ == headers@,
            r.value@ == value@,
    {
        InboundRecord { id, headers, value }
    }
}

/// How the forward of a record went: `None` when no request was sent for it,
/// `Some(Ok(()))` when a response came back, whatever its status, and
/// `Some(Err(e))` when the transport failed with the text `e`.
pub type Delivery = Option<Result<(), Seq<char>>>;

/// The request owed for `rec` under `cfg`, or `None` when the record lacks the
/// callback URL or the correlation ID.
pub open spec fn route(cfg: SinkConfig, rec: InboundRecord) -> Option<RequestModel> {
    match resolution(rec.headers@, cfg.callback_url_key@, cfg.message_id_key@) {
        Err(_) => None,
        Ok((url, cid)) => Some(request_model(url, cfg.message_id_key@, cid, rec.value@)),
    }
}

/// The acknowledgment owed for `rec` once its delivery is known.
pub open spec fn ack_model(rec: InboundRecord, delivery: Delivery) -> AckModel {
    match delivery {
        Some(Err(e)) => (rec.id@, Some(failure_text(e))),
        _ => (rec.id@, None),
    }
}

/// The view of what the transport reported.
pub open spec fn outcome_view(outcome: Result<(), String>) -> Result<(), Seq<char>> {
    match outcome {
        Ok(()) => Ok(()),
        Err(e) => Err(e@),
    }
}

/// The acknowledgments owed for a log of completed records, in its order.
pub open spec fn acks_owed(log: Seq<(InboundRecord, Delivery)>) -> Seq<AckModel> {
    log.map_values(|d: (InboundRecord, Delivery)| ack_model(d.0, d.1))
}

/// The forwarding sink. It takes records one at a time: a record either is
/// acknowledged at once, or yields a request that the caller sends and whose
/// outcome it reports back before the next record.
pub struct ForwardingSink {
    config: SinkConfig,
    acks: Vec<Ack>,
    in_flight: Option<String>,
    log: Ghost<Seq<(InboundRecord, Delivery)>>,
    current: Ghost<Option<InboundRecord>>,
}

impl ForwardingSink {
    /// The header keys the sink reads.
    pub closed spec fn config(&self) -> SinkConfig {
        self.config
    }

    /// The acknowledgments made so far, in order.
    pub closed spec fn acks(&self) -> Seq<AckModel> {
        acks_view(self.acks@)
    }

    /// The records acknowledged so far, in the order they were consumed, each
    /// with its delivery.
    pub closed spec fn completed(&self) -> Seq<(InboundRecord, Delivery)> {
        self.log@
    }

    /// The record whose request is out, awaiting its outcome.
    pub closed spec fn in_flight(&self) -> Option<InboundRecord> {
        self.current@
    }

    /// The identifier kept for the record in flight is that record's own.
    pub closed spec fn id_matches(&self) -> bool {
        match self.in_flight {
            Some(id) => self.current@ matches Some(rec) && id@ == rec.id@,
            None => self.current@ is None,
        }
    }

    /// Each acknowledgment is the one owed for its record; a request was sent
    /// for a record exactly when it carried both headers.
    pub open spec fn wf(&self) -> bool {
        &&& self.acks() == acks_owed(self.completed())
        &&& forall|i: int|
            0 <= i < self.completed().len() ==> ((#[trigger] self.completed()[i]).1 is None <==> route(
                self.config(),
                self.completed()[i].0,
            ) is None)
        &&& self.in_flight() matches Some(rec) ==> route(self.config(), rec) is Some
        &&& self.id_matches()
    }

    pub fn new(config: SinkConfig) -> (r: ForwardingSink)
        ensures
            r.wf(),
            r.config() == config,
            r.completed().len() == 0,
            r.in_flight() is None,
    {
        let r = ForwardingSink {
            config,
            acks: Vec::new(),
            in_flight: None,
            log: Ghost(Seq::empty()),
            current: Ghost(None),
        };
        assert(r.acks() =~= acks_owed(r.completed()));
        r
    }

    /// Whether a request is out and its outcome is awaited.
    pub fn awaiting_outcome(&self) -> (r: bool)
        requires
            self.wf(),
        ensures
            r == (self.in_flight() is Some),
    {
        self.in_flight.is_some()
    }

    /// Consumes one record. Where the record lacks the callback URL or the
    /// correlation ID, it is acknowledged as a success and nothing is to be
    /// sent. Otherwise the request to send is returned, and the record waits
    /// for `on_outcome`.
    pub fn on_record(&mut self, record: InboundRecord) -> (r: Option<OutboundRequest>)
        requires
            old(self).wf(),
            old(self).in_flight() is None,
        ensures
            final(self).wf(),
            final(self).config() == old(self).config(),
            match route(old(self).config(), record) {
                None => {
                    &&& r is None
                    &&& final(self).completed() == old(self).completed().push((record, None))
                    &&& final(self).acks() == old(self).acks().push((record.id@, None))
                    &&& final(self).in_flight() is None
                },
                Some(req) => {
                    &&& r matches Some(q) && q@ == req
                    &&& final(self).completed() == old(self).completed()
                    &&& final(self).acks() == old(self).acks()
                    &&& final(self).in_flight() == Some(record)
                },
            },
    {
        let ghost rec = record;
        let ghost old_acks = self.acks@;
        let ghost old_log = self.log@;
        match resolve(&record.headers, &self.config.callback_url_key, &self.config.message_id_key) {
            Err(_) => {
                self.acks.push(Ack::ok(record.id));
                self.log = Ghost(old_log.push((rec, None)));
                assert(acks_view(self.acks@) =~= acks_view(old_acks).push((rec.id@, None)));
                assert(acks_owed(self.log@) =~= acks_owed(old_log).push(ack_model(rec, None)));
                assert forall|i: int| 0 <= i < self.log@.len() implies ((#[trigger] self.log@[i]).1 is None
                    <==> route(self.config, self.log@[i].0) is None) by {
                    if i < old_log.len() {
                        assert(self.log@[i] == old_log[i]);
                    }
                }
                None
            },
            Ok((url, cid)) => {
                let req = build_request(&url, &self.config.message_id_key, &cid, record.value);
                self.in_flight = Some(record.id);
                self.current = Ghost(Some(rec));
                Some(req)
            },
        }
    }

    /// Takes the outcome of the request that is out: any response is a
    /// success, a transport error a failure whose message carries its text.
    pub fn on_outcome(&mut self, outcome: Result<(), String>)
        requires
            old(self).wf(),
            old(self).in_flight() is Some,
        ensures
            final(self).wf(),
            final(self).config() == old(self).config(),
            final(self).in_flight() is None,
            final(self).completed() == old(self).completed().push(
                (old(self).in_flight()->0, Some(outcome_view(outcome))),
            ),
            final(self).acks() == old(self).acks().push(
                ack_model(old(self).in_flight()->0, Some(outcome_view(outcome))),
            ),
    {
        let ghost rec = self.current@->0;
        let ghost old_acks = self.acks@;
        let ghost old_log = self.log@;
        let ghost d: Delivery = Some(outcome_view(outcome));
        let id = match self.in_flight.take() {
            Some(id) => id,
            None => {
                proof {
                    assert(false);
                }
                String::new()
            },
        };
        let ack = match outcome {
            Ok(()) => Ack::ok(id),
            Err(e) => Ack::failure(id, failure_message(e.as_str())),
        };
        self.acks.push(ack);
        self.log = Ghost(old_log.push((rec, d)));
        self.current = Ghost(None);
        assert(acks_view(self.acks@) =~= acks_view(old_acks).push(ack_model(rec, d)));
        assert(acks_owed(self.log@) =~= acks_owed(old_log).push(ack_model(rec, d)));
        assert forall|i: int| 0 <= i < self.log@.len() implies ((#[trigger] self.log@[i]).1 is None
            <==> route(self.config, self.log@[i].0) is None) by {
            if i < old_log.len() {
                assert(self.log@[i] == old_log[i]);
            }
        }
    }

    /// Ends the stream and hands over the acknowledgments, one per record
    /// consumed, in the order of consumption.
    pub fn finish(self) -> (r: Vec<Ack>)
        requires
            self.wf(),
            self.in_flight() is None,
        ensures
            acks_view(r@) == acks_owed(self.completed()),
            r@.len() == self.completed().len(),
            forall|i: int|
                0 <= i < r@.len() ==> (#[trigger] r@[i])@ == ack_model(
                    self.completed()[i].0,
                    self.completed()[i].1,
                ),
            forall|i: int| 0 <= i < r@.len() ==> (#[trigger] r@[i]).id@ == self.completed()[i].0.id@,
    {
        let r = self.acks;
        proof {
            assert(acks_view(r@).len() == r@.len());
            assert(acks_owed(self.completed()).len() == self.completed().len());
            assert forall|i: int| 0 <= i < r@.len() implies (#[trigger] r@[i])@ == ack_model(
                self.completed()[i].0,
                self.completed()[i].1,
            ) by {
                assert(acks_view(r@)[i] == r@[i]@);
                assert(acks_owed(self.completed())[i] == ack_model(
                    self.completed()[i].0,
                    self.completed()[i].1,
                ));
            }
            assert forall|i: int| 0 <= i < r@.len() implies (#[trigger] r@[i]).id@
                == self.completed()[i].0.id@ by {
                assert(acks_view(r@)[i] == r@[i]@);
                assert(acks_owed(self.completed())[i] == ack_model(
                    self.completed()[i].0,
                    self.completed()[i].1,
                ));
            }
        }
        r
    }
}

} // verus!
