use vstd::prelude::*;
use vstd::string::StringExecFns;

verus! {

/// What opens the message of a failed forward.
pub const FAILURE_PREFIX: &'static str = "Failed to send: ";

/// The outcome reported for one record.
pub enum Status {
    Success,
    Failure(String),
}

/// The acknowledgment of one record, tagged with the record's identifier.
pub struct Ack {
    pub id: String,
    pub status: Status,
}

/// An acknowledgment as values: the record's identifier, and `None` for
/// success or the failure message.
pub type AckModel = (Seq<char>, Option<Seq<char>>);

impl View for Ack {
    type V = AckModel;

    open spec fn view(&self) -> AckModel {
        (
            self.id@,
            match self.status {
                Status::Success => None,
                Status::Failure(m) => Some(m@),
            },
        )
    }
}

/// The views of a sequence of acknowledgments.
pub open spec fn acks_view(acks: Seq<Ack>) -> Seq<AckModel> {
    acks.map_values(|a: Ack| a@)
}

/// The message reported when the transport fails with `err`.
pub open spec fn failure_text(err: Seq<char>) -> Seq<char> {
    FAILURE_PREFIX@ + err
}

impl Ack {
    /// A success for the record `id`.
    pub fn ok(id: String) -> (r: Ack)
        ensures
            r@ == (id@, None::<Seq<char>>),
    {
        Ack { id, status: Status::Success }
    }

    /// A failure for the record `id` with the message `msg`.
    pub fn failure(id: String, msg: String) -> (r: Ack)
        ensures
            r@ == (id@, Some(msg@)),
    {
        Ack { id, status: Status::Failure(msg) }
    }

    pub fn is_success(&self) -> (r: bool)
        ensures
            r == (self@.1 is None),
    {
        match self.status {
            Status::Success => true,
            Status::Failure(_) => false,
        }
    }
}

/// The message for a transport error whose text is `err`.
pub fn failure_message(err: &str) -> (r: String)
    ensures
        r@ == failure_text(err@),
        r@.len() > 0,
{
    proof {
        reveal_strlit("Failed to send: ");
    }
    String::from_str(FAILURE_PREFIX).concat(err)
}

} // verus!
