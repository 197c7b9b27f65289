use vstd::prelude::*;
use vstd::string::StringExecFns;

verus! {

/// The header that carries the callback URL when no other key is configured.
pub const DEFAULT_CALLBACK_URL_HEADER: &'static str = "X-Numaflow-Callback-Url";

/// The header that carries the correlation ID when no other key is configured.
pub const DEFAULT_MESSAGE_ID_HEADER: &'static str = "X-Numaflow-Id";

/// The two header names the sink reads from each record. Fixed for the life of
/// a sink.
pub struct SinkConfig {
    pub callback_url_key: String,
    pub message_id_key: String,
}

impl SinkConfig {
    /// Takes each key as supplied, or its default where none is.
    pub fn new(callback_url_key: Option<String>, message_id_key: Option<String>) -> (r: SinkConfig)
        ensures
            r.callback_url_key@ == match callback_url_key {
                Some(k) => k@,
                None => DEFAULT_CALLBACK_URL_HEADER@,
            },
            r.message_id_key@ == match message_id_key {
                Some(k) => k@,
                None => DEFAULT_MESSAGE_ID_HEADER@,
            },
    {
        let callback_url_key = match callback_url_key {
            Some(k) => k,
            None => String::from_str(DEFAULT_CALLBACK_URL_HEADER),
        };
        let message_id_key = match message_id_key {
            Some(k) => k,
            None => String::from_str(DEFAULT_MESSAGE_ID_HEADER),
        };
        SinkConfig { callback_url_key, message_id_key }
    }
}

} // verus!
