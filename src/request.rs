//! The request that one trigger sends: its address and its payload.

use vstd::prelude::*;

use crate::data::{WebHookData, nonblocking_make_serde_value, payload_entries};

verus! {

/// The trigger address of an event for an account key. Neither part is
/// escaped: callers pass values that are safe as URL path segments.
pub open spec fn url_of(event_name: Seq<char>, api_key: Seq<char>) -> Seq<char> {
    "https://maker.ifttt.com/trigger/"@ + event_name + "/with/key/"@ + api_key
}

/// Builds the trigger address of `event_name` for the key `api_key`.
pub fn trigger_url(event_name: &str, api_key: &str) -> (r: String)
    ensures
        r@ == url_of(event_name@, api_key@),
{
    let mut url = String::from_str("https://maker.ifttt.com/trigger/");
    url.append(event_name);
    url.append("/with/key/");
    url.append(api_key);
    url
}

/// One POST to send: the address, and the JSON object's key/value pairs,
/// or `None` for a request with an empty body.
pub struct TriggerRequest {
    pub url: String,
    pub payload: Option<Vec<(String, String)>>,
}

/// The payload of a request as key/value sequences, if it has one.
pub open spec fn payload_of(data: Option<WebHookData>) -> Option<Seq<(Seq<char>, Seq<char>)>> {
    match data {
        Some(d) => Some(payload_entries(d)),
        None => None,
    }
}

impl TriggerRequest {
    /// The payload pairs, viewed as character sequences.
    pub open spec fn payload_view(&self) -> Option<Seq<(Seq<char>, Seq<char>)>> {
        match self.payload {
            Some(p) => Some(p.deep_view()),
            None => None,
        }
    }

    /// The request that triggers `event_name` for the key `api_key`,
    /// carrying `data` as a JSON object when it is given.
    pub fn new(api_key: &str, event_name: &str, data: Option<WebHookData>) -> (r: Self)
        ensures
            r.url@ == url_of(event_name@, api_key@),
            r.payload_view() == payload_of(data),
    {
        let url = trigger_url(event_name, api_key);
        let payload = match data {
            Some(d) => Some(nonblocking_make_serde_value(d)),
            None => None,
        };
        TriggerRequest { url, payload }
    }

    /// Whether the request is sent with a JSON body.
    pub fn has_body(&self) -> (r: bool)
        ensures
            r == (self.payload is Some),
    {
        self.payload.is_some()
    }
}

} // verus!
