use vstd::prelude::*;
use vstd::string::StringExecFns;

use crate::envelope::Envelope;

verus! {

/// A key-value audit attribute emitted alongside a call's result.
pub struct Attribute {
    pub key: String,
    pub value: String,
}

/// The result of a successful operation: audit attributes, and messages
/// re-emitted for the host to execute.
pub struct Response {
    pub attributes: Vec<Attribute>,
    pub messages: Vec<Envelope>,
}

impl Response {
    /// An empty response: no attributes, no messages.
    pub fn new() -> (r: Response)
        ensures
            r.attributes@.len() == 0,
            r.messages@.len() == 0,
    {
        Response { attributes: Vec::new(), messages: Vec::new() }
    }

    /// Appends one audit attribute; everything else is unchanged.
    pub fn add_attribute(self, key: &str, value: &str) -> (r: Response)
        ensures
            r.messages@ == self.messages@,
            r.attributes@.len() == self.attributes@.len() + 1,
            forall|i: int|
                0 <= i < self.attributes@.len() ==> r.attributes@[i] == self.attributes@[i],
            r.attributes@.last().key@ == key@,
            r.attributes@.last().value@ == value@,
    {
        let mut r = self;
        r.attributes.push(Attribute { key: String::from_str(key), value: String::from_str(value) });
        r
    }

    /// Appends one message; everything else is unchanged.
    pub fn add_message(self, msg: Envelope) -> (r: Response)
        ensures
            r.attributes@ == self.attributes@,
            r.messages@ == self.messages@.push(msg),
    {
        let mut r = self;
        r.messages.push(msg);
        r
    }

    /// Appends the given messages, unmodified and in order; everything else
    /// is unchanged.
    pub fn add_messages(self, msgs: Vec<Envelope>) -> (r: Response)
        ensures
            r.attributes@ == self.attributes@,
            r.messages@ == self.messages@ + msgs@,
    {
        let mut r = self;
        let mut msgs = msgs;
        r.messages.append(&mut msgs);
        r
    }
}

} // verus!
