//! What an operation answers: instructions to send and attributes to log.

use crate::msg::{PalomaMsg, PalomaMsgView};
use vstd::prelude::*;

verus! {

/// A key and a value, logged with the answer.
#[derive(Clone, Debug, PartialEq, Eq)]
pub struct Attribute {
    pub key: String,
    pub value: String,
}

/// The answer to an operation that succeeded.
#[derive(Clone, Debug, PartialEq)]
pub struct Response {
    /// The instructions to send, in order.
    pub messages: Vec<PalomaMsg>,
    /// The attributes to log, in order.
    pub attributes: Vec<Attribute>,
}

/// What a `Response` holds, as sequences; an attribute is a pair of key and
/// value.
pub struct ResponseView {
    pub messages: Seq<PalomaMsgView>,
    pub attributes: Seq<(Seq<char>, Seq<char>)>,
}

impl View for Response {
    type V = ResponseView;

    open spec fn view(&self) -> ResponseView {
        ResponseView {
            messages: self.messages@.map_values(|m: PalomaMsg| m@),
            attributes: self.attributes@.map_values(|a: Attribute| (a.key@, a.value@)),
        }
    }
}

impl Response {
    /// The answer without instructions and attributes.
    pub fn new() -> (response: Response)
        ensures
            response@ == (ResponseView { messages: seq![], attributes: seq![] }),
    {
        let response = Response { messages: Vec::new(), attributes: Vec::new() };
        assert(response@.messages =~= seq![]);
        assert(response@.attributes =~= seq![]);
        response
    }

    /// The answer with one more instruction at the end.
    pub fn add_message(self, msg: PalomaMsg) -> (response: Response)
        ensures
            response@ == (ResponseView { messages: self@.messages.push(msg@), ..self@ }),
    {
        let mut response = self;
        response.messages.push(msg);
        assert(response@.messages =~= self@.messages.push(msg@));
        response
    }

    /// The answer with one more attribute at the end.
    pub fn add_attribute(self, key: &str, value: &str) -> (response: Response)
        ensures
            response@ == (ResponseView {
                attributes: self@.attributes.push((key@, value@)),
                ..self@
            }),
    {
        let mut response = self;
        response.attributes.push(Attribute { key: key.to_owned(), value: value.to_owned() });
        assert(response@.attributes =~= self@.attributes.push((key@, value@)));
        response
    }
}

} // verus!
