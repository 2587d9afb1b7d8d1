//! What a contract call hands back: key-value attributes for observers, and
//! the messages to send on to the asset module.
use vstd::prelude::*;

verus! {

/// One key-value attribute of a response.
#[derive(Debug, Clone, PartialEq, Eq)]
pub struct Attribute {
    pub key: String,
    pub value: String,
}

/// The attributes and outbound messages of a successful call, in the order
/// they were added.
#[derive(Debug, Clone, PartialEq, Eq)]
pub struct Response<M> {
    pub attributes: Vec<Attribute>,
    pub messages: Vec<M>,
}

impl<M> Response<M> {
    /// The attributes as pairs of character sequences.
    pub open spec fn attrs(&self) -> Seq<(Seq<char>, Seq<char>)> {
        self.attributes@.map_values(|a: Attribute| (a.key@, a.value@))
    }

    /// A response with no attribute and no message.
    pub fn new() -> (r: Self)
        ensures
            r.attrs() == Seq::<(Seq<char>, Seq<char>)>::empty(),
            r.messages@ == Seq::<M>::empty(),
    {
        let r = Response { attributes: Vec::new(), messages: Vec::new() };
        assert(r.attrs() =~= Seq::<(Seq<char>, Seq<char>)>::empty());
        r
    }

    /// This response with one more attribute at the end.
    pub fn add_attribute(self, key: &str, value: String) -> (r: Self)
        ensures
            r.attrs() == self.attrs().push((key@, value@)),
            r.messages == self.messages,
    {
        let Response { mut attributes, messages } = self;
        attributes.push(Attribute { key: key.to_owned(), value });
        let r = Response { attributes, messages };
        assert(r.attrs() =~= self.attrs().push((key@, value@)));
        r
    }

    /// This response with one more outbound message at the end.
    pub fn add_message(self, msg: M) -> (r: Self)
        ensures
            r.attrs() == self.attrs(),
            r.messages@ == self.messages@.push(msg),
    {
        let Response { attributes, mut messages } = self;
        messages.push(msg);
        Response { attributes, messages }
    }
}

} // verus!
