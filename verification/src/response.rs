//! What an entry point answers: the messages it asks the chain to run, in order,
//! and the attributes of the event it emits.
use vstd::prelude::*;

verus! {

/// A key-value pair of the emitted event.
#[derive(Clone, Debug, PartialEq)]
pub struct Attribute {
    pub key: String,
    pub value: String,
}

impl View for Attribute {
    type V = (Seq<char>, Seq<char>);

    open spec fn view(&self) -> (Seq<char>, Seq<char>) {
        (self.key@, self.value@)
    }
}

/// The answer of an entry point: the messages to run, in order, and the
/// attributes of the emitted event, in order.
#[derive(Clone, Debug, PartialEq)]
pub struct Response<M> {
    pub messages: Vec<M>,
    pub attributes: Vec<Attribute>,
}

impl<M> Response<M> {
    /// The attributes as key-value pairs of character sequences.
    pub open spec fn attribute_pairs(&self) -> Seq<(Seq<char>, Seq<char>)> {
        self.attributes@.map_values(|a: Attribute| a@)
    }

    /// A response with no message and no attribute.
    pub fn new() -> (res: Self)
        ensures
            res.messages@ == Seq::<M>::empty(),
            res.attribute_pairs() == Seq::<(Seq<char>, Seq<char>)>::empty(),
    {
        let res = Response { messages: Vec::new(), attributes: Vec::new() };
        assert(res.attribute_pairs() =~= Seq::<(Seq<char>, Seq<char>)>::empty());
        res
    }

    /// Appends the attribute `key = value`; the messages stay as they were.
    pub fn add_attribute(self, key: &str, value: String) -> (res: Self)
        ensures
            res.messages@ == self.messages@,
            res.attribute_pairs() == self.attribute_pairs().push((key@, value@)),
    {
        let Response { messages, mut attributes } = self;
        let ghost before = attributes@;
        attributes.push(Attribute { key: key.to_owned(), value });
        let res = Response { messages, attributes };
        assert(res.attribute_pairs() =~= before.map_values(|a: Attribute| a@).push((key@, value@)));
        res
    }

    /// Appends `msg` to the messages to run; the attributes stay as they were.
    pub fn add_message(self, msg: M) -> (res: Self)
        ensures
            res.messages@ == self.messages@.push(msg),
            res.attributes@ == self.attributes@,
    {
        let Response { mut messages, attributes } = self;
        messages.push(msg);
        Response { messages, attributes }
    }
}

} // verus!
