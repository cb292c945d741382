use vstd::prelude::*;

verus! {

/// The routing key of a request: a human-readable name.
pub struct Event {
    pub name: String,
}

impl View for Event {
    type V = Seq<char>;

    open spec fn view(&self) -> Seq<char> {
        self.name@
    }
}

impl Event {
    pub fn new(name: String) -> (r: Event)
        ensures
            r@ == name@,
    {
        Event { name }
    }

    /// Whether two keys name the same event.
    pub fn same_as(&self, other: &Event) -> (r: bool)
        ensures
            r == (self@ == other@),
    {
        self.name == other.name
    }
}

/// The body of a request or of a successful response.
pub enum Payload {
    Empty,
    Bytes(Vec<u8>),
}

impl View for Payload {
    type V = Option<Seq<u8>>;

    open spec fn view(&self) -> Option<Seq<u8>> {
        match self {
            Payload::Empty => None,
            Payload::Bytes(b) => Some(b@),
        }
    }
}

impl Payload {
    pub fn duplicate(&self) -> (r: Payload)
        ensures
            r@ == self@,
    {
        match self {
            Payload::Empty => Payload::Empty,
            Payload::Bytes(b) => Payload::Bytes(b.clone()),
        }
    }
}

} // verus!
