//! The value object that the relay disseminates: a named, immutable data
//! payload. Subscribers receive copies of the same occurrence and never
//! mutate it.

use vstd::prelude::*;

verus! {

/// Mathematical model of an [`Event`]: the two text fields as sequences of
/// characters.
#[verifier::ext_equal]
pub struct EventModel {
    pub name: Seq<char>,
    pub data: Seq<char>,
}

/// A named, immutable data payload. `name` is expected to be non-empty but
/// is not validated; `data` is arbitrary text.
#[derive(Debug, PartialEq, Eq)]
pub struct Event {
    pub name: String,
    pub data: String,
}

impl View for Event {
    type V = EventModel;

    open spec fn view(&self) -> EventModel {
        EventModel { name: self.name@, data: self.data@ }
    }
}

impl Clone for Event {
    fn clone(&self) -> (r: Self)
        ensures
            r@ == self@,
    {
        Event { name: self.name.clone(), data: self.data.clone() }
    }
}

impl Event {
    pub fn new(name: String, data: String) -> (e: Event)
        ensures
            e@.name == name@,
            e@.data == data@,
    {
        Event { name, data }
    }
}

} // verus!
