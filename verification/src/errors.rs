//! The failure taxonomy of the engine.
//!
//! Fetch and parse failures are confined to a single poll tick; delivery
//! failures are confined to a single notifier; configuration failures are
//! fatal and can only arise before any poll loop starts.

use vstd::prelude::*;

verus! {

/// One failure, tagged with the stage it arose in and a free-form message.
#[derive(Clone, Debug)]
pub enum Error {
    /// Transport failure or timeout while pulling items from a source.
    Fetch(String),
    /// Malformed upstream content while turning a feed into items.
    Parse(String),
    /// A notifier backend that stayed unusable after its own retry policy.
    Delivery(String),
    /// An invalid configuration, fatal at startup only.
    Config(String),
}

impl Error {
    /// The text of the message carried by the failure.
    pub open spec fn text(&self) -> Seq<char> {
        match *self {
            Error::Fetch(m) => m@,
            Error::Parse(m) => m@,
            Error::Delivery(m) => m@,
            Error::Config(m) => m@,
        }
    }

    /// The message carried by the failure.
    pub fn message(&self) -> (r: &String)
        ensures
            r@ == self.text(),
    {
        match self {
            Error::Fetch(m) => m,
            Error::Parse(m) => m,
            Error::Delivery(m) => m,
            Error::Config(m) => m,
        }
    }
}

} // verus!
