//! The SpaceAPI: what a hackerspace says of itself.
//!
//! A [`Status`] holds the fields of the schema in its versions 0.13 and 0.14.
//! A [`StatusBuilder`] takes them one by one and, when asked to build, holds
//! them to the rules of one version: it gives a status that meets them all, or
//! names the first rule that is violated. Custom fields stand beside those of
//! the schema under names that begin with `ext_`, each name once, in the order
//! of the names.
//!
//! Every type of the schema is written into a document tree, a
//! [`Value`](value::Value), and read back from one ([`Codec`]). A field that is
//! not set is left out of the tree, and what was written is read back as it
//! was. Turning a tree into text and text into a tree is left to a JSON
//! library.
//!
//! Numbers with a fraction are held as the bit pattern of a binary64 number
//! ([`Double`](number::Double)).

use vstd::prelude::*;

pub mod builder;
pub mod codec;
pub mod contact;
pub mod extensions;
pub mod features;
pub mod location;
pub mod number;
pub mod optional;
pub mod sensors;
pub mod state;
pub mod status;
pub mod text;
pub mod utils;
pub mod value;

pub use crate::builder::{StatusBuilder, StatusBuilderVersion, Violation};
pub use crate::codec::{Codec, DecodeError};
pub use crate::contact::{Contact, GoogleContact, Keymaster};
pub use crate::extensions::Extensions;
pub use crate::features::{
    ApiVersion, BillingInterval, Cache, Event, Feed, Feeds, IssueReportChannel, Link,
    MembershipPlan, RadioShow, Spacefed, Stream,
};
pub use crate::location::Location;
pub use crate::number::{Double, Number};
pub use crate::state::{Icon, State};
pub use crate::status::Status;
pub use crate::value::Value;

verus! {

/// The version of this crate.
pub fn get_version() -> (version: &'static str)
    ensures
        version@ == "0.8.1"@,
{
    "0.8.1"
}

} // verus!
