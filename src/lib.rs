//! A registry of numbered vaccine certificates. An administrator issues
//! records; each record's owner may rewrite its payload or hand it to someone
//! else. Every operation is stated as a transition of `registry::RegistryView`
//! and either applies it whole or returns an error and changes nothing.
use vstd::prelude::*;

pub mod contract;
pub mod laws;
pub mod registry;
pub mod types;

verus! {

} // verus!
