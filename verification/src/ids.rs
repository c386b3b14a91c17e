//! Type-safe wrappers over `u32`.
//!
//! Each wrapper is bit-identical to a raw `u32` in the wire image, so it can
//! stand inside an account header without changing the layout.  No validation
//! happens at construction: range checks belong to the instruction decoders
//! that consume these values.

use vstd::prelude::*;
use vstd::string::StringExecFns;

use crate::text::{spec_dec, u32_to_string};

verus! {

/// A type-safe wrapper around `u32` that represents the version of a
/// contract.  Prevents accidental misuse of raw integer values.
#[derive(Debug, Clone, Copy, PartialEq, Eq, Structural, Default)]
pub struct Version(pub u32);

/// A type-safe wrapper around `u32` that represents the tag of an account.
#[derive(Debug, Clone, Copy, PartialEq, Eq, Structural, Default)]
pub struct Tag(pub u32);

/// A type-safe wrapper around `u32` that represents the id of an instrument.
#[derive(Debug, Clone, Copy, PartialEq, Eq, Structural, PartialOrd, Default)]
pub struct InstrId(pub u32);

/// A type-safe wrapper around `u32` that represents the id of a client.
#[derive(Debug, Clone, Copy, PartialEq, Eq, Structural, PartialOrd, Default)]
pub struct ClientId(pub u32);

impl Version {
    pub fn new(value: u32) -> (r: Self)
        ensures
            r.0 == value,
    {
        Version(value)
    }

    pub fn value(&self) -> (r: u32)
        ensures
            r == self.0,
    {
        self.0
    }
}

impl Tag {
    pub fn new(value: u32) -> (r: Self)
        ensures
            r.0 == value,
    {
        Tag(value)
    }

    pub fn value(&self) -> (r: u32)
        ensures
            r == self.0,
    {
        self.0
    }
}

impl InstrId {
    pub fn new(value: u32) -> (r: Self)
        ensures
            r.0 == value,
    {
        InstrId(value)
    }

    pub fn value(&self) -> (r: u32)
        ensures
            r == self.0,
    {
        self.0
    }
}

impl ClientId {
    /// The rendering of a client id in diagnostics.
    pub open spec fn spec_text(self) -> Seq<char> {
        "Client "@ + spec_dec(self.0 as nat)
    }

    /// Renders this client id for diagnostics.
    pub fn text(&self) -> (r: String)
        ensures
            r@ == self.spec_text(),
    {
        let mut s = String::from_str("Client ");
        s.append(u32_to_string(self.0).as_str());
        s
    }

    pub fn new(value: u32) -> (r: Self)
        ensures
            r.0 == value,
    {
        ClientId(value)
    }

    pub fn value(&self) -> (r: u32)
        ensures
            r == self.0,
    {
        self.0
    }
}

} // verus!
