//! Role tags: compile-time labels that pick out which facet of a container a
//! stabilization guarantee and an iteration capability apply to.
//!
//! One container value can expose independent stabilization relationships for
//! different facets of its elements (for an associative container, its keys,
//! its values, or whole entries). The tags carry no data and no operations;
//! they only select trait implementations. This crate ships exactly these four
//! tags; user-defined tags are not supported.

use vstd::prelude::*;

verus! {

/// A kind of item that can be stabilized, to disambiguate e.g. keys and values.
pub trait Role {}

/// The container's plain elements.
pub struct Items;

impl Role for Items {}

/// The keys of an associative container.
pub struct Keys;

impl Role for Keys {}

/// The mapped values of an associative container.
pub struct Values;

impl Role for Values {}

/// Whole key-value entries of an associative container.
pub struct Entries;

impl Role for Entries {}

} // verus!
