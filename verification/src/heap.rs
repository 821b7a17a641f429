//! A ticket made of three owned strings, laid out as three `String` headers.

use vstd::prelude::*;

verus! {

/// A ticket whose title, description and status are each an owned string.
#[allow(dead_code)]
pub struct Ticket {
    title: String,
    description: String,
    status: String,
}

} // verus!
