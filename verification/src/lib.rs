//! Upcoming rocket launches as a paged card carousel.
//!
//! The library turns the HTML of the upstream launch listing into launch
//! records, renders each record as a message card, and decides how a paging
//! session reacts to button presses and to the passing of time. Fetching the
//! page and talking to the chat platform are left to the caller.

use vstd::prelude::*;

pub mod card;
pub mod dom;
pub mod error;
pub mod launch;
pub mod laws;
pub mod scrape;
pub mod session;
pub mod text;

verus! {

/// Process-wide state shared by all command invocations. There is none:
/// every invocation scrapes afresh and owns its session.
pub struct Data {}

} // verus!
