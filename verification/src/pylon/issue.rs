//! The issue that is sent to Pylon.

use vstd::prelude::*;

verus! {

/// An issue to create, as the ticketing API takes it.
#[derive(Debug)]
pub struct Issue<'a> {
    /// The account that the issue is filed for.
    pub account_id: &'a str,
    /// The issue's title.
    pub title: &'a str,
    /// The issue's body.
    pub body_html: &'a str,
}

} // verus!
