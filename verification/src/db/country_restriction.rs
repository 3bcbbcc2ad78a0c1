//! The `country_restriction` table.
use vstd::prelude::*;

verus! {

/// A country whose players may take part in a tournament.
#[derive(Debug, Clone, PartialEq, Eq)]
pub struct Model {
    pub tournament_id: i32,
    /// The 2-character country code.
    pub country_code: String,
}

} // verus!
