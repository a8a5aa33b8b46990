//! Saved accounts.
use vstd::prelude::*;

verus! {

/// A saved session, as the account store lists it.
pub struct Account {
    pub id: i64,
    pub name: String,
    pub saved_at: String,
    pub token_data: String,
    pub riot_id: Option<String>,
}

} // verus!
