//! What the commands on API keys show.

use crate::client::api::ApiKeyRecord;
use crate::text::{abbreviated, abbreviation, date_part, is_date_of};
use vstd::prelude::*;

verus! {

/// One row of the table of API keys.
#[derive(Debug, Clone, PartialEq, Eq)]
pub struct KeyRow {
    pub id: String,
    pub name: String,
    pub created: String,
    pub last_used: String,
}

/// Whether `shown` is what a table shows for the time a key was last used:
/// the date of that time, or `Never`.
pub open spec fn is_last_use(shown: Seq<char>, last_used_at: Option<String>) -> bool {
    match last_used_at {
        Some(at) => is_date_of(shown, at@),
        None => shown == "Never"@,
    }
}

/// The row that the table of API keys has for a key: its identifier cut
/// down, its name, and the dates of its making and of its last use.
pub fn key_row(key: &ApiKeyRecord) -> (r: KeyRow)
    ensures
        r.id@ == abbreviation(key.id@),
        r.name@ == key.name@,
        is_date_of(r.created@, key.created_at@),
        is_last_use(r.last_used@, key.last_used_at),
{
    let last_used = match &key.last_used_at {
        Some(at) => date_part(at.as_str()),
        None => "Never".to_string(),
    };
    KeyRow {
        id: abbreviated(key.id.as_str()),
        name: key.name.clone(),
        created: date_part(key.created_at.as_str()),
        last_used,
    }
}

} // verus!
