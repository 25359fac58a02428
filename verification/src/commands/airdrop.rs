//! What the commands on airdrops show.

use crate::client::api::Pagination;
use crate::error::joined;
use crate::text::{decimal, text_eq, u64_to_text};
use vstd::prelude::*;
use vstd::string::StringExecFns;

verus! {

/// How the state of an airdrop is to be read.
#[derive(Debug, Clone, Copy, PartialEq, Eq, Structural)]
pub enum StatusTone {
    /// `completed`
    Done,
    /// `pending`
    Waiting,
    /// `failed`
    Failed,
    /// Any other state.
    Plain,
}

/// How a state is to be read; the state is matched as it stands.
pub open spec fn tone_of(status: Seq<char>) -> StatusTone {
    if status == "completed"@ {
        StatusTone::Done
    } else if status == "pending"@ {
        StatusTone::Waiting
    } else if status == "failed"@ {
        StatusTone::Failed
    } else {
        StatusTone::Plain
    }
}

/// How the state of an airdrop is to be read.
pub fn status_tone(status: &str) -> (r: StatusTone)
    ensures
        r == tone_of(status@),
{
    if text_eq(status, "completed") {
        StatusTone::Done
    } else if text_eq(status, "pending") {
        StatusTone::Waiting
    } else if text_eq(status, "failed") {
        StatusTone::Failed
    } else {
        StatusTone::Plain
    }
}

/// Where a transaction is shown on the web.
pub fn explorer_url(signature: &str) -> (r: String)
    ensures
        r@ == "https://solscan.io/tx/"@ + signature@ + "?cluster=devnet"@,
{
    let mut r = joined("https://solscan.io/tx/", signature);
    r.append("?cluster=devnet");
    r
}

/// What stands under a page of the history of airdrops.
#[derive(Debug, Clone, PartialEq, Eq)]
pub struct PageFooter {
    /// Which of the airdrops the page shows.
    pub summary: String,
    /// How to see the next page, where there is one.
    pub more: Option<String>,
}

/// The line that says which airdrops a page shows: the page of `shown`
/// airdrops after the first `offset`, out of `total`.
pub open spec fn page_summary(offset: u32, shown: u32, total: u32) -> Seq<char> {
    "Showing "@ + decimal((offset + 1) as nat) + " - "@ + decimal((offset + shown) as nat)
        + " of "@ + decimal(total as nat) + " total airdrops"@
}

/// The line that says how to see the page after this one.
pub open spec fn page_hint(offset: u32, shown: u32) -> Seq<char> {
    "Use --offset "@ + decimal((offset + shown) as nat) + " to see more"@
}

/// What stands under the page of `shown` airdrops after the first `offset`.
pub fn page_footer(offset: u32, shown: u32, pagination: &Pagination) -> (r: PageFooter)
    ensures
        r.summary@ == page_summary(offset, shown, pagination.total),
        pagination.has_more ==> (r.more matches Some(hint) && hint@ == page_hint(offset, shown)),
        !pagination.has_more ==> r.more is None,
{
    let first: u64 = offset as u64 + 1;
    let last: u64 = offset as u64 + shown as u64;
    let mut summary = joined("Showing ", u64_to_text(first).as_str());
    summary.append(" - ");
    summary.append(u64_to_text(last).as_str());
    summary.append(" of ");
    summary.append(u64_to_text(pagination.total as u64).as_str());
    summary.append(" total airdrops");
    let more = if pagination.has_more {
        let mut hint = joined("Use --offset ", u64_to_text(last).as_str());
        hint.append(" to see more");
        Some(hint)
    } else {
        None
    };
    PageFooter { summary, more }
}

} // verus!
