//! Cutting a downloaded history down to the number of records asked for.

use crate::text::{decimal_digits, push_decimal};
use vstd::prelude::*;

verus! {

/// The first `count` records of a history, or all of them where `count` is
/// zero or no fewer were downloaded.
pub open spec fn limited<T>(records: Seq<T>, count: u32) -> Seq<T> {
    if 0 < count < records.len() {
        records.take(count as int)
    } else {
        records
    }
}

/// Keeps the first `count` records. A `count` of zero keeps them all.
pub fn limit_records<T>(records: Vec<T>, count: u32) -> (kept: Vec<T>)
    ensures
        kept@ == limited(records@, count),
{
    let mut kept = records;
    if count > 0 && (count as usize) < kept.len() {
        kept.truncate(count as usize);
        assert(kept@ =~= records@.take(count as int));
    }
    kept
}

/// Said while a history is being downloaded.
pub const DOWNLOADING_NOTICE: &'static str = "Downloading history...";

/// What is said once a history has been downloaded.
pub open spec fn downloaded_text(records: nat) -> Seq<char> {
    "Downloaded "@ + decimal_digits(records) + " records."@
}

/// Words what is said once a history of `records` records has been
/// downloaded.
pub fn downloaded_message(records: usize) -> (text: String)
    ensures
        text@ == downloaded_text(records as nat),
{
    let mut text = String::from_str("Downloaded ");
    push_decimal(&mut text, records as u64);
    text.append(" records.");
    text
}

} // verus!
