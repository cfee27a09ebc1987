//! The decisions that the API clients take on what a call returned.

use vstd::prelude::*;
use vstd::string::*;
use crate::error::{HermesError, HermesResult};

verus! {

/// The auction status with which eBay reports that bidding is over.
pub open spec fn ended_status() -> Seq<char> {
    "ENDED"@
}

/// What is reported when a translation response holds no text.
pub open spec fn no_translation() -> Seq<char> {
    "No translation found in response"@
}

/// Whether an item takes bids, given what the lookup of its bidding state
/// gave: the auction status where it succeeded. An item takes bids when the
/// lookup succeeded and reported a status other than `ENDED`; a failed
/// lookup and a missing status both count as no.
pub fn can_bid<E>(bidding: &Result<Option<String>, E>) -> (open: bool)
    ensures
        open == (bidding matches Ok(Some(status)) && status@ != ended_status()),
{
    match bidding {
        Ok(Some(status)) => {
            let ended = String::from_str("ENDED");
            !(*status == ended)
        },
        _ => false,
    }
}

/// The text of the first translation of a response, `translations` holding
/// the text of each translation in order, where it has one. A response
/// without translations, or whose first translation has no text, is an
/// `ApiRequest` error.
pub fn first_translation(translations: Option<Vec<Option<String>>>) -> (text: HermesResult<String>)
    ensures
        match translations {
            Some(texts) if texts@.len() > 0 && texts@[0] is Some => text matches Ok(t) && t@
                == texts@[0]->0@,
            _ => text matches Err(HermesError::ApiRequest(detail)) && detail@ == no_translation(),
        },
{
    if let Some(texts) = translations {
        if texts.len() > 0 {
            if let Some(first) = &texts[0] {
                return Ok(first.clone());
            }
        }
    }
    Err(HermesError::ApiRequest(String::from_str("No translation found in response")))
}

} // verus!
