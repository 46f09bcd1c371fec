//! Host resolution: one input token becomes one or more queryable
//! addresses, and never none.
//!
//! DNS itself happens outside this crate; what it returned — or that
//! it failed — is handed in, and the fallback rule is applied here:
//! a token that did not resolve is treated as a literal address.

use vstd::prelude::*;
use vstd::string::*;

verus! {

/// The addresses to query for one token, given what resolution came
/// to: `None` when resolution failed, `Some` with the resolved
/// addresses when it succeeded.
///
/// A resolution that failed — or yielded nothing — falls back to the
/// token itself, taken as a literal address; so every token yields at
/// least one address.
pub fn resolve_with(token: &str, lookup: Option<Vec<String>>) -> (r: Vec<String>)
    ensures
        r@.len() >= 1,
        (match lookup {
            Some(addrs) => {
                if addrs@.len() > 0 {
                    r == addrs
                } else {
                    r@.len() == 1 && r@[0]@ == token@
                }
            },
            None => r@.len() == 1 && r@[0]@ == token@,
        }),
{
    match lookup {
        Some(addrs) => {
            if addrs.len() > 0 {
                addrs
            } else {
                let mut fallback: Vec<String> = Vec::new();
                fallback.push(String::from_str(token));
                fallback
            }
        },
        None => {
            let mut fallback: Vec<String> = Vec::new();
            fallback.push(String::from_str(token));
            fallback
        },
    }
}

} // verus!
