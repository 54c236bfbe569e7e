//! Which region the publish client is configured for.
//!
//! Candidates are tried in order: an explicit override given at startup, then
//! the ambient provider (environment, profile, instance metadata), then the
//! fallback `us-east-1`. The ambient provider is consulted only when there is
//! no override.

use vstd::prelude::*;

verus! {

/// The text of an optional string.
pub open spec fn text_of(o: Option<String>) -> Option<Seq<char>> {
    match o {
        Some(s) => Some(s@),
        None => None,
    }
}

/// The region chosen from an override and what the ambient provider found.
pub open spec fn effective_region(explicit: Option<Seq<char>>, ambient: Option<Seq<char>>) -> Seq<
    char,
> {
    match explicit {
        Some(r) => r,
        None => match ambient {
            Some(r) => r,
            None => "us-east-1"@,
        },
    }
}

/// The region used when neither an override nor the ambient provider gives one.
pub fn fallback_region() -> (r: String)
    ensures
        r@ == "us-east-1"@,
{
    "us-east-1".to_owned()
}

/// Picks the region: the override if there is one, else the ambient region if
/// there is one, else the fallback.
pub fn resolve_region(explicit: Option<String>, ambient: Option<String>) -> (r: String)
    ensures
        r@ == effective_region(text_of(explicit), text_of(ambient)),
{
    match explicit {
        Some(r) => r,
        None => match ambient {
            Some(r) => r,
            None => fallback_region(),
        },
    }
}

/// An override beats the ambient region, which beats the fallback, whatever
/// the other candidates are.
pub proof fn lemma_region_precedence(explicit: Option<Seq<char>>, ambient: Option<Seq<char>>)
    ensures
        explicit is Some ==> effective_region(explicit, ambient) == explicit->Some_0,
        explicit is None && ambient is Some ==> effective_region(explicit, ambient)
            == ambient->Some_0,
        explicit is None && ambient is None ==> effective_region(explicit, ambient)
            == "us-east-1"@,
{
}

} // verus!
