//! The size limit of one decode.

use vstd::prelude::*;

verus! {

/// The limit, in bytes, that holds where the configuration names none:
/// 32 KiB, Rocket's limit for forms.
pub const DEFAULT_LIMIT: u64 = 32 * 1024;

/// The limit that holds for a request whose configuration says `configured`.
pub open spec fn spec_effective_limit(configured: Option<u64>) -> u64 {
    match configured {
        Some(limit) => limit,
        None => DEFAULT_LIMIT,
    }
}

/// Reads `rocket::data::Limits::FORM`, the limit that Rocket sets for forms
/// where its configuration names none. It is a constant of 32 KiB.
#[verifier::external_body]
fn rocket_form_limit() -> (limit: u64)
    ensures
        limit == DEFAULT_LIMIT,
{
    rocket::data::Limits::FORM.as_u64()
}

/// Resolves the limit of one decode: the configured one, or Rocket's limit
/// for forms where none is configured. The result stays fixed for the whole
/// decode.
pub fn effective_limit(configured: Option<u64>) -> (limit: u64)
    ensures
        limit == spec_effective_limit(configured),
{
    match configured {
        Some(limit) => limit,
        None => rocket_form_limit(),
    }
}

} // verus!
