//! The gateway's embed type, carried through the cache unchanged.

use vstd::prelude::*;


verus! {

/// An embed is opaque here: the cache stores and hands it back, never reads it.
#[verifier::external_type_specification]
#[verifier::external_body]
pub struct ExEmbed(twilight_model::channel::embed::Embed);

/// Relies on the derived `Clone` of `Embed`: every field is cloned, so the copy
/// equals the original.
pub assume_specification[ <twilight_model::channel::embed::Embed as core::clone::Clone>::clone ](
    e: &twilight_model::channel::embed::Embed,
) -> (r: twilight_model::channel::embed::Embed)
    ensures
        r == *e,
;

} // verus!
