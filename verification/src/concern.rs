//! Write durability: the acknowledgment asked of the store for a write.

use vstd::prelude::*;

verus! {

#[verifier::external_type_specification]
pub struct ExAcknowledgment(mongodb::options::Acknowledgment);

#[verifier::external_type_specification]
pub struct ExWriteConcern(mongodb::options::WriteConcern);

/// `<mongodb::options::WriteConcern as Default>::default`, which the driver
/// derives: every field of the result is absent.
#[verifier::external_body]
pub(crate) fn default_write_concern() -> (concern: mongodb::options::WriteConcern)
    ensures
        concern.w is None,
        concern.w_timeout is None,
        concern.journal is None,
{
    mongodb::options::WriteConcern::default()
}

/// The write concern of an upsert: the caller's value, or the store's
/// defaults where there is none, with acknowledgment by the on-disk journal
/// switched on whatever the caller chose.
pub open spec fn durable(concern: Option<mongodb::options::WriteConcern>, forced: mongodb::options::WriteConcern) -> bool {
    &&& forced.journal == Some(true)
    &&& match concern {
        Some(chosen) => forced.w == chosen.w && forced.w_timeout == chosen.w_timeout,
        None => forced.w is None && forced.w_timeout is None,
    }
}

pub fn force_journal(concern: Option<mongodb::options::WriteConcern>) -> (forced: mongodb::options::WriteConcern)
    ensures
        durable(concern, forced),
{
    let mut forced = match concern {
        Some(chosen) => chosen,
        None => default_write_concern(),
    };
    forced.journal = Some(true);
    forced
}

} // verus!
