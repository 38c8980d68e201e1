//! The driver's handles and option types that the repository names.

use vstd::prelude::*;

verus! {

#[verifier::external_type_specification]
#[verifier::external_body]
pub struct ExDatabase(mongodb::Database);

#[verifier::external_type_specification]
pub struct ExReturnDocument(mongodb::options::ReturnDocument);

#[verifier::external_type_specification]
pub struct ExHint(mongodb::options::Hint);

#[verifier::external_type_specification]
pub struct ExCollation(mongodb::options::Collation);

#[verifier::external_type_specification]
pub struct ExFindOneAndReplaceOptions(mongodb::options::FindOneAndReplaceOptions);

/// `<mongodb::options::FindOneAndReplaceOptions as Default>::default`, which
/// the driver derives: every field of the result is absent.
#[verifier::external_body]
pub(crate) fn default_replace_options() -> (options: mongodb::options::FindOneAndReplaceOptions)
    ensures
        options.bypass_document_validation is None,
        options.max_time is None,
        options.projection is None,
        options.return_document is None,
        options.sort is None,
        options.upsert is None,
        options.write_concern is None,
        options.collation is None,
        options.hint is None,
{
    mongodb::options::FindOneAndReplaceOptions::default()
}

} // verus!
