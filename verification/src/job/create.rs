//! Options of the schema-creation scripts. The scripts themselves run
//! against the cluster and stay with the dispatch layer; only the
//! shape of their arguments is defined here.
use vstd::prelude::*;

verus! {

/// The format of one field of a created space.
#[derive(Debug, Clone)]
pub struct FieldFormat {
    pub name: String,
    pub field_type: String,
}

/// The options a space is created with: idempotent creation and the
/// declared field formats.
#[derive(Debug, Clone)]
pub struct CreateSpaceOptions {
    pub if_not_exists: bool,
    pub format: Vec<FieldFormat>,
}

} // verus!
