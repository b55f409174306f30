//! Names of fields, for sorting and projecting.

use vstd::prelude::*;

verus! {

/// Marks a type as the set of the field names of a record type.
///
/// Each value of it turns into the name of its field through `Into<String>`.
pub trait Field {

}

/// Ties a record type to the type of its field names.
pub trait AsField<F: Field + Into<String>> {

}

} // verus!
