//! The default project, as `gcloud config get project` reports it.

use vstd::prelude::*;
use crate::text::{trim, trimmed};

verus! {

/// The project that the output of `gcloud config get project` names: the
/// output without surrounding white space, none where nothing is left.
pub fn project_from_gcloud_output(output: &str) -> (r: Option<String>)
    ensures
        r is Some <==> trimmed(output@).len() > 0,
        r matches Some(project) ==> project@ == trimmed(output@),
{
    let project = trim(output);
    if project.is_empty() {
        None
    } else {
        Some(project.to_owned())
    }
}

} // verus!
