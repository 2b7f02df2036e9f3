//! Image references and the names derived from them.

use crate::model;
use vstd::prelude::*;

verus! {

/// The name under which an image is kept in the workspace: `reference` with
/// every `/` and every `:` replaced by `_`.
pub fn image_id(reference: &str) -> (id: String)
    ensures
        id@ == model::image_id(reference@),
{
    let mut id = String::new();
    for c in it: reference.chars()
        invariant
            it.seq() == reference@,
            id@ == model::image_id(reference@.take(it.index() as int)),
    {
        if c == '/' || c == ':' {
            id.push('_');
        } else {
            id.push(c);
        }
    }
    id
}

/// The file name of an image's archive: its identifier and `.tar`.
pub fn archive_name(reference: &str) -> (name: String)
    ensures
        name@ == model::archive_name(reference@),
{
    let mut name = image_id(reference);
    name.append(".tar");
    name
}

} // verus!
