//! A folder of save files that storages keep their saves in, see
//! [`crate::index::folder::Folder`].
use vstd::prelude::*;

verus! {

/// A folder of save files, indexed by the saves their names stand for.
pub type Folder<F> = crate::index::folder::Folder<F>;

} // verus!
