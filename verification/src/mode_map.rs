//! The store of page caches of the modes that are not on screen.

use vstd::prelude::*;
use crate::data::{Post, pages_view};

verus! {

/// Page caches by mode name, held in a `hashbrown::HashMap`.
///
/// The verifier does not look into the map: what it holds is known only as
/// [`stored_modes`], and only through what the methods below say of it.
#[verifier::external_body]
pub struct ModeMap {
    inner: hashbrown::HashMap<String, Vec<Vec<Post>>>,
}

/// What a [`ModeMap`] holds: for each mode name that has an entry, its pages.
pub uninterp spec fn stored_modes(m: ModeMap) -> Map<Seq<char>, Seq<Seq<Post>>>;

/// The store without entries.
pub open spec fn no_modes() -> Map<Seq<char>, Seq<Seq<Post>>> {
    Map::empty()
}

impl ModeMap {
    /// `hashbrown::HashMap::with_capacity`: a map without entries. The
    /// capacity is bounded so that the size of the table cannot overflow.
    #[verifier::external_body]
    pub(crate) fn with_capacity(capacity: usize) -> (m: ModeMap)
        requires
            capacity <= 0xffff,
        ensures
            stored_modes(m) == no_modes(),
    {
        ModeMap { inner: hashbrown::HashMap::with_capacity(capacity) }
    }

    /// `hashbrown::HashMap::insert`: the entry under `name` becomes `pages`,
    /// the other entries stay, and the pages that stood under `name` before,
    /// if any, are returned.
    #[verifier::external_body]
    pub(crate) fn insert(&mut self, name: String, pages: Vec<Vec<Post>>) -> (prev: Option<Vec<Vec<Post>>>)
        ensures
            stored_modes(*final(self)) == stored_modes(*old(self)).insert(name@, pages_view(pages)),
            prev is Some <==> stored_modes(*old(self)).contains_key(name@),
            prev is Some ==> pages_view(prev->Some_0) == stored_modes(*old(self))[name@],
    {
        self.inner.insert(name, pages)
    }

    /// `hashbrown::HashMap::get_mut`: a reference to the pages under `name`,
    /// if there is such an entry. What is written through the reference is
    /// what the entry holds afterwards; the other entries stay.
    #[verifier::external_body]
    pub(crate) fn get_mut(&mut self, name: &str) -> (entry: Option<&mut Vec<Vec<Post>>>)
        ensures
            entry is Some <==> stored_modes(*old(self)).contains_key(name@),
            entry is Some ==> pages_view(*entry->Some_0) == stored_modes(*old(self))[name@]
                && stored_modes(*final(self)) == stored_modes(*old(self)).insert(
                name@,
                pages_view(*final(entry->Some_0)),
            ),
            entry is None ==> stored_modes(*final(self)) == stored_modes(*old(self)),
    {
        self.inner.get_mut(name)
    }
}

} // verus!
