//! The page cache: the posts on screen, the pages of the current mode, and
//! the pages of the other modes.

use vstd::prelude::*;
use crate::data::{Post, pages_view};
use crate::mode_map::{ModeMap, stored_modes, no_modes};
use crate::modes::Mode;

verus! {

/// The posts on screen, the fetched pages of the current mode, and the pages
/// of the modes that were left.
///
/// A page that was never fetched, or whose posts are on screen, is an empty
/// slot; a slot beyond the end of `pages` counts as empty.
pub struct PageCache {
    /// The working list: the posts on screen.
    pub posts: Vec<Post>,
    /// The pages of the current mode, by page index.
    pub pages: Vec<Vec<Post>>,
    /// The pages of the modes that were left, by mode name.
    pub modes: ModeMap,
}

/// What a [`PageCache`] holds.
pub struct CacheView {
    pub posts: Seq<Post>,
    pub pages: Seq<Seq<Post>>,
    pub modes: Map<Seq<char>, Seq<Seq<Post>>>,
}

/// `pages`, with empty pages added at the end until there are at least `len`.
pub open spec fn padded(pages: Seq<Seq<Post>>, len: int) -> Seq<Seq<Post>> {
    if pages.len() >= len {
        pages
    } else {
        pages + Seq::new((len - pages.len()) as nat, |i: int| Seq::<Post>::empty())
    }
}

/// The posts cached for page `index`: those of its slot, none where the slot
/// is missing.
pub open spec fn page_at(pages: Seq<Seq<Post>>, index: int) -> Seq<Post> {
    if 0 <= index < pages.len() {
        pages[index]
    } else {
        Seq::empty()
    }
}

impl CacheView {
    /// The cache with slots up to `index`.
    pub open spec fn with_slot(self, index: int) -> CacheView {
        CacheView { pages: padded(self.pages, index + 1), ..self }
    }

    /// The working list and the slot `index` exchanged.
    pub open spec fn swapped(self, index: int) -> CacheView
        recommends
            0 <= index < self.pages.len(),
    {
        CacheView { posts: self.pages[index], pages: self.pages.update(index, self.posts), ..self }
    }

    /// The cache after a change from page `prev` to page `next`: there is a
    /// slot for `next`, the working list went to slot `prev`, and what slot
    /// `next` then held is the working list.
    pub open spec fn after_load_page(self, prev: int, next: int) -> CacheView {
        self.with_slot(next).swapped(prev).swapped(next)
    }

    /// The cache after the mode `name`, at page `page`, was put away: its
    /// pages, with the working list in slot `page`, stand under `name`; no
    /// page of a current mode is left, and the working list is what slot
    /// `page` held.
    pub open spec fn after_store_mode(self, name: Seq<char>, page: int) -> CacheView {
        let s = self.with_slot(page).swapped(page);
        CacheView { posts: s.posts, pages: Seq::empty(), modes: self.modes.insert(name, s.pages) }
    }

    /// The cache with `listing` as the working list.
    pub open spec fn with_posts(self, listing: Seq<Post>) -> CacheView {
        CacheView { posts: listing, ..self }
    }

    /// Whether pages are stored for the mode `name`.
    pub open spec fn has_mode(self, name: Seq<char>) -> bool {
        self.modes.contains_key(name)
    }

    /// The cache after the mode `name` was taken up at page `page`. Where
    /// nothing is stored under `name`, nothing changes. Else the stored pages
    /// and the current pages change places, and then the working list and
    /// slot `page` do.
    pub open spec fn after_load_mode(self, name: Seq<char>, page: int) -> CacheView {
        if self.has_mode(name) {
            CacheView {
                posts: self.posts,
                pages: self.modes[name],
                modes: self.modes.insert(name, self.pages),
            }.with_slot(page).swapped(page)
        } else {
            self
        }
    }
}

impl View for PageCache {
    type V = CacheView;

    open spec fn view(&self) -> CacheView {
        CacheView {
            posts: self.posts@,
            pages: pages_view(self.pages),
            modes: stored_modes(self.modes),
        }
    }
}

impl PageCache {
    /// A cache that holds nothing.
    pub fn new() -> (cache: PageCache)
        ensures
            cache@.posts == Seq::<Post>::empty(),
            cache@.pages == Seq::<Seq<Post>>::empty(),
            cache@.modes == no_modes(),
    {
        let cache = PageCache {
            posts: Vec::new(),
            pages: Vec::new(),
            // Capacity only needs to cover the available modes
            modes: ModeMap::with_capacity(3),
        };
        assert(pages_view(cache.pages) =~= Seq::<Seq<Post>>::empty());
        cache
    }

    /// Adds empty pages until there is a slot at `index`.
    fn ensure_slot(&mut self, index: usize)
        requires
            index < usize::MAX,
        ensures
            final(self)@ == old(self)@.with_slot(index as int),
            final(self).pages@.len() > index,
    {
        while self.pages.len() <= index
            invariant
                index < usize::MAX,
                self.posts == old(self).posts,
                self.modes == old(self).modes,
                self.pages@.len() >= old(self).pages@.len(),
                self.pages@.len() <= index + 1 || self.pages@.len() == old(self).pages@.len(),
                pages_view(self.pages) =~= padded(
                    pages_view(old(self).pages),
                    self.pages@.len() as int,
                ),
            decreases index + 1 - self.pages@.len(),
        {
            let ghost before = self.pages;
            self.pages.push(Vec::new());
            assert forall|i: int| 0 <= i < self.pages@.len() implies #[trigger] pages_view(
                self.pages,
            )[i] == padded(pages_view(old(self).pages), self.pages@.len() as int)[i] by {
                if i < before@.len() {
                    assert(pages_view(self.pages)[i] == pages_view(before)[i]);
                }
            }
        }
        assert(pages_view(self.pages) =~= padded(pages_view(old(self).pages), index + 1));
    }

    /// Exchanges the working list and the slot `index`.
    fn swap_slot(&mut self, index: usize)
        requires
            index < old(self).pages@.len(),
        ensures
            final(self)@ == old(self)@.swapped(index as int),
            final(self).pages@.len() == old(self).pages@.len(),
    {
        std::mem::swap(&mut self.posts, &mut self.pages[index]);
        assert(pages_view(self.pages) =~= pages_view(old(self).pages).update(
            index as int,
            old(self).posts@,
        ));
    }

    /// Changes from page `prev_page` to page `page` of the current mode.
    /// Returns whether posts are cached for `page`; they are then the working
    /// list.
    pub fn load_page(&mut self, prev_page: usize, page: usize) -> (has_data: bool)
        requires
            page < usize::MAX,
            prev_page < old(self)@.pages.len() || prev_page <= page,
        ensures
            final(self)@ == old(self)@.after_load_page(prev_page as int, page as int),
            has_data == (final(self)@.posts.len() > 0),
    {
        self.ensure_slot(page);
        self.swap_slot(prev_page);
        self.swap_slot(page);
        self.posts.len() > 0
    }

    /// Puts the current mode away: its pages, the working list among them,
    /// go under the mode's name.
    pub fn store_mode(&mut self, mode: &Mode)
        requires
            mode.wf(),
        ensures
            final(self)@ == old(self)@.after_store_mode(mode.kind().name(), mode.page() - 1),
    {
        let page = mode.get_page();
        self.ensure_slot(page);
        self.swap_slot(page);
        let mut pages: Vec<Vec<Post>> = Vec::new();
        std::mem::swap(&mut self.pages, &mut pages);
        let _ = self.modes.insert(mode.name(), pages);
        assert(pages_view(self.pages) =~= Seq::<Seq<Post>>::empty());
    }

    /// Takes up `mode` from the store. Returns whether posts are cached for
    /// its page; they are then the working list.
    pub fn load_mode(&mut self, mode: &Mode) -> (has_data: bool)
        requires
            mode.wf(),
        ensures
            final(self)@ == old(self)@.after_load_mode(mode.kind().name(), mode.page() - 1),
            has_data == (old(self)@.has_mode(mode.kind().name()) && final(self)@.posts.len() > 0),
    {
        let page = mode.get_page();
        let name = mode.name();
        match self.modes.get_mut(name.as_str()) {
            Some(v) => {
                std::mem::swap(&mut self.pages, v);
            },
            None => {
                return false;
            },
        }
        self.ensure_slot(page);
        self.swap_slot(page);
        self.posts.len() > 0
    }
}

/// Putting a mode away and taking it up again, at the same page, brings back
/// the working list as it was, empty or not. The pages of the mode come back
/// too, with slots up to that page, and the entry under the mode's name is
/// left without pages.
pub proof fn lemma_store_then_load_mode(v: CacheView, name: Seq<char>, page: int)
    requires
        0 <= page,
    ensures
        v.after_store_mode(name, page).has_mode(name),
        v.after_store_mode(name, page).after_load_mode(name, page).posts == v.posts,
        v.after_store_mode(name, page).after_load_mode(name, page).pages == padded(
            v.pages,
            page + 1,
        ),
        v.after_store_mode(name, page).after_load_mode(name, page).modes == v.modes.insert(
            name,
            Seq::empty(),
        ),
{
    let stored = v.after_store_mode(name, page);
    let back = stored.after_load_mode(name, page);
    assert(back.pages =~= padded(v.pages, page + 1));
    assert(back.modes =~= v.modes.insert(name, Seq::empty()));
}

/// Putting a mode away leaves the entries of the other modes as they were.
pub proof fn lemma_store_mode_keeps_others(v: CacheView, name: Seq<char>, page: int, other: Seq<char>)
    requires
        0 <= page,
        other != name,
    ensures
        v.after_store_mode(name, page).has_mode(other) == v.has_mode(other),
        v.has_mode(other) ==> v.after_store_mode(name, page).modes[other] == v.modes[other],
{
}

/// A change to a page whose slot is empty or missing finds no data: the
/// working list is empty afterwards, and the posts that were on screen are in
/// the slot of the page that was left.
pub proof fn lemma_load_unseen_page(v: CacheView, prev: int, next: int)
    requires
        0 <= prev,
        0 <= next,
        prev != next,
        prev < v.pages.len() || prev <= next,
        page_at(v.pages, next).len() == 0,
    ensures
        v.after_load_page(prev, next).posts.len() == 0,
        page_at(v.after_load_page(prev, next).pages, prev) == v.posts,
{
    assert(page_at(v.pages, next) =~= Seq::<Post>::empty());
}

/// A listing that is on screen for page `page` survives a change to another
/// page and back: it is the working list again, unchanged.
pub proof fn lemma_page_round_trip(v: CacheView, listing: Seq<Post>, page: int, other: int)
    requires
        0 <= page < v.pages.len(),
        0 <= other,
        other != page,
    ensures
        v.with_posts(listing).after_load_page(page, other).after_load_page(other, page).posts
            == listing,
        page_at(v.with_posts(listing).after_load_page(page, other).pages, page) == listing,
{
}

} // verus!
