//! Listing modes and their pager.

use vstd::prelude::*;
use vstd::string::*;
use crate::text::{decimal, decimal_string};

verus! {

/// First page of every listing. Pages are counted from one.
pub const STARTING_PAGE: u8 = 1;

/// Which listing is shown. The inner value is the page number, counted from
/// [`STARTING_PAGE`].
#[derive(Debug, Clone, Copy, PartialEq, Eq, Structural)]
pub enum Mode {
    Newest(u8),
    Hottest(u8),
    Active(u8),
}

/// The three listings, without a page.
#[derive(Debug, Clone, Copy, PartialEq, Eq, Structural)]
pub enum ModeKind {
    Newest,
    Hottest,
    Active,
}

/// Why a text names no mode.
#[derive(Debug, Clone, Copy, PartialEq, Eq, Structural)]
pub enum ModeError {
    /// The text is none of the three listing names.
    NotAMode,
}

impl ModeKind {
    /// The listing that follows this one when cycling forward.
    pub open spec fn succ(self) -> ModeKind {
        match self {
            ModeKind::Hottest => ModeKind::Newest,
            ModeKind::Newest => ModeKind::Active,
            ModeKind::Active => ModeKind::Hottest,
        }
    }

    /// The listing that follows this one when cycling backward.
    pub open spec fn pred(self) -> ModeKind {
        match self {
            ModeKind::Newest => ModeKind::Hottest,
            ModeKind::Hottest => ModeKind::Active,
            ModeKind::Active => ModeKind::Newest,
        }
    }

    /// The name under which a listing is shown and cached.
    pub open spec fn name(self) -> Seq<char> {
        match self {
            ModeKind::Hottest => "Hottest"@,
            ModeKind::Newest => "Newest"@,
            ModeKind::Active => "Active"@,
        }
    }

    /// The part of the address that selects a listing.
    pub open spec fn path(self) -> Seq<char> {
        match self {
            ModeKind::Hottest => "/page/"@,
            ModeKind::Newest => "/newest/page/"@,
            ModeKind::Active => "/active/page/"@,
        }
    }
}

/// The address of the listing `kind` at page `page`.
pub open spec fn listing_url(kind: ModeKind, page: nat) -> Seq<char> {
    "https://lobste.rs"@ + kind.path() + decimal(page) + ".json"@
}

/// A text in lower case, as Unicode defines it.
pub uninterp spec fn lowercased(s: Seq<char>) -> Seq<char>;

/// `str::to_lowercase`: the text with every character in lower case.
#[verifier::external_body]
fn to_lowercase(s: &str) -> (lowered: String)
    ensures
        lowered@ == lowercased(s@),
{
    s.to_lowercase()
}

/// What reading a mode from a lower-case text comes to.
pub open spec fn parsed(lowered: Seq<char>) -> Result<Mode, ModeError> {
    match mode_of_name(lowered) {
        Some(m) => Ok(m),
        None => Err(ModeError::NotAMode),
    }
}

/// The mode that a lower-case listing name stands for.
pub open spec fn mode_of_name(lowered: Seq<char>) -> Option<Mode> {
    if lowered == "newest"@ {
        Some(Mode::Newest(STARTING_PAGE))
    } else if lowered == "hottest"@ {
        Some(Mode::Hottest(STARTING_PAGE))
    } else if lowered == "active"@ {
        Some(Mode::Active(STARTING_PAGE))
    } else {
        None
    }
}

impl Mode {
    /// The listing of this mode.
    pub open spec fn kind(self) -> ModeKind {
        match self {
            Mode::Newest(_) => ModeKind::Newest,
            Mode::Hottest(_) => ModeKind::Hottest,
            Mode::Active(_) => ModeKind::Active,
        }
    }

    /// The page number of this mode, as stored.
    pub open spec fn page(self) -> int {
        match self {
            Mode::Newest(p) => p as int,
            Mode::Hottest(p) => p as int,
            Mode::Active(p) => p as int,
        }
    }

    /// The mode of a listing and a page number.
    pub open spec fn of(kind: ModeKind, page: u8) -> Mode {
        match kind {
            ModeKind::Newest => Mode::Newest(page),
            ModeKind::Hottest => Mode::Hottest(page),
            ModeKind::Active => Mode::Active(page),
        }
    }

    /// A mode is well formed when its page is not below the starting page.
    pub open spec fn wf(self) -> bool {
        self.page() >= STARTING_PAGE as int
    }

    /// The mode after a request for the next page: one page further, or
    /// unchanged where the page number is at its maximum.
    pub open spec fn after_next_page(self) -> Mode {
        if self.page() < u8::MAX as int {
            Mode::of(self.kind(), (self.page() + 1) as u8)
        } else {
            self
        }
    }

    /// The mode after a request for the previous page: one page back, or
    /// unchanged where the mode is at the starting page.
    pub open spec fn after_prev_page(self) -> Mode {
        if self.page() > STARTING_PAGE as int {
            Mode::of(self.kind(), (self.page() - 1) as u8)
        } else {
            self
        }
    }

    /// The mode after cycling forward.
    pub open spec fn after_next_mode(self) -> Mode {
        Mode::of(self.kind().succ(), STARTING_PAGE)
    }

    /// The mode after cycling backward.
    pub open spec fn after_prev_mode(self) -> Mode {
        Mode::of(self.kind().pred(), STARTING_PAGE)
    }

    /// The stored page number.
    pub fn page_number(&self) -> (p: u8)
        ensures
            p as int == self.page(),
    {
        match self {
            Mode::Hottest(p) => *p,
            Mode::Newest(p) => *p,
            Mode::Active(p) => *p,
        }
    }

    /// The same listing at another page.
    pub fn with_page(&self, page: u8) -> (m: Mode)
        ensures
            m == Mode::of(self.kind(), page),
    {
        match self {
            Mode::Hottest(_) => Mode::Hottest(page),
            Mode::Newest(_) => Mode::Newest(page),
            Mode::Active(_) => Mode::Active(page),
        }
    }

    /// The address from which this mode's listing is fetched.
    pub fn get_url(&self) -> (url: String)
        ensures
            url@ == listing_url(self.kind(), self.page() as nat),
    {
        let mut url = String::from_str("https://lobste.rs");
        match self {
            Mode::Hottest(_) => url.append("/page/"),
            Mode::Newest(_) => url.append("/newest/page/"),
            Mode::Active(_) => url.append("/active/page/"),
        }
        let digits = decimal_string(self.page_number() as u64);
        url.append(digits.as_str());
        url.append(".json");
        url
    }

    /// Moves to the next page unless the page number is at its maximum.
    /// Returns whether the page changed.
    pub fn next_page(&mut self) -> (changed: bool)
        ensures
            changed == (old(self).page() < u8::MAX as int),
            *final(self) == old(self).after_next_page(),
    {
        let page = self.page_number();
        if page < u8::MAX {
            *self = self.with_page(page + 1);
            true
        } else {
            false
        }
    }

    /// Moves to the previous page unless the mode is at the starting page
    /// (or below it). Returns whether the page changed.
    pub fn prev_page(&mut self) -> (changed: bool)
        ensures
            changed == (old(self).page() > STARTING_PAGE as int),
            *final(self) == old(self).after_prev_page(),
    {
        let page = self.page_number();
        if page > STARTING_PAGE {
            *self = self.with_page(page - 1);
            true
        } else {
            false
        }
    }

    /// Cycles to the next listing, at its starting page.
    pub fn next_mode(&mut self)
        ensures
            *final(self) == old(self).after_next_mode(),
    {
        *self = match self {
            Mode::Hottest(_) => Mode::Newest(STARTING_PAGE),
            Mode::Newest(_) => Mode::Active(STARTING_PAGE),
            Mode::Active(_) => Mode::Hottest(STARTING_PAGE),
        };
    }

    /// Cycles to the previous listing, at its starting page.
    pub fn prev_mode(&mut self)
        ensures
            *final(self) == old(self).after_prev_mode(),
    {
        *self = match self {
            Mode::Newest(_) => Mode::Hottest(STARTING_PAGE),
            Mode::Hottest(_) => Mode::Active(STARTING_PAGE),
            Mode::Active(_) => Mode::Newest(STARTING_PAGE),
        };
    }

    /// The page of this mode counted from zero.
    pub fn get_page(&self) -> (index: usize)
        requires
            self.wf(),
        ensures
            index as int == self.page() - 1,
    {
        (self.page_number() - 1) as usize
    }

    /// The name under which this mode's listing is shown and cached.
    pub fn name(&self) -> (s: String)
        ensures
            s@ == self.kind().name(),
    {
        match self {
            Mode::Hottest(_) => String::from_str("Hottest"),
            Mode::Newest(_) => String::from_str("Newest"),
            Mode::Active(_) => String::from_str("Active"),
        }
    }

    /// Reads a mode from a listing name that is already in lower case.
    pub fn from_lowered(lowered: &str) -> (r: Result<Mode, ModeError>)
        ensures
            r == parsed(lowered@),
    {
        let s = String::from_str(lowered);
        if s == String::from_str("newest") {
            Ok(Mode::Newest(STARTING_PAGE))
        } else if s == String::from_str("hottest") {
            Ok(Mode::Hottest(STARTING_PAGE))
        } else if s == String::from_str("active") {
            Ok(Mode::Active(STARTING_PAGE))
        } else {
            Err(ModeError::NotAMode)
        }
    }
}

impl Mode {
    /// Reads a mode from a listing name, whatever the case of its letters.
    /// The mode is at the starting page.
    pub fn from_str(s: &str) -> (r: Result<Mode, ModeError>)
        ensures
            r == parsed(lowercased(s@)),
    {
        let lowered = to_lowercase(s);
        Mode::from_lowered(lowered.as_str())
    }
}

impl Default for Mode {
    fn default() -> (m: Mode)
        ensures
            m == Mode::Hottest(STARTING_PAGE),
    {
        Mode::Hottest(STARTING_PAGE)
    }
}

/// Cycling forward three times comes back to the listing one started from,
/// and each of the three cycles lands on the starting page.
pub proof fn lemma_cycle_forward_thrice(m: Mode)
    ensures
        m.after_next_mode().after_next_mode().after_next_mode().kind() == m.kind(),
        m.after_next_mode().page() == STARTING_PAGE,
        m.after_next_mode().after_next_mode().page() == STARTING_PAGE,
        m.after_next_mode().after_next_mode().after_next_mode().page() == STARTING_PAGE,
{
}

/// Cycling backward three times comes back to the listing one started from,
/// and cycling backward undoes cycling forward.
pub proof fn lemma_cycle_backward(m: Mode)
    ensures
        m.after_prev_mode().after_prev_mode().after_prev_mode().kind() == m.kind(),
        m.after_next_mode().after_prev_mode().kind() == m.kind(),
        m.after_prev_mode().after_next_mode().kind() == m.kind(),
        m.after_prev_mode().page() == STARTING_PAGE,
{
}

/// No change of page or of listing takes a mode below the starting page.
pub proof fn lemma_page_never_below_start(m: Mode)
    requires
        m.wf(),
    ensures
        m.after_next_page().wf(),
        m.after_prev_page().wf(),
        m.after_next_mode().wf(),
        m.after_prev_mode().wf(),
{
}

/// Going to the next page and back restores the mode, except at the largest
/// page number, where going to the next page changes nothing.
pub proof fn lemma_next_then_prev_page(m: Mode)
    requires
        m.wf(),
    ensures
        m.page() < u8::MAX ==> m.after_next_page().after_prev_page() == m,
        m.page() == u8::MAX ==> m.after_next_page() == m,
{
}

} // verus!
