//! Paging through an account's holdings: how many pages a count of entries makes, where a
//! press of a button leads, when a listing has to end because the data changed, and what a
//! page of holdings reads like.

use crate::model::ticker::Ticker;
use crate::model::Pager;
use crate::repo::pg::spec_remaining;
use vstd::prelude::*;
use vstd::string::{to_string_from_display_ensures, StringExecFns};

verus! {

/// The number of entries on a page.
pub const PAGE_SIZE: i64 = 16;

/// How many pages `entries` entries fill, the last one perhaps only in part.
pub open spec fn spec_page_count(entries: nat) -> int {
    entries / 16 + if entries % 16 == 0 {
        0int
    } else {
        1int
    }
}

/// Computes the number of pages for a count of entries.
pub fn page_count(entries: usize) -> (pages: i64)
    ensures
        pages == spec_page_count(entries as nat),
        0 <= pages <= 0x1000_0000_0000_0000,
{
    let full = entries / 16;
    let part: usize = if entries % 16 == 0 {
        0
    } else {
        1
    };
    (full + part) as i64
}

/// How a listing is laid out.
#[derive(Debug, Clone, Copy, PartialEq, Eq, Structural)]
pub enum Layout {
    /// There is nothing to list.
    Empty,
    /// Everything is on one page: no buttons.
    Single,
    /// There is more than one page: buttons to turn them.
    Paged,
}

/// The layout for a number of pages: empty for none, single for one, paged for any other.
pub open spec fn spec_layout(pages: int) -> Layout {
    if pages == 0 {
        Layout::Empty
    } else if pages == 1 {
        Layout::Single
    } else {
        Layout::Paged
    }
}

/// Chooses the layout for a number of pages.
pub fn layout(pages: i64) -> (l: Layout)
    ensures
        l == spec_layout(pages as int),
{
    if pages == 0 {
        Layout::Empty
    } else if pages == 1 {
        Layout::Single
    } else {
        Layout::Paged
    }
}

/// What the reader of a paged listing pressed.
#[derive(Debug, Clone, Copy, PartialEq, Eq, Structural)]
pub enum Press {
    /// The button that leads one page back.
    Previous,
    /// The button that leads one page on.
    Next,
    /// Something that does not belong to the listing.
    Unrelated,
}

/// What to do after a press.
#[derive(Debug, Clone, Copy)]
pub enum Step {
    /// Nothing: wait for the next press.
    Ignore,
    /// Fetch the page that the pager points to.
    Fetch(Pager),
}

/// What to do with a page that was fetched.
#[derive(Debug, Clone, Copy, PartialEq, Eq, Structural)]
pub enum Shown {
    /// The collection does not count as many entries as when the listing was opened: the
    /// data changed under the reader, and the listing ends.
    Changed,
    /// Show the page, as number `number` of `of`.
    Page { number: i64, of: i64 },
}

/// The remainder of `x` by `m` that has the sign of `x`.
pub open spec fn rem_toward_zero(x: int, m: int) -> int {
    if x >= 0 {
        x % m
    } else {
        -((-x) % m)
    }
}

/// The page that a press leads to from page `current` of a listing whose last page is page
/// `last_page`, the first page being page zero.
///
/// One page back is the page before, whatever its number; only from the smallest number
/// there is it goes to the last page. One page on wraps round behind the last page.
pub open spec fn spec_turned(current: i64, last_page: i64, press: Press) -> int {
    match press {
        Press::Previous => if current == i64::MIN {
            last_page as int
        } else {
            current - 1
        },
        Press::Next => rem_toward_zero(current + 1, last_page + 1),
        Press::Unrelated => current as int,
    }
}

/// Whether the offset of the page that a press leads to fits a pager.
pub open spec fn offset_fits(current: i64, last_page: i64, press: Press) -> bool {
    i64::MIN <= spec_turned(current, last_page, press) * PAGE_SIZE <= i64::MAX
}

/// How many entries a collection counts, as one page of it tells: those up to the end of
/// the page, which starts at `offset` and holds `returned` entries, and those `beyond` it.
pub open spec fn spec_counted(offset: i64, returned: nat, beyond: nat) -> int {
    let passed = if offset + returned < 0 {
        0
    } else {
        offset + returned
    };
    passed + beyond
}

/// Every page of a collection tells its count: a page that ends within a collection of
/// `total` entries, with the count of entries beyond it that the store computes, counts
/// `total`.
pub proof fn lemma_page_tells_total(total: i64, offset: i64, returned: nat)
    requires
        0 <= total <= usize::MAX,
        offset + returned <= total,
    ensures
        spec_counted(offset, returned, spec_remaining(total, offset, returned) as nat) == total,
{
}

/// A listing ends exactly when the collection changed its count: a later page of a
/// collection counts what the first page counted if and only if the collection holds as
/// many entries as it did then.
pub proof fn lemma_change_is_seen(
    total: i64,
    first: nat,
    later_total: i64,
    offset: i64,
    returned: nat,
)
    requires
        0 <= total <= usize::MAX,
        first <= total,
        0 <= later_total <= usize::MAX,
        offset + returned <= later_total,
    ensures
        spec_counted(offset, returned, spec_remaining(later_total, offset, returned) as nat)
            == spec_counted(0, first, spec_remaining(total, 0, first) as nat) <==> later_total
            == total,
{
    lemma_page_tells_total(total, 0, first);
    lemma_page_tells_total(later_total, offset, returned);
}

/// The state of one listing that a reader pages through.
#[derive(Debug, Clone, Copy)]
pub struct Browser {
    current_page: i64,
    last_page: i64,
    total: u128,
    page: Pager,
}

impl Browser {
    /// Whether the state is one that [`Browser::open`] and [`Browser::press`] lead to.
    pub closed spec fn wf(&self) -> bool {
        &&& 0 <= self.last_page <= 0x1000_0000_0000_0000
        &&& self.current_page <= self.last_page
        &&& self.total == 0 ==> self.last_page == 0
        &&& self.page.limit() == PAGE_SIZE
        &&& self.page.offset() == self.current_page * PAGE_SIZE
    }

    #[verifier::type_invariant]
    spec fn inv(self) -> bool {
        self.wf()
    }

    /// The page that is shown, counted from zero.
    pub closed spec fn current_page(&self) -> i64 {
        self.current_page
    }

    /// The last page, counted from zero: as many pages as the entries beyond the first page
    /// fill.
    pub closed spec fn last_page(&self) -> i64 {
        self.last_page
    }

    /// How many entries the collection counted when the listing was opened.
    pub closed spec fn total(&self) -> nat {
        self.total as nat
    }

    /// How many pages the listing has: none where there is no entry, else the first page and
    /// those behind it.
    pub open spec fn pages(&self) -> int {
        if self.total() == 0 {
            0
        } else {
            self.last_page() + 1
        }
    }

    /// The pager for the page that is shown.
    pub closed spec fn pager(&self) -> Pager {
        self.page
    }

    /// Opens a listing on its first page, which holds `returned` entries and has `beyond`
    /// entries beyond it.
    pub fn open(returned: usize, beyond: usize) -> (b: Browser)
        ensures
            b.wf(),
            b.current_page() == 0,
            b.last_page() == spec_page_count(beyond as nat),
            b.total() == spec_counted(0, returned as nat, beyond as nat),
            b.total() == returned + beyond,
            b.pager().offset() == 0,
            b.pager().limit() == PAGE_SIZE,
    {
        Browser {
            current_page: 0,
            last_page: page_count(beyond),
            total: returned as u128 + beyond as u128,
            page: Pager::new(0, PAGE_SIZE),
        }
    }

    /// How the listing is laid out: by the number of its pages.
    pub fn layout(&self) -> (l: Layout)
        ensures
            l == spec_layout(self.pages()),
    {
        proof {
            use_type_invariant(self);
        }
        if self.total == 0 {
            Layout::Empty
        } else {
            layout(self.last_page + 1)
        }
    }

    /// Takes a press. An unrelated one changes nothing. A button moves the listing to the
    /// page that [`spec_turned`] names and asks for that page, whose offset is the page
    /// number times [`PAGE_SIZE`]; that offset has to fit.
    pub fn press(&mut self, press: Press) -> (step: Step)
        requires
            offset_fits(old(self).current_page(), old(self).last_page(), press),
        ensures
            final(self).wf(),
            final(self).total() == old(self).total(),
            final(self).last_page() == old(self).last_page(),
            final(self).current_page() == spec_turned(
                old(self).current_page(),
                old(self).last_page(),
                press,
            ),
            final(self).pager().offset() == final(self).current_page() * PAGE_SIZE,
            final(self).pager().limit() == PAGE_SIZE,
            match step {
                Step::Ignore => press == Press::Unrelated,
                Step::Fetch(p) => press != Press::Unrelated && p == final(self).pager(),
            },
    {
        proof {
            use_type_invariant(&*self);
        }
        if let Press::Unrelated = press {
            return Step::Ignore;
        }
        let turned = self.turned(press);
        let mut page = self.page;
        page.set_offset(turned * PAGE_SIZE);
        *self = Browser {
            current_page: turned,
            last_page: self.last_page,
            total: self.total,
            page,
        };
        Step::Fetch(page)
    }

    /// The page that a press leads to.
    fn turned(&self, press: Press) -> (page: i64)
        ensures
            page == spec_turned(self.current_page(), self.last_page(), press),
            page <= self.last_page(),
    {
        proof {
            use_type_invariant(self);
        }
        match press {
            Press::Previous => match self.current_page.checked_sub(1) {
                Some(before) => before,
                None => self.last_page,
            },
            Press::Next => (self.current_page + 1) % (self.last_page + 1),
            Press::Unrelated => self.current_page,
        }
    }

    /// Takes a press as [`Browser::press`] does, where the offset of the page that it leads
    /// to fits a pager. Where it does not, there is no step and the listing stays as it is.
    pub fn try_press(&mut self, press: Press) -> (step: Option<Step>)
        ensures
            final(self).total() == old(self).total(),
            final(self).last_page() == old(self).last_page(),
            offset_fits(old(self).current_page(), old(self).last_page(), press) ==> {
                &&& final(self).current_page() == spec_turned(
                    old(self).current_page(),
                    old(self).last_page(),
                    press,
                )
                &&& final(self).pager().offset() == final(self).current_page() * PAGE_SIZE
                &&& final(self).pager().limit() == PAGE_SIZE
                &&& match step {
                    Some(Step::Ignore) => press == Press::Unrelated,
                    Some(Step::Fetch(p)) => press != Press::Unrelated && p == final(self).pager(),
                    None => false,
                }
            },
            !offset_fits(old(self).current_page(), old(self).last_page(), press) ==> step is None
                && *final(self) == *old(self),
    {
        let turned = self.turned(press);
        match turned.checked_mul(PAGE_SIZE) {
            Some(_) => Some(self.press(press)),
            None => None,
        }
    }

    /// Judges a page that was fetched for the pager of the listing: it holds `returned`
    /// entries and has `beyond` entries beyond it.
    ///
    /// If the collection does not count as many entries by this page as it did by the first,
    /// the listing ends. Else the page is shown under its number, counted from one, of the
    /// number of the last page, counted from one.
    pub fn arrived(&self, returned: usize, beyond: usize) -> (shown: Shown)
        ensures
            shown == if spec_counted(self.pager().offset(), returned as nat, beyond as nat)
                != self.total() {
                Shown::Changed
            } else {
                Shown::Page {
                    number: (self.current_page() + 1) as i64,
                    of: (self.last_page() + 1) as i64,
                }
            },
    {
        proof {
            use_type_invariant(self);
        }
        let end: i128 = self.page.offset() as i128 + returned as i128;
        let passed: i128 = if end < 0 {
            0
        } else {
            end
        };
        let counted: i128 = passed + beyond as i128;
        if counted as u128 != self.total {
            Shown::Changed
        } else {
            Shown::Page { number: self.current_page + 1, of: self.last_page + 1 }
        }
    }
}

/// The character of the decimal digit `d`.
pub open spec fn digit_char(d: nat) -> char {
    (0x30 + d) as char
}

/// `n` in decimal digits, without a sign or leading zeros.
pub open spec fn decimal(n: nat) -> Seq<char>
    decreases n,
{
    if n < 10 {
        seq![digit_char(n)]
    } else {
        decimal(n / 10).push(digit_char(n % 10))
    }
}

/// The line of one holding: a dollar sign, the ticker, a colon and a space, the shares in
/// decimal, and a line feed.
pub open spec fn holding_line(holding: (Ticker, u32)) -> Seq<char> {
    seq!['$'] + holding.0.text() + seq![':', ' '] + decimal(holding.1 as nat) + seq!['\n']
}

/// The text of a page of holdings: the lines of its holdings, in their order.
pub open spec fn page_text(holdings: Seq<(Ticker, u32)>) -> Seq<char>
    decreases holdings.len(),
{
    if holdings.len() == 0 {
        Seq::empty()
    } else {
        page_text(holdings.drop_last()) + holding_line(holdings.last())
    }
}

/// `n` in decimal digits, with a minus sign in front if it is negative.
pub open spec fn signed_decimal(n: int) -> Seq<char> {
    if n < 0 {
        seq!['-'] + decimal((-n) as nat)
    } else {
        decimal(n as nat)
    }
}

/// The line under a page of a listing: the number of the page, the number of pages, and
/// whose listing it is.
pub open spec fn footer_text(number: int, of: int, id: Seq<char>) -> Seq<char> {
    seq!['P', 'a', 'g', 'e', ':', ' '] + signed_decimal(number) + seq!['/'] + signed_decimal(of)
        + seq![' ', '-', ' '] + id
}

/// The text of one decimal digit.
fn digit_text(d: u64) -> (text: &'static str)
    requires
        d < 10,
    ensures
        text@ == seq![digit_char(d as nat)],
{
    proof {
        reveal_strlit("0");
        reveal_strlit("1");
        reveal_strlit("2");
        reveal_strlit("3");
        reveal_strlit("4");
        reveal_strlit("5");
        reveal_strlit("6");
        reveal_strlit("7");
        reveal_strlit("8");
        reveal_strlit("9");
    }
    let text = if d == 0 {
        "0"
    } else if d == 1 {
        "1"
    } else if d == 2 {
        "2"
    } else if d == 3 {
        "3"
    } else if d == 4 {
        "4"
    } else if d == 5 {
        "5"
    } else if d == 6 {
        "6"
    } else if d == 7 {
        "7"
    } else if d == 8 {
        "8"
    } else {
        "9"
    };
    assert(text@ =~= seq![digit_char(d as nat)]);
    text
}

/// Appends `n` in decimal digits to `text`.
pub fn push_decimal(text: &mut String, n: u64)
    ensures
        final(text)@ == old(text)@ + decimal(n as nat),
    decreases n,
{
    if n >= 10 {
        push_decimal(text, n / 10);
    }
    text.append(digit_text(n % 10));
    assert(text@ =~= old(text)@ + decimal(n as nat));
}

/// Appends `n` in decimal digits to `text`, behind a minus sign if it is negative.
pub fn push_signed(text: &mut String, n: i64)
    ensures
        final(text)@ == old(text)@ + signed_decimal(n as int),
{
    if n < 0 {
        proof {
            reveal_strlit("-");
        }
        text.append("-");
        let size: u64 = (-(n + 1)) as u64 + 1;
        push_decimal(text, size);
        assert(text@ =~= old(text)@ + signed_decimal(n as int));
    } else {
        push_decimal(text, n as u64);
    }
}

/// Writes the line under a page of a listing, for an owner whose id reads `id`.
pub fn footer_with(number: i64, of: i64, id: &str) -> (text: String)
    ensures
        text@ == footer_text(number as int, of as int, id@),
{
    proof {
        reveal_strlit("Page: ");
        reveal_strlit("/");
        reveal_strlit(" - ");
    }
    let mut text = String::new();
    text.append("Page: ");
    push_signed(&mut text, number);
    text.append("/");
    push_signed(&mut text, of);
    text.append(" - ");
    text.append(id);
    assert(text@ =~= footer_text(number as int, of as int, id@));
    text
}

/// Writes the line under a page of the listing of the account `user_id`: the footer of
/// [`footer_with`], for the id as `Uuid` prints it.
pub fn page_footer(number: i64, of: i64, user_id: &uuid::Uuid) -> (text: String)
    ensures
        exists|id: String|
            to_string_from_display_ensures::<uuid::Uuid>(user_id, id) && text@ == footer_text(
                number as int,
                of as int,
                id@,
            ),
{
    let id = user_id.to_string();
    footer_with(number, of, id.as_str())
}

/// The id of the button that leads one page back, in the listing that command `command`
/// opened.
pub open spec fn previous_id(command: u64) -> Seq<char> {
    decimal(command as nat) + seq!['p', 'r', 'e', 'v']
}

/// The id of the button that leads one page on, in the listing that command `command`
/// opened.
pub open spec fn next_id(command: u64) -> Seq<char> {
    decimal(command as nat) + seq!['n', 'e', 'x', 't']
}

/// Names the two buttons of the listing that command `command` opened: first the one that
/// leads back, then the one that leads on.
pub fn button_ids(command: u64) -> (ids: (String, String))
    ensures
        ids.0@ == previous_id(command),
        ids.1@ == next_id(command),
{
    proof {
        reveal_strlit("prev");
        reveal_strlit("next");
    }
    let mut previous = String::new();
    push_decimal(&mut previous, command);
    previous.append("prev");
    let mut next = String::new();
    push_decimal(&mut next, command);
    next.append("next");
    assert(previous@ =~= previous_id(command));
    assert(next@ =~= next_id(command));
    (previous, next)
}

/// Which press the id `pressed` stands for, in a listing whose buttons are named `previous`
/// and `next`.
pub open spec fn spec_press(pressed: Seq<char>, previous: Seq<char>, next: Seq<char>) -> Press {
    if pressed == previous {
        Press::Previous
    } else if pressed == next {
        Press::Next
    } else {
        Press::Unrelated
    }
}

/// Tells the buttons of a listing from everything else that can be pressed.
pub fn press_of(pressed: &String, previous: &String, next: &String) -> (press: Press)
    ensures
        press == spec_press(pressed@, previous@, next@),
{
    if *pressed == *previous {
        Press::Previous
    } else if *pressed == *next {
        Press::Next
    } else {
        Press::Unrelated
    }
}

/// Writes a page of holdings as text, one line for each holding.
pub fn into_page(v: &[(Ticker, u32)]) -> (text: String)
    ensures
        text@ == page_text(v@),
{
    let mut buff = String::new();
    let mut i: usize = 0;
    while i < v.len()
        invariant
            i <= v@.len(),
            buff@ == page_text(v@.take(i as int)),
        decreases v@.len() - i,
    {
        let ghost before = buff@;
        proof {
            reveal_strlit("$");
            reveal_strlit(": ");
            reveal_strlit("\n");
            let upto = v@.take(i + 1);
            assert(upto.drop_last() =~= v@.take(i as int));
            assert(upto.last() == v@[i as int]);
        }
        buff.append("$");
        buff.append(v[i].0.as_str());
        buff.append(": ");
        push_decimal(&mut buff, v[i].1 as u64);
        buff.append("\n");
        assert(buff@ =~= before + holding_line(v@[i as int]));
        i += 1;
    }
    assert(v@.take(i as int) =~= v@);
    buff
}

} // verus!
