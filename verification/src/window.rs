//! The window of days that a query of the feed covers, and the address of
//! the feed for it.

use vstd::prelude::*;
use vstd::string::*;
use crate::date::{Date, FIRST_CLOCK_YEAR, first_day_number, lemma_clock_date_has_window, lemma_number_lower_bound, local_today, checked_sub_days, format_ymd};

verus! {

/// The number of days that the window reaches back from today.
pub const LOOKBACK_DAYS: u64 = 7;

/// The first and the last day of a window, both included.
#[derive(Clone, Copy, Debug, PartialEq, Eq, Structural)]
pub struct Window {
    pub from: Date,
    pub to: Date,
}

impl Window {
    /// Both days exist, and the first is seven days before the last.
    pub open spec fn wf(self) -> bool {
        &&& self.from.is_valid()
        &&& self.to.is_valid()
        &&& self.from.number() == self.to.number() - LOOKBACK_DAYS
    }
}

/// The address of the feed for a window whose days are given as texts.
pub open spec fn search_url_text(from: Seq<char>, to: Seq<char>) -> Seq<char> {
    "https://www.gdacs.org/gdacsapi/api/events/geteventlist/SEARCH"@ + "?fromDate="@ + from
        + "&toDate="@ + to + "&alertlevel=orange;red&eventlist=&country="@
}

/// The address of the feed for the window that ends today.
pub open spec fn search_url_of(window: Window) -> Seq<char> {
    search_url_text(window.from.iso_text(), window.to.iso_text())
}

/// The window that ends on the given day and begins seven days of the
/// calendar before it. There is none where the given day does not exist, or
/// where the first day would lie before the first date.
pub fn lookback_window(today: Date) -> (r: Option<Window>)
    ensures
        r is Some <==> today.is_valid() && today.number() - LOOKBACK_DAYS >= first_day_number(),
        r matches Some(window) ==> window.wf() && window.to == today,
{
    if !today.check() {
        return None;
    }
    match checked_sub_days(today, LOOKBACK_DAYS) {
        Some(from) => {
            proof {
                lemma_number_lower_bound(from);
            }
            Some(Window { from, to: today })
        },
        None => None,
    }
}

/// The address of the feed for a window: the two days in the form
/// `YYYY-MM-DD`, alerts of the levels orange and red, no list of events and
/// no country.
pub fn search_url(window: &Window) -> (url: String)
    requires
        window.wf(),
    ensures
        url@ == search_url_of(*window),
{
    let from = format_ymd(window.from);
    let to = format_ymd(window.to);
    String::from_str("https://www.gdacs.org/gdacsapi/api/events/geteventlist/SEARCH").concat(
        "?fromDate=",
    ).concat(from.as_str()).concat("&toDate=").concat(to.as_str()).concat(
        "&alertlevel=orange;red&eventlist=&country=",
    )
}

/// The address of the feed for the window that ends on the given day.
pub fn search_url_for(today: Date) -> (r: Option<String>)
    ensures
        r is Some <==> today.is_valid() && today.number() - LOOKBACK_DAYS >= first_day_number(),
        r matches Some(url) ==> exists|window: Window|
            window.wf() && window.to == today && url@ == #[trigger] search_url_of(window),
{
    match lookback_window(today) {
        Some(window) => Some(search_url(&window)),
        None => None,
    }
}

/// The address of the feed for the window that ends on the local date of
/// this moment, whatever the time of the day. There always is one: the
/// clock gives no day that lies within a week of the first date.
pub fn current_search_url() -> (r: Option<String>)
    ensures
        r is Some,
        exists|today: Date|
            today.is_valid() && today.year >= FIRST_CLOCK_YEAR
                && #[trigger] is_answer_for_day(today, r),
{
    let today = local_today();
    proof {
        lemma_clock_date_has_window(today);
    }
    let r = search_url_for(today);
    assert(is_answer_for_day(today, r));
    r
}

/// What is owed for a day: the address of the feed for the window that ends
/// on that day, and nothing only where the day does not exist or the window
/// would begin before the first date.
pub open spec fn is_answer_for_day(today: Date, answer: Option<String>) -> bool {
    match answer {
        Some(url) => exists|window: Window|
            window.wf() && window.to == today && url@ == #[trigger] search_url_of(window),
        None => !today.is_valid() || today.number() - LOOKBACK_DAYS < first_day_number(),
    }
}

} // verus!
