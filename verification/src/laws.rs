//! What holds of the selection and of the whole path from a query to its
//! records.

use vstd::prelude::*;
use crate::date::{Date, first_day_number, lemma_number_lower_bound, lemma_number_orders_dates};
use crate::encode::{encoded_term, is_plain_term, lemma_plain_term_unchanged};
use crate::feed::feed_features;
use crate::filter::{FeatureView, feature_matches, record_of, select, text_or_empty};
use crate::json::{member, parsed_json};
use crate::pipeline::records_for;
use crate::text::{digit, is_substring, lemma_empty_is_substring, padded};
use crate::window::{Window, is_answer_for_day, search_url_of, search_url_text};

verus! {

/// The number of records that the first `n` features yield.
pub open spec fn selected_before(features: Seq<FeatureView>, term: Seq<char>, n: int) -> int {
    select(features.take(n), term).len() as int
}

/// The selection yields at most one record for each feature.
pub proof fn lemma_select_len(features: Seq<FeatureView>, term: Seq<char>)
    ensures
        select(features, term).len() <= features.len(),
    decreases features.len(),
{
    if features.len() > 0 {
        lemma_select_len(features.drop_last(), term);
    }
}

/// A feature that the term is related to yields its record, and the record
/// stands behind the records of the features before it.
pub proof fn lemma_match_is_selected(features: Seq<FeatureView>, term: Seq<char>, i: int)
    requires
        0 <= i < features.len(),
        feature_matches(features[i], term),
    ensures
        0 <= selected_before(features, term, i) < select(features, term).len(),
        select(features, term)[selected_before(features, term, i)] == record_of(features[i]),
    decreases features.len(),
{
    let front = features.drop_last();
    if i == features.len() - 1 {
        assert(features.take(i) =~= front);
    } else {
        lemma_match_is_selected(front, term, i);
        assert(front.take(i) =~= features.take(i));
    }
}

/// Every record of the selection is the record of a feature that the term
/// is related to, and stands behind the records of the features before that
/// one.
pub proof fn lemma_selected_is_match(features: Seq<FeatureView>, term: Seq<char>, k: int)
    requires
        0 <= k < select(features, term).len(),
    ensures
        exists|i: int|
            0 <= i < features.len() && feature_matches(#[trigger] features[i], term)
                && selected_before(features, term, i) == k && select(features, term)[k]
                == record_of(features[i]),
    decreases features.len(),
{
    let front = features.drop_last();
    let last = features.len() - 1;
    if feature_matches(features.last(), term) && k == select(front, term).len() {
        assert(features.take(last) =~= front);
        assert(feature_matches(features[last], term) && selected_before(features, term, last) == k);
    } else {
        lemma_selected_is_match(front, term, k);
        let i = choose|i: int|
            0 <= i < front.len() && feature_matches(#[trigger] front[i], term) && selected_before(
                front,
                term,
                i,
            ) == k && select(front, term)[k] == record_of(front[i]);
        assert(front.take(i) =~= features.take(i));
        assert(feature_matches(features[i], term) && selected_before(features, term, i) == k);
    }
}

/// The records stand in the order of the features that they come from: of
/// two features that the term is related to, the record of the earlier one
/// stands before the record of the later one.
pub proof fn lemma_select_keeps_order(
    features: Seq<FeatureView>,
    term: Seq<char>,
    i: int,
    j: int,
)
    requires
        0 <= i < j < features.len(),
        feature_matches(features[i], term),
        feature_matches(features[j], term),
    ensures
        0 <= selected_before(features, term, i) < selected_before(features, term, j) < select(
            features,
            term,
        ).len(),
        select(features, term)[selected_before(features, term, i)] == record_of(features[i]),
        select(features, term)[selected_before(features, term, j)] == record_of(features[j]),
{
    lemma_match_is_selected(features, term, i);
    lemma_match_is_selected(features, term, j);
    lemma_match_is_selected(features.take(j), term, i);
    assert(features.take(j).take(i) =~= features.take(i));
}

/// Where the term is related to no feature, there is no record.
pub proof fn lemma_no_match_selects_nothing(features: Seq<FeatureView>, term: Seq<char>)
    requires
        forall|i: int| 0 <= i < features.len() ==> !feature_matches(#[trigger] features[i], term),
    ensures
        select(features, term).len() == 0,
{
    if select(features, term).len() > 0 {
        lemma_selected_is_match(features, term, 0);
    }
}

/// A feature that lacks its name, its country or its start date is related
/// to every term: the empty text is a substring of each.
pub proof fn lemma_missing_field_matches_every_term(feature: FeatureView, term: Seq<char>)
    requires
        feature.name is None || feature.country is None || feature.fromdate is None,
    ensures
        feature_matches(feature, term),
{
    lemma_empty_is_substring(term);
}

/// A feature whose name holds the encoded search term yields its record.
pub proof fn lemma_encoded_term_in_name_is_selected(
    feed: Seq<char>,
    term: Seq<char>,
    i: int,
)
    requires
        0 <= i < feed_features(feed).len(),
        is_substring(encoded_term(term), text_or_empty(feed_features(feed)[i].name)),
    ensures
        records_for(feed, term).contains(record_of(feed_features(feed)[i])),
{
    lemma_match_is_selected(feed_features(feed), encoded_term(term), i);
}

/// A search term of letters, digits and `*`, `-`, `.`, `_` that is a
/// substring of the name of a feature has the record of that feature among
/// its records.
pub proof fn lemma_name_substring_is_selected(feed: Seq<char>, term: Seq<char>, i: int)
    requires
        is_plain_term(term),
        0 <= i < feed_features(feed).len(),
        is_substring(term, text_or_empty(feed_features(feed)[i].name)),
    ensures
        records_for(feed, term).contains(record_of(feed_features(feed)[i])),
{
    lemma_plain_term_unchanged(term);
    lemma_encoded_term_in_name_is_selected(feed, term, i);
}

/// A feed document without a member `features` yields no record, whatever
/// the search term is; so does a body that is no JSON document.
pub proof fn lemma_no_features_no_records(feed: Seq<char>, term: Seq<char>)
    requires
        match parsed_json(feed) {
            Some(doc) => member(doc, "features"@) is None,
            None => true,
        },
    ensures
        records_for(feed, term).len() == 0,
{
}

/// A day has one window: the last day fixes the first, which lies before it.
pub proof fn lemma_window_is_unique(a: Window, b: Window)
    requires
        a.wf(),
        b.wf(),
        a.to == b.to,
    ensures
        a == b,
        a.from != a.to,
        a.from.year <= a.to.year,
{
    lemma_number_orders_dates(a.from, b.from);
    lemma_number_orders_dates(a.from, a.to);
}

/// The first day of a window comes before its last day, by year, month and
/// day, and the two are seven days apart.
pub proof fn lemma_window_spans_a_week(window: Window)
    requires
        window.wf(),
    ensures
        window.to.number() - window.from.number() == 7,
        window.from.year < window.to.year || (window.from.year == window.to.year && (
        window.from.month < window.to.month || (window.from.month == window.to.month
            && window.from.day < window.to.day))),
{
    lemma_number_orders_dates(window.from, window.to);
}

/// The address of the feed depends on the day alone: two answers for one
/// day are the same, whenever in the day each was asked for.
pub proof fn lemma_answer_depends_on_day_alone(
    today: Date,
    first: Option<String>,
    second: Option<String>,
)
    requires
        is_answer_for_day(today, first),
        is_answer_for_day(today, second),
    ensures
        first is Some <==> second is Some,
        first is Some ==> first->0@ == second->0@,
{
    lemma_answer_is_some_in_range(today, first);
    lemma_answer_is_some_in_range(today, second);
    if first is Some {
        let a = choose|window: Window|
            window.wf() && window.to == today && first->0@ == #[trigger] search_url_of(window);
        let b = choose|window: Window|
            window.wf() && window.to == today && second->0@ == #[trigger] search_url_of(window);
        lemma_window_is_unique(a, b);
    }
}

/// The address for a day names two days in the form `YYYY-MM-DD`: the day
/// seven days of the calendar before it, and the day itself.
pub proof fn lemma_answer_names_both_days(today: Date, url: String)
    requires
        is_answer_for_day(today, Some(url)),
    ensures
        exists|from: Date|
            from.is_valid() && #[trigger] from.number() == today.number() - 7 && url@
                == search_url_text(from.iso_text(), today.iso_text()),
{
    let w = choose|window: Window|
        window.wf() && window.to == today && url@ == #[trigger] search_url_of(window);
    assert(w.from.is_valid() && w.from.number() == today.number() - 7 && url@ == search_url_text(
        w.from.iso_text(),
        today.iso_text(),
    ));
}

/// An answer for a day is an address exactly where the day exists and the
/// window does not begin before the first date.
pub proof fn lemma_answer_is_some_in_range(today: Date, answer: Option<String>)
    requires
        is_answer_for_day(today, answer),
    ensures
        answer is Some <==> today.is_valid() && today.number() - 7 >= first_day_number(),
{
    if answer is Some {
        let w = choose|window: Window|
            window.wf() && window.to == today && answer->0@ == #[trigger] search_url_of(window);
        lemma_number_lower_bound(w.from);
    }
}

/// The text of a date of the years 0 to 9999 has the form `YYYY-MM-DD`: ten
/// characters, digits but for the two hyphens.
pub proof fn lemma_iso_text_form(date: Date)
    requires
        date.is_valid(),
        0 <= date.year <= 9999,
    ensures
        date.iso_text().len() == 10,
        date.iso_text()[4] == '-',
        date.iso_text()[7] == '-',
        forall|k: int| 0 <= k < 10 && k != 4 && k != 7 ==> '0' <= #[trigger] date.iso_text()[k] <= '9',
        date.iso_text() =~= seq![
            digit((date.year / 1000) as nat),
            digit((date.year / 100) as nat),
            digit((date.year / 10) as nat),
            digit(date.year as nat),
            '-',
            digit((date.month / 10) as nat),
            digit(date.month as nat),
            '-',
            digit((date.day / 10) as nat),
            digit(date.day as nat),
        ],
{
    lemma_padded_four(date.year as nat);
    lemma_padded_two(date.month as nat);
    lemma_padded_two(date.day as nat);
}

/// A number below a hundred, padded to two digits.
pub proof fn lemma_padded_two(n: nat)
    requires
        n < 100,
    ensures
        padded(n, 2) =~= seq![digit(n / 10), digit(n)],
{
    reveal_with_fuel(padded, 3);
}

/// A number below ten thousand, padded to four digits.
pub proof fn lemma_padded_four(n: nat)
    requires
        n < 10000,
    ensures
        padded(n, 4) =~= seq![digit(n / 1000), digit(n / 100), digit(n / 10), digit(n)],
{
    reveal_with_fuel(padded, 5);
    assert(n / 10 / 10 == n / 100);
    assert(n / 10 / 10 / 10 == n / 1000);
}

} // verus!
