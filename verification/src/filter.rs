//! Features of the feed, the records made from them, and the selection of
//! the features that a search term is related to.

use vstd::prelude::*;
use vstd::string::*;
use crate::text::{related, texts_related};

verus! {

/// What the filter reads of one feature of the feed. A field is `None`
/// where the feed does not give it as a string.
#[derive(Clone, Debug)]
pub struct Feature {
    pub name: Option<String>,
    pub report: Option<String>,
    pub country: Option<String>,
    pub fromdate: Option<String>,
}

/// The mathematical value of a [`Feature`].
pub struct FeatureView {
    pub name: Option<Seq<char>>,
    pub report: Option<Seq<char>>,
    pub country: Option<Seq<char>>,
    pub fromdate: Option<Seq<char>>,
}

/// One result record: the address of the report and a one-line summary.
#[derive(Clone, Debug)]
pub struct Embryo {
    pub url: String,
    pub resume: String,
}

/// The mathematical value of an [`Embryo`].
pub struct EmbryoView {
    pub url: Seq<char>,
    pub resume: Seq<char>,
}

pub open spec fn text_view(field: Option<String>) -> Option<Seq<char>> {
    match field {
        Some(s) => Some(s@),
        None => None,
    }
}

impl View for Feature {
    type V = FeatureView;

    open spec fn view(&self) -> FeatureView {
        FeatureView {
            name: text_view(self.name),
            report: text_view(self.report),
            country: text_view(self.country),
            fromdate: text_view(self.fromdate),
        }
    }
}

impl View for Embryo {
    type V = EmbryoView;

    open spec fn view(&self) -> EmbryoView {
        EmbryoView { url: self.url@, resume: self.resume@ }
    }
}

/// The views of a list of features, in order.
pub open spec fn feature_views(features: Seq<Feature>) -> Seq<FeatureView> {
    Seq::new(features.len(), |i: int| features[i]@)
}

/// The views of a list of records, in order.
pub open spec fn embryo_views(records: Seq<Embryo>) -> Seq<EmbryoView> {
    Seq::new(records.len(), |i: int| records[i]@)
}

/// The text of a field, or the empty text where the feed gave none.
pub open spec fn text_or_empty(field: Option<Seq<char>>) -> Seq<char> {
    match field {
        Some(s) => s,
        None => Seq::empty(),
    }
}

/// The address of the report, or `N/A` where the feed gave none.
pub open spec fn report_or_sentinel(field: Option<Seq<char>>) -> Seq<char> {
    match field {
        Some(s) => s,
        None => seq!['N', '/', 'A'],
    }
}

/// The summary line: `{name} : {country} - from {fromdate}`.
pub open spec fn resume_of(name: Seq<char>, country: Seq<char>, fromdate: Seq<char>) -> Seq<char> {
    name + seq![' ', ':', ' '] + country + seq![' ', '-', ' ', 'f', 'r', 'o', 'm', ' '] + fromdate
}

/// The term is related to the name, the country or the start date.
pub open spec fn feature_matches(feature: FeatureView, term: Seq<char>) -> bool {
    related(term, text_or_empty(feature.name)) || related(term, text_or_empty(feature.country))
        || related(term, text_or_empty(feature.fromdate))
}

/// The record made from a feature.
pub open spec fn record_of(feature: FeatureView) -> EmbryoView {
    EmbryoView {
        url: report_or_sentinel(feature.report),
        resume: resume_of(
            text_or_empty(feature.name),
            text_or_empty(feature.country),
            text_or_empty(feature.fromdate),
        ),
    }
}

/// The records of the features that the term is related to, in the order of
/// the features.
pub open spec fn select(features: Seq<FeatureView>, term: Seq<char>) -> Seq<EmbryoView>
    decreases features.len(),
{
    if features.len() == 0 {
        Seq::empty()
    } else if feature_matches(features.last(), term) {
        select(features.drop_last(), term).push(record_of(features.last()))
    } else {
        select(features.drop_last(), term)
    }
}

fn field_text(field: &Option<String>) -> (text: &str)
    ensures
        text@ == text_or_empty(text_view(*field)),
{
    match field {
        Some(s) => s.as_str(),
        None => {
            proof {
                reveal_strlit("");
            }
            assert(""@ =~= Seq::<char>::empty());
            ""
        },
    }
}

impl Feature {
    /// Whether the term is related to the name, the country or the start
    /// date of the feature.
    pub fn matches(&self, term: &str) -> (r: bool)
        ensures
            r == feature_matches(self@, term@),
    {
        texts_related(term, field_text(&self.name)) || texts_related(
            term,
            field_text(&self.country),
        ) || texts_related(term, field_text(&self.fromdate))
    }

    /// The record made from the feature.
    pub fn to_embryo(&self) -> (record: Embryo)
        ensures
            record@ == record_of(self@),
    {
        let url = match &self.report {
            Some(s) => s.clone(),
            None => {
                proof {
                    reveal_strlit("N/A");
                }
                assert("N/A"@ =~= seq!['N', '/', 'A']);
                String::from_str("N/A")
            },
        };
        proof {
            reveal_strlit(" : ");
            reveal_strlit(" - from ");
        }
        assert(" : "@ =~= seq![' ', ':', ' ']);
        assert(" - from "@ =~= seq![' ', '-', ' ', 'f', 'r', 'o', 'm', ' ']);
        let resume = String::from_str(field_text(&self.name)).concat(" : ").concat(
            field_text(&self.country),
        ).concat(" - from ").concat(field_text(&self.fromdate));
        Embryo { url, resume }
    }
}

/// The records of the features that the search term is related to, in the
/// order of the features. The term is compared as it is given.
pub fn select_matching(features: &Vec<Feature>, term: &str) -> (records: Vec<Embryo>)
    ensures
        embryo_views(records@) == select(feature_views(features@), term@),
{
    let mut records: Vec<Embryo> = Vec::new();
    let mut i: usize = 0;
    while i < features.len()
        invariant
            i <= features.len(),
            embryo_views(records@) == select(feature_views(features@).take(i as int), term@),
        decreases features.len() - i,
    {
        let feature = &features[i];
        proof {
            let all = feature_views(features@);
            assert(all.take(i + 1).drop_last() =~= all.take(i as int));
            assert(all.take(i + 1).last() == feature@);
        }
        if feature.matches(term) {
            let ghost before = records@;
            let record = feature.to_embryo();
            records.push(record);
            assert(embryo_views(records@) =~= embryo_views(before).push(record@));
        }
        i += 1;
    }
    assert(feature_views(features@).take(i as int) =~= feature_views(features@));
    records
}

} // verus!
