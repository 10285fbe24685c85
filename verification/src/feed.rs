//! The features of a feed document.

use vstd::prelude::*;
use vstd::string::*;
use crate::filter::{Feature, FeatureView, feature_views, text_view};
use crate::json::{Json, json_of, parsed_json, member, member_of, text_of, parse_document, get, as_array, as_str};

verus! {

/// What the filter reads of one element of the array `features`: the texts
/// at `properties.name`, `properties.url.report`, `properties.country` and
/// `properties.fromdate`.
pub open spec fn feature_of(item: Json) -> FeatureView {
    let properties = member(item, "properties"@);
    FeatureView {
        name: text_of(member_of(properties, "name"@)),
        report: text_of(member_of(member_of(properties, "url"@), "report"@)),
        country: text_of(member_of(properties, "country"@)),
        fromdate: text_of(member_of(properties, "fromdate"@)),
    }
}

/// The features of a document: the elements of the array under `features`,
/// and none where the document has no such array.
pub open spec fn features_of(doc: Json) -> Seq<FeatureView> {
    match member(doc, "features"@) {
        Some(Json::Array(items)) => Seq::new(items.len(), |i: int| feature_of(items[i])),
        _ => Seq::empty(),
    }
}

/// The features of a feed body; none where the body is not a JSON document.
pub open spec fn feed_features(body: Seq<char>) -> Seq<FeatureView> {
    match parsed_json(body) {
        Some(doc) => features_of(doc),
        None => Seq::empty(),
    }
}

spec fn model_of(value: Option<&serde_json::Value>) -> Option<Json> {
    match value {
        Some(v) => Some(json_of(*v)),
        None => None,
    }
}

fn get_from<'a>(value: Option<&'a serde_json::Value>, key: &str) -> (r: Option<&'a serde_json::Value>)
    ensures
        model_of(r) == member_of(model_of(value), key@),
{
    match value {
        Some(v) => get(v, key),
        None => None,
    }
}

fn text_from(value: Option<&serde_json::Value>) -> (r: Option<String>)
    ensures
        text_view(r) == text_of(model_of(value)),
{
    match value {
        Some(v) => match as_str(v) {
            Some(s) => Some(String::from_str(s)),
            None => None,
        },
        None => None,
    }
}

fn read_feature(item: &serde_json::Value) -> (feature: Feature)
    ensures
        feature@ == feature_of(json_of(*item)),
{
    let properties = get(item, "properties");
    Feature {
        name: text_from(get_from(properties, "name")),
        report: text_from(get_from(get_from(properties, "url"), "report")),
        country: text_from(get_from(properties, "country")),
        fromdate: text_from(get_from(properties, "fromdate")),
    }
}

fn read_features(doc: &serde_json::Value) -> (features: Vec<Feature>)
    ensures
        feature_views(features@) == features_of(json_of(*doc)),
{
    let mut features: Vec<Feature> = Vec::new();
    match get(doc, "features") {
        Some(list) => match as_array(list) {
            Some(items) => {
                let mut i: usize = 0;
                while i < items.len()
                    invariant
                        i <= items@.len(),
                        features@.len() == i,
                        forall|k: int|
                            0 <= k < i ==> (#[trigger] features@[k])@ == feature_of(
                                json_of(items@[k]),
                            ),
                    decreases items.len() - i,
                {
                    let feature = read_feature(&items[i]);
                    features.push(feature);
                    i += 1;
                }
                assert(feature_views(features@) =~= features_of(json_of(*doc)));
            },
            None => {
                assert(feature_views(features@) =~= features_of(json_of(*doc)));
            },
        },
        None => {
            assert(feature_views(features@) =~= features_of(json_of(*doc)));
        },
    }
    features
}

/// Reads the features of a feed body. A body that is not a JSON document,
/// or that has no array under `features`, has no features.
pub fn parse_features(body: &str) -> (features: Vec<Feature>)
    ensures
        feature_views(features@) == feed_features(body@),
{
    match parse_document(body) {
        Ok(doc) => read_features(&doc),
        Err(_) => {
            let features: Vec<Feature> = Vec::new();
            assert(feature_views(features@) =~= feed_features(body@));
            features
        },
    }
}

} // verus!
