//! Implementations of [`SampleConfig`] for types of other crates: URLs, and
//! the levels of `tracing`.

use tracing::level_filters::LevelFilter;
use tracing::Level;
use url::Url;
use vstd::prelude::*;
use crate::emit::{quote, quoted};
use crate::{OutputType, SampleConfig};

verus! {

/// `url::Url`, carried through as it is: nothing inside it is looked at.
#[verifier::external_type_specification]
#[verifier::external_body]
pub struct ExUrl(Url);

/// `tracing::Level`, carried through as it is.
#[verifier::external_type_specification]
#[verifier::external_body]
pub struct ExLevel(Level);

/// `tracing::level_filters::LevelFilter`, carried through as it is.
#[verifier::external_type_specification]
#[verifier::external_body]
pub struct ExLevelFilter(LevelFilter);

/// The serialization of a URL.
pub uninterp spec fn url_serialization(url: Url) -> Seq<char>;

/// The name of a level.
pub uninterp spec fn level_name(level: Level) -> Seq<char>;

/// The name of a level filter.
pub uninterp spec fn level_filter_name(filter: LevelFilter) -> Seq<char>;

/// `Display` of `url::Url`: the serialization that the URL holds. It depends
/// on the URL alone.
#[verifier::external_body]
fn url_text(url: &Url) -> (text: String)
    ensures
        text@ == url_serialization(*url),
{
    url.to_string()
}

/// `Display` of `tracing::Level`: the name of the level, one fixed word for
/// each of the five levels.
#[verifier::external_body]
fn level_text(level: &Level) -> (text: String)
    ensures
        text@ == level_name(*level),
{
    level.to_string()
}

/// `Display` of `tracing::level_filters::LevelFilter`: the name of the
/// filter, one fixed word for each of the six filters.
#[verifier::external_body]
fn level_filter_text(filter: &LevelFilter) -> (text: String)
    ensures
        text@ == level_filter_name(*filter),
{
    filter.to_string()
}

impl SampleConfig for Url {
    const SAMPLE_OUTPUT_TYPE: OutputType = OutputType::Value;

    fn generate_sample_yaml(&self) -> (sample: String)
        ensures
            sample@ == quoted(url_serialization(*self)),
    {
        quote(url_text(self).as_str())
    }

    fn generate_sample_json(&self) -> (sample: String)
        ensures
            sample@ == quoted(url_serialization(*self)),
    {
        quote(url_text(self).as_str())
    }
}

impl SampleConfig for Level {
    const SAMPLE_OUTPUT_TYPE: OutputType = OutputType::Value;

    fn generate_sample_yaml(&self) -> (sample: String)
        ensures
            sample@ == quoted(level_name(*self)),
    {
        quote(level_text(self).as_str())
    }

    fn generate_sample_json(&self) -> (sample: String)
        ensures
            sample@ == quoted(level_name(*self)),
    {
        quote(level_text(self).as_str())
    }
}

impl SampleConfig for LevelFilter {
    const SAMPLE_OUTPUT_TYPE: OutputType = OutputType::Value;

    fn generate_sample_yaml(&self) -> (sample: String)
        ensures
            sample@ == quoted(level_filter_name(*self)),
    {
        quote(level_filter_text(self).as_str())
    }

    fn generate_sample_json(&self) -> (sample: String)
        ensures
            sample@ == quoted(level_filter_name(*self)),
    {
        quote(level_filter_text(self).as_str())
    }
}

/// URLs, levels and level filters have the shape of a value.
pub proof fn lemma_features_are_values()
    ensures
        <Url as SampleConfig>::SAMPLE_OUTPUT_TYPE == OutputType::Value,
        <Level as SampleConfig>::SAMPLE_OUTPUT_TYPE == OutputType::Value,
        <LevelFilter as SampleConfig>::SAMPLE_OUTPUT_TYPE == OutputType::Value,
{
}

} // verus!
