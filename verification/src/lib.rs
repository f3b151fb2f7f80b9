//! Sample configuration documents, rendered from example values.
//!
//! A type that implements [`SampleConfig`] can write an example value of
//! itself as a commented sample, in a YAML dialect and in a JSON dialect.
//! Records and enums get their renderers from their definitions, see
//! [`derive`]; the field documentation becomes the comments of the sample.

use vstd::prelude::*;

pub mod attributes;
pub mod decimal;
pub mod derive;
pub mod emit;
pub mod features;
pub mod implementations;
pub mod laws;
pub mod text;

verus! {

/// The shape that a type takes in a sample document.
#[derive(Debug, PartialEq, Eq, Clone, Copy, Structural)]
pub enum OutputType {
    /// A value is put out: the type renders as a single inline token.
    Value,
    /// Fields are put out: the type renders as a block of named or indexed
    /// entries, such as a record or a sequence.
    Fields,
}

/// Generates sample configurations from an example value.
///
/// What an implementation returns is its own affair. The implementations of
/// this crate say in their contracts what they return; for a type parameter
/// they go by the contract of its implementation.
pub trait SampleConfig {
    /// Whether values of this type produce a value (such as a string) or
    /// fields (such as a record). It is a property of the type: no value is
    /// looked at.
    const SAMPLE_OUTPUT_TYPE: OutputType;

    /// Generates the sample of this value in the YAML dialect.
    fn generate_sample_yaml(&self) -> String;

    /// Generates the sample of this value in the JSON dialect.
    fn generate_sample_json(&self) -> String;
}

/// `samples` holds, item by item, a sample in YAML of each of `items`.
pub open spec fn yaml_samples<T: SampleConfig>(items: Seq<T>, samples: Seq<String>) -> bool {
    &&& samples.len() == items.len()
    &&& forall|i: int|
        0 <= i < items.len() ==> call_ensures(
            T::generate_sample_yaml,
            (&items[i],),
            #[trigger] samples[i],
        )
}

/// `samples` holds, item by item, a sample in JSON of each of `items`.
pub open spec fn json_samples<T: SampleConfig>(items: Seq<T>, samples: Seq<String>) -> bool {
    &&& samples.len() == items.len()
    &&& forall|i: int|
        0 <= i < items.len() ==> call_ensures(
            T::generate_sample_json,
            (&items[i],),
            #[trigger] samples[i],
        )
}

} // verus!
