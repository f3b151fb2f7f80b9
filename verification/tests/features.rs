use sample_config::attributes::Attribute;
use sample_config::derive::{
    derive_sample_config, CompositeRenderer, Data, DeriveInput, Derived, Field, Fields,
};
use sample_config::{OutputType, SampleConfig};
use tracing::level_filters::LevelFilter;
use tracing::Level;
use url::Url;

/// A documentation attribute, as `/// text` leaves it on a field.
fn doc(text: &str) -> Attribute {
    Attribute { path: "doc".to_owned(), value: Some(text.to_owned()) }
}

fn field(docs: &[&str], name: &str, output_type: OutputType) -> Field {
    Field {
        attrs: docs.iter().map(|text| doc(text)).collect(),
        ident: Some(name.to_owned()),
        output_type,
    }
}

fn record(name: &str, fields: Vec<Field>) -> CompositeRenderer {
    let input =
        DeriveInput { ident: name.to_owned(), generics: 0, data: Data::Struct(Fields::Named(fields)) };
    match derive_sample_config(input) {
        Ok(Derived::Composite(renderer)) => renderer,
        other => panic!("no renderer for a record: {:?}", other),
    }
}

#[derive(Debug, PartialEq, Eq)]
struct UrlConfig {
    url: Url,
}

impl UrlConfig {
    fn renderer() -> CompositeRenderer {
        record("UrlConfig", vec![field(&[], "url", <Url as SampleConfig>::SAMPLE_OUTPUT_TYPE)])
    }
}

impl SampleConfig for UrlConfig {
    const SAMPLE_OUTPUT_TYPE: OutputType = OutputType::Fields;

    fn generate_sample_yaml(&self) -> String {
        Self::renderer().generate_sample_yaml(&vec![self.url.generate_sample_yaml()])
    }

    fn generate_sample_json(&self) -> String {
        Self::renderer().generate_sample_json(&vec![self.url.generate_sample_json()])
    }
}

#[test]
fn url_sample_yaml() {
    let config = UrlConfig { url: "http://example.com/".parse().expect("parsing URL") };
    let generated = config.generate_sample_yaml();
    let expected = "url: \"http://example.com/\"\n";
    assert_eq!(&generated, expected);

    let document: serde_yaml::Value =
        serde_yaml::from_str(expected).expect("deserialize expected YAML");
    let url = document.get("url").and_then(|url| url.as_str()).expect("a text under `url`");
    let deserialized = UrlConfig { url: url.parse().expect("parsing URL") };
    assert_eq!(deserialized, config);
}

#[test]
fn url_sample_json() {
    let config = UrlConfig { url: "http://example.com/".parse().expect("parsing URL") };
    let generated = config.generate_sample_json();
    let expected = "{\n  \"url\": \"http://example.com/\"\n}\n";
    assert_eq!(&generated, expected);

    let document: serde_json::Value = json5::from_str(expected).expect("deserialize expected JSON");
    let url = document.get("url").and_then(|url| url.as_str()).expect("a text under `url`");
    let deserialized = UrlConfig { url: url.parse().expect("parsing URL") };
    assert_eq!(deserialized, config);
}

#[derive(Debug)]
struct TracingConfig {
    /// Level.
    level: Level,
    /// Filter.
    filter: LevelFilter,
}

impl TracingConfig {
    fn renderer() -> CompositeRenderer {
        record(
            "TracingConfig",
            vec![
                field(&[" Level."], "level", <Level as SampleConfig>::SAMPLE_OUTPUT_TYPE),
                field(&[" Filter."], "filter", <LevelFilter as SampleConfig>::SAMPLE_OUTPUT_TYPE),
            ],
        )
    }
}

impl SampleConfig for TracingConfig {
    const SAMPLE_OUTPUT_TYPE: OutputType = OutputType::Fields;

    fn generate_sample_yaml(&self) -> String {
        Self::renderer().generate_sample_yaml(&vec![
            self.level.generate_sample_yaml(),
            self.filter.generate_sample_yaml(),
        ])
    }

    fn generate_sample_json(&self) -> String {
        Self::renderer().generate_sample_json(&vec![
            self.level.generate_sample_json(),
            self.filter.generate_sample_json(),
        ])
    }
}

#[test]
fn tracing_sample_yaml() {
    let config = TracingConfig { level: Level::TRACE, filter: LevelFilter::OFF };
    let generated = config.generate_sample_yaml();
    let expected = "# Level.\nlevel: \"TRACE\"\n# Filter.\nfilter: \"off\"\n";
    assert_eq!(&generated, expected);
}

#[test]
fn tracing_sample_json() {
    let config = TracingConfig { level: Level::TRACE, filter: LevelFilter::OFF };
    let generated = config.generate_sample_json();
    let expected =
        "{\n  // Level.\n  \"level\": \"TRACE\",\n  // Filter.\n  \"filter\": \"off\"\n}\n";
    assert_eq!(&generated, expected);
}

#[test]
fn every_level_renders_as_its_name() {
    let levels = [
        (Level::TRACE, "\"TRACE\""),
        (Level::DEBUG, "\"DEBUG\""),
        (Level::INFO, "\"INFO\""),
        (Level::WARN, "\"WARN\""),
        (Level::ERROR, "\"ERROR\""),
    ];
    for (level, expected) in levels {
        assert_eq!(level.generate_sample_yaml(), expected);
        assert_eq!(level.generate_sample_json(), expected);
    }
    assert_eq!(<Level as SampleConfig>::SAMPLE_OUTPUT_TYPE, OutputType::Value);
}

#[test]
fn every_level_filter_renders_as_its_name() {
    let filters = [
        (LevelFilter::OFF, "\"off\""),
        (LevelFilter::ERROR, "\"error\""),
        (LevelFilter::WARN, "\"warn\""),
        (LevelFilter::INFO, "\"info\""),
        (LevelFilter::DEBUG, "\"debug\""),
        (LevelFilter::TRACE, "\"trace\""),
    ];
    for (filter, expected) in filters {
        assert_eq!(filter.generate_sample_yaml(), expected);
        assert_eq!(filter.generate_sample_json(), expected);
    }
    assert_eq!(<LevelFilter as SampleConfig>::SAMPLE_OUTPUT_TYPE, OutputType::Value);
}

#[test]
fn url_renders_as_its_serialization() {
    let url: Url = "HTTP://Example.COM:80/a b?q=1#top".parse().expect("parsing URL");
    assert_eq!(url.generate_sample_yaml(), "\"http://example.com/a%20b?q=1#top\"");
    assert_eq!(url.generate_sample_json(), "\"http://example.com/a%20b?q=1#top\"");
    assert_eq!(<Url as SampleConfig>::SAMPLE_OUTPUT_TYPE, OutputType::Value);
}

#[test]
fn url_samples_are_repeatable() {
    let first: Url = "https://user@example.org/path".parse().expect("parsing URL");
    let second: Url = "https://user@example.org/path".parse().expect("parsing URL");
    assert_eq!(first.generate_sample_yaml(), second.generate_sample_yaml());
    assert_eq!(first.generate_sample_yaml(), first.generate_sample_yaml());
    assert_eq!(first.generate_sample_json(), second.generate_sample_json());
}
