use std::borrow::Cow;
use std::path::{Path, PathBuf};

use sample_config::emit::{
    generate_json_sequence, generate_yaml_sequence, push_block, push_comment, quote, Dialect,
};
use sample_config::{OutputType, SampleConfig};

#[test]
fn text_renders_between_double_quotes() {
    assert_eq!("fluffy".generate_sample_yaml(), "\"fluffy\"");
    assert_eq!("fluffy".generate_sample_json(), "\"fluffy\"");
    assert_eq!(String::from("Cats are cute.").generate_sample_yaml(), "\"Cats are cute.\"");
    assert_eq!(String::from("Cats are cute.").generate_sample_json(), "\"Cats are cute.\"");
    assert_eq!("".generate_sample_yaml(), "\"\"");
    assert_eq!(<String as SampleConfig>::SAMPLE_OUTPUT_TYPE, OutputType::Value);
    assert_eq!(<str as SampleConfig>::SAMPLE_OUTPUT_TYPE, OutputType::Value);
}

#[test]
fn quotes_inside_a_text_are_not_escaped() {
    assert_eq!("say \"hi\"".generate_sample_yaml(), "\"say \"hi\"\"");
    assert_eq!("back\\slash".generate_sample_json(), "\"back\\slash\"");
    assert_eq!(quote("a\nb"), "\"a\nb\"");
}

#[test]
fn truth_values_render_unquoted() {
    assert_eq!(true.generate_sample_yaml(), "true");
    assert_eq!(false.generate_sample_yaml(), "false");
    assert_eq!(true.generate_sample_json(), "true");
    assert_eq!(false.generate_sample_json(), "false");
    assert_eq!(<bool as SampleConfig>::SAMPLE_OUTPUT_TYPE, OutputType::Value);
}

#[test]
fn leaf_samples_are_repeatable() {
    let text = String::from("fluffy");
    assert_eq!(text.generate_sample_yaml(), text.generate_sample_yaml());
    assert_eq!(text.generate_sample_json(), text.clone().generate_sample_json());
    assert_eq!(17u32.generate_sample_yaml(), 17u32.generate_sample_yaml());
    assert_eq!((-17i64).generate_sample_json(), (-17i64).generate_sample_json());
    assert_eq!(true.generate_sample_yaml(), true.generate_sample_yaml());
    let path = PathBuf::from("file.txt");
    assert_eq!(path.generate_sample_yaml(), path.clone().generate_sample_yaml());
}

#[test]
fn paths_render_as_quoted_text() {
    assert_eq!(PathBuf::from("file.txt").generate_sample_yaml(), "\"file.txt\"");
    assert_eq!(PathBuf::from("/etc/app/config.yaml").generate_sample_json(), "\"/etc/app/config.yaml\"");
    assert_eq!(Path::new("dir/file.txt").generate_sample_yaml(), "\"dir/file.txt\"");
    assert_eq!(Path::new("").generate_sample_json(), "\"\"");
    assert_eq!(<PathBuf as SampleConfig>::SAMPLE_OUTPUT_TYPE, OutputType::Value);
    assert_eq!(<Path as SampleConfig>::SAMPLE_OUTPUT_TYPE, OutputType::Value);
}

#[test]
fn wrappers_render_what_they_hold() {
    let number = 5u8;
    assert_eq!((&number).generate_sample_yaml(), "5");
    assert_eq!((&number).generate_sample_json(), "5");
    let mut text = String::from("x");
    assert_eq!((&mut text).generate_sample_yaml(), "\"x\"");
    assert_eq!((&mut text).generate_sample_json(), "\"x\"");
    assert_eq!(Box::new(true).generate_sample_yaml(), "true");
    assert_eq!(Box::new(PathBuf::from("file.txt")).generate_sample_json(), "\"file.txt\"");
    let borrowed: Cow<'_, u16> = Cow::Borrowed(&7);
    let owned: Cow<'_, String> = Cow::Owned(String::from("own"));
    assert_eq!(borrowed.generate_sample_yaml(), "7");
    assert_eq!(borrowed.generate_sample_json(), "7");
    assert_eq!(owned.generate_sample_yaml(), "\"own\"");
    assert_eq!(owned.generate_sample_json(), "\"own\"");
}

#[test]
fn wrappers_have_the_shape_of_what_they_hold() {
    assert_eq!(<&u8 as SampleConfig>::SAMPLE_OUTPUT_TYPE, OutputType::Value);
    assert_eq!(<&mut u8 as SampleConfig>::SAMPLE_OUTPUT_TYPE, OutputType::Value);
    assert_eq!(<Box<String> as SampleConfig>::SAMPLE_OUTPUT_TYPE, OutputType::Value);
    assert_eq!(<Cow<'static, bool> as SampleConfig>::SAMPLE_OUTPUT_TYPE, OutputType::Value);
    assert_eq!(<Option<u8> as SampleConfig>::SAMPLE_OUTPUT_TYPE, OutputType::Value);
    assert_eq!(<&Vec<u8> as SampleConfig>::SAMPLE_OUTPUT_TYPE, OutputType::Fields);
    assert_eq!(<Box<Vec<u8>> as SampleConfig>::SAMPLE_OUTPUT_TYPE, OutputType::Fields);
    assert_eq!(<Option<Vec<u8>> as SampleConfig>::SAMPLE_OUTPUT_TYPE, OutputType::Fields);
    assert_eq!(<Option<Box<Option<Vec<u8>>>> as SampleConfig>::SAMPLE_OUTPUT_TYPE, OutputType::Fields);
}

#[test]
fn sequences_are_fields_whatever_they_hold() {
    assert_eq!(<Vec<u8> as SampleConfig>::SAMPLE_OUTPUT_TYPE, OutputType::Fields);
    assert_eq!(<Vec<String> as SampleConfig>::SAMPLE_OUTPUT_TYPE, OutputType::Fields);
    assert_eq!(<Vec<Vec<bool>> as SampleConfig>::SAMPLE_OUTPUT_TYPE, OutputType::Fields);
    assert_eq!(<[u8] as SampleConfig>::SAMPLE_OUTPUT_TYPE, OutputType::Fields);
    assert_eq!(<[Option<String>] as SampleConfig>::SAMPLE_OUTPUT_TYPE, OutputType::Fields);
}

#[test]
fn absent_values_render_as_null() {
    assert_eq!(None::<u8>.generate_sample_yaml(), "null");
    assert_eq!(None::<u8>.generate_sample_json(), "null");
    assert_eq!(None::<String>.generate_sample_yaml(), "null");
    assert_eq!(None::<Vec<String>>.generate_sample_json(), "null");
}

#[test]
fn absent_values_render_as_null_at_any_depth() {
    assert_eq!(Some(None::<u8>).generate_sample_yaml(), "null");
    assert_eq!(Some(Some(None::<bool>)).generate_sample_json(), "null");
    assert_eq!(Box::new(None::<String>).generate_sample_yaml(), "null");
    assert_eq!((&None::<String>).generate_sample_json(), "null");
    assert_eq!(Some(Box::new(Some(Box::new(None::<u8>)))).generate_sample_yaml(), "null");
    let absent: Cow<'_, Option<u8>> = Cow::Owned(None);
    assert_eq!(absent.generate_sample_json(), "null");
    assert_eq!(vec![None::<u8>, Some(1)].generate_sample_yaml(), "- null\n- 1\n");
    assert_eq!(vec![Some(None::<u8>), None].generate_sample_json(), "[\n  null,\n  null\n]\n");
    assert_eq!(
        vec![None, Some(vec![1u8])].generate_sample_yaml(),
        "- \n  null\n- \n  - 1\n"
    );
}

#[test]
fn present_values_render_as_what_they_hold() {
    assert_eq!(Some(3u8).generate_sample_yaml(), "3");
    assert_eq!(Some(String::from("Cats are cute.")).generate_sample_json(), "\"Cats are cute.\"");
    assert_eq!(Some(vec![1u8, 2]).generate_sample_yaml(), "- 1\n- 2\n");
    assert_eq!(Some(false).generate_sample_json(), "false");
}

#[test]
fn empty_sequences_render_as_brackets() {
    assert_eq!(Vec::<u8>::new().generate_sample_yaml(), "[]");
    assert_eq!(Vec::<u8>::new().generate_sample_json(), "[]");
    assert_eq!(Vec::<String>::new().generate_sample_yaml(), "[]");
    assert_eq!(Vec::<Vec<String>>::new().generate_sample_json(), "[]");
    assert_eq!(Vec::<Option<PathBuf>>::new().generate_sample_yaml(), "[]");
    let none: [bool; 0] = [];
    assert_eq!(none[..].generate_sample_yaml(), "[]");
    assert_eq!(none[..].generate_sample_json(), "[]");
    assert_eq!(Some(Vec::<i64>::new()).generate_sample_yaml(), "[]");
    assert_eq!(Box::new(Vec::<i64>::new()).generate_sample_json(), "[]");
}

#[test]
fn sequences_of_values_in_yaml() {
    assert_eq!(vec![1usize, 2, 3].generate_sample_yaml(), "- 1\n- 2\n- 3\n");
    assert_eq!(vec![String::from("a")].generate_sample_yaml(), "- \"a\"\n");
    assert_eq!([true, false][..].generate_sample_yaml(), "- true\n- false\n");
}

#[test]
fn sequences_of_values_in_json() {
    assert_eq!(vec![1usize, 2, 3].generate_sample_json(), "[\n  1,\n  2,\n  3\n]\n");
    assert_eq!(vec![String::from("a")].generate_sample_json(), "[\n  \"a\"\n]\n");
    assert_eq!([true, false][..].generate_sample_json(), "[\n  true,\n  false\n]\n");
}

#[test]
fn sequences_of_sequences() {
    let nested = vec![vec![1u8, 2], vec![3]];
    assert_eq!(nested.generate_sample_yaml(), "- \n  - 1\n  - 2\n- \n  - 3\n");
    assert_eq!(nested.generate_sample_json(), "[\n  [\n    1,\n    2\n  ],\n  [\n    3\n  ]\n]\n");
    let empty = vec![Vec::<u8>::new(), Vec::new()];
    assert_eq!(empty.generate_sample_yaml(), "- \n  []\n- \n  []\n");
    assert_eq!(empty.generate_sample_json(), "[\n  [],\n  []\n]\n");
    let mixed = vec![vec![1u8, 2], vec![]];
    assert_eq!(mixed.generate_sample_yaml(), "- \n  - 1\n  - 2\n- \n  []\n");
    assert_eq!(mixed.generate_sample_json(), "[\n  [\n    1,\n    2\n  ],\n  []\n]\n");
}

#[test]
fn sequences_keep_the_order_of_their_items() {
    assert_eq!(vec![3u8, 1, 2].generate_sample_yaml(), "- 3\n- 1\n- 2\n");
    assert_eq!(vec![3u8, 1, 2].generate_sample_json(), "[\n  3,\n  1,\n  2\n]\n");
}

#[test]
fn a_sequence_from_the_samples_of_its_items() {
    let blocks = vec![String::from("a: 1\nb: 2\n"), String::from("a: 3\nb: 4\n")];
    assert_eq!(
        generate_yaml_sequence(OutputType::Fields, &blocks),
        "- \n  a: 1\n  b: 2\n- \n  a: 3\n  b: 4\n"
    );
    let objects = vec![String::from("{\n  \"a\": 1\n}\n"), String::from("{\n  \"a\": 3\n}\n")];
    assert_eq!(
        generate_json_sequence(OutputType::Fields, &objects),
        "[\n  {\n    \"a\": 1\n  },\n  {\n    \"a\": 3\n  }\n]\n"
    );
    let values = vec![String::from("1"), String::from("2"), String::from("3")];
    assert_eq!(generate_yaml_sequence(OutputType::Value, &values), "- 1\n- 2\n- 3\n");
    assert_eq!(generate_json_sequence(OutputType::Value, &values), "[\n  1,\n  2,\n  3\n]\n");
    assert_eq!(generate_yaml_sequence(OutputType::Value, &Vec::new()), "[]");
    assert_eq!(generate_yaml_sequence(OutputType::Fields, &Vec::new()), "[]");
    assert_eq!(generate_json_sequence(OutputType::Value, &Vec::new()), "[]");
    assert_eq!(generate_json_sequence(OutputType::Fields, &Vec::new()), "[]");
}

#[test]
fn a_block_moves_two_spaces_to_the_right() {
    let mut sample = String::from("sub:\n  ");
    push_block(&mut sample, "items:\n  []\n");
    assert_eq!(sample, "sub:\n  items:\n    []");
    let mut sample = String::new();
    push_block(&mut sample, "\n\n a: 1\n\n");
    assert_eq!(sample, "a: 1");
    let mut sample = String::from("x");
    push_block(&mut sample, "");
    assert_eq!(sample, "x");
}

#[test]
fn documentation_becomes_comment_lines() {
    let mut sample = String::new();
    push_comment(&mut sample, " Level.\n", Dialect::Yaml);
    assert_eq!(sample, "# Level.\n");
    let mut sample = String::new();
    push_comment(&mut sample, " Level.\n", Dialect::Json);
    assert_eq!(sample, "// Level.\n");
    let mut sample = String::from("a: 1\n");
    push_comment(&mut sample, " Example field 2.\n Has multiple lines.\n", Dialect::Yaml);
    assert_eq!(sample, "a: 1\n# Example field 2.\n# Has multiple lines.\n");
    let mut sample = String::new();
    push_comment(&mut sample, " Example field 2.\n Has multiple lines.\n", Dialect::Json);
    assert_eq!(sample, "// Example field 2.\n// Has multiple lines.\n");
}

#[test]
fn blank_documentation_yields_no_comment() {
    for dialect in [Dialect::Yaml, Dialect::Json] {
        for doc in ["", "\n", "  \n\t\n", " "] {
            let mut sample = String::from("kept");
            push_comment(&mut sample, doc, dialect);
            assert_eq!(sample, "kept");
        }
    }
}
