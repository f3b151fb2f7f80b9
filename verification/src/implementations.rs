//! Implementations of [`SampleConfig`] for types of the standard library.

use std::borrow::Cow;
use std::path::{Path, PathBuf};
use vstd::prelude::*;
use crate::decimal::{decimal, signed, signed_decimal, unsigned};
use crate::emit::{
    generate_json_sequence, generate_yaml_sequence, json_sequence, quote, quoted, texts,
    yaml_sequence,
};
use crate::{json_samples, yaml_samples, OutputType, SampleConfig};

verus! {

impl SampleConfig for String {
    const SAMPLE_OUTPUT_TYPE: OutputType = OutputType::Value;

    fn generate_sample_yaml(&self) -> (sample: String)
        ensures
            sample@ == quoted(self@),
    {
        quote(self.as_str())
    }

    fn generate_sample_json(&self) -> (sample: String)
        ensures
            sample@ == quoted(self@),
    {
        quote(self.as_str())
    }
}

impl SampleConfig for str {
    const SAMPLE_OUTPUT_TYPE: OutputType = OutputType::Value;

    fn generate_sample_yaml(&self) -> (sample: String)
        ensures
            sample@ == quoted(self@),
    {
        quote(self)
    }

    fn generate_sample_json(&self) -> (sample: String)
        ensures
            sample@ == quoted(self@),
    {
        quote(self)
    }
}

/// A truth value as text.
pub open spec fn bool_text(value: bool) -> Seq<char> {
    if value {
        "true"@
    } else {
        "false"@
    }
}

impl SampleConfig for bool {
    const SAMPLE_OUTPUT_TYPE: OutputType = OutputType::Value;

    fn generate_sample_yaml(&self) -> (sample: String)
        ensures
            sample@ == bool_text(*self),
    {
        if *self {
            "true".to_owned()
        } else {
            "false".to_owned()
        }
    }

    fn generate_sample_json(&self) -> (sample: String)
        ensures
            sample@ == bool_text(*self),
    {
        if *self {
            "true".to_owned()
        } else {
            "false".to_owned()
        }
    }
}

impl SampleConfig for usize {
    const SAMPLE_OUTPUT_TYPE: OutputType = OutputType::Value;

    fn generate_sample_yaml(&self) -> (sample: String)
        ensures
            sample@ == decimal(*self as nat),
    {
        unsigned(*self as u128)
    }

    fn generate_sample_json(&self) -> (sample: String)
        ensures
            sample@ == decimal(*self as nat),
    {
        unsigned(*self as u128)
    }
}

impl SampleConfig for isize {
    const SAMPLE_OUTPUT_TYPE: OutputType = OutputType::Value;

    fn generate_sample_yaml(&self) -> (sample: String)
        ensures
            sample@ == signed_decimal(*self as int),
    {
        signed(*self as i128)
    }

    fn generate_sample_json(&self) -> (sample: String)
        ensures
            sample@ == signed_decimal(*self as int),
    {
        signed(*self as i128)
    }
}

impl SampleConfig for u8 {
    const SAMPLE_OUTPUT_TYPE: OutputType = OutputType::Value;

    fn generate_sample_yaml(&self) -> (sample: String)
        ensures
            sample@ == decimal(*self as nat),
    {
        unsigned(*self as u128)
    }

    fn generate_sample_json(&self) -> (sample: String)
        ensures
            sample@ == decimal(*self as nat),
    {
        unsigned(*self as u128)
    }
}

impl SampleConfig for u16 {
    const SAMPLE_OUTPUT_TYPE: OutputType = OutputType::Value;

    fn generate_sample_yaml(&self) -> (sample: String)
        ensures
            sample@ == decimal(*self as nat),
    {
        unsigned(*self as u128)
    }

    fn generate_sample_json(&self) -> (sample: String)
        ensures
            sample@ == decimal(*self as nat),
    {
        unsigned(*self as u128)
    }
}

impl SampleConfig for u32 {
    const SAMPLE_OUTPUT_TYPE: OutputType = OutputType::Value;

    fn generate_sample_yaml(&self) -> (sample: String)
        ensures
            sample@ == decimal(*self as nat),
    {
        unsigned(*self as u128)
    }

    fn generate_sample_json(&self) -> (sample: String)
        ensures
            sample@ == decimal(*self as nat),
    {
        unsigned(*self as u128)
    }
}

impl SampleConfig for u64 {
    const SAMPLE_OUTPUT_TYPE: OutputType = OutputType::Value;

    fn generate_sample_yaml(&self) -> (sample: String)
        ensures
            sample@ == decimal(*self as nat),
    {
        unsigned(*self as u128)
    }

    fn generate_sample_json(&self) -> (sample: String)
        ensures
            sample@ == decimal(*self as nat),
    {
        unsigned(*self as u128)
    }
}

impl SampleConfig for u128 {
    const SAMPLE_OUTPUT_TYPE: OutputType = OutputType::Value;

    fn generate_sample_yaml(&self) -> (sample: String)
        ensures
            sample@ == decimal(*self as nat),
    {
        unsigned(*self)
    }

    fn generate_sample_json(&self) -> (sample: String)
        ensures
            sample@ == decimal(*self as nat),
    {
        unsigned(*self)
    }
}

impl SampleConfig for i8 {
    const SAMPLE_OUTPUT_TYPE: OutputType = OutputType::Value;

    fn generate_sample_yaml(&self) -> (sample: String)
        ensures
            sample@ == signed_decimal(*self as int),
    {
        signed(*self as i128)
    }

    fn generate_sample_json(&self) -> (sample: String)
        ensures
            sample@ == signed_decimal(*self as int),
    {
        signed(*self as i128)
    }
}

impl SampleConfig for i16 {
    const SAMPLE_OUTPUT_TYPE: OutputType = OutputType::Value;

    fn generate_sample_yaml(&self) -> (sample: String)
        ensures
            sample@ == signed_decimal(*self as int),
    {
        signed(*self as i128)
    }

    fn generate_sample_json(&self) -> (sample: String)
        ensures
            sample@ == signed_decimal(*self as int),
    {
        signed(*self as i128)
    }
}

impl SampleConfig for i32 {
    const SAMPLE_OUTPUT_TYPE: OutputType = OutputType::Value;

    fn generate_sample_yaml(&self) -> (sample: String)
        ensures
            sample@ == signed_decimal(*self as int),
    {
        signed(*self as i128)
    }

    fn generate_sample_json(&self) -> (sample: String)
        ensures
            sample@ == signed_decimal(*self as int),
    {
        signed(*self as i128)
    }
}

impl SampleConfig for i64 {
    const SAMPLE_OUTPUT_TYPE: OutputType = OutputType::Value;

    fn generate_sample_yaml(&self) -> (sample: String)
        ensures
            sample@ == signed_decimal(*self as int),
    {
        signed(*self as i128)
    }

    fn generate_sample_json(&self) -> (sample: String)
        ensures
            sample@ == signed_decimal(*self as int),
    {
        signed(*self as i128)
    }
}

impl SampleConfig for i128 {
    const SAMPLE_OUTPUT_TYPE: OutputType = OutputType::Value;

    fn generate_sample_yaml(&self) -> (sample: String)
        ensures
            sample@ == signed_decimal(*self as int),
    {
        signed(*self)
    }

    fn generate_sample_json(&self) -> (sample: String)
        ensures
            sample@ == signed_decimal(*self as int),
    {
        signed(*self)
    }
}

impl<T: SampleConfig> SampleConfig for &T {
    const SAMPLE_OUTPUT_TYPE: OutputType = T::SAMPLE_OUTPUT_TYPE;

    fn generate_sample_yaml(&self) -> (sample: String)
        ensures
            call_ensures(T::generate_sample_yaml, (&**self,), sample),
    {
        <T as SampleConfig>::generate_sample_yaml(self)
    }

    fn generate_sample_json(&self) -> (sample: String)
        ensures
            call_ensures(T::generate_sample_json, (&**self,), sample),
    {
        <T as SampleConfig>::generate_sample_json(self)
    }
}

impl<T: SampleConfig> SampleConfig for &mut T {
    const SAMPLE_OUTPUT_TYPE: OutputType = T::SAMPLE_OUTPUT_TYPE;

    fn generate_sample_yaml(&self) -> (sample: String)
        ensures
            call_ensures(T::generate_sample_yaml, (&*old(*self),), sample),
    {
        <T as SampleConfig>::generate_sample_yaml(self)
    }

    fn generate_sample_json(&self) -> (sample: String)
        ensures
            call_ensures(T::generate_sample_json, (&*old(*self),), sample),
    {
        <T as SampleConfig>::generate_sample_json(self)
    }
}

impl<T: SampleConfig> SampleConfig for Box<T> {
    const SAMPLE_OUTPUT_TYPE: OutputType = T::SAMPLE_OUTPUT_TYPE;

    fn generate_sample_yaml(&self) -> (sample: String)
        ensures
            call_ensures(T::generate_sample_yaml, (&**self,), sample),
    {
        <T as SampleConfig>::generate_sample_yaml(self)
    }

    fn generate_sample_json(&self) -> (sample: String)
        ensures
            call_ensures(T::generate_sample_json, (&**self,), sample),
    {
        <T as SampleConfig>::generate_sample_json(self)
    }
}

impl<'a, T: SampleConfig + Clone> SampleConfig for Cow<'a, T> {
    const SAMPLE_OUTPUT_TYPE: OutputType = T::SAMPLE_OUTPUT_TYPE;

    fn generate_sample_yaml(&self) -> (sample: String)
        ensures
            match self {
                Cow::Borrowed(value) => call_ensures(T::generate_sample_yaml, (*value,), sample),
                Cow::Owned(value) => call_ensures(T::generate_sample_yaml, (value,), sample),
            },
    {
        match self {
            Cow::Borrowed(value) => <T as SampleConfig>::generate_sample_yaml(value),
            Cow::Owned(value) => <T as SampleConfig>::generate_sample_yaml(value),
        }
    }

    fn generate_sample_json(&self) -> (sample: String)
        ensures
            match self {
                Cow::Borrowed(value) => call_ensures(T::generate_sample_json, (*value,), sample),
                Cow::Owned(value) => call_ensures(T::generate_sample_json, (value,), sample),
            },
    {
        match self {
            Cow::Borrowed(value) => <T as SampleConfig>::generate_sample_json(value),
            Cow::Owned(value) => <T as SampleConfig>::generate_sample_json(value),
        }
    }
}

impl<T: SampleConfig> SampleConfig for Option<T> {
    const SAMPLE_OUTPUT_TYPE: OutputType = T::SAMPLE_OUTPUT_TYPE;

    fn generate_sample_yaml(&self) -> (sample: String)
        ensures
            match self {
                None => sample@ == "null"@,
                Some(value) => call_ensures(T::generate_sample_yaml, (value,), sample),
            },
    {
        match self {
            None => "null".to_owned(),
            Some(value) => value.generate_sample_yaml(),
        }
    }

    fn generate_sample_json(&self) -> (sample: String)
        ensures
            match self {
                None => sample@ == "null"@,
                Some(value) => call_ensures(T::generate_sample_json, (value,), sample),
            },
    {
        match self {
            None => "null".to_owned(),
            Some(value) => value.generate_sample_json(),
        }
    }
}

/// Generates the sample in YAML of each of `items`.
fn generate_yaml_samples<T: SampleConfig>(items: &[T]) -> (samples: Vec<String>)
    ensures
        yaml_samples(items@, samples@),
{
    let mut samples: Vec<String> = Vec::new();
    for n in 0..items.len()
        invariant
            yaml_samples(items@.take(n as int), samples@),
    {
        let ghost before = samples@;
        let sample = items[n].generate_sample_yaml();
        samples.push(sample);
        assert forall|i: int| 0 <= i < n + 1 implies call_ensures(
            T::generate_sample_yaml,
            (&items@.take(n + 1)[i],),
            #[trigger] samples@[i],
        ) by {
            if i < n {
                assert(samples@[i] == before[i]);
                assert(items@.take(n + 1)[i] == items@.take(n as int)[i]);
            }
        }
    }
    assert(items@.take(items@.len() as int) =~= items@);
    samples
}

/// Generates the sample in JSON of each of `items`.
fn generate_json_samples<T: SampleConfig>(items: &[T]) -> (samples: Vec<String>)
    ensures
        json_samples(items@, samples@),
{
    let mut samples: Vec<String> = Vec::new();
    for n in 0..items.len()
        invariant
            json_samples(items@.take(n as int), samples@),
    {
        let ghost before = samples@;
        let sample = items[n].generate_sample_json();
        samples.push(sample);
        assert forall|i: int| 0 <= i < n + 1 implies call_ensures(
            T::generate_sample_json,
            (&items@.take(n + 1)[i],),
            #[trigger] samples@[i],
        ) by {
            if i < n {
                assert(samples@[i] == before[i]);
                assert(items@.take(n + 1)[i] == items@.take(n as int)[i]);
            }
        }
    }
    assert(items@.take(items@.len() as int) =~= items@);
    samples
}

impl<T: SampleConfig> SampleConfig for [T] {
    const SAMPLE_OUTPUT_TYPE: OutputType = OutputType::Fields;

    fn generate_sample_yaml(&self) -> (sample: String)
        ensures
            self@.len() == 0 ==> sample@ == "[]"@,
            exists|samples: Seq<String>|
                yaml_samples(self@, samples) && sample@ == yaml_sequence(
                    T::SAMPLE_OUTPUT_TYPE,
                    texts(samples),
                ),
    {
        let samples = generate_yaml_samples(self);
        generate_yaml_sequence(T::SAMPLE_OUTPUT_TYPE, &samples)
    }

    fn generate_sample_json(&self) -> (sample: String)
        ensures
            self@.len() == 0 ==> sample@ == "[]"@,
            exists|samples: Seq<String>|
                json_samples(self@, samples) && sample@ == json_sequence(
                    T::SAMPLE_OUTPUT_TYPE,
                    texts(samples),
                ),
    {
        let samples = generate_json_samples(self);
        generate_json_sequence(T::SAMPLE_OUTPUT_TYPE, &samples)
    }
}

impl<T: SampleConfig> SampleConfig for Vec<T> {
    const SAMPLE_OUTPUT_TYPE: OutputType = OutputType::Fields;

    fn generate_sample_yaml(&self) -> (sample: String)
        ensures
            self@.len() == 0 ==> sample@ == "[]"@,
            exists|samples: Seq<String>|
                yaml_samples(self@, samples) && sample@ == yaml_sequence(
                    T::SAMPLE_OUTPUT_TYPE,
                    texts(samples),
                ),
    {
        let samples = generate_yaml_samples(self.as_slice());
        generate_yaml_sequence(T::SAMPLE_OUTPUT_TYPE, &samples)
    }

    fn generate_sample_json(&self) -> (sample: String)
        ensures
            self@.len() == 0 ==> sample@ == "[]"@,
            exists|samples: Seq<String>|
                json_samples(self@, samples) && sample@ == json_sequence(
                    T::SAMPLE_OUTPUT_TYPE,
                    texts(samples),
                ),
    {
        let samples = generate_json_samples(self.as_slice());
        generate_json_sequence(T::SAMPLE_OUTPUT_TYPE, &samples)
    }
}

/// `std::path::Path`, carried through as it is: nothing inside it is looked
/// at.
#[verifier::external_type_specification]
#[verifier::external_body]
pub struct ExPath(Path);

/// `std::path::PathBuf`, carried through as it is.
#[verifier::external_type_specification]
#[verifier::external_body]
pub struct ExPathBuf(PathBuf);

/// What a path displays as.
pub uninterp spec fn path_display(path: &Path) -> Seq<char>;

/// What an owned path displays as.
pub uninterp spec fn path_buf_display(path: PathBuf) -> Seq<char>;

/// `Path::display` of the standard library, written out: the path as text,
/// with a replacement character for what is not Unicode. The text depends
/// on the path alone.
#[verifier::external_body]
fn path_text(path: &Path) -> (text: String)
    ensures
        text@ == path_display(path),
{
    format!("{}", path.display())
}

/// `Path::display` of the standard library on an owned path, written out:
/// the path as text, with a replacement character for what is not Unicode.
/// The text depends on the path alone.
#[verifier::external_body]
fn path_buf_text(path: &PathBuf) -> (text: String)
    ensures
        text@ == path_buf_display(*path),
{
    format!("{}", path.display())
}

impl SampleConfig for PathBuf {
    const SAMPLE_OUTPUT_TYPE: OutputType = OutputType::Value;

    fn generate_sample_yaml(&self) -> (sample: String)
        ensures
            sample@ == quoted(path_buf_display(*self)),
    {
        quote(path_buf_text(self).as_str())
    }

    fn generate_sample_json(&self) -> (sample: String)
        ensures
            sample@ == quoted(path_buf_display(*self)),
    {
        quote(path_buf_text(self).as_str())
    }
}

impl SampleConfig for Path {
    const SAMPLE_OUTPUT_TYPE: OutputType = OutputType::Value;

    fn generate_sample_yaml(&self) -> (sample: String)
        ensures
            sample@ == quoted(path_display(self)),
    {
        quote(path_text(self).as_str())
    }

    fn generate_sample_json(&self) -> (sample: String)
        ensures
            sample@ == quoted(path_display(self)),
    {
        quote(path_text(self).as_str())
    }
}

/// Every leaf type of the standard library has the shape of a value.
pub proof fn lemma_leaves_are_values()
    ensures
        <String as SampleConfig>::SAMPLE_OUTPUT_TYPE == OutputType::Value,
        <str as SampleConfig>::SAMPLE_OUTPUT_TYPE == OutputType::Value,
        <bool as SampleConfig>::SAMPLE_OUTPUT_TYPE == OutputType::Value,
        <usize as SampleConfig>::SAMPLE_OUTPUT_TYPE == OutputType::Value,
        <isize as SampleConfig>::SAMPLE_OUTPUT_TYPE == OutputType::Value,
        <u8 as SampleConfig>::SAMPLE_OUTPUT_TYPE == OutputType::Value,
        <u16 as SampleConfig>::SAMPLE_OUTPUT_TYPE == OutputType::Value,
        <u32 as SampleConfig>::SAMPLE_OUTPUT_TYPE == OutputType::Value,
        <u64 as SampleConfig>::SAMPLE_OUTPUT_TYPE == OutputType::Value,
        <u128 as SampleConfig>::SAMPLE_OUTPUT_TYPE == OutputType::Value,
        <i8 as SampleConfig>::SAMPLE_OUTPUT_TYPE == OutputType::Value,
        <i16 as SampleConfig>::SAMPLE_OUTPUT_TYPE == OutputType::Value,
        <i32 as SampleConfig>::SAMPLE_OUTPUT_TYPE == OutputType::Value,
        <i64 as SampleConfig>::SAMPLE_OUTPUT_TYPE == OutputType::Value,
        <i128 as SampleConfig>::SAMPLE_OUTPUT_TYPE == OutputType::Value,
        <PathBuf as SampleConfig>::SAMPLE_OUTPUT_TYPE == OutputType::Value,
        <Path as SampleConfig>::SAMPLE_OUTPUT_TYPE == OutputType::Value,
{
}

/// The shape of a wrapper is the shape of what it holds, and a sequence has
/// the shape of fields whatever it holds. No value is looked at.
pub proof fn lemma_shapes<T: SampleConfig + Clone>()
    ensures
        <&T as SampleConfig>::SAMPLE_OUTPUT_TYPE == T::SAMPLE_OUTPUT_TYPE,
        <&mut T as SampleConfig>::SAMPLE_OUTPUT_TYPE == T::SAMPLE_OUTPUT_TYPE,
        <Box<T> as SampleConfig>::SAMPLE_OUTPUT_TYPE == T::SAMPLE_OUTPUT_TYPE,
        <Cow<'static, T> as SampleConfig>::SAMPLE_OUTPUT_TYPE == T::SAMPLE_OUTPUT_TYPE,
        <Option<T> as SampleConfig>::SAMPLE_OUTPUT_TYPE == T::SAMPLE_OUTPUT_TYPE,
        <Vec<T> as SampleConfig>::SAMPLE_OUTPUT_TYPE == OutputType::Fields,
        <[T] as SampleConfig>::SAMPLE_OUTPUT_TYPE == OutputType::Fields,
{
}

} // verus!
