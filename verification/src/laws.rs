//! What holds of every sample, whatever the values.

use std::borrow::Cow;
use std::path::{Path, PathBuf};
use tracing::level_filters::LevelFilter;
use tracing::Level;
use url::Url;
use vstd::prelude::*;
use crate::derive::{fields_sample, CompositeView, FieldDataView};
use crate::emit::{json_sequence, texts, yaml_sequence, Dialect};
use crate::text::{replaced, stripped_end, stripped_start, Strip};
use crate::{json_samples, yaml_samples, SampleConfig};

verus! {

/// Replacing a character goes through a text piece by piece: the pieces of
/// the result stand in the order of the pieces they came from.
pub proof fn lemma_replaced_concat(a: Seq<char>, b: Seq<char>, from: char, to: Seq<char>)
    ensures
        replaced(a + b, from, to) == replaced(a, from, to) + replaced(b, from, to),
    decreases b.len(),
{
    if b.len() == 0 {
        assert(a + b =~= a);
        assert(replaced(a, from, to) + replaced(b, from, to) =~= replaced(a, from, to));
    } else {
        assert((a + b).drop_last() =~= a + b.drop_last());
        assert((a + b).last() == b.last());
        lemma_replaced_concat(a, b.drop_last(), from, to);
        if b.last() == from {
            assert(replaced(a + b, from, to) =~= replaced(a, from, to) + (replaced(
                b.drop_last(),
                from,
                to,
            ) + to));
        } else {
            assert(replaced(a + b, from, to) =~= replaced(a, from, to) + replaced(
                b.drop_last(),
                from,
                to,
            ).push(b.last()));
        }
    }
}

/// Stripping the end of a text leaves a prefix of it.
pub proof fn lemma_stripped_end_is_prefix(text: Seq<char>, strip: Strip)
    ensures
        stripped_end(text, strip).len() <= text.len(),
        stripped_end(text, strip) == text.take(stripped_end(text, strip).len() as int),
    decreases text.len(),
{
    if text.len() > 0 && strip.matches(text.last()) {
        lemma_stripped_end_is_prefix(text.drop_last(), strip);
        let kept = stripped_end(text, strip).len() as int;
        assert(text.drop_last().take(kept) =~= text.take(kept));
    } else {
        assert(text.take(text.len() as int) =~= text);
    }
}

/// Stripping the start of a text leaves a suffix of it.
pub proof fn lemma_stripped_start_is_suffix(text: Seq<char>, strip: Strip)
    ensures
        stripped_start(text, strip).len() <= text.len(),
        stripped_start(text, strip) == text.skip(text.len() - stripped_start(text, strip).len()),
    decreases text.len(),
{
    if text.len() > 0 && strip.matches(text.first()) {
        lemma_stripped_start_is_suffix(text.drop_first(), strip);
        let dropped = text.len() - stripped_start(text, strip).len();
        assert(text.drop_first().skip(dropped - 1) =~= text.skip(dropped));
    } else {
        assert(text.skip(0) =~= text);
    }
}

/// The fields of a record are rendered in the order in which they were
/// declared, whatever their values hold: in either dialect, what stands
/// before the text of a field is the text of the fields declared before it,
/// and what stands behind it is the text of the fields declared after it.
pub proof fn lemma_fields_in_declaration_order(
    fields: Seq<FieldDataView>,
    values: Seq<Seq<char>>,
    dialect: Dialect,
    i: int,
)
    requires
        values.len() == fields.len(),
        0 <= i < fields.len(),
    ensures
        fields_sample(fields, values, dialect) == fields_sample(
            fields.take(i),
            values.take(i),
            dialect,
        ) + fields[i].sample(values[i], dialect) + fields_sample(
            fields.skip(i + 1),
            values.skip(i + 1),
            dialect,
        ),
    decreases fields.len(),
{
    let before = fields_sample(fields.take(i), values.take(i), dialect);
    let at = fields[i].sample(values[i], dialect);
    if i == fields.len() - 1 {
        assert(fields.drop_last() =~= fields.take(i));
        assert(values.drop_last() =~= values.take(i));
        assert(fields.skip(i + 1) =~= Seq::empty());
        assert(fields_sample(fields, values, dialect) =~= before + at + Seq::empty());
    } else {
        let shorter = fields.drop_last();
        let fewer = values.drop_last();
        lemma_fields_in_declaration_order(shorter, fewer, dialect, i);
        assert(shorter.take(i) =~= fields.take(i));
        assert(fewer.take(i) =~= values.take(i));
        let rest = fields.skip(i + 1);
        let rest_values = values.skip(i + 1);
        assert(rest.drop_last() =~= shorter.skip(i + 1));
        assert(rest_values.drop_last() =~= fewer.skip(i + 1));
        assert(rest.last() == fields.last());
        assert(rest_values.last() == values.last());
        let middle = fields_sample(shorter.skip(i + 1), fewer.skip(i + 1), dialect);
        let last = fields.last().sample(values.last(), dialect);
        assert(fields_sample(rest, rest_values, dialect) == middle + last);
        assert(fields_sample(fields, values, dialect) =~= before + at + (middle + last));
    }
}

/// A record in YAML is the text of its fields in the order of declaration
/// and nothing else.
pub proof fn lemma_yaml_record_is_its_fields(
    record: CompositeView,
    values: Seq<Seq<char>>,
    i: int,
)
    requires
        values.len() == record.fields.len(),
        0 <= i < record.fields.len(),
    ensures
        record.yaml(values) == fields_sample(record.fields.take(i), values.take(i), Dialect::Yaml)
            + record.fields[i].yaml(values[i]) + fields_sample(
            record.fields.skip(i + 1),
            values.skip(i + 1),
            Dialect::Yaml,
        ),
{
    lemma_fields_in_declaration_order(record.fields, values, Dialect::Yaml, i);
}

/// A record in JSON is a part of the text of its fields in the order of
/// declaration: one stretch of the text that is made of an opening brace and
/// the fields behind it, moved two spaces to the right and followed by a
/// closing brace on a line of its own.
pub proof fn lemma_json_record_is_its_fields(record: CompositeView, values: Seq<Seq<char>>)
    requires
        values.len() == record.fields.len(),
    ensures
        ({
            let body = "{\n"@ + fields_sample(record.fields, values, Dialect::Json);
            exists|from: int, to: int|
                0 <= from <= to <= body.len() && record.json(values) == replaced(
                    #[trigger] body.subrange(from, to),
                    '\n',
                    "\n  "@,
                ) + "\n}\n"@
        }),
{
    let body = "{\n"@ + fields_sample(record.fields, values, Dialect::Json);
    lemma_stripped_start_is_suffix(body, Strip::Whitespace);
    let inner = stripped_start(body, Strip::Whitespace);
    let from = body.len() - inner.len();
    lemma_stripped_end_is_prefix(inner, Strip::Whitespace);
    let trimmed = stripped_end(inner, Strip::Whitespace);
    lemma_stripped_end_is_prefix(trimmed, Strip::Char(','));
    let bare = stripped_end(trimmed, Strip::Char(','));
    let to = from + bare.len();
    assert(bare =~= body.subrange(from, to));
}

/// What is left when the end of a text is stripped does not end with a
/// character that is stripped.
pub proof fn lemma_stripped_end_stops(text: Seq<char>, strip: Strip)
    ensures
        stripped_end(text, strip).len() > 0 ==> !strip.matches(stripped_end(text, strip).last()),
    decreases text.len(),
{
    if text.len() > 0 && strip.matches(text.last()) {
        lemma_stripped_end_stops(text.drop_last(), strip);
    }
}

/// Replacing a character by a text that is not empty leaves an empty text
/// empty and no other, and the result ends as the text did, or as the new
/// text does where the text ended with the character.
pub proof fn lemma_replaced_end(text: Seq<char>, from: char, to: Seq<char>)
    requires
        to.len() > 0,
    ensures
        replaced(text, from, to).len() == 0 <==> text.len() == 0,
        text.len() > 0 ==> replaced(text, from, to).last() == (if text.last() == from {
            to.last()
        } else {
            text.last()
        }),
{
}

/// A record in YAML that has a field ends with a line break.
pub proof fn lemma_yaml_record_ends_with_line_break(record: CompositeView, values: Seq<Seq<char>>)
    requires
        record.fields.len() > 0,
    ensures
        record.yaml(values).len() > 0,
        record.yaml(values).last() == '\n',
{
    reveal_strlit("\n");
    let last = record.fields.last().yaml(values.last());
    assert(last.last() == '\n');
}

/// A record in JSON ends with a closing brace on a line of its own, and no
/// comma stands before that line: the comma behind the last field is
/// stripped, whatever the fields hold.
pub proof fn lemma_json_record_has_no_trailing_comma(
    record: CompositeView,
    values: Seq<Seq<char>>,
)
    ensures
        ({
            let sample = record.json(values);
            let inner = sample.take(sample.len() - 3);
            &&& sample.len() >= 3
            &&& sample.skip(sample.len() - 3) == "\n}\n"@
            &&& inner.len() > 0 ==> inner.last() != ','
        }),
{
    reveal_strlit("\n}\n");
    reveal_strlit("\n  ");
    let body = "{\n"@ + fields_sample(record.fields, values, Dialect::Json);
    let bare = stripped_end(
        stripped_end(stripped_start(body, Strip::Whitespace), Strip::Whitespace),
        Strip::Char(','),
    );
    lemma_stripped_end_stops(
        stripped_end(stripped_start(body, Strip::Whitespace), Strip::Whitespace),
        Strip::Char(','),
    );
    let moved = replaced(bare, '\n', "\n  "@);
    lemma_replaced_end(bare, '\n', "\n  "@);
    let sample = record.json(values);
    assert(sample == moved + "\n}\n"@);
    assert(sample.take(sample.len() - 3) =~= moved);
    assert(sample.skip(sample.len() - 3) =~= "\n}\n"@);
}

/// An absent value renders as `null` in both dialects below an optional
/// value that is present. With the two laws that follow, this carries the
/// rule for an absent value through any nesting of wrappers.
pub proof fn lemma_absent_in_option<T: SampleConfig>(
    value: Option<Option<T>>,
    yaml: String,
    json: String,
)
    requires
        value == Some(None::<T>),
        call_ensures(<Option<Option<T>> as SampleConfig>::generate_sample_yaml, (&value,), yaml),
        call_ensures(<Option<Option<T>> as SampleConfig>::generate_sample_json, (&value,), json),
    ensures
        yaml@ == "null"@,
        json@ == "null"@,
{
}

/// An absent value renders as `null` in both dialects inside a box.
pub proof fn lemma_absent_in_box<T: SampleConfig>(value: Box<Option<T>>, yaml: String, json: String)
    requires
        *value is None,
        call_ensures(<Box<Option<T>> as SampleConfig>::generate_sample_yaml, (&value,), yaml),
        call_ensures(<Box<Option<T>> as SampleConfig>::generate_sample_json, (&value,), json),
    ensures
        yaml@ == "null"@,
        json@ == "null"@,
{
}

/// An absent value renders as `null` in both dialects behind a reference.
pub proof fn lemma_absent_behind_reference<T: SampleConfig>(
    value: &Option<T>,
    yaml: String,
    json: String,
)
    requires
        *value is None,
        call_ensures(<&Option<T> as SampleConfig>::generate_sample_yaml, (&value,), yaml),
        call_ensures(<&Option<T> as SampleConfig>::generate_sample_json, (&value,), json),
    ensures
        yaml@ == "null"@,
        json@ == "null"@,
{
}

/// Whether the samples of a type are determined by its values: two samples
/// of equal values, in one dialect, are the same text.
pub open spec fn determined<T: SampleConfig + ?Sized>() -> bool {
    &&& forall|a: &T, b: &T, first: String, second: String|
        a == b && #[trigger] call_ensures(T::generate_sample_yaml, (a,), first)
            && #[trigger] call_ensures(T::generate_sample_yaml, (b,), second) ==> first@
            == second@
    &&& forall|a: &T, b: &T, first: String, second: String|
        a == b && #[trigger] call_ensures(T::generate_sample_json, (a,), first)
            && #[trigger] call_ensures(T::generate_sample_json, (b,), second) ==> first@
            == second@
}

/// The samples of every leaf type are determined by the value: rendering
/// equal values again gives the same text, character by character.
pub proof fn lemma_leaves_are_determined()
    ensures
        determined::<String>(),
        determined::<str>(),
        determined::<bool>(),
        determined::<usize>(),
        determined::<isize>(),
        determined::<u8>(),
        determined::<u16>(),
        determined::<u32>(),
        determined::<u64>(),
        determined::<u128>(),
        determined::<i8>(),
        determined::<i16>(),
        determined::<i32>(),
        determined::<i64>(),
        determined::<i128>(),
        determined::<PathBuf>(),
        determined::<Path>(),
        determined::<Url>(),
        determined::<Level>(),
        determined::<LevelFilter>(),
{
}

/// A wrapper around a type whose samples are determined by the value has
/// samples that are determined by the value.
pub proof fn lemma_wrappers_are_determined<T: SampleConfig + Clone>()
    requires
        determined::<T>(),
    ensures
        determined::<&T>(),
        determined::<Box<T>>(),
        determined::<Option<T>>(),
        determined::<Cow<'static, T>>(),
{
}

/// Samples that render equal items of a type whose samples are determined
/// hold the same texts.
proof fn lemma_samples_agree<T: SampleConfig>(
    items: Seq<T>,
    first: Seq<String>,
    second: Seq<String>,
    dialect: Dialect,
)
    requires
        determined::<T>(),
        dialect == Dialect::Yaml ==> yaml_samples(items, first) && yaml_samples(items, second),
        dialect == Dialect::Json ==> json_samples(items, first) && json_samples(items, second),
    ensures
        texts(first) == texts(second),
{
    assert forall|i: int| 0 <= i < items.len() implies first[i]@ == second[i]@ by {
        let item = &items[i];
        if dialect == Dialect::Yaml {
            assert(call_ensures(T::generate_sample_yaml, (item,), first[i]));
            assert(call_ensures(T::generate_sample_yaml, (item,), second[i]));
        } else {
            assert(call_ensures(T::generate_sample_json, (item,), first[i]));
            assert(call_ensures(T::generate_sample_json, (item,), second[i]));
        }
    }
    assert(texts(first) =~= texts(second));
}

/// A sequence of items of a type whose samples are determined by the value
/// has samples that are determined by the value.
pub proof fn lemma_sequences_are_determined<T: SampleConfig>()
    requires
        determined::<T>(),
    ensures
        determined::<Vec<T>>(),
        determined::<[T]>(),
{
    assert forall|a: &Vec<T>, b: &Vec<T>, first: String, second: String|
        a == b && #[trigger] call_ensures(<Vec<T> as SampleConfig>::generate_sample_yaml, (a,), first)
            && #[trigger] call_ensures(
            <Vec<T> as SampleConfig>::generate_sample_yaml,
            (b,),
            second,
        ) implies first@ == second@ by {
        let x = choose|samples: Seq<String>|
            yaml_samples(a@, samples) && first@ == yaml_sequence(
                T::SAMPLE_OUTPUT_TYPE,
                texts(samples),
            );
        let y = choose|samples: Seq<String>|
            yaml_samples(b@, samples) && second@ == yaml_sequence(
                T::SAMPLE_OUTPUT_TYPE,
                texts(samples),
            );
        lemma_samples_agree(a@, x, y, Dialect::Yaml);
    }
    assert forall|a: &Vec<T>, b: &Vec<T>, first: String, second: String|
        a == b && #[trigger] call_ensures(<Vec<T> as SampleConfig>::generate_sample_json, (a,), first)
            && #[trigger] call_ensures(
            <Vec<T> as SampleConfig>::generate_sample_json,
            (b,),
            second,
        ) implies first@ == second@ by {
        let x = choose|samples: Seq<String>|
            json_samples(a@, samples) && first@ == json_sequence(
                T::SAMPLE_OUTPUT_TYPE,
                texts(samples),
            );
        let y = choose|samples: Seq<String>|
            json_samples(b@, samples) && second@ == json_sequence(
                T::SAMPLE_OUTPUT_TYPE,
                texts(samples),
            );
        lemma_samples_agree(a@, x, y, Dialect::Json);
    }
    assert forall|a: &[T], b: &[T], first: String, second: String|
        a == b && #[trigger] call_ensures(<[T] as SampleConfig>::generate_sample_yaml, (a,), first)
            && #[trigger] call_ensures(
            <[T] as SampleConfig>::generate_sample_yaml,
            (b,),
            second,
        ) implies first@ == second@ by {
        let x = choose|samples: Seq<String>|
            yaml_samples(a@, samples) && first@ == yaml_sequence(
                T::SAMPLE_OUTPUT_TYPE,
                texts(samples),
            );
        let y = choose|samples: Seq<String>|
            yaml_samples(b@, samples) && second@ == yaml_sequence(
                T::SAMPLE_OUTPUT_TYPE,
                texts(samples),
            );
        lemma_samples_agree(a@, x, y, Dialect::Yaml);
    }
    assert forall|a: &[T], b: &[T], first: String, second: String|
        a == b && #[trigger] call_ensures(<[T] as SampleConfig>::generate_sample_json, (a,), first)
            && #[trigger] call_ensures(
            <[T] as SampleConfig>::generate_sample_json,
            (b,),
            second,
        ) implies first@ == second@ by {
        let x = choose|samples: Seq<String>|
            json_samples(a@, samples) && first@ == json_sequence(
                T::SAMPLE_OUTPUT_TYPE,
                texts(samples),
            );
        let y = choose|samples: Seq<String>|
            json_samples(b@, samples) && second@ == json_sequence(
                T::SAMPLE_OUTPUT_TYPE,
                texts(samples),
            );
        lemma_samples_agree(a@, x, y, Dialect::Json);
    }
}

} // verus!
