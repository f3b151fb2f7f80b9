//! The building blocks that both dialects share: quoting, re-indenting a
//! nested block, documentation comments, and sequences.

use vstd::prelude::*;
use crate::text::{replace, replaced, trim, trim_end, trimmed, trimmed_end};
use crate::OutputType;

verus! {

/// The two dialects that a sample can be written in.
#[derive(Debug, PartialEq, Eq, Clone, Copy, Structural)]
pub enum Dialect {
    /// Indentation and `#` comments.
    Yaml,
    /// Braces, brackets and `//` comments.
    Json,
}

impl Dialect {
    /// The marker that opens a comment line.
    pub open spec fn marker(self) -> Seq<char> {
        match self {
            Dialect::Yaml => "#"@,
            Dialect::Json => "//"@,
        }
    }

    /// A line break followed by the marker that opens the next comment line.
    pub open spec fn continuation(self) -> Seq<char> {
        match self {
            Dialect::Yaml => "\n#"@,
            Dialect::Json => "\n//"@,
        }
    }
}

/// The texts that a sequence of strings holds.
pub open spec fn texts(items: Seq<String>) -> Seq<Seq<char>> {
    items.map_values(|item: String| item@)
}

/// `text` between double quotes. Nothing inside it is escaped.
pub open spec fn quoted(text: Seq<char>) -> Seq<char> {
    "\""@ + text + "\""@
}

/// A nested block, moved two spaces to the right: every line break in it is
/// followed by two spaces, and the whitespace around the whole is dropped.
pub open spec fn block(text: Seq<char>) -> Seq<char> {
    trimmed(replaced(text, '\n', "\n  "@))
}

/// The comment lines for the documentation `doc`: nothing where the
/// documentation is blank, else each of its lines behind the dialect's marker.
pub open spec fn comment(doc: Seq<char>, dialect: Dialect) -> Seq<char> {
    let lines = replaced(trimmed_end(doc), '\n', dialect.continuation());
    if lines.len() == 0 {
        lines
    } else {
        dialect.marker() + lines + "\n"@
    }
}

/// One entry of a YAML sequence: a value stands behind the dash, a block on
/// the lines that follow it.
pub open spec fn yaml_item(output_type: OutputType, item: Seq<char>) -> Seq<char> {
    match output_type {
        OutputType::Value => "- "@ + item + "\n"@,
        OutputType::Fields => "- "@ + "\n  "@ + block(item) + "\n"@,
    }
}

/// The entries of a YAML sequence, one after the other.
pub open spec fn yaml_items(output_type: OutputType, items: Seq<Seq<char>>) -> Seq<char>
    decreases items.len(),
{
    if items.len() == 0 {
        Seq::empty()
    } else {
        yaml_items(output_type, items.drop_last()) + yaml_item(output_type, items.last())
    }
}

/// A sequence in YAML: `[]` where it is empty, else one entry per item.
pub open spec fn yaml_sequence(output_type: OutputType, items: Seq<Seq<char>>) -> Seq<char> {
    if items.len() == 0 {
        "[]"@
    } else {
        yaml_items(output_type, items)
    }
}

/// One entry of a JSON sequence, without the comma behind it.
pub open spec fn json_item(output_type: OutputType, item: Seq<char>) -> Seq<char> {
    match output_type {
        OutputType::Value => "  "@ + item,
        OutputType::Fields => "  "@ + block(item),
    }
}

/// The entries of a JSON sequence, with a comma and a line break between
/// each two of them.
pub open spec fn json_items(output_type: OutputType, items: Seq<Seq<char>>) -> Seq<char>
    decreases items.len(),
{
    if items.len() == 0 {
        Seq::empty()
    } else if items.len() == 1 {
        json_item(output_type, items.last())
    } else {
        json_items(output_type, items.drop_last()) + ",\n"@ + json_item(output_type, items.last())
    }
}

/// A sequence in JSON: `[]` where it is empty, else the entries between
/// brackets that stand on lines of their own.
pub open spec fn json_sequence(output_type: OutputType, items: Seq<Seq<char>>) -> Seq<char> {
    if items.len() == 0 {
        "[]"@
    } else {
        "[\n"@ + json_items(output_type, items) + "\n]\n"@
    }
}

/// Puts `text` between double quotes.
pub fn quote(text: &str) -> (sample: String)
    ensures
        sample@ == quoted(text@),
{
    let mut sample = String::new();
    sample.append("\"");
    sample.append(text);
    sample.append("\"");
    sample
}

/// Appends the nested block `text` to `sample`, moved two spaces to the right.
pub fn push_block(sample: &mut String, text: &str)
    ensures
        final(sample)@ == old(sample)@ + block(text@),
{
    let moved = replace(text, '\n', "\n  ");
    sample.append(trim(moved.as_str()));
}

/// Appends the comment lines for the documentation `doc` to `sample`.
pub fn push_comment(sample: &mut String, doc: &str, dialect: Dialect)
    ensures
        final(sample)@ == old(sample)@ + comment(doc@, dialect),
{
    let lines = match dialect {
        Dialect::Yaml => replace(trim_end(doc), '\n', "\n#"),
        Dialect::Json => replace(trim_end(doc), '\n', "\n//"),
    };
    if !lines.as_str().is_empty() {
        match dialect {
            Dialect::Yaml => sample.append("#"),
            Dialect::Json => sample.append("//"),
        }
        sample.append(lines.as_str());
        sample.append("\n");
        assert(sample@ =~= old(sample)@ + (dialect.marker() + lines@ + "\n"@));
    } else {
        assert(sample@ =~= old(sample)@ + lines@);
    }
}

/// Renders a sequence in YAML from the samples of its items.
pub fn generate_yaml_sequence(output_type: OutputType, items: &Vec<String>) -> (sample: String)
    ensures
        sample@ == yaml_sequence(output_type, texts(items@)),
{
    if items.len() == 0 {
        return "[]".to_owned();
    }
    let mut sample = String::new();
    let ghost all = texts(items@);
    for n in 0..items.len()
        invariant
            all == texts(items@),
            sample@ == yaml_items(output_type, all.take(n as int)),
    {
        let ghost before = sample@;
        sample.append("- ");
        match output_type {
            OutputType::Value => sample.append(items[n].as_str()),
            OutputType::Fields => {
                sample.append("\n  ");
                push_block(&mut sample, items[n].as_str());
            },
        }
        sample.append("\n");
        proof {
            let next = all.take(n + 1);
            assert(next.drop_last() =~= all.take(n as int));
            assert(next.last() == items@[n as int]@);
            assert(sample@ =~= before + yaml_item(output_type, next.last()));
        }
    }
    assert(all.take(items.len() as int) =~= all);
    sample
}

/// Renders a sequence in JSON from the samples of its items.
pub fn generate_json_sequence(output_type: OutputType, items: &Vec<String>) -> (sample: String)
    ensures
        sample@ == json_sequence(output_type, texts(items@)),
{
    if items.len() == 0 {
        return "[]".to_owned();
    }
    let mut sample = String::new();
    let ghost all = texts(items@);
    sample.append("[\n");
    for n in 0..items.len()
        invariant
            all == texts(items@),
            sample@ == "[\n"@ + json_items(output_type, all.take(n as int)),
    {
        let ghost before = sample@;
        if n > 0 {
            sample.append(",\n");
        }
        sample.append("  ");
        match output_type {
            OutputType::Value => sample.append(items[n].as_str()),
            OutputType::Fields => push_block(&mut sample, items[n].as_str()),
        }
        proof {
            let next = all.take(n + 1);
            assert(next.drop_last() =~= all.take(n as int));
            assert(next.last() == items@[n as int]@);
            if n > 0 {
                assert(sample@ =~= before + ",\n"@ + json_item(output_type, next.last()));
            } else {
                assert(sample@ =~= before + json_item(output_type, next.last()));
            }
        }
    }
    sample.append("\n]\n");
    assert(all.take(items.len() as int) =~= all);
    sample
}

} // verus!
