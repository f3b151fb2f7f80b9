//! Deriving a renderer from the definition of a record or of an enum.

use vstd::prelude::*;
use crate::attributes::{doc_lines, lines, Attribute, DocComment};
use crate::emit::{block, comment, push_block, push_comment, quote, quoted, texts, Dialect};
use crate::text::{replace, replaced, trim, trim_end_matches, trimmed, without_trailing};
use crate::OutputType;

verus! {

/// A construct that no renderer can be derived for.
#[derive(Debug, PartialEq, Eq, Clone, Copy, Structural)]
pub enum Unsupported {
    /// A type with generic parameters.
    Generics,
    /// A union.
    Union,
    /// A record whose fields have no names: a tuple struct or a unit struct.
    UnnamedFields,
    /// An enum with a variant that carries data.
    VariantFields,
}

/// Why no renderer could be derived.
#[derive(Debug, PartialEq, Eq, Clone, Copy, Structural)]
pub enum DeriveError {
    /// The definition holds a construct that is not supported.
    UnsupportedConstruct(Unsupported),
    /// A field of a record has no name.
    MissingFieldName,
    /// A documentation attribute of a field is not set to a text.
    DocComment,
}

impl DeriveError {
    /// The message that describes the error.
    pub open spec fn message_text(self) -> Seq<char> {
        match self {
            DeriveError::UnsupportedConstruct(Unsupported::Generics) => "Generics are not supported!"@,
            DeriveError::UnsupportedConstruct(Unsupported::Union) => "Unions are not supported!"@,
            DeriveError::UnsupportedConstruct(Unsupported::UnnamedFields) => "Only named fields are allowed!"@,
            DeriveError::UnsupportedConstruct(Unsupported::VariantFields) => "Enums with fields are not yet supported!"@,
            DeriveError::MissingFieldName => "Field must have name!"@,
            DeriveError::DocComment => "Error parsing doc comments!"@,
        }
    }

    /// The message that describes the error.
    pub fn message(&self) -> (text: String)
        ensures
            text@ == self.message_text(),
    {
        match self {
            DeriveError::UnsupportedConstruct(Unsupported::Generics) => "Generics are not supported!".to_owned(),
            DeriveError::UnsupportedConstruct(Unsupported::Union) => "Unions are not supported!".to_owned(),
            DeriveError::UnsupportedConstruct(Unsupported::UnnamedFields) => "Only named fields are allowed!".to_owned(),
            DeriveError::UnsupportedConstruct(Unsupported::VariantFields) => "Enums with fields are not yet supported!".to_owned(),
            DeriveError::MissingFieldName => "Field must have name!".to_owned(),
            DeriveError::DocComment => "Error parsing doc comments!".to_owned(),
        }
    }
}

/// A field of a record or of a variant.
#[derive(Debug, Clone)]
pub struct Field {
    /// The attributes on the field.
    pub attrs: Vec<Attribute>,
    /// The field's name. Fields of tuple structs have none.
    pub ident: Option<String>,
    /// The shape that the field's type takes in a sample.
    pub output_type: OutputType,
}

/// The fields of a record or of a variant.
#[derive(Debug, Clone)]
pub enum Fields {
    /// Fields with names, between braces.
    Named(Vec<Field>),
    /// Fields without names, between parentheses.
    Unnamed(Vec<Field>),
    /// No fields and no delimiters.
    Unit,
}

impl Fields {
    /// Whether there are no fields.
    pub open spec fn is_empty_spec(&self) -> bool {
        match self {
            Fields::Named(fields) => fields@.len() == 0,
            Fields::Unnamed(fields) => fields@.len() == 0,
            Fields::Unit => true,
        }
    }

    /// Whether there are no fields.
    #[verifier::when_used_as_spec(is_empty_spec)]
    pub fn is_empty(&self) -> (empty: bool)
        ensures
            empty == self.is_empty_spec(),
    {
        match self {
            Fields::Named(fields) => fields.len() == 0,
            Fields::Unnamed(fields) => fields.len() == 0,
            Fields::Unit => true,
        }
    }
}

/// A variant of an enum.
#[derive(Debug, Clone)]
pub struct Variant {
    /// The variant's name.
    pub ident: String,
    /// The data that the variant carries.
    pub fields: Fields,
}

/// What a type definition holds.
#[derive(Debug, Clone)]
pub enum Data {
    /// A record with its fields.
    Struct(Fields),
    /// An enum with its variants.
    Enum(Vec<Variant>),
    /// A union.
    Union,
}

/// The definition of a type that a renderer is derived for.
#[derive(Debug, Clone)]
pub struct DeriveInput {
    /// The type's name.
    pub ident: String,
    /// The number of the type's generic parameters.
    pub generics: usize,
    /// What the definition holds.
    pub data: Data,
}

/// What deriving keeps of a field: its documentation, its name and the shape
/// of its type.
#[derive(Debug, Clone)]
pub struct FieldData {
    /// The documentation: each of its lines, followed by a line break.
    pub doc_comment: String,
    /// The field's name.
    pub ident: String,
    /// The shape that the field's type takes in a sample.
    pub output_type: OutputType,
}

/// A field's data as plain values.
pub struct FieldDataView {
    pub doc_comment: Seq<char>,
    pub ident: Seq<char>,
    pub output_type: OutputType,
}

impl View for FieldData {
    type V = FieldDataView;

    open spec fn view(&self) -> FieldDataView {
        FieldDataView {
            doc_comment: self.doc_comment@,
            ident: self.ident@,
            output_type: self.output_type,
        }
    }
}

/// Lines of documentation as one text: each line, followed by a line break.
pub open spec fn joined(lines: Seq<Seq<char>>) -> Seq<char>
    decreases lines.len(),
{
    if lines.len() == 0 {
        Seq::empty()
    } else {
        joined(lines.drop_last()) + lines.last() + "\n"@
    }
}

impl FieldDataView {
    /// What is kept of `field`, or why nothing can be derived from it. The
    /// documentation is looked at before the name.
    pub open spec fn of(field: Field) -> Result<FieldDataView, DeriveError> {
        match doc_lines(field.attrs@) {
            None => Err(DeriveError::DocComment),
            Some(lines) => match field.ident {
                None => Err(DeriveError::MissingFieldName),
                Some(ident) => Ok(
                    FieldDataView {
                        doc_comment: joined(lines),
                        ident: ident@,
                        output_type: field.output_type,
                    },
                ),
            },
        }
    }

    /// The field in YAML, holding a value whose sample is `value`: the
    /// comment lines, the name and a colon, then the value on the same line
    /// or, for a block, on the lines that follow, moved to the right.
    pub open spec fn yaml(self, value: Seq<char>) -> Seq<char> {
        comment(self.doc_comment, Dialect::Yaml) + self.ident + ":"@ + (match self.output_type {
            OutputType::Value => " "@ + value,
            OutputType::Fields => "\n  "@ + block(value),
        }) + "\n"@
    }

    /// The field in JSON, holding a value whose sample is `value`: the
    /// comment lines, the quoted name and a colon, the value, and a comma.
    pub open spec fn json(self, value: Seq<char>) -> Seq<char> {
        comment(self.doc_comment, Dialect::Json) + "\""@ + self.ident + "\":"@ + " "@ + (
        match self.output_type {
            OutputType::Value => value,
            OutputType::Fields => trimmed(value),
        }) + ",\n"@
    }

    /// The field in the given dialect, holding a value whose sample is `value`.
    pub open spec fn sample(self, value: Seq<char>, dialect: Dialect) -> Seq<char> {
        match dialect {
            Dialect::Yaml => self.yaml(value),
            Dialect::Json => self.json(value),
        }
    }
}

impl FieldData {
    /// Takes from a field what rendering needs.
    pub fn from_field(field: Field) -> (result: Result<Self, DeriveError>)
        ensures
            match result {
                Ok(data) => FieldDataView::of(field) == Ok::<FieldDataView, DeriveError>(data@),
                Err(error) => FieldDataView::of(field) == Err::<FieldDataView, DeriveError>(error),
            },
    {
        let doc_comments = match DocComment::from_attributes(field.attrs.as_slice()) {
            Ok(comments) => comments,
            Err(error) => {
                return Err(error);
            },
        };
        let mut doc_comment = String::new();
        let ghost all = lines(doc_comments@);
        for n in 0..doc_comments.len()
            invariant
                all == lines(doc_comments@),
                doc_comment@ == joined(all.take(n as int)),
        {
            assert(all.take(n + 1).drop_last() =~= all.take(n as int));
            doc_comment.append(doc_comments[n].0.as_str());
            doc_comment.append("\n");
        }
        assert(all.take(doc_comments.len() as int) =~= all);
        match field.ident {
            Some(ident) => Ok(FieldData { doc_comment, ident, output_type: field.output_type }),
            None => Err(DeriveError::MissingFieldName),
        }
    }

    /// Appends the field in YAML to `sample`, holding a value whose sample
    /// is `value`.
    pub fn generate_yaml(&self, value: &str, sample: &mut String)
        ensures
            final(sample)@ == old(sample)@ + self@.yaml(value@),
    {
        push_comment(sample, self.doc_comment.as_str(), Dialect::Yaml);
        sample.append(self.ident.as_str());
        sample.append(":");
        match self.output_type {
            OutputType::Value => {
                sample.append(" ");
                sample.append(value);
                sample.append("\n");
                assert(sample@ =~= old(sample)@ + self@.yaml(value@));
            },
            OutputType::Fields => {
                sample.append("\n  ");
                push_block(sample, value);
                sample.append("\n");
                assert(sample@ =~= old(sample)@ + self@.yaml(value@));
            },
        }
    }

    /// Appends the field in JSON to `sample`, holding a value whose sample
    /// is `value`.
    pub fn generate_json(&self, value: &str, sample: &mut String)
        ensures
            final(sample)@ == old(sample)@ + self@.json(value@),
    {
        push_comment(sample, self.doc_comment.as_str(), Dialect::Json);
        sample.append("\"");
        sample.append(self.ident.as_str());
        sample.append("\":");
        sample.append(" ");
        match self.output_type {
            OutputType::Value => sample.append(value),
            OutputType::Fields => sample.append(trim(value)),
        }
        sample.append(",\n");
        assert(sample@ =~= old(sample)@ + self@.json(value@));
    }
}

/// What is kept of each of `fields`, in their order, or the error of the first
/// of them that has one.
pub open spec fn fields_data(fields: Seq<Field>) -> Result<Seq<FieldDataView>, DeriveError>
    decreases fields.len(),
{
    if fields.len() == 0 {
        Ok(Seq::empty())
    } else {
        match fields_data(fields.drop_last()) {
            Err(error) => Err(error),
            Ok(before) => match FieldDataView::of(fields.last()) {
                Err(error) => Err(error),
                Ok(data) => Ok(before.push(data)),
            },
        }
    }
}

/// The fields of a record in one dialect, one after the other in the order
/// of declaration, each holding the value at its position in `values`.
pub open spec fn fields_sample(
    fields: Seq<FieldDataView>,
    values: Seq<Seq<char>>,
    dialect: Dialect,
) -> Seq<char>
    decreases fields.len(),
{
    if fields.len() == 0 {
        Seq::empty()
    } else {
        fields_sample(fields.drop_last(), values.drop_last(), dialect) + fields.last().sample(
            values.last(),
            dialect,
        )
    }
}

/// The data of fields as plain values.
pub open spec fn field_views(fields: Seq<FieldData>) -> Seq<FieldDataView> {
    fields.map_values(|field: FieldData| field@)
}

/// Renders the values of a record type: its fields in the order in which
/// they were declared, each under its documentation.
#[derive(Debug, Clone)]
pub struct CompositeRenderer {
    /// The type's name.
    pub ident: String,
    /// The fields, in the order in which they were declared.
    pub fields: Vec<FieldData>,
}

/// A record's renderer as plain values.
pub struct CompositeView {
    pub ident: Seq<char>,
    pub fields: Seq<FieldDataView>,
}

impl View for CompositeRenderer {
    type V = CompositeView;

    open spec fn view(&self) -> CompositeView {
        CompositeView { ident: self.ident@, fields: field_views(self.fields@) }
    }
}

impl CompositeView {
    /// A record in YAML whose fields hold `values`.
    pub open spec fn yaml(self, values: Seq<Seq<char>>) -> Seq<char> {
        fields_sample(self.fields, values, Dialect::Yaml)
    }

    /// A record in JSON whose fields hold `values`: the fields between
    /// braces, moved two spaces to the right, without the commas behind the
    /// last of them.
    pub open spec fn json(self, values: Seq<Seq<char>>) -> Seq<char> {
        replaced(
            without_trailing(
                trimmed("{\n"@ + fields_sample(self.fields, values, Dialect::Json)),
                ',',
            ),
            '\n',
            "\n  "@,
        ) + "\n}\n"@
    }
}

impl CompositeRenderer {
    /// The shape of every record in a sample.
    pub open spec fn output_type_spec(&self) -> OutputType {
        OutputType::Fields
    }

    /// The shape of every record in a sample.
    #[verifier::when_used_as_spec(output_type_spec)]
    pub fn output_type(&self) -> (output_type: OutputType)
        ensures
            output_type == OutputType::Fields,
    {
        OutputType::Fields
    }

    /// Renders in YAML a record whose fields hold values with the samples
    /// `values`, one for each field in the order of declaration.
    pub fn generate_sample_yaml(&self, values: &Vec<String>) -> (sample: String)
        requires
            values@.len() == self.fields@.len(),
        ensures
            sample@ == self@.yaml(texts(values@)),
    {
        let mut sample = String::new();
        let ghost fields = self@.fields;
        let ghost all = texts(values@);
        for n in 0..self.fields.len()
            invariant
                fields == self@.fields,
                all == texts(values@),
                values@.len() == self.fields@.len(),
                sample@ == fields_sample(fields.take(n as int), all.take(n as int), Dialect::Yaml),
        {
            assert(fields.take(n + 1).drop_last() =~= fields.take(n as int));
            assert(all.take(n + 1).drop_last() =~= all.take(n as int));
            self.fields[n].generate_yaml(values[n].as_str(), &mut sample);
        }
        assert(fields.take(self.fields.len() as int) =~= fields);
        assert(all.take(self.fields.len() as int) =~= all);
        sample
    }

    /// Renders in JSON a record whose fields hold values with the samples
    /// `values`, one for each field in the order of declaration.
    pub fn generate_sample_json(&self, values: &Vec<String>) -> (sample: String)
        requires
            values@.len() == self.fields@.len(),
        ensures
            sample@ == self@.json(texts(values@)),
    {
        let mut body = String::new();
        body.append("{\n");
        let ghost fields = self@.fields;
        let ghost all = texts(values@);
        for n in 0..self.fields.len()
            invariant
                fields == self@.fields,
                all == texts(values@),
                values@.len() == self.fields@.len(),
                body@ == "{\n"@ + fields_sample(
                    fields.take(n as int),
                    all.take(n as int),
                    Dialect::Json,
                ),
        {
            assert(fields.take(n + 1).drop_last() =~= fields.take(n as int));
            assert(all.take(n + 1).drop_last() =~= all.take(n as int));
            self.fields[n].generate_json(values[n].as_str(), &mut body);
        }
        assert(fields.take(self.fields.len() as int) =~= fields);
        assert(all.take(self.fields.len() as int) =~= all);
        let mut sample = replace(trim_end_matches(trim(body.as_str()), ','), '\n', "\n  ");
        sample.append("\n}\n");
        sample
    }
}

/// Renders the values of an enum whose variants carry no data: each as the
/// name of its variant.
#[derive(Debug, Clone)]
pub struct EnumRenderer {
    /// The type's name.
    pub ident: String,
    /// The names of the variants, in the order in which they were declared.
    pub variants: Vec<String>,
}

/// An enum's renderer as plain values.
pub struct EnumView {
    pub ident: Seq<char>,
    pub variants: Seq<Seq<char>>,
}

impl View for EnumRenderer {
    type V = EnumView;

    open spec fn view(&self) -> EnumView {
        EnumView { ident: self.ident@, variants: texts(self.variants@) }
    }
}

impl EnumRenderer {
    /// The shape of every value of an enum in a sample.
    pub open spec fn output_type_spec(&self) -> OutputType {
        OutputType::Value
    }

    /// The shape of every value of an enum in a sample.
    #[verifier::when_used_as_spec(output_type_spec)]
    pub fn output_type(&self) -> (output_type: OutputType)
        ensures
            output_type == OutputType::Value,
    {
        OutputType::Value
    }

    /// Renders in YAML the value that is the variant at position `variant`:
    /// the variant's name.
    pub fn generate_sample_yaml(&self, variant: usize) -> (sample: String)
        requires
            variant < self.variants@.len(),
        ensures
            sample@ == self@.variants[variant as int],
    {
        self.variants[variant].clone()
    }

    /// Renders in JSON the value that is the variant at position `variant`:
    /// the variant's name between double quotes.
    pub fn generate_sample_json(&self, variant: usize) -> (sample: String)
        requires
            variant < self.variants@.len(),
        ensures
            sample@ == quoted(self@.variants[variant as int]),
    {
        quote(self.variants[variant].as_str())
    }
}

/// What deriving yields: the renderer of a record or that of an enum.
#[derive(Debug, Clone)]
pub enum Derived {
    /// The renderer of a record.
    Composite(CompositeRenderer),
    /// The renderer of an enum.
    Enum(EnumRenderer),
}

/// What deriving yields, as plain values.
pub enum DerivedView {
    Composite(CompositeView),
    Enum(EnumView),
}

impl View for Derived {
    type V = DerivedView;

    open spec fn view(&self) -> DerivedView {
        match self {
            Derived::Composite(renderer) => DerivedView::Composite(renderer@),
            Derived::Enum(renderer) => DerivedView::Enum(renderer@),
        }
    }
}

impl Derived {
    /// The shape that the type takes in a sample: a record renders as
    /// fields, an enum as a value.
    pub open spec fn output_type_spec(&self) -> OutputType {
        match self {
            Derived::Composite(_) => OutputType::Fields,
            Derived::Enum(_) => OutputType::Value,
        }
    }

    /// The shape that the type takes in a sample.
    #[verifier::when_used_as_spec(output_type_spec)]
    pub fn output_type(&self) -> (output_type: OutputType)
        ensures
            output_type == self.output_type_spec(),
    {
        match self {
            Derived::Composite(renderer) => renderer.output_type(),
            Derived::Enum(renderer) => renderer.output_type(),
        }
    }
}

/// The names of variants.
pub open spec fn variant_names(variants: Seq<Variant>) -> Seq<Seq<char>> {
    variants.map_values(|variant: Variant| variant.ident@)
}

/// Whether none of the variants carries data.
pub open spec fn all_unit(variants: Seq<Variant>) -> bool {
    forall|i: int| 0 <= i < variants.len() ==> (#[trigger] variants[i]).fields.is_empty()
}

/// The renderer of the record `ident` with the fields `fields`, or why there
/// is none: only named fields are supported, and the error of the first
/// field that has one is the error of the record.
pub open spec fn derived_struct(ident: String, fields: Fields) -> Result<CompositeView, DeriveError> {
    match fields {
        Fields::Named(named) => match fields_data(named@) {
            Ok(data) => Ok(CompositeView { ident: ident@, fields: data }),
            Err(error) => Err(error),
        },
        _ => Err(DeriveError::UnsupportedConstruct(Unsupported::UnnamedFields)),
    }
}

/// The renderer of the enum `ident` with the variants `variants`, or why
/// there is none: no variant may carry data.
pub open spec fn derived_enum(ident: String, variants: Seq<Variant>) -> Result<EnumView, DeriveError> {
    if all_unit(variants) {
        Ok(EnumView { ident: ident@, variants: variant_names(variants) })
    } else {
        Err(DeriveError::UnsupportedConstruct(Unsupported::VariantFields))
    }
}

/// The renderer of the type that `input` defines, or why there is none.
/// Generic parameters are refused before the definition is looked at.
pub open spec fn derived(input: DeriveInput) -> Result<DerivedView, DeriveError> {
    if input.generics != 0 {
        Err(DeriveError::UnsupportedConstruct(Unsupported::Generics))
    } else {
        match input.data {
            Data::Struct(fields) => match derived_struct(input.ident, fields) {
                Ok(renderer) => Ok(DerivedView::Composite(renderer)),
                Err(error) => Err(error),
            },
            Data::Enum(variants) => match derived_enum(input.ident, variants@) {
                Ok(renderer) => Ok(DerivedView::Enum(renderer)),
                Err(error) => Err(error),
            },
            Data::Union => Err(DeriveError::UnsupportedConstruct(Unsupported::Union)),
        }
    }
}

/// Once a field has an error, the fields that follow it do not change it.
pub proof fn lemma_fields_data_fail(fields: Seq<Field>, n: int, error: DeriveError)
    requires
        0 <= n <= fields.len(),
        fields_data(fields.take(n)) == Err::<Seq<FieldDataView>, DeriveError>(error),
    ensures
        fields_data(fields) == Err::<Seq<FieldDataView>, DeriveError>(error),
    decreases fields.len() - n,
{
    if n == fields.len() {
        assert(fields.take(n) =~= fields);
    } else {
        assert(fields.take(n + 1).drop_last() =~= fields.take(n));
        lemma_fields_data_fail(fields, n + 1, error);
    }
}

/// Derives the renderer of the record `ident` with the fields `fields`.
pub fn derive_sample_config_on_struct(ident: String, fields: Fields) -> (result: Result<
    CompositeRenderer,
    DeriveError,
>)
    ensures
        match result {
            Ok(renderer) => derived_struct(ident, fields) == Ok::<CompositeView, DeriveError>(renderer@),
            Err(error) => derived_struct(ident, fields) == Err::<CompositeView, DeriveError>(error),
        },
{
    let named = match fields {
        Fields::Named(named) => named,
        _ => {
            return Err(DeriveError::UnsupportedConstruct(Unsupported::UnnamedFields));
        },
    };
    let ghost all = named@;
    let mut data: Vec<FieldData> = Vec::new();
    let mut n: usize = 0;
    assert(all.len() <= usize::MAX) by {
        assert(named.len() == all.len());
    }
    assert(all.take(0) =~= Seq::empty());
    assert(field_views(data@) =~= Seq::empty());
    for field in it: named
        invariant
            it.seq() == all,
            n == it.index(),
            all.len() <= usize::MAX,
            fields matches Fields::Named(named) && named@ == all,
            fields_data(all.take(n as int)) == Ok::<Seq<FieldDataView>, DeriveError>(field_views(data@)),
    {
        assert(all.take(n + 1).drop_last() =~= all.take(n as int));
        assert(all.take(n + 1).last() == field);
        let ghost before = field_views(data@);
        match FieldData::from_field(field) {
            Ok(field_data) => {
                data.push(field_data);
                assert(field_views(data@) =~= before.push(field_data@));
            },
            Err(error) => {
                proof {
                    lemma_fields_data_fail(all, n + 1, error);
                }
                return Err(error);
            },
        }
        n = n + 1;
    }
    assert(all.take(all.len() as int) =~= all);
    Ok(CompositeRenderer { ident, fields: data })
}

/// Derives the renderer of the enum `ident` with the variants `variants`.
pub fn derive_sample_config_on_enum(ident: String, variants: Vec<Variant>) -> (result: Result<
    EnumRenderer,
    DeriveError,
>)
    ensures
        match result {
            Ok(renderer) => derived_enum(ident, variants@) == Ok::<EnumView, DeriveError>(renderer@),
            Err(error) => derived_enum(ident, variants@) == Err::<EnumView, DeriveError>(error),
        },
{
    let ghost all = variants@;
    let mut names: Vec<String> = Vec::new();
    let mut n: usize = 0;
    assert(all.len() <= usize::MAX) by {
        assert(variants.len() == all.len());
    }
    assert(texts(names@) =~= variant_names(all.take(0)));
    for variant in it: variants
        invariant
            it.seq() == all,
            n == it.index(),
            all.len() <= usize::MAX,
            all_unit(all.take(n as int)),
            texts(names@) == variant_names(all.take(n as int)),
    {
        assert(variant == all[n as int]);
        if !variant.fields.is_empty() {
            return Err(DeriveError::UnsupportedConstruct(Unsupported::VariantFields));
        }
        proof {
            let before = all.take(n as int);
            let next = all.take(n + 1);
            assert(next =~= before.push(variant));
            assert(variant_names(next) =~= variant_names(before).push(variant.ident@));
            assert(texts(names@.push(variant.ident)) =~= texts(names@).push(variant.ident@));
            assert forall|i: int| 0 <= i < next.len() implies (#[trigger] next[i]).fields.is_empty() by {
                if i < n {
                    assert(next[i] == before[i]);
                }
            }
        }
        names.push(variant.ident);
        n = n + 1;
    }
    assert(all.take(all.len() as int) =~= all);
    Ok(EnumRenderer { ident, variants: names })
}

/// Derives the renderer of the type that `input` defines.
pub fn derive_sample_config(input: DeriveInput) -> (result: Result<Derived, DeriveError>)
    ensures
        match result {
            Ok(renderer) => derived(input) == Ok::<DerivedView, DeriveError>(renderer@),
            Err(error) => derived(input) == Err::<DerivedView, DeriveError>(error),
        },
{
    if input.generics != 0 {
        return Err(DeriveError::UnsupportedConstruct(Unsupported::Generics));
    }
    let ident = input.ident;
    match input.data {
        Data::Struct(fields) => match derive_sample_config_on_struct(ident, fields) {
            Ok(renderer) => Ok(Derived::Composite(renderer)),
            Err(error) => Err(error),
        },
        Data::Enum(variants) => match derive_sample_config_on_enum(ident, variants) {
            Ok(renderer) => Ok(Derived::Enum(renderer)),
            Err(error) => Err(error),
        },
        Data::Union => Err(DeriveError::UnsupportedConstruct(Unsupported::Union)),
    }
}

} // verus!
