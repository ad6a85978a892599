//! The fields of a model, read off the schema of a custom resource
//! definition.

use vstd::prelude::*;
use vstd::string::{StrSliceExecFns, StringExecFns};
use crate::order::{name_before, name_before_is_an_order, name_less};
use crate::text::{copy_text, join, joined, same_text, text_in, texts_of};
use crate::time::Timestamp;

verus! {

/// A number with a fraction, held by the bits of its double-precision form.
#[derive(Clone, Copy, Debug, PartialEq, Eq, Structural)]
pub struct Number {
    pub bits: u64,
}

/// A bound that a schema sets: the number, and the whole number nearest to
/// it.
#[derive(Clone, Copy, Debug, PartialEq, Eq, Structural)]
pub struct Bound {
    pub value: Number,
    pub rounded: i64,
}

/// A value in a schema, by what it reads as: a whole number, a number, a
/// text, or none of them.
#[derive(Debug, PartialEq, Eq)]
pub struct SchemaValue {
    pub integer: Option<i64>,
    pub number: Option<Number>,
    pub text: Option<String>,
}

/// A named part of an object in a schema.
#[derive(Debug, PartialEq, Eq)]
pub struct Property {
    pub name: String,
    pub schema: SchemaProps,
}

/// What the parser reads of a schema.
#[derive(Debug, PartialEq, Eq)]
pub struct SchemaProps {
    pub type_: Option<String>,
    pub format: Option<String>,
    pub minimum: Option<Bound>,
    pub maximum: Option<Bound>,
    pub default: Option<SchemaValue>,
    pub enum_: Option<Vec<SchemaValue>>,
    pub nullable: Option<bool>,
    /// The parts of an object, in the order of their names.
    pub properties: Option<Vec<Property>>,
}

/// What a field of a model holds.
#[derive(Debug, PartialEq, Eq)]
#[allow(inconsistent_fields)]
pub enum ModelFieldKindSpec {
    Integer { default: Option<i64>, minimum: Option<i64>, maximum: Option<i64> },
    Number { default: Option<Number>, minimum: Option<Number>, maximum: Option<Number> },
    String { default: Option<String> },
    OneOfStrings { default: Option<String>, choices: Vec<String> },
    DateTime { default: Option<Timestamp> },
    Ip {  },
    Uuid {  },
}

/// A field of a model.
#[derive(Debug, PartialEq, Eq)]
pub struct ModelFieldSpec {
    /// The path of the field, from the root of the model.
    pub name: String,
    pub kind: ModelFieldKindSpec,
    pub nullable: bool,
}

/// Why the fields of a model could not be read.
#[derive(Debug, PartialEq, Eq)]
pub enum ModelError {
    /// A second field came up under the name of an earlier one.
    ConflictedName { name: String, raw: String },
    /// A text is of a form that no kind of field stands for.
    UnknownStringFormat { name: String, format: String },
    /// A schema is of a type that no kind of field stands for, or of none.
    UnknownType { name: String, type_: Option<String> },
    /// A reference to a definition is not a name and a version with a slash
    /// between them.
    InvalidName,
    /// A definition has no version of the name asked for. The names that it
    /// has are listed with commas between them.
    UnknownVersion { version: String, known: String },
}

#[allow(inconsistent_fields)]
pub enum KindView {
    Integer { default: Option<i64>, minimum: Option<i64>, maximum: Option<i64> },
    Number { default: Option<Number>, minimum: Option<Number>, maximum: Option<Number> },
    String { default: Option<Seq<char>> },
    OneOfStrings { default: Option<Seq<char>>, choices: Seq<Seq<char>> },
    DateTime { default: Option<Timestamp> },
    Ip,
    Uuid,
}

pub struct FieldView {
    pub name: Seq<char>,
    pub kind: KindView,
    pub nullable: bool,
}

pub enum ModelErrorView {
    ConflictedName { name: Seq<char>, raw: Seq<char> },
    UnknownStringFormat { name: Seq<char>, format: Seq<char> },
    UnknownType { name: Seq<char>, type_: Option<Seq<char>> },
    InvalidName,
    UnknownVersion { version: Seq<char>, known: Seq<char> },
}

impl View for ModelFieldKindSpec {
    type V = KindView;

    open spec fn view(&self) -> KindView {
        match *self {
            ModelFieldKindSpec::Integer { default, minimum, maximum } => KindView::Integer {
                default,
                minimum,
                maximum,
            },
            ModelFieldKindSpec::Number { default, minimum, maximum } => KindView::Number {
                default,
                minimum,
                maximum,
            },
            ModelFieldKindSpec::String { default } => KindView::String { default: text_in(default) },
            ModelFieldKindSpec::OneOfStrings { default, choices } => KindView::OneOfStrings {
                default: text_in(default),
                choices: Seq::new(choices.len() as nat, |i: int| choices[i]@),
            },
            ModelFieldKindSpec::DateTime { default } => KindView::DateTime { default },
            ModelFieldKindSpec::Ip {  } => KindView::Ip,
            ModelFieldKindSpec::Uuid {  } => KindView::Uuid,
        }
    }
}

impl View for ModelFieldSpec {
    type V = FieldView;

    open spec fn view(&self) -> FieldView {
        FieldView { name: self.name@, kind: self.kind@, nullable: self.nullable }
    }
}

impl View for ModelError {
    type V = ModelErrorView;

    open spec fn view(&self) -> ModelErrorView {
        match *self {
            ModelError::ConflictedName { name, raw } => ModelErrorView::ConflictedName {
                name: name@,
                raw: raw@,
            },
            ModelError::UnknownStringFormat { name, format } => ModelErrorView::UnknownStringFormat {
                name: name@,
                format: format@,
            },
            ModelError::UnknownType { name, type_ } => ModelErrorView::UnknownType {
                name: name@,
                type_: text_in(type_),
            },
            ModelError::InvalidName => ModelErrorView::InvalidName,
            ModelError::UnknownVersion { version, known } => ModelErrorView::UnknownVersion {
                version: version@,
                known: known@,
            },
        }
    }
}

/// The path of the part `name` of the object at the path `parent`, or of
/// the root where there is no parent.
pub open spec fn field_name(parent: Option<Seq<char>>, name: Seq<char>) -> Seq<char> {
    match parent {
        Some(parent) => parent + name + "/"@,
        None => "/"@ + name,
    }
}

/// The path of the part `name` of the object at the path `parent`, or of
/// the root where there is no parent.
pub fn convert_name(parent: Option<&str>, name: &str) -> (path: String)
    ensures
        path@ == field_name(
            match parent {
                Some(parent) => Some(parent@),
                None => None,
            },
            name@,
        ),
{
    match parent {
        Some(parent) => {
            let mut path = parent.to_owned();
            path.append(name);
            path.append("/");
            path
        },
        None => {
            let mut path = "/".to_owned();
            path.append(name);
            path
        },
    }
}

/// The whole number that `value` reads as, if it reads as one.
pub open spec fn integer_in(value: Option<SchemaValue>) -> Option<i64> {
    match value {
        Some(value) => value.integer,
        None => None,
    }
}

/// The number that `value` reads as, if it reads as one.
pub open spec fn number_in(value: Option<SchemaValue>) -> Option<Number> {
    match value {
        Some(value) => value.number,
        None => None,
    }
}

/// The text that `value` reads as, if it reads as one.
pub open spec fn string_in(value: Option<SchemaValue>) -> Option<Seq<char>> {
    match value {
        Some(value) => text_in(value.text),
        None => None,
    }
}

/// The whole number nearest to `bound`, if there is a bound.
pub open spec fn rounded(bound: Option<Bound>) -> Option<i64> {
    match bound {
        Some(bound) => Some(bound.rounded),
        None => None,
    }
}

/// The number of `bound`, if there is a bound.
pub open spec fn exact(bound: Option<Bound>) -> Option<Number> {
    match bound {
        Some(bound) => Some(bound.value),
        None => None,
    }
}

/// The texts among `values`, in their order.
pub open spec fn texts_among(values: Seq<SchemaValue>) -> Seq<Seq<char>>
    decreases values.len(),
{
    if values.len() == 0 {
        Seq::empty()
    } else {
        let before = texts_among(values.drop_last());
        match values.last().text {
            Some(text) => before.push(text@),
            None => before,
        }
    }
}

/// What stands in the way of a kind of field: a form of text, or a type of
/// schema, that no kind stands for.
#[derive(Debug, PartialEq, Eq)]
pub enum Refused {
    Format(String),
    Type(Option<String>),
}

pub enum Refusal {
    Format(Seq<char>),
    Type(Option<Seq<char>>),
}

impl View for Refused {
    type V = Refusal;

    open spec fn view(&self) -> Refusal {
        match *self {
            Refused::Format(format) => Refusal::Format(format@),
            Refused::Type(type_) => Refusal::Type(text_in(type_)),
        }
    }
}

impl Refusal {
    /// The error that this refusal makes for the field at the path `name`.
    pub open spec fn at(self, name: Seq<char>) -> ModelErrorView {
        match self {
            Refusal::Format(format) => ModelErrorView::UnknownStringFormat { name, format },
            Refusal::Type(type_) => ModelErrorView::UnknownType { name, type_ },
        }
    }
}

/// The kind of field that `prop` stands for. An object stands for no field
/// of its own. A whole number and a number take the lower bound for their
/// default where none is given, and a text is one of a choice of texts
/// where the schema lists them.
pub open spec fn kind_of(prop: SchemaProps) -> Result<Option<KindView>, Refusal> {
    let type_ = text_in(prop.type_);
    let format = text_in(prop.format);
    if type_ == Some("integer"@) {
        Ok(
            Some(
                KindView::Integer {
                    default: match integer_in(prop.default) {
                        Some(default) => Some(default),
                        None => rounded(prop.minimum),
                    },
                    minimum: rounded(prop.minimum),
                    maximum: rounded(prop.maximum),
                },
            ),
        )
    } else if type_ == Some("number"@) {
        Ok(
            Some(
                KindView::Number {
                    default: match number_in(prop.default) {
                        Some(default) => Some(default),
                        None => exact(prop.minimum),
                    },
                    minimum: exact(prop.minimum),
                    maximum: exact(prop.maximum),
                },
            ),
        )
    } else if type_ == Some("string"@) {
        if format == Some("date-time"@) {
            Ok(Some(KindView::DateTime { default: None }))
        } else if format == Some("ip"@) {
            Ok(Some(KindView::Ip))
        } else if format == Some("uuid"@) {
            Ok(Some(KindView::Uuid))
        } else if format is None {
            match prop.enum_ {
                Some(choices) => Ok(
                    Some(
                        KindView::OneOfStrings {
                            default: string_in(prop.default),
                            choices: texts_among(choices@),
                        },
                    ),
                ),
                None => Ok(Some(KindView::String { default: string_in(prop.default) })),
            }
        } else {
            Err(Refusal::Format(format->0))
        }
    } else if type_ == Some("object"@) {
        Ok(None)
    } else {
        Err(Refusal::Type(type_))
    }
}

/// Whether `text` holds the text `wanted`.
pub fn holds_text(text: &Option<String>, wanted: &str) -> (holds: bool)
    ensures
        holds == (text_in(*text) == Some(wanted@)),
{
    match text {
        Some(text) => same_text(text.as_str(), wanted),
        None => false,
    }
}

/// The texts among `values`, in their order.
pub fn texts_of_values(values: &Vec<SchemaValue>) -> (texts: Vec<String>)
    ensures
        Seq::new(texts.len() as nat, |i: int| texts[i]@) == texts_among(values@),
{
    let mut texts: Vec<String> = Vec::new();
    let mut at: usize = 0;
    while at < values.len()
        invariant
            at <= values.len(),
            Seq::new(texts.len() as nat, |i: int| texts[i]@) == texts_among(values@.take(at as int)),
        decreases values.len() - at,
    {
        assert(values@.take(at as int + 1).drop_last() =~= values@.take(at as int));
        let ghost before = Seq::new(texts.len() as nat, |i: int| texts[i]@);
        if let Some(text) = &values[at].text {
            texts.push(text.clone());
            assert(Seq::new(texts.len() as nat, |i: int| texts[i]@) =~= before.push(text@));
        }
        at += 1;
    }
    assert(values@.take(values.len() as int) =~= values@);
    texts
}

/// The kind of field that `prop` stands for.
pub fn kind_for(prop: &SchemaProps) -> (kind: Result<Option<ModelFieldKindSpec>, Refused>)
    ensures
        match kind_of(*prop) {
            Ok(Some(found)) => kind is Ok && kind->Ok_0 is Some && kind->Ok_0->0@ == found,
            Ok(None) => kind is Ok && kind->Ok_0 is None,
            Err(refusal) => kind is Err && kind->Err_0@ == refusal,
        },
{
    if holds_text(&prop.type_, "integer") {
        let minimum = match prop.minimum {
            Some(bound) => Some(bound.rounded),
            None => None,
        };
        let maximum = match prop.maximum {
            Some(bound) => Some(bound.rounded),
            None => None,
        };
        let given = match &prop.default {
            Some(value) => value.integer,
            None => None,
        };
        let default = match given {
            Some(default) => Some(default),
            None => minimum,
        };
        Ok(Some(ModelFieldKindSpec::Integer { default, minimum, maximum }))
    } else if holds_text(&prop.type_, "number") {
        let minimum = match prop.minimum {
            Some(bound) => Some(bound.value),
            None => None,
        };
        let maximum = match prop.maximum {
            Some(bound) => Some(bound.value),
            None => None,
        };
        let given = match &prop.default {
            Some(value) => value.number,
            None => None,
        };
        let default = match given {
            Some(default) => Some(default),
            None => minimum,
        };
        Ok(Some(ModelFieldKindSpec::Number { default, minimum, maximum }))
    } else if holds_text(&prop.type_, "string") {
        if holds_text(&prop.format, "date-time") {
            Ok(Some(ModelFieldKindSpec::DateTime { default: None }))
        } else if holds_text(&prop.format, "ip") {
            Ok(Some(ModelFieldKindSpec::Ip {  }))
        } else if holds_text(&prop.format, "uuid") {
            Ok(Some(ModelFieldKindSpec::Uuid {  }))
        } else {
            match &prop.format {
                Some(format) => Err(Refused::Format(format.clone())),
                None => {
                    let default = match &prop.default {
                        Some(value) => copy_text(&value.text),
                        None => None,
                    };
                    match &prop.enum_ {
                        Some(choices) => Ok(
                            Some(
                                ModelFieldKindSpec::OneOfStrings {
                                    default,
                                    choices: texts_of_values(choices),
                                },
                            ),
                        ),
                        None => Ok(Some(ModelFieldKindSpec::String { default })),
                    }
                },
            }
        }
    } else if holds_text(&prop.type_, "object") {
        Ok(None)
    } else {
        Err(Refused::Type(copy_text(&prop.type_)))
    }
}

/// The fields at the head of `fields`.
pub open spec fn views(fields: Seq<ModelFieldSpec>) -> Seq<FieldView> {
    Seq::new(fields.len(), |i: int| fields[i]@)
}

/// Whether the fields stand in the order of their names, none twice.
pub open spec fn in_order(fields: Seq<FieldView>) -> bool {
    forall|i: int, j: int|
        0 <= i < j < fields.len() ==> name_before(
            (#[trigger] fields[i]).name,
            (#[trigger] fields[j]).name,
        )
}

/// Whether one of the fields goes by `name`.
pub open spec fn has_name(fields: Seq<FieldView>, name: Seq<char>) -> bool {
    exists|i: int| 0 <= i < fields.len() && (#[trigger] fields[i]).name == name
}

/// How many of the fields at the head of `fields` come before `name`.
pub open spec fn place_of(fields: Seq<FieldView>, name: Seq<char>) -> nat
    decreases fields.len(),
{
    if fields.len() > 0 && name_before(fields[0].name, name) {
        1 + place_of(fields.drop_first(), name)
    } else {
        0
    }
}

/// `fields` with `field` put in at its place.
pub open spec fn with_field(fields: Seq<FieldView>, field: FieldView) -> Seq<FieldView> {
    fields.insert(place_of(fields, field.name) as int, field)
}

/// Where `name` belongs among fields in order, every field before that
/// place comes before `name` and no field from that place on does.
pub proof fn place_divides(fields: Seq<FieldView>, name: Seq<char>)
    requires
        in_order(fields),
    ensures
        place_of(fields, name) <= fields.len(),
        forall|i: int| 0 <= i < place_of(fields, name) ==> name_before(#[trigger] fields[i].name, name),
        forall|i: int|
            place_of(fields, name) <= i < fields.len() ==> !name_before(
                #[trigger] fields[i].name,
                name,
            ),
    decreases fields.len(),
{
    if fields.len() > 0 {
        let rest = fields.drop_first();
        assert forall|i: int, j: int| 0 <= i < j < rest.len() implies name_before(
            (#[trigger] rest[i]).name,
            (#[trigger] rest[j]).name,
        ) by {
            assert(rest[i] == fields[i + 1] && rest[j] == fields[j + 1]);
        }
        if name_before(fields[0].name, name) {
            place_divides(rest, name);
            assert forall|i: int| 0 <= i < place_of(fields, name) implies name_before(
                #[trigger] fields[i].name,
                name,
            ) by {
                if i > 0 {
                    assert(fields[i] == rest[i - 1]);
                }
            }
            assert forall|i: int| place_of(fields, name) <= i < fields.len() implies !name_before(
                #[trigger] fields[i].name,
                name,
            ) by {
                assert(fields[i] == rest[i - 1]);
            }
        } else {
            assert forall|i: int| 0 <= i < fields.len() implies !name_before(
                #[trigger] fields[i].name,
                name,
            ) by {
                if i > 0 && name_before(fields[i].name, name) {
                    name_before_is_an_order(fields[0].name, fields[i].name, name);
                }
            }
        }
    }
}

/// A field that goes by a new name, put in at its place among fields in
/// order, leaves them in order.
pub proof fn with_field_keeps_order(fields: Seq<FieldView>, field: FieldView)
    requires
        in_order(fields),
        !has_name(fields, field.name),
    ensures
        in_order(with_field(fields, field)),
{
    let place = place_of(fields, field.name) as int;
    let after = with_field(fields, field);
    place_divides(fields, field.name);
    assert forall|i: int, j: int| 0 <= i < j < after.len() implies name_before(
        (#[trigger] after[i]).name,
        (#[trigger] after[j]).name,
    ) by {
        if j < place {
            assert(after[i] == fields[i] && after[j] == fields[j]);
        } else if j == place {
            assert(after[i] == fields[i]);
        } else if i < place {
            assert(after[i] == fields[i] && after[j] == fields[j - 1]);
        } else if i == place {
            assert(after[j] == fields[j - 1]);
            name_before_is_an_order(field.name, fields[j - 1].name, fields[j - 1].name);
        } else {
            assert(after[i] == fields[i - 1] && after[j] == fields[j - 1]);
        }
    }
}

/// The fields that come of reading `prop`, the part `name` of the object at
/// the path `parent`, after `fields` have been read: the field that `prop`
/// stands for put in at its place, or the fields of its parts where it is an
/// object. A path that a field goes by already is refused, and so is a
/// schema that no kind of field stands for.
pub open spec fn read(
    fields: Seq<FieldView>,
    parent: Option<Seq<char>>,
    name: Seq<char>,
    prop: SchemaProps,
) -> Result<Seq<FieldView>, ModelErrorView>
    decreases prop, 0nat,
{
    let path = field_name(parent, name);
    if has_name(fields, path) {
        Err(ModelErrorView::ConflictedName { name: path, raw: name })
    } else {
        match kind_of(prop) {
            Err(refusal) => Err(refusal.at(path)),
            Ok(Some(kind)) => Ok(
                with_field(
                    fields,
                    FieldView {
                        name: path,
                        kind,
                        nullable: match prop.nullable {
                            Some(nullable) => nullable,
                            None => false,
                        },
                    },
                ),
            ),
            Ok(None) => match prop.properties {
                Some(parts) => read_parts(fields, path, parts@),
                None => Ok(fields),
            },
        }
    }
}

/// The fields that come of reading `parts`, the parts of the object at the
/// path `parent`, one after the other, after `fields` have been read.
pub open spec fn read_parts(
    fields: Seq<FieldView>,
    parent: Seq<char>,
    parts: Seq<Property>,
) -> Result<Seq<FieldView>, ModelErrorView>
    decreases parts, 1nat,
{
    if parts.len() == 0 {
        Ok(fields)
    } else {
        match read(fields, Some(parent), parts[0].name@, parts[0].schema) {
            Ok(fields) => read_parts(fields, parent, parts.drop_first()),
            Err(error) => Err(error),
        }
    }
}

/// The place of `name` among fields in order is the first at which no
/// field before it fails to come before `name`.
pub proof fn place_found(fields: Seq<FieldView>, name: Seq<char>, place: int)
    requires
        0 <= place <= fields.len(),
        forall|i: int| 0 <= i < place ==> name_before(#[trigger] fields[i].name, name),
        place < fields.len() ==> !name_before(fields[place].name, name),
    ensures
        place_of(fields, name) == place,
    decreases fields.len(),
{
    if place > 0 {
        let rest = fields.drop_first();
        assert forall|i: int| 0 <= i < place - 1 implies name_before(
            #[trigger] rest[i].name,
            name,
        ) by {
            assert(rest[i] == fields[i + 1]);
        }
        place_found(rest, name, place - 1);
    }
}

/// The fields of a model, as far as they have been read.
#[derive(Debug, PartialEq, Eq)]
pub struct ModelFieldsParser {
    /// The fields in the order of their names, none twice.
    pub fields: Vec<ModelFieldSpec>,
}

impl View for ModelFieldsParser {
    type V = Seq<FieldView>;

    open spec fn view(&self) -> Seq<FieldView> {
        views(self.fields@)
    }
}

impl Default for ModelFieldsParser {
    fn default() -> (parser: ModelFieldsParser)
        ensures
            parser@ == Seq::<FieldView>::empty(),
            parser.well_formed(),
    {
        let parser = ModelFieldsParser { fields: Vec::new() };
        assert(parser@ =~= Seq::<FieldView>::empty());
        parser
    }
}

impl ModelFieldsParser {
    /// Whether the fields stand in the order of their names, none twice.
    pub open spec fn well_formed(&self) -> bool {
        in_order(self@)
    }

    /// Whether a field goes by `name`.
    pub fn contains_key(&self, name: &str) -> (found: bool)
        ensures
            found == has_name(self@, name@),
    {
        let mut at: usize = 0;
        while at < self.fields.len()
            invariant
                at <= self.fields.len(),
                forall|i: int| 0 <= i < at ==> (#[trigger] self@[i]).name != name@,
            decreases self.fields.len() - at,
        {
            if same_text(self.fields[at].name.as_str(), name) {
                assert(self@[at as int].name == name@);
                return true;
            }
            at += 1;
        }
        false
    }

    /// Puts `field`, which goes by a new name, in at its place.
    pub fn insert(&mut self, field: ModelFieldSpec)
        requires
            old(self).well_formed(),
            !has_name(old(self)@, field.name@),
        ensures
            final(self)@ == with_field(old(self)@, field@),
            final(self).well_formed(),
    {
        let mut at: usize = 0;
        while at < self.fields.len() && name_less(
            self.fields[at].name.as_str(),
            field.name.as_str(),
        )
            invariant
                at <= self.fields.len(),
                forall|i: int| 0 <= i < at ==> name_before((#[trigger] self@[i]).name, field.name@),
            decreases self.fields.len() - at,
        {
            at += 1;
        }
        proof {
            place_found(self@, field.name@, at as int);
            with_field_keeps_order(self@, field@);
        }
        let ghost before = self@;
        self.fields.insert(at, field);
        assert(self@ =~= before.insert(at as int, field@));
    }

    /// Reads `prop`, the part `name` of the object at the path `parent`, or
    /// the root where there is no parent, and puts the fields that it and
    /// its parts stand for in at their places.
    pub fn parse_json_property(&mut self, parent: Option<&str>, name: &str, prop: &SchemaProps) -> (done:
        Result<(), ModelError>)
        requires
            old(self).well_formed(),
        ensures
            final(self).well_formed(),
            match read(
                old(self)@,
                match parent {
                    Some(parent) => Some(parent@),
                    None => None,
                },
                name@,
                *prop,
            ) {
                Ok(fields) => done is Ok && final(self)@ == fields,
                Err(error) => done is Err && done->Err_0@ == error,
            },
        decreases prop,
    {
        let path = convert_name(parent, name);
        if self.contains_key(path.as_str()) {
            return Err(ModelError::ConflictedName { name: path, raw: name.to_owned() });
        }
        let kind = match kind_for(prop) {
            Ok(kind) => kind,
            Err(Refused::Format(format)) => {
                return Err(ModelError::UnknownStringFormat { name: path, format });
            },
            Err(Refused::Type(type_)) => {
                return Err(ModelError::UnknownType { name: path, type_ });
            },
        };
        match kind {
            Some(kind) => {
                let nullable = match prop.nullable {
                    Some(nullable) => nullable,
                    None => false,
                };
                self.insert(ModelFieldSpec { name: path, kind, nullable });
                Ok(())
            },
            None => {
                if let Some(parts) = &prop.properties {
                    let ghost begun = self@;
                    let mut at: usize = 0;
                    assert(parts@.skip(0) =~= parts@);
                    while at < parts.len()
                        invariant
                            at <= parts.len(),
                            self.well_formed(),
                            prop.properties == Some(*parts),
                            begun == old(self)@,
                            read(
                                begun,
                                match parent {
                                    Some(parent) => Some(parent@),
                                    None => None,
                                },
                                name@,
                                *prop,
                            ) == read_parts(begun, path@, parts@),
                            read_parts(begun, path@, parts@) == read_parts(
                                self@,
                                path@,
                                parts@.skip(at as int),
                            ),
                        decreases parts.len() - at,
                    {
                        assert(parts@.skip(at as int).drop_first() =~= parts@.skip(at as int + 1));
                        assert(parts@.skip(at as int)[0] == parts@[at as int]);
                        let part = &parts[at];
                        match self.parse_json_property(
                            Some(path.as_str()),
                            part.name.as_str(),
                            &part.schema,
                        ) {
                            Ok(()) => {},
                            Err(error) => {
                                return Err(error);
                            },
                        }
                        at += 1;
                    }
                }
                Ok(())
            },
        }
    }

    /// Reads the schema of a version of a custom resource definition, from
    /// its root. A version without a schema has no fields.
    pub fn parse_custom_resource_definition(&mut self, schema: Option<&SchemaProps>) -> (done:
        Result<(), ModelError>)
        requires
            old(self).well_formed(),
        ensures
            final(self).well_formed(),
            match schema {
                Some(prop) => match read(old(self)@, None, Seq::empty(), *prop) {
                    Ok(fields) => done is Ok && final(self)@ == fields,
                    Err(error) => done is Err && done->Err_0@ == error,
                },
                None => done is Ok && final(self)@ == old(self)@,
            },
    {
        match schema {
            Some(prop) => {
                let root = "";
                proof {
                    reveal_strlit("");
                    assert(root@ =~= Seq::<char>::empty());
                }
                self.parse_json_property(None, root, prop)
            },
            None => Ok(()),
        }
    }

    /// The fields that were read, in the order of their names.
    pub fn finalize(self) -> (fields: Vec<ModelFieldSpec>)
        requires
            self.well_formed(),
        ensures
            views(fields@) == self@,
            in_order(views(fields@)),
    {
        self.fields
    }
}

/// Whether `text` has a slash at `at` and nowhere else.
pub open spec fn sole_slash(text: Seq<char>, at: int) -> bool {
    &&& 0 <= at < text.len()
    &&& forall|i: int| 0 <= i < text.len() ==> (#[trigger] text[i] == '/' <==> i == at)
}

/// The name and the version that a reference to a custom resource
/// definition is made of: what stands before and after its one slash.
pub fn parse_crd_ref(name: &str) -> (parts: Result<(String, String), ModelError>)
    ensures
        parts is Ok <==> exists|at: int| sole_slash(name@, at),
        parts is Err ==> parts->Err_0@ == ModelErrorView::InvalidName,
        parts is Ok ==> exists|at: int|
            sole_slash(name@, at) && parts->Ok_0.0@ == name@.subrange(0, at) && parts->Ok_0.1@
                == name@.subrange(at + 1, name@.len() as int),
{
    let len: usize = name.unicode_len();
    let mut slash: Option<usize> = None;
    let mut at: usize = 0;
    while at < len
        invariant
            at <= len == name@.len(),
            match slash {
                Some(found) => found < at && forall|i: int|
                    0 <= i < at ==> (#[trigger] name@[i] == '/' <==> i == found),
                None => forall|i: int| 0 <= i < at ==> #[trigger] name@[i] != '/',
            },
        decreases len - at,
    {
        if name.get_char(at) == '/' {
            match slash {
                Some(found) => {
                    assert forall|other: int| !sole_slash(name@, other) by {
                        if sole_slash(name@, other) {
                            assert(name@[found as int] == '/');
                            assert(name@[at as int] == '/');
                        }
                    }
                    return Err(ModelError::InvalidName);
                },
                None => {
                    slash = Some(at);
                },
            }
        }
        at += 1;
    }
    match slash {
        Some(found) => {
            assert(sole_slash(name@, found as int));
            let crd_name = name.substring_char(0, found).to_owned();
            let version = name.substring_char(found + 1, len).to_owned();
            Ok((crd_name, version))
        },
        None => {
            assert forall|other: int| !sole_slash(name@, other) by {
                if sole_slash(name@, other) {
                    assert(name@[other] == '/');
                }
            }
            Err(ModelError::InvalidName)
        },
    }
}

/// Where the first version of the name `version` stands among `versions`,
/// the names of the versions that a definition has.
pub fn pick_version(versions: &Vec<String>, version: &str) -> (place: Result<usize, ModelError>)
    ensures
        match place {
            Ok(at) => {
                &&& at < versions.len()
                &&& versions[at as int]@ == version@
                &&& forall|i: int| 0 <= i < at ==> (#[trigger] versions[i])@ != version@
            },
            Err(error) => {
                &&& forall|i: int| 0 <= i < versions.len() ==> (#[trigger] versions[i])@ != version@
                &&& error@ == ModelErrorView::UnknownVersion {
                    version: version@,
                    known: joined(texts_of(versions@), ","@),
                }
            },
        },
{
    let mut at: usize = 0;
    while at < versions.len()
        invariant
            at <= versions.len(),
            forall|i: int| 0 <= i < at ==> (#[trigger] versions[i])@ != version@,
        decreases versions.len() - at,
    {
        if same_text(versions[at].as_str(), version) {
            return Ok(at);
        }
        at += 1;
    }
    Err(ModelError::UnknownVersion { version: version.to_owned(), known: join(versions, ",") })
}

} // verus!
