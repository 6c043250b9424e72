//! The property-schema codec: a closed tagged union, one case per property
//! type, encoded on the wire as a single-key object whose key is the
//! variant's lower-snake-case tag and whose value is the variant's
//! configuration object.

use crate::error::DecodeError;
use crate::json::{
    is_empty_object, is_json_str, json_text, lookup, lookup_field, lookup_from, parse_json,
    parsed_json, str_eq, str_member, to_json_string, Json,
};
use vstd::prelude::*;

verus! {

/// How a number property displays its value.
#[derive(Clone, Copy, Debug, PartialEq, Eq, Structural)]
pub enum NumberFormat {
    Number,
    NumberWithCommas,
    Percent,
    Dollar,
    Euro,
    Pound,
    Yen,
    Ruble,
    Rupee,
    Won,
    Yuan,
}

/// Whether a relation points one way or keeps a property on both sides.
#[derive(Clone, Copy, Debug, PartialEq, Eq, Structural)]
pub enum RelationType {
    SingleProperty,
    DualProperty,
}

/// The aggregation a rollup property applies over the related records.
#[derive(Clone, Copy, Debug, PartialEq, Eq, Structural)]
pub enum RollupFunction {
    CountAll,
    CountValues,
    CountUniqueValues,
    CountEmpty,
    CountNotEmpty,
    PercentEmpty,
    PercentNotEmpty,
    Sum,
    Average,
    Median,
    Min,
    Max,
    Range,
    ShowOriginal,
}

/// The canonical wire constant of each number display format.
pub open spec fn number_format_text(f: NumberFormat) -> Seq<char> {
    match f {
        NumberFormat::Number => "number"@,
        NumberFormat::NumberWithCommas => "number_with_commas"@,
        NumberFormat::Percent => "percent"@,
        NumberFormat::Dollar => "dollar"@,
        NumberFormat::Euro => "euro"@,
        NumberFormat::Pound => "pound"@,
        NumberFormat::Yen => "yen"@,
        NumberFormat::Ruble => "ruble"@,
        NumberFormat::Rupee => "rupee"@,
        NumberFormat::Won => "won"@,
        NumberFormat::Yuan => "yuan"@,
    }
}

/// The format whose canonical constant is `s`, if any.
pub open spec fn number_format_of_text(s: Seq<char>) -> Option<NumberFormat> {
    if s == "number"@ {
        Some(NumberFormat::Number)
    } else if s == "number_with_commas"@ {
        Some(NumberFormat::NumberWithCommas)
    } else if s == "percent"@ {
        Some(NumberFormat::Percent)
    } else if s == "dollar"@ {
        Some(NumberFormat::Dollar)
    } else if s == "euro"@ {
        Some(NumberFormat::Euro)
    } else if s == "pound"@ {
        Some(NumberFormat::Pound)
    } else if s == "yen"@ {
        Some(NumberFormat::Yen)
    } else if s == "ruble"@ {
        Some(NumberFormat::Ruble)
    } else if s == "rupee"@ {
        Some(NumberFormat::Rupee)
    } else if s == "won"@ {
        Some(NumberFormat::Won)
    } else if s == "yuan"@ {
        Some(NumberFormat::Yuan)
    } else {
        None
    }
}

/// The canonical wire constant of each relation direction.
pub open spec fn relation_type_text(t: RelationType) -> Seq<char> {
    match t {
        RelationType::SingleProperty => "single_property"@,
        RelationType::DualProperty => "dual_property"@,
    }
}

/// The relation direction whose canonical constant is `s`, if any.
pub open spec fn relation_type_of_text(s: Seq<char>) -> Option<RelationType> {
    if s == "single_property"@ {
        Some(RelationType::SingleProperty)
    } else if s == "dual_property"@ {
        Some(RelationType::DualProperty)
    } else {
        None
    }
}

/// The canonical wire constant of each rollup aggregation function.
pub open spec fn rollup_function_text(f: RollupFunction) -> Seq<char> {
    match f {
        RollupFunction::CountAll => "count_all"@,
        RollupFunction::CountValues => "count_values"@,
        RollupFunction::CountUniqueValues => "count_unique_values"@,
        RollupFunction::CountEmpty => "count_empty"@,
        RollupFunction::CountNotEmpty => "count_not_empty"@,
        RollupFunction::PercentEmpty => "percent_empty"@,
        RollupFunction::PercentNotEmpty => "percent_not_empty"@,
        RollupFunction::Sum => "sum"@,
        RollupFunction::Average => "average"@,
        RollupFunction::Median => "median"@,
        RollupFunction::Min => "min"@,
        RollupFunction::Max => "max"@,
        RollupFunction::Range => "range"@,
        RollupFunction::ShowOriginal => "show_original"@,
    }
}

/// The rollup function whose canonical constant is `s`, if any.
pub open spec fn rollup_function_of_text(s: Seq<char>) -> Option<RollupFunction> {
    if s == "count_all"@ {
        Some(RollupFunction::CountAll)
    } else if s == "count_values"@ {
        Some(RollupFunction::CountValues)
    } else if s == "count_unique_values"@ {
        Some(RollupFunction::CountUniqueValues)
    } else if s == "count_empty"@ {
        Some(RollupFunction::CountEmpty)
    } else if s == "count_not_empty"@ {
        Some(RollupFunction::CountNotEmpty)
    } else if s == "percent_empty"@ {
        Some(RollupFunction::PercentEmpty)
    } else if s == "percent_not_empty"@ {
        Some(RollupFunction::PercentNotEmpty)
    } else if s == "sum"@ {
        Some(RollupFunction::Sum)
    } else if s == "average"@ {
        Some(RollupFunction::Average)
    } else if s == "median"@ {
        Some(RollupFunction::Median)
    } else if s == "min"@ {
        Some(RollupFunction::Min)
    } else if s == "max"@ {
        Some(RollupFunction::Max)
    } else if s == "range"@ {
        Some(RollupFunction::Range)
    } else if s == "show_original"@ {
        Some(RollupFunction::ShowOriginal)
    } else {
        None
    }
}

impl NumberFormat {
    /// The canonical wire constant of this format.
    pub fn as_text(&self) -> (r: &'static str)
        ensures
            r@ == number_format_text(*self),
    {
        match self {
            NumberFormat::Number => "number",
            NumberFormat::NumberWithCommas => "number_with_commas",
            NumberFormat::Percent => "percent",
            NumberFormat::Dollar => "dollar",
            NumberFormat::Euro => "euro",
            NumberFormat::Pound => "pound",
            NumberFormat::Yen => "yen",
            NumberFormat::Ruble => "ruble",
            NumberFormat::Rupee => "rupee",
            NumberFormat::Won => "won",
            NumberFormat::Yuan => "yuan",
        }
    }

    /// The format whose canonical constant is `s`, as
    /// `number_format_of_text` describes.
    pub fn from_text(s: &str) -> (r: Option<NumberFormat>)
        ensures
            r == number_format_of_text(s@),
    {
        if str_eq(s, "number") {
            Some(NumberFormat::Number)
        } else if str_eq(s, "number_with_commas") {
            Some(NumberFormat::NumberWithCommas)
        } else if str_eq(s, "percent") {
            Some(NumberFormat::Percent)
        } else if str_eq(s, "dollar") {
            Some(NumberFormat::Dollar)
        } else if str_eq(s, "euro") {
            Some(NumberFormat::Euro)
        } else if str_eq(s, "pound") {
            Some(NumberFormat::Pound)
        } else if str_eq(s, "yen") {
            Some(NumberFormat::Yen)
        } else if str_eq(s, "ruble") {
            Some(NumberFormat::Ruble)
        } else if str_eq(s, "rupee") {
            Some(NumberFormat::Rupee)
        } else if str_eq(s, "won") {
            Some(NumberFormat::Won)
        } else if str_eq(s, "yuan") {
            Some(NumberFormat::Yuan)
        } else {
            None
        }
    }
}

impl RelationType {
    /// The canonical wire constant of this relation direction.
    pub fn as_text(&self) -> (r: &'static str)
        ensures
            r@ == relation_type_text(*self),
    {
        match self {
            RelationType::SingleProperty => "single_property",
            RelationType::DualProperty => "dual_property",
        }
    }

    /// The relation direction whose canonical constant is `s`, as
    /// `relation_type_of_text` describes.
    pub fn from_text(s: &str) -> (r: Option<RelationType>)
        ensures
            r == relation_type_of_text(s@),
    {
        if str_eq(s, "single_property") {
            Some(RelationType::SingleProperty)
        } else if str_eq(s, "dual_property") {
            Some(RelationType::DualProperty)
        } else {
            None
        }
    }
}

impl RollupFunction {
    /// The canonical wire constant of this rollup function.
    pub fn as_text(&self) -> (r: &'static str)
        ensures
            r@ == rollup_function_text(*self),
    {
        match self {
            RollupFunction::CountAll => "count_all",
            RollupFunction::CountValues => "count_values",
            RollupFunction::CountUniqueValues => "count_unique_values",
            RollupFunction::CountEmpty => "count_empty",
            RollupFunction::CountNotEmpty => "count_not_empty",
            RollupFunction::PercentEmpty => "percent_empty",
            RollupFunction::PercentNotEmpty => "percent_not_empty",
            RollupFunction::Sum => "sum",
            RollupFunction::Average => "average",
            RollupFunction::Median => "median",
            RollupFunction::Min => "min",
            RollupFunction::Max => "max",
            RollupFunction::Range => "range",
            RollupFunction::ShowOriginal => "show_original",
        }
    }

    /// The rollup function whose canonical constant is `s`, as
    /// `rollup_function_of_text` describes.
    pub fn from_text(s: &str) -> (r: Option<RollupFunction>)
        ensures
            r == rollup_function_of_text(s@),
    {
        if str_eq(s, "count_all") {
            Some(RollupFunction::CountAll)
        } else if str_eq(s, "count_values") {
            Some(RollupFunction::CountValues)
        } else if str_eq(s, "count_unique_values") {
            Some(RollupFunction::CountUniqueValues)
        } else if str_eq(s, "count_empty") {
            Some(RollupFunction::CountEmpty)
        } else if str_eq(s, "count_not_empty") {
            Some(RollupFunction::CountNotEmpty)
        } else if str_eq(s, "percent_empty") {
            Some(RollupFunction::PercentEmpty)
        } else if str_eq(s, "percent_not_empty") {
            Some(RollupFunction::PercentNotEmpty)
        } else if str_eq(s, "sum") {
            Some(RollupFunction::Sum)
        } else if str_eq(s, "average") {
            Some(RollupFunction::Average)
        } else if str_eq(s, "median") {
            Some(RollupFunction::Median)
        } else if str_eq(s, "min") {
            Some(RollupFunction::Min)
        } else if str_eq(s, "max") {
            Some(RollupFunction::Max)
        } else if str_eq(s, "range") {
            Some(RollupFunction::Range)
        } else if str_eq(s, "show_original") {
            Some(RollupFunction::ShowOriginal)
        } else {
            None
        }
    }
}

/// One choice a select or multi-select property offers: a name with an
/// optional color.
#[derive(Clone, Debug, PartialEq, Eq)]
pub struct SelectOptionSchema {
    pub name: String,
    pub color: Option<String>,
}

/// The mathematical image of a select option.
pub struct SelectOptionV {
    pub name: Seq<char>,
    pub color: Option<Seq<char>>,
}

/// The image of an optional string: present exactly when the string is.
pub open spec fn opt_text(s: Option<String>) -> Option<Seq<char>> {
    match s {
        Some(v) => Some(v@),
        None => None,
    }
}

impl View for SelectOptionSchema {
    type V = SelectOptionV;

    open spec fn view(&self) -> SelectOptionV {
        SelectOptionV { name: self.name@, color: opt_text(self.color) }
    }
}

/// The image of an option list, element by element.
pub open spec fn options_image(v: Seq<SelectOptionSchema>) -> Seq<SelectOptionV> {
    v.map_values(|o: SelectOptionSchema| o@)
}

/// A property definition of a structured record schema.
///
/// Thirteen variants carry no configuration; the others carry only the
/// configuration relevant to their type. On the wire, optional
/// configuration fields are omitted entirely when absent, never written as
/// `null`.
#[derive(Clone, Debug, PartialEq, Eq)]
pub enum PropertySchema {
    Title {},
    RichText {},
    Number { format: Option<NumberFormat> },
    Select { options: Option<Vec<SelectOptionSchema>> },
    MultiSelect { options: Option<Vec<SelectOptionSchema>> },
    Date {},
    People {},
    Files {},
    Checkbox {},
    Url {},
    Email {},
    PhoneNumber {},
    Formula { expression: String },
    Relation { database_id: String, relation_type: RelationType },
    Rollup {
        relation_property_name: Option<String>,
        relation_property_id: Option<String>,
        rollup_property_name: Option<String>,
        rollup_property_id: Option<String>,
        function: RollupFunction,
    },
    CreatedTime {},
    CreatedBy {},
    LastEditedTime {},
    LastEditedBy {},
}

/// The mathematical image of a property schema.
pub enum PropertySchemaV {
    Title,
    RichText,
    Number { format: Option<NumberFormat> },
    Select { options: Option<Seq<SelectOptionV>> },
    MultiSelect { options: Option<Seq<SelectOptionV>> },
    Date,
    People,
    Files,
    Checkbox,
    Url,
    Email,
    PhoneNumber,
    Formula { expression: Seq<char> },
    Relation { database_id: Seq<char>, relation_type: RelationType },
    Rollup {
        relation_property_name: Option<Seq<char>>,
        relation_property_id: Option<Seq<char>>,
        rollup_property_name: Option<Seq<char>>,
        rollup_property_id: Option<Seq<char>>,
        function: RollupFunction,
    },
    CreatedTime,
    CreatedBy,
    LastEditedTime,
    LastEditedBy,
}

impl View for PropertySchema {
    type V = PropertySchemaV;

    open spec fn view(&self) -> PropertySchemaV {
        match *self {
            PropertySchema::Title {} => PropertySchemaV::Title,
            PropertySchema::RichText {} => PropertySchemaV::RichText,
            PropertySchema::Number { format } => PropertySchemaV::Number { format },
            PropertySchema::Select { options } => PropertySchemaV::Select {
                options: match options {
                    Some(v) => Some(options_image(v@)),
                    None => None,
                },
            },
            PropertySchema::MultiSelect { options } => PropertySchemaV::MultiSelect {
                options: match options {
                    Some(v) => Some(options_image(v@)),
                    None => None,
                },
            },
            PropertySchema::Date {} => PropertySchemaV::Date,
            PropertySchema::People {} => PropertySchemaV::People,
            PropertySchema::Files {} => PropertySchemaV::Files,
            PropertySchema::Checkbox {} => PropertySchemaV::Checkbox,
            PropertySchema::Url {} => PropertySchemaV::Url,
            PropertySchema::Email {} => PropertySchemaV::Email,
            PropertySchema::PhoneNumber {} => PropertySchemaV::PhoneNumber,
            PropertySchema::Formula { expression } => PropertySchemaV::Formula {
                expression: expression@,
            },
            PropertySchema::Relation { database_id, relation_type } => PropertySchemaV::Relation {
                database_id: database_id@,
                relation_type,
            },
            PropertySchema::Rollup {
                relation_property_name,
                relation_property_id,
                rollup_property_name,
                rollup_property_id,
                function,
            } => PropertySchemaV::Rollup {
                relation_property_name: opt_text(relation_property_name),
                relation_property_id: opt_text(relation_property_id),
                rollup_property_name: opt_text(rollup_property_name),
                rollup_property_id: opt_text(rollup_property_id),
                function,
            },
            PropertySchema::CreatedTime {} => PropertySchemaV::CreatedTime,
            PropertySchema::CreatedBy {} => PropertySchemaV::CreatedBy,
            PropertySchema::LastEditedTime {} => PropertySchemaV::LastEditedTime,
            PropertySchema::LastEditedBy {} => PropertySchemaV::LastEditedBy,
        }
    }
}

/// The wire tag of each variant.
pub open spec fn schema_tag(s: PropertySchemaV) -> Seq<char> {
    match s {
        PropertySchemaV::Title => "title"@,
        PropertySchemaV::RichText => "rich_text"@,
        PropertySchemaV::Number { .. } => "number"@,
        PropertySchemaV::Select { .. } => "select"@,
        PropertySchemaV::MultiSelect { .. } => "multi_select"@,
        PropertySchemaV::Date => "date"@,
        PropertySchemaV::People => "people"@,
        PropertySchemaV::Files => "files"@,
        PropertySchemaV::Checkbox => "checkbox"@,
        PropertySchemaV::Url => "url"@,
        PropertySchemaV::Email => "email"@,
        PropertySchemaV::PhoneNumber => "phone_number"@,
        PropertySchemaV::Formula { .. } => "formula"@,
        PropertySchemaV::Relation { .. } => "relation"@,
        PropertySchemaV::Rollup { .. } => "rollup"@,
        PropertySchemaV::CreatedTime => "created_time"@,
        PropertySchemaV::CreatedBy => "created_by"@,
        PropertySchemaV::LastEditedTime => "last_edited_time"@,
        PropertySchemaV::LastEditedBy => "last_edited_by"@,
    }
}

/// Whether `s` is one of the known property tags.
pub open spec fn is_known_tag(s: Seq<char>) -> bool {
    ||| s == "title"@
    ||| s == "rich_text"@
    ||| s == "number"@
    ||| s == "select"@
    ||| s == "multi_select"@
    ||| s == "date"@
    ||| s == "people"@
    ||| s == "files"@
    ||| s == "checkbox"@
    ||| s == "url"@
    ||| s == "email"@
    ||| s == "phone_number"@
    ||| s == "formula"@
    ||| s == "relation"@
    ||| s == "rollup"@
    ||| s == "created_time"@
    ||| s == "created_by"@
    ||| s == "last_edited_time"@
    ||| s == "last_edited_by"@
}

/// `j` encodes one select option: a `name` member, then a `color` member
/// exactly when a color is present.
pub open spec fn is_option_encoding(j: Json, o: SelectOptionV) -> bool {
    match j {
        Json::Object(fsv) => {
            let fs = fsv@;
            &&& fs.len() == 1 + if o.color is Some { 1int } else { 0int }
            &&& str_member(fs, 0, "name"@, o.name)
            &&& match o.color {
                Some(c) => str_member(fs, 1, "color"@, c),
                None => true,
            }
        },
        _ => false,
    }
}

/// `js` encodes the option list `opts`, element by element.
pub open spec fn is_options_encoding(js: Seq<Json>, opts: Seq<SelectOptionV>) -> bool {
    &&& js.len() == opts.len()
    &&& forall|i: int| 0 <= i < js.len() ==> is_option_encoding(#[trigger] js[i], opts[i])
}

/// `j` encodes a select configuration: an `options` array exactly when an
/// option list is present, an empty object otherwise.
pub open spec fn is_options_config(j: Json, options: Option<Seq<SelectOptionV>>) -> bool {
    match j {
        Json::Object(fsv) => {
            let fs = fsv@;
            match options {
                None => fs.len() == 0,
                Some(opts) => fs.len() == 1 && fs[0].0@ == "options"@ && match fs[0].1 {
                    Json::Array(elems) => is_options_encoding(elems@, opts),
                    _ => false,
                },
            }
        },
        _ => false,
    }
}

/// `j` encodes a rollup configuration: the four optional cross-reference
/// strings, each present exactly when set, in fixed order, then the
/// required `function` constant.
pub open spec fn is_rollup_config(
    j: Json,
    rpn: Option<Seq<char>>,
    rpi: Option<Seq<char>>,
    ron: Option<Seq<char>>,
    roi: Option<Seq<char>>,
    f: RollupFunction,
) -> bool {
    match j {
        Json::Object(fsv) => {
            let fs = fsv@;
            let i1 = if rpn is Some { 1int } else { 0int };
            let i2 = i1 + if rpi is Some { 1int } else { 0int };
            let i3 = i2 + if ron is Some { 1int } else { 0int };
            let i4 = i3 + if roi is Some { 1int } else { 0int };
            &&& fs.len() == i4 + 1
            &&& match rpn {
                Some(v) => str_member(fs, 0, "relation_property_name"@, v),
                None => true,
            }
            &&& match rpi {
                Some(v) => str_member(fs, i1, "relation_property_id"@, v),
                None => true,
            }
            &&& match ron {
                Some(v) => str_member(fs, i2, "rollup_property_name"@, v),
                None => true,
            }
            &&& match roi {
                Some(v) => str_member(fs, i3, "rollup_property_id"@, v),
                None => true,
            }
            &&& str_member(fs, i4, "function"@, rollup_function_text(f))
        },
        _ => false,
    }
}

/// `j` is the configuration object of the schema `s`.
pub open spec fn is_config_encoding(j: Json, s: PropertySchemaV) -> bool {
    match s {
        PropertySchemaV::Number { format } => match j {
            Json::Object(fsv) => match format {
                None => fsv@.len() == 0,
                Some(f) => fsv@.len() == 1 && str_member(fsv@, 0, "format"@, number_format_text(f)),
            },
            _ => false,
        },
        PropertySchemaV::Select { options } => is_options_config(j, options),
        PropertySchemaV::MultiSelect { options } => is_options_config(j, options),
        PropertySchemaV::Formula { expression } => match j {
            Json::Object(fsv) => fsv@.len() == 1 && str_member(fsv@, 0, "expression"@, expression),
            _ => false,
        },
        PropertySchemaV::Relation { database_id, relation_type } => match j {
            Json::Object(fsv) => {
                &&& fsv@.len() == 2
                &&& str_member(fsv@, 0, "database_id"@, database_id)
                &&& str_member(fsv@, 1, "type"@, relation_type_text(relation_type))
            },
            _ => false,
        },
        PropertySchemaV::Rollup {
            relation_property_name,
            relation_property_id,
            rollup_property_name,
            rollup_property_id,
            function,
        } => is_rollup_config(
            j,
            relation_property_name,
            relation_property_id,
            rollup_property_name,
            rollup_property_id,
            function,
        ),
        _ => is_empty_object(j),
    }
}

/// `j` is exactly the wire form of the schema `s`: a single-key object
/// holding the variant's tag and its configuration, optional fields
/// omitted when absent.
pub open spec fn is_schema_encoding(j: Json, s: PropertySchemaV) -> bool {
    match j {
        Json::Object(top) => {
            &&& top@.len() == 1
            &&& top@[0].0@ == schema_tag(s)
            &&& is_config_encoding(top@[0].1, s)
        },
        _ => false,
    }
}

/// What decoding element `i` on of an `options` array yields: the decoded
/// options in order, or the error of the first element that fails.
pub open spec fn spec_decode_options(elems: Seq<Json>, i: int) -> Result<
    Seq<SelectOptionV>,
    DecodeError,
>
    decreases elems.len() - i,
{
    if i < 0 || i >= elems.len() {
        Ok(Seq::empty())
    } else {
        match spec_decode_option(elems[i]) {
            Err(e) => Err(e),
            Ok(o) => match spec_decode_options(elems, i + 1) {
                Err(e) => Err(e),
                Ok(rest) => Ok(seq![o] + rest),
            },
        }
    }
}

/// What decoding one select option yields. The option must be an object;
/// `name` is required and must be a string; `color` is optional (absent or
/// null means no color) and must be a string when present; other members
/// are ignored.
pub open spec fn spec_decode_option(j: Json) -> Result<SelectOptionV, DecodeError> {
    match j {
        Json::Object(fsv) => match lookup(fsv@, "name"@) {
            None => Err(DecodeError::MissingField),
            Some(Json::String(name)) => match lookup(fsv@, "color"@) {
                None => Ok(SelectOptionV { name: name@, color: None }),
                Some(Json::Null) => Ok(SelectOptionV { name: name@, color: None }),
                Some(Json::String(c)) => Ok(SelectOptionV { name: name@, color: Some(c@) }),
                Some(_) => Err(DecodeError::TypeMismatch),
            },
            Some(_) => Err(DecodeError::TypeMismatch),
        },
        _ => Err(DecodeError::TypeMismatch),
    }
}

/// What decoding a configuration object with no required fields yields.
pub open spec fn spec_decode_plain(config: Json, out: PropertySchemaV) -> Result<
    PropertySchemaV,
    DecodeError,
> {
    match config {
        Json::Object(_) => Ok(out),
        _ => Err(DecodeError::TypeMismatch),
    }
}

/// What decoding a number configuration yields: `format` is optional
/// (absent or null means none) and must hold a known constant.
pub open spec fn spec_decode_number_config(config: Json) -> Result<PropertySchemaV, DecodeError> {
    match config {
        Json::Object(fsv) => match lookup(fsv@, "format"@) {
            None => Ok(PropertySchemaV::Number { format: None }),
            Some(Json::Null) => Ok(PropertySchemaV::Number { format: None }),
            Some(Json::String(s)) => match number_format_of_text(s@) {
                Some(f) => Ok(PropertySchemaV::Number { format: Some(f) }),
                None => Err(DecodeError::InvalidEnumValue),
            },
            Some(_) => Err(DecodeError::TypeMismatch),
        },
        _ => Err(DecodeError::TypeMismatch),
    }
}

/// What decoding a select or multi-select configuration yields: `options`
/// is optional (absent or null means none) and must be an array.
pub open spec fn spec_decode_options_config(config: Json, multi: bool) -> Result<
    PropertySchemaV,
    DecodeError,
> {
    match config {
        Json::Object(fsv) => match lookup(fsv@, "options"@) {
            None => Ok(mk_select(multi, None)),
            Some(Json::Null) => Ok(mk_select(multi, None)),
            Some(Json::Array(elems)) => match spec_decode_options(elems@, 0) {
                Ok(opts) => Ok(mk_select(multi, Some(opts))),
                Err(e) => Err(e),
            },
            Some(_) => Err(DecodeError::TypeMismatch),
        },
        _ => Err(DecodeError::TypeMismatch),
    }
}

/// A select or multi-select schema over the same option list.
pub open spec fn mk_select(multi: bool, options: Option<Seq<SelectOptionV>>) -> PropertySchemaV {
    if multi {
        PropertySchemaV::MultiSelect { options }
    } else {
        PropertySchemaV::Select { options }
    }
}

/// What decoding a formula configuration yields: `expression` is required
/// and must be a string.
pub open spec fn spec_decode_formula_config(config: Json) -> Result<PropertySchemaV, DecodeError> {
    match config {
        Json::Object(fsv) => match lookup(fsv@, "expression"@) {
            None => Err(DecodeError::MissingField),
            Some(Json::String(s)) => Ok(PropertySchemaV::Formula { expression: s@ }),
            Some(_) => Err(DecodeError::TypeMismatch),
        },
        _ => Err(DecodeError::TypeMismatch),
    }
}

/// What decoding a relation configuration yields: `database_id` and `type`
/// are both required; `type` must hold a known constant.
pub open spec fn spec_decode_relation_config(config: Json) -> Result<PropertySchemaV, DecodeError> {
    match config {
        Json::Object(fsv) => match lookup(fsv@, "database_id"@) {
            None => Err(DecodeError::MissingField),
            Some(Json::String(id)) => match lookup(fsv@, "type"@) {
                None => Err(DecodeError::MissingField),
                Some(Json::String(t)) => match relation_type_of_text(t@) {
                    Some(rt) => Ok(
                        PropertySchemaV::Relation { database_id: id@, relation_type: rt },
                    ),
                    None => Err(DecodeError::InvalidEnumValue),
                },
                Some(_) => Err(DecodeError::TypeMismatch),
            },
            Some(_) => Err(DecodeError::TypeMismatch),
        },
        _ => Err(DecodeError::TypeMismatch),
    }
}

/// What decoding one optional string field yields: absent or null means
/// none; any other non-string shape is a mismatch.
pub open spec fn spec_opt_str_field(fs: Seq<(String, Json)>, key: Seq<char>) -> Result<
    Option<Seq<char>>,
    DecodeError,
> {
    match lookup(fs, key) {
        None => Ok(None),
        Some(Json::Null) => Ok(None),
        Some(Json::String(s)) => Ok(Some(s@)),
        Some(_) => Err(DecodeError::TypeMismatch),
    }
}

/// What decoding a rollup configuration yields: four optional
/// cross-reference strings and the required `function` constant.
pub open spec fn spec_decode_rollup_config(config: Json) -> Result<PropertySchemaV, DecodeError> {
    match config {
        Json::Object(fsv) => match (
            spec_opt_str_field(fsv@, "relation_property_name"@),
            spec_opt_str_field(fsv@, "relation_property_id"@),
            spec_opt_str_field(fsv@, "rollup_property_name"@),
            spec_opt_str_field(fsv@, "rollup_property_id"@),
        ) {
            (Ok(rpn), Ok(rpi), Ok(ron), Ok(roi)) => match lookup(fsv@, "function"@) {
                None => Err(DecodeError::MissingField),
                Some(Json::String(s)) => match rollup_function_of_text(s@) {
                    Some(f) => Ok(
                        PropertySchemaV::Rollup {
                            relation_property_name: rpn,
                            relation_property_id: rpi,
                            rollup_property_name: ron,
                            rollup_property_id: roi,
                            function: f,
                        },
                    ),
                    None => Err(DecodeError::InvalidEnumValue),
                },
                Some(_) => Err(DecodeError::TypeMismatch),
            },
            (Err(e), _, _, _) => Err(e),
            (_, Err(e), _, _) => Err(e),
            (_, _, Err(e), _) => Err(e),
            (_, _, _, Err(e)) => Err(e),
        },
        _ => Err(DecodeError::TypeMismatch),
    }
}

/// What decoding the configuration selected by `tag` yields:
/// `UnknownVariant` where the tag matches no known one.
pub open spec fn spec_decode_tagged(tag: Seq<char>, config: Json) -> Result<
    PropertySchemaV,
    DecodeError,
> {
    if tag == "title"@ {
        spec_decode_plain(config, PropertySchemaV::Title)
    } else if tag == "rich_text"@ {
        spec_decode_plain(config, PropertySchemaV::RichText)
    } else if tag == "number"@ {
        spec_decode_number_config(config)
    } else if tag == "select"@ {
        spec_decode_options_config(config, false)
    } else if tag == "multi_select"@ {
        spec_decode_options_config(config, true)
    } else if tag == "date"@ {
        spec_decode_plain(config, PropertySchemaV::Date)
    } else if tag == "people"@ {
        spec_decode_plain(config, PropertySchemaV::People)
    } else if tag == "files"@ {
        spec_decode_plain(config, PropertySchemaV::Files)
    } else if tag == "checkbox"@ {
        spec_decode_plain(config, PropertySchemaV::Checkbox)
    } else if tag == "url"@ {
        spec_decode_plain(config, PropertySchemaV::Url)
    } else if tag == "email"@ {
        spec_decode_plain(config, PropertySchemaV::Email)
    } else if tag == "phone_number"@ {
        spec_decode_plain(config, PropertySchemaV::PhoneNumber)
    } else if tag == "formula"@ {
        spec_decode_formula_config(config)
    } else if tag == "relation"@ {
        spec_decode_relation_config(config)
    } else if tag == "rollup"@ {
        spec_decode_rollup_config(config)
    } else if tag == "created_time"@ {
        spec_decode_plain(config, PropertySchemaV::CreatedTime)
    } else if tag == "created_by"@ {
        spec_decode_plain(config, PropertySchemaV::CreatedBy)
    } else if tag == "last_edited_time"@ {
        spec_decode_plain(config, PropertySchemaV::LastEditedTime)
    } else if tag == "last_edited_by"@ {
        spec_decode_plain(config, PropertySchemaV::LastEditedBy)
    } else {
        Err(DecodeError::UnknownVariant)
    }
}

/// What decoding a wire object as a property schema yields. The object
/// must have exactly one member; its key selects the variant; unknown
/// additional members inside the configuration are ignored.
pub open spec fn spec_decode_schema(j: Json) -> Result<PropertySchemaV, DecodeError> {
    match j {
        Json::Object(top) => if top@.len() != 1 {
            Err(DecodeError::TypeMismatch)
        } else {
            spec_decode_tagged(top@[0].0@, top@[0].1)
        },
        _ => Err(DecodeError::TypeMismatch),
    }
}

fn empty_config() -> (r: Json)
    ensures
        is_empty_object(r),
{
    Json::Object(Vec::new())
}

fn tagged(tag: &str, config: Json) -> (r: Json)
    ensures
        (r matches Json::Object(top) && top@.len() == 1 && top@[0].0@ == tag@ && top@[0].1
            == config),
{
    let mut top: Vec<(String, Json)> = Vec::new();
    top.push((tag.to_owned(), config));
    Json::Object(top)
}

fn encode_option(o: &SelectOptionSchema) -> (r: Json)
    ensures
        is_option_encoding(r, o@),
{
    let mut fs: Vec<(String, Json)> = Vec::new();
    fs.push(("name".to_owned(), Json::String(o.name.clone())));
    if let Some(c) = &o.color {
        fs.push(("color".to_owned(), Json::String(c.clone())));
    }
    Json::Object(fs)
}

fn encode_options(v: &Vec<SelectOptionSchema>) -> (r: Vec<Json>)
    ensures
        is_options_encoding(r@, options_image(v@)),
{
    let mut out: Vec<Json> = Vec::new();
    let mut i: usize = 0;
    while i < v.len()
        invariant
            i <= v@.len(),
            out@.len() == i,
            forall|k: int| 0 <= k < i ==> is_option_encoding(#[trigger] out@[k], v@[k]@),
        decreases v@.len() - i,
    {
        out.push(encode_option(&v[i]));
        i += 1;
    }
    assert forall|k: int| 0 <= k < out@.len() implies is_option_encoding(
        #[trigger] out@[k],
        options_image(v@)[k],
    ) by {
        assert(options_image(v@)[k] == v@[k]@);
    }
    out
}

fn options_config(options: &Option<Vec<SelectOptionSchema>>) -> (r: Json)
    ensures
        is_options_config(
            r,
            match *options {
                Some(v) => Some(options_image(v@)),
                None => None,
            },
        ),
{
    match options {
        None => empty_config(),
        Some(v) => {
            let elems = encode_options(v);
            let mut fs: Vec<(String, Json)> = Vec::new();
            fs.push(("options".to_owned(), Json::Array(elems)));
            Json::Object(fs)
        },
    }
}

fn rollup_config(
    rpn: &Option<String>,
    rpi: &Option<String>,
    ron: &Option<String>,
    roi: &Option<String>,
    f: RollupFunction,
) -> (r: Json)
    ensures
        is_rollup_config(r, opt_text(*rpn), opt_text(*rpi), opt_text(*ron), opt_text(*roi), f),
{
    let mut fs: Vec<(String, Json)> = Vec::new();
    if let Some(v) = rpn {
        fs.push(("relation_property_name".to_owned(), Json::String(v.clone())));
    }
    if let Some(v) = rpi {
        fs.push(("relation_property_id".to_owned(), Json::String(v.clone())));
    }
    if let Some(v) = ron {
        fs.push(("rollup_property_name".to_owned(), Json::String(v.clone())));
    }
    if let Some(v) = roi {
        fs.push(("rollup_property_id".to_owned(), Json::String(v.clone())));
    }
    fs.push(("function".to_owned(), Json::String(f.as_text().to_owned())));
    Json::Object(fs)
}

impl PropertySchema {
    /// The wire form of this schema, exactly as `is_schema_encoding`
    /// describes; encoding never fails.
    pub fn encode(&self) -> (r: Json)
        ensures
            is_schema_encoding(r, self@),
    {
        match self {
            PropertySchema::Title {} => tagged("title", empty_config()),
            PropertySchema::RichText {} => tagged("rich_text", empty_config()),
            PropertySchema::Number { format } => {
                let config = match format {
                    None => empty_config(),
                    Some(f) => {
                        let mut fs: Vec<(String, Json)> = Vec::new();
                        fs.push(("format".to_owned(), Json::String(f.as_text().to_owned())));
                        Json::Object(fs)
                    },
                };
                tagged("number", config)
            },
            PropertySchema::Select { options } => tagged("select", options_config(options)),
            PropertySchema::MultiSelect { options } => tagged(
                "multi_select",
                options_config(options),
            ),
            PropertySchema::Date {} => tagged("date", empty_config()),
            PropertySchema::People {} => tagged("people", empty_config()),
            PropertySchema::Files {} => tagged("files", empty_config()),
            PropertySchema::Checkbox {} => tagged("checkbox", empty_config()),
            PropertySchema::Url {} => tagged("url", empty_config()),
            PropertySchema::Email {} => tagged("email", empty_config()),
            PropertySchema::PhoneNumber {} => tagged("phone_number", empty_config()),
            PropertySchema::Formula { expression } => {
                let mut fs: Vec<(String, Json)> = Vec::new();
                fs.push(("expression".to_owned(), Json::String(expression.clone())));
                tagged("formula", Json::Object(fs))
            },
            PropertySchema::Relation { database_id, relation_type } => {
                let mut fs: Vec<(String, Json)> = Vec::new();
                fs.push(("database_id".to_owned(), Json::String(database_id.clone())));
                fs.push(("type".to_owned(), Json::String(relation_type.as_text().to_owned())));
                tagged("relation", Json::Object(fs))
            },
            PropertySchema::Rollup {
                relation_property_name,
                relation_property_id,
                rollup_property_name,
                rollup_property_id,
                function,
            } => tagged(
                "rollup",
                rollup_config(
                    relation_property_name,
                    relation_property_id,
                    rollup_property_name,
                    rollup_property_id,
                    *function,
                ),
            ),
            PropertySchema::CreatedTime {} => tagged("created_time", empty_config()),
            PropertySchema::CreatedBy {} => tagged("created_by", empty_config()),
            PropertySchema::LastEditedTime {} => tagged("last_edited_time", empty_config()),
            PropertySchema::LastEditedBy {} => tagged("last_edited_by", empty_config()),
        }
    }
}

fn decode_option(j: &Json) -> (r: Result<SelectOptionSchema, DecodeError>)
    ensures
        (match r {
            Ok(o) => spec_decode_option(*j) == Ok::<SelectOptionV, DecodeError>(o@),
            Err(e) => spec_decode_option(*j) == Err::<SelectOptionV, DecodeError>(e),
        }),
{
    match j {
        Json::Object(fs) => match lookup_field(fs, "name") {
            None => Err(DecodeError::MissingField),
            Some(Json::String(name)) => match lookup_field(fs, "color") {
                None => Ok(SelectOptionSchema { name: name.clone(), color: None }),
                Some(Json::Null) => Ok(SelectOptionSchema { name: name.clone(), color: None }),
                Some(Json::String(c)) => Ok(
                    SelectOptionSchema { name: name.clone(), color: Some(c.clone()) },
                ),
                Some(_) => Err(DecodeError::TypeMismatch),
            },
            Some(_) => Err(DecodeError::TypeMismatch),
        },
        _ => Err(DecodeError::TypeMismatch),
    }
}

fn decode_options_at(elems: &Vec<Json>, i: usize) -> (r: Result<
    Vec<SelectOptionSchema>,
    DecodeError,
>)
    requires
        i <= elems@.len(),
    ensures
        (match r {
            Ok(v) => spec_decode_options(elems@, i as int) == Ok::<
                Seq<SelectOptionV>,
                DecodeError,
            >(options_image(v@)),
            Err(e) => spec_decode_options(elems@, i as int) == Err::<
                Seq<SelectOptionV>,
                DecodeError,
            >(e),
        }),
    decreases elems@.len() - i,
{
    if i == elems.len() {
        let out: Vec<SelectOptionSchema> = Vec::new();
        proof {
            assert(options_image(out@) =~= Seq::<SelectOptionV>::empty());
        }
        Ok(out)
    } else {
        match decode_option(&elems[i]) {
            Err(e) => Err(e),
            Ok(o) => match decode_options_at(elems, i + 1) {
                Err(e) => Err(e),
                Ok(mut rest) => {
                    let ghost pre = rest@;
                    rest.insert(0, o);
                    proof {
                        assert forall|k: int| 0 <= k < rest@.len() implies options_image(rest@)[k]
                            == (seq![o@] + options_image(pre))[k] by {
                            if k > 0 {
                                assert(rest@[k] == pre[k - 1]);
                            }
                        }
                        assert(options_image(rest@) =~= seq![o@] + options_image(pre));
                    }
                    Ok(rest)
                },
            },
        }
    }
}

fn decode_plain_config(config: &Json, out: PropertySchema) -> (r: Result<
    PropertySchema,
    DecodeError,
>)
    ensures
        (match r {
            Ok(s) => spec_decode_plain(*config, out@) == Ok::<PropertySchemaV, DecodeError>(s@),
            Err(e) => spec_decode_plain(*config, out@) == Err::<PropertySchemaV, DecodeError>(e),
        }),
{
    match config {
        Json::Object(_) => Ok(out),
        _ => Err(DecodeError::TypeMismatch),
    }
}

fn decode_number_config(config: &Json) -> (r: Result<PropertySchema, DecodeError>)
    ensures
        (match r {
            Ok(s) => spec_decode_number_config(*config) == Ok::<PropertySchemaV, DecodeError>(s@),
            Err(e) => spec_decode_number_config(*config) == Err::<PropertySchemaV, DecodeError>(e),
        }),
{
    match config {
        Json::Object(fs) => match lookup_field(fs, "format") {
            None => Ok(PropertySchema::Number { format: None }),
            Some(Json::Null) => Ok(PropertySchema::Number { format: None }),
            Some(Json::String(s)) => match NumberFormat::from_text(s.as_str()) {
                Some(f) => Ok(PropertySchema::Number { format: Some(f) }),
                None => Err(DecodeError::InvalidEnumValue),
            },
            Some(_) => Err(DecodeError::TypeMismatch),
        },
        _ => Err(DecodeError::TypeMismatch),
    }
}

fn decode_options_config(config: &Json, multi: bool) -> (r: Result<PropertySchema, DecodeError>)
    ensures
        (match r {
            Ok(s) => spec_decode_options_config(*config, multi) == Ok::<
                PropertySchemaV,
                DecodeError,
            >(s@),
            Err(e) => spec_decode_options_config(*config, multi) == Err::<
                PropertySchemaV,
                DecodeError,
            >(e),
        }),
{
    match config {
        Json::Object(fs) => match lookup_field(fs, "options") {
            None => Ok(mk_select_exec(multi, None)),
            Some(Json::Null) => Ok(mk_select_exec(multi, None)),
            Some(Json::Array(elems)) => match decode_options_at(elems, 0) {
                Ok(opts) => Ok(mk_select_exec(multi, Some(opts))),
                Err(e) => Err(e),
            },
            Some(_) => Err(DecodeError::TypeMismatch),
        },
        _ => Err(DecodeError::TypeMismatch),
    }
}

fn mk_select_exec(multi: bool, options: Option<Vec<SelectOptionSchema>>) -> (r: PropertySchema)
    ensures
        r@ == mk_select(
            multi,
            match options {
                Some(v) => Some(options_image(v@)),
                None => None,
            },
        ),
{
    if multi {
        PropertySchema::MultiSelect { options }
    } else {
        PropertySchema::Select { options }
    }
}

fn decode_formula_config(config: &Json) -> (r: Result<PropertySchema, DecodeError>)
    ensures
        (match r {
            Ok(s) => spec_decode_formula_config(*config) == Ok::<PropertySchemaV, DecodeError>(s@),
            Err(e) => spec_decode_formula_config(*config) == Err::<PropertySchemaV, DecodeError>(
                e,
            ),
        }),
{
    match config {
        Json::Object(fs) => match lookup_field(fs, "expression") {
            None => Err(DecodeError::MissingField),
            Some(Json::String(s)) => Ok(PropertySchema::Formula { expression: s.clone() }),
            Some(_) => Err(DecodeError::TypeMismatch),
        },
        _ => Err(DecodeError::TypeMismatch),
    }
}

fn decode_relation_config(config: &Json) -> (r: Result<PropertySchema, DecodeError>)
    ensures
        (match r {
            Ok(s) => spec_decode_relation_config(*config) == Ok::<PropertySchemaV, DecodeError>(
                s@,
            ),
            Err(e) => spec_decode_relation_config(*config) == Err::<PropertySchemaV, DecodeError>(
                e,
            ),
        }),
{
    match config {
        Json::Object(fs) => match lookup_field(fs, "database_id") {
            None => Err(DecodeError::MissingField),
            Some(Json::String(id)) => match lookup_field(fs, "type") {
                None => Err(DecodeError::MissingField),
                Some(Json::String(t)) => match RelationType::from_text(t.as_str()) {
                    Some(rt) => Ok(
                        PropertySchema::Relation { database_id: id.clone(), relation_type: rt },
                    ),
                    None => Err(DecodeError::InvalidEnumValue),
                },
                Some(_) => Err(DecodeError::TypeMismatch),
            },
            Some(_) => Err(DecodeError::TypeMismatch),
        },
        _ => Err(DecodeError::TypeMismatch),
    }
}

fn opt_str_field(fs: &Vec<(String, Json)>, key: &str) -> (r: Result<Option<String>, DecodeError>)
    ensures
        (match r {
            Ok(v) => spec_opt_str_field(fs@, key@) == Ok::<Option<Seq<char>>, DecodeError>(
                opt_text(v),
            ),
            Err(e) => spec_opt_str_field(fs@, key@) == Err::<Option<Seq<char>>, DecodeError>(e),
        }),
{
    match lookup_field(fs, key) {
        None => Ok(None),
        Some(Json::Null) => Ok(None),
        Some(Json::String(s)) => Ok(Some(s.clone())),
        Some(_) => Err(DecodeError::TypeMismatch),
    }
}

fn decode_rollup_config(config: &Json) -> (r: Result<PropertySchema, DecodeError>)
    ensures
        (match r {
            Ok(s) => spec_decode_rollup_config(*config) == Ok::<PropertySchemaV, DecodeError>(s@),
            Err(e) => spec_decode_rollup_config(*config) == Err::<PropertySchemaV, DecodeError>(e),
        }),
{
    match config {
        Json::Object(fs) => {
            let rpn = match opt_str_field(fs, "relation_property_name") {
                Ok(v) => v,
                Err(e) => {
                    return Err(e);
                },
            };
            let rpi = match opt_str_field(fs, "relation_property_id") {
                Ok(v) => v,
                Err(e) => {
                    return Err(e);
                },
            };
            let ron = match opt_str_field(fs, "rollup_property_name") {
                Ok(v) => v,
                Err(e) => {
                    return Err(e);
                },
            };
            let roi = match opt_str_field(fs, "rollup_property_id") {
                Ok(v) => v,
                Err(e) => {
                    return Err(e);
                },
            };
            match lookup_field(fs, "function") {
                None => Err(DecodeError::MissingField),
                Some(Json::String(s)) => match RollupFunction::from_text(s.as_str()) {
                    Some(f) => Ok(
                        PropertySchema::Rollup {
                            relation_property_name: rpn,
                            relation_property_id: rpi,
                            rollup_property_name: ron,
                            rollup_property_id: roi,
                            function: f,
                        },
                    ),
                    None => Err(DecodeError::InvalidEnumValue),
                },
                Some(_) => Err(DecodeError::TypeMismatch),
            }
        },
        _ => Err(DecodeError::TypeMismatch),
    }
}

impl PropertySchema {
    /// Decodes a wire object, exactly as `spec_decode_schema` describes:
    /// the object must have exactly one member, the member's key selects
    /// the variant, and unknown additional members inside the selected
    /// configuration are ignored.
    pub fn decode(j: &Json) -> (r: Result<PropertySchema, DecodeError>)
        ensures
            (match r {
                Ok(s) => spec_decode_schema(*j) == Ok::<PropertySchemaV, DecodeError>(s@),
                Err(e) => spec_decode_schema(*j) == Err::<PropertySchemaV, DecodeError>(e),
            }),
    {
        match j {
            Json::Object(top) => {
                if top.len() != 1 {
                    Err(DecodeError::TypeMismatch)
                } else {
                    let tag = top[0].0.as_str();
                    let config = &top[0].1;
                    if str_eq(tag, "title") {
                        decode_plain_config(config, PropertySchema::Title {})
                    } else if str_eq(tag, "rich_text") {
                        decode_plain_config(config, PropertySchema::RichText {})
                    } else if str_eq(tag, "number") {
                        decode_number_config(config)
                    } else if str_eq(tag, "select") {
                        decode_options_config(config, false)
                    } else if str_eq(tag, "multi_select") {
                        decode_options_config(config, true)
                    } else if str_eq(tag, "date") {
                        decode_plain_config(config, PropertySchema::Date {})
                    } else if str_eq(tag, "people") {
                        decode_plain_config(config, PropertySchema::People {})
                    } else if str_eq(tag, "files") {
                        decode_plain_config(config, PropertySchema::Files {})
                    } else if str_eq(tag, "checkbox") {
                        decode_plain_config(config, PropertySchema::Checkbox {})
                    } else if str_eq(tag, "url") {
                        decode_plain_config(config, PropertySchema::Url {})
                    } else if str_eq(tag, "email") {
                        decode_plain_config(config, PropertySchema::Email {})
                    } else if str_eq(tag, "phone_number") {
                        decode_plain_config(config, PropertySchema::PhoneNumber {})
                    } else if str_eq(tag, "formula") {
                        decode_formula_config(config)
                    } else if str_eq(tag, "relation") {
                        decode_relation_config(config)
                    } else if str_eq(tag, "rollup") {
                        decode_rollup_config(config)
                    } else if str_eq(tag, "created_time") {
                        decode_plain_config(config, PropertySchema::CreatedTime {})
                    } else if str_eq(tag, "created_by") {
                        decode_plain_config(config, PropertySchema::CreatedBy {})
                    } else if str_eq(tag, "last_edited_time") {
                        decode_plain_config(config, PropertySchema::LastEditedTime {})
                    } else if str_eq(tag, "last_edited_by") {
                        decode_plain_config(config, PropertySchema::LastEditedBy {})
                    } else {
                        Err(DecodeError::UnknownVariant)
                    }
                }
            },
            _ => Err(DecodeError::TypeMismatch),
        }
    }
}

impl PropertySchema {
    /// Renders this schema's wire form as JSON text (object members come
    /// out sorted by key).
    pub fn to_json_text(&self) -> (r: String)
        ensures
            exists|j: Json| #[trigger] is_schema_encoding(j, self@) && r@ == json_text(j),
    {
        let encoded = self.encode();
        let r = to_json_string(&encoded);
        proof {
            assert(is_schema_encoding(encoded, self@) && r@ == json_text(encoded));
        }
        r
    }

    /// Parses JSON text and decodes the resulting object; text that is not
    /// well-formed JSON is a shape mismatch.
    pub fn from_json_text(s: &str) -> (r: Result<PropertySchema, DecodeError>)
        ensures
            (match parsed_json(s@) {
                None => r == Err::<PropertySchema, DecodeError>(DecodeError::TypeMismatch),
                Some(j) => match r {
                    Ok(x) => spec_decode_schema(j) == Ok::<PropertySchemaV, DecodeError>(x@),
                    Err(e) => spec_decode_schema(j) == Err::<PropertySchemaV, DecodeError>(e),
                },
            }),
    {
        match parse_json(s) {
            None => Err(DecodeError::TypeMismatch),
            Some(j) => PropertySchema::decode(&j),
        }
    }
}

/// Serializing and then parsing a number-format constant yields the
/// original format.
pub proof fn lemma_number_format_inverse(f: NumberFormat)
    ensures
        number_format_of_text(number_format_text(f)) == Some(f),
{
    reveal_strlit("number");
    reveal_strlit("number_with_commas");
    reveal_strlit("percent");
    reveal_strlit("dollar");
    reveal_strlit("euro");
    reveal_strlit("pound");
    reveal_strlit("yen");
    reveal_strlit("ruble");
    reveal_strlit("rupee");
    reveal_strlit("won");
    reveal_strlit("yuan");
    // Lengths and leading characters decide every equality between two of
    // the constants above.
    assert("number"@.len() == 6);
    assert("number"@[0] == 'n');
    assert("number_with_commas"@.len() == 18);
    assert("number_with_commas"@[0] == 'n');
    assert("percent"@.len() == 7);
    assert("percent"@[0] == 'p');
    assert("dollar"@.len() == 6);
    assert("dollar"@[0] == 'd');
    assert("euro"@.len() == 4);
    assert("euro"@[0] == 'e');
    assert("pound"@.len() == 5);
    assert("pound"@[0] == 'p');
    assert("yen"@.len() == 3);
    assert("yen"@[0] == 'y');
    assert("ruble"@.len() == 5);
    assert("ruble"@[0] == 'r');
    assert("rupee"@.len() == 5);
    assert("rupee"@[0] == 'r');
    assert("won"@.len() == 3);
    assert("won"@[0] == 'w');
    assert("yuan"@.len() == 4);
    assert("yuan"@[0] == 'y');
    assert("ruble"@[2] == 'b');
    assert("rupee"@[2] == 'p');
    match f {
        NumberFormat::Number => {},
        NumberFormat::NumberWithCommas => {},
        NumberFormat::Percent => {},
        NumberFormat::Dollar => {},
        NumberFormat::Euro => {},
        NumberFormat::Pound => {},
        NumberFormat::Yen => {},
        NumberFormat::Ruble => {},
        NumberFormat::Rupee => {},
        NumberFormat::Won => {},
        NumberFormat::Yuan => {},
    }
}

/// Serializing and then parsing a relation-direction constant yields the
/// original direction.
pub proof fn lemma_relation_type_inverse(t: RelationType)
    ensures
        relation_type_of_text(relation_type_text(t)) == Some(t),
{
    reveal_strlit("single_property");
    reveal_strlit("dual_property");
    // Lengths and leading characters decide every equality between two of
    // the constants above.
    assert("single_property"@.len() == 15);
    assert("single_property"@[0] == 's');
    assert("dual_property"@.len() == 13);
    assert("dual_property"@[0] == 'd');
    match t {
        RelationType::SingleProperty => {},
        RelationType::DualProperty => {},
    }
}

/// Serializing and then parsing a rollup-function constant yields the
/// original function.
pub proof fn lemma_rollup_function_inverse(f: RollupFunction)
    ensures
        rollup_function_of_text(rollup_function_text(f)) == Some(f),
{
    reveal_strlit("count_all");
    reveal_strlit("count_values");
    reveal_strlit("count_unique_values");
    reveal_strlit("count_empty");
    reveal_strlit("count_not_empty");
    reveal_strlit("percent_empty");
    reveal_strlit("percent_not_empty");
    reveal_strlit("sum");
    reveal_strlit("average");
    reveal_strlit("median");
    reveal_strlit("min");
    reveal_strlit("max");
    reveal_strlit("range");
    reveal_strlit("show_original");
    // Lengths and leading characters decide every equality between two of
    // the constants above.
    assert("count_all"@.len() == 9);
    assert("count_all"@[0] == 'c');
    assert("count_values"@.len() == 12);
    assert("count_values"@[0] == 'c');
    assert("count_unique_values"@.len() == 19);
    assert("count_unique_values"@[0] == 'c');
    assert("count_empty"@.len() == 11);
    assert("count_empty"@[0] == 'c');
    assert("count_not_empty"@.len() == 15);
    assert("count_not_empty"@[0] == 'c');
    assert("percent_empty"@.len() == 13);
    assert("percent_empty"@[0] == 'p');
    assert("percent_not_empty"@.len() == 17);
    assert("percent_not_empty"@[0] == 'p');
    assert("sum"@.len() == 3);
    assert("sum"@[0] == 's');
    assert("average"@.len() == 7);
    assert("average"@[0] == 'a');
    assert("median"@.len() == 6);
    assert("median"@[0] == 'm');
    assert("min"@.len() == 3);
    assert("min"@[0] == 'm');
    assert("max"@.len() == 3);
    assert("max"@[0] == 'm');
    assert("range"@.len() == 5);
    assert("range"@[0] == 'r');
    assert("show_original"@.len() == 13);
    assert("show_original"@[0] == 's');
    assert("min"@[1] == 'i');
    assert("max"@[1] == 'a');
    assert("sum"@[1] == 'u');
    match f {
        RollupFunction::CountAll => {},
        RollupFunction::CountValues => {},
        RollupFunction::CountUniqueValues => {},
        RollupFunction::CountEmpty => {},
        RollupFunction::CountNotEmpty => {},
        RollupFunction::PercentEmpty => {},
        RollupFunction::PercentNotEmpty => {},
        RollupFunction::Sum => {},
        RollupFunction::Average => {},
        RollupFunction::Median => {},
        RollupFunction::Min => {},
        RollupFunction::Max => {},
        RollupFunction::Range => {},
        RollupFunction::ShowOriginal => {},
    }
}

/// Decoding an encoded select option yields the original option.
proof fn lemma_option_round_trip(j: Json, o: SelectOptionV)
    requires
        is_option_encoding(j, o),
    ensures
        spec_decode_option(j) == Ok::<SelectOptionV, DecodeError>(o),
{
    reveal_with_fuel(lookup_from, 4);
    reveal_strlit("name");
    reveal_strlit("color");
    // Lengths and leading characters decide every equality between two of
    // the constants above.
    assert("name"@.len() == 4);
    assert("name"@[0] == 'n');
    assert("color"@.len() == 5);
    assert("color"@[0] == 'c');
    match o.color {
        Some(_) => {},
        None => {},
    }
}

/// Decoding an encoded option list, element by element, yields the
/// original list from position `i` on.
proof fn lemma_options_round_trip(js: Seq<Json>, opts: Seq<SelectOptionV>, i: int)
    requires
        is_options_encoding(js, opts),
        0 <= i <= js.len(),
    ensures
        spec_decode_options(js, i) == Ok::<Seq<SelectOptionV>, DecodeError>(opts.skip(i)),
    decreases js.len() - i,
{
    if i == js.len() {
        assert(opts.skip(i) =~= Seq::<SelectOptionV>::empty());
    } else {
        lemma_option_round_trip(js[i], opts[i]);
        lemma_options_round_trip(js, opts, i + 1);
        assert(seq![opts[i]] + opts.skip(i + 1) =~= opts.skip(i));
    }
}

/// Round-trip: decoding the wire form of any constructible property schema
/// yields that schema, exactly.
pub proof fn lemma_schema_round_trip(j: Json, s: PropertySchemaV)
    requires
        is_schema_encoding(j, s),
    ensures
        spec_decode_schema(j) == Ok::<PropertySchemaV, DecodeError>(s),
{
    reveal_with_fuel(lookup_from, 8);
    reveal_strlit("title");
    reveal_strlit("rich_text");
    reveal_strlit("number");
    reveal_strlit("select");
    reveal_strlit("multi_select");
    reveal_strlit("date");
    reveal_strlit("people");
    reveal_strlit("files");
    reveal_strlit("checkbox");
    reveal_strlit("url");
    reveal_strlit("email");
    reveal_strlit("phone_number");
    reveal_strlit("formula");
    reveal_strlit("relation");
    reveal_strlit("rollup");
    reveal_strlit("created_time");
    reveal_strlit("created_by");
    reveal_strlit("last_edited_time");
    reveal_strlit("last_edited_by");
    reveal_strlit("format");
    reveal_strlit("options");
    reveal_strlit("expression");
    reveal_strlit("database_id");
    reveal_strlit("type");
    reveal_strlit("relation_property_name");
    reveal_strlit("relation_property_id");
    reveal_strlit("rollup_property_name");
    reveal_strlit("rollup_property_id");
    reveal_strlit("function");
    reveal_strlit("name");
    reveal_strlit("color");
    // Lengths and leading characters decide every equality between two of
    // the constants above.
    assert("title"@.len() == 5);
    assert("title"@[0] == 't');
    assert("rich_text"@.len() == 9);
    assert("rich_text"@[0] == 'r');
    assert("number"@.len() == 6);
    assert("number"@[0] == 'n');
    assert("select"@.len() == 6);
    assert("select"@[0] == 's');
    assert("multi_select"@.len() == 12);
    assert("multi_select"@[0] == 'm');
    assert("date"@.len() == 4);
    assert("date"@[0] == 'd');
    assert("people"@.len() == 6);
    assert("people"@[0] == 'p');
    assert("files"@.len() == 5);
    assert("files"@[0] == 'f');
    assert("checkbox"@.len() == 8);
    assert("checkbox"@[0] == 'c');
    assert("url"@.len() == 3);
    assert("url"@[0] == 'u');
    assert("email"@.len() == 5);
    assert("email"@[0] == 'e');
    assert("phone_number"@.len() == 12);
    assert("phone_number"@[0] == 'p');
    assert("formula"@.len() == 7);
    assert("formula"@[0] == 'f');
    assert("relation"@.len() == 8);
    assert("relation"@[0] == 'r');
    assert("rollup"@.len() == 6);
    assert("rollup"@[0] == 'r');
    assert("created_time"@.len() == 12);
    assert("created_time"@[0] == 'c');
    assert("created_by"@.len() == 10);
    assert("created_by"@[0] == 'c');
    assert("last_edited_time"@.len() == 16);
    assert("last_edited_time"@[0] == 'l');
    assert("last_edited_by"@.len() == 14);
    assert("last_edited_by"@[0] == 'l');
    assert("format"@.len() == 6);
    assert("format"@[0] == 'f');
    assert("options"@.len() == 7);
    assert("options"@[0] == 'o');
    assert("name"@.len() == 4);
    assert("name"@[0] == 'n');
    assert("color"@.len() == 5);
    assert("color"@[0] == 'c');
    assert("expression"@.len() == 10);
    assert("expression"@[0] == 'e');
    assert("database_id"@.len() == 11);
    assert("database_id"@[0] == 'd');
    assert("type"@.len() == 4);
    assert("type"@[0] == 't');
    assert("relation_property_name"@.len() == 22);
    assert("relation_property_name"@[0] == 'r');
    assert("relation_property_id"@.len() == 20);
    assert("relation_property_id"@[0] == 'r');
    assert("rollup_property_name"@.len() == 20);
    assert("rollup_property_name"@[0] == 'r');
    assert("rollup_property_id"@.len() == 18);
    assert("rollup_property_id"@[0] == 'r');
    assert("function"@.len() == 8);
    assert("function"@[0] == 'f');
    assert("relation_property_id"@[1] == 'e');
    assert("rollup_property_name"@[1] == 'o');
    match s {
        PropertySchemaV::Number { format } => {
            if let Some(f) = format {
                lemma_number_format_inverse(f);
            }
        },
        PropertySchemaV::Select { options } => {
            if let Some(opts) = options {
                let config = j->Object_0@[0].1;
                let elems = config->Object_0@[0].1->Array_0;
                lemma_options_round_trip(elems@, opts, 0);
                assert(opts.skip(0) =~= opts);
            }
        },
        PropertySchemaV::MultiSelect { options } => {
            if let Some(opts) = options {
                let config = j->Object_0@[0].1;
                let elems = config->Object_0@[0].1->Array_0;
                lemma_options_round_trip(elems@, opts, 0);
                assert(opts.skip(0) =~= opts);
            }
        },
        PropertySchemaV::Relation { database_id, relation_type } => {
            lemma_relation_type_inverse(relation_type);
        },
        PropertySchemaV::Rollup { function, .. } => {
            lemma_rollup_function_inverse(function);
        },
        _ => {},
    }
}

/// A single-member object whose key is outside the known property-tag set
/// decodes to `UnknownVariant`, whatever its configuration holds.
pub proof fn lemma_unknown_tag_rejected(j: Json)
    requires
        (j matches Json::Object(top) && top@.len() == 1 && !is_known_tag(top@[0].0@)),
    ensures
        spec_decode_schema(j) == Err::<PropertySchemaV, DecodeError>(DecodeError::UnknownVariant),
{
}

} // verus!
