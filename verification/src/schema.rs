//! Argument schemas: the named, typed fields of a request, the value that
//! stands in for an absent field, and the decoding of raw arguments.

use vstd::prelude::*;
use vstd::string::StringExecFns;
use crate::value::{ArgItem, ArgValue, ArgValueView, RawArgs};

verus! {

/// The semantic type of a field.
#[derive(Clone, Copy, Debug, PartialEq, Eq, Structural)]
pub enum FieldKind {
    Text,
    Flag,
    OptionalText,
    TextList,
}

/// A decoded field.
#[derive(Clone, Debug, PartialEq, Eq)]
pub enum FieldValue {
    Text(String),
    Flag(bool),
    OptionalText(Option<String>),
    TextList(Vec<String>),
}

/// What a `FieldValue` denotes.
pub ghost enum FieldValueView {
    Text(Seq<char>),
    Flag(bool),
    OptionalText(Option<Seq<char>>),
    TextList(Seq<Seq<char>>),
}

impl FieldValueView {
    /// The type of this value.
    pub open spec fn kind(self) -> FieldKind {
        match self {
            FieldValueView::Text(_) => FieldKind::Text,
            FieldValueView::Flag(_) => FieldKind::Flag,
            FieldValueView::OptionalText(_) => FieldKind::OptionalText,
            FieldValueView::TextList(_) => FieldKind::TextList,
        }
    }

    /// The raw value that a caller sends to give a field this value.
    pub open spec fn raw_form(self) -> ArgValueView {
        match self {
            FieldValueView::Text(s) => ArgValueView::Text(s),
            FieldValueView::Flag(b) => ArgValueView::Bool(b),
            FieldValueView::OptionalText(None) => ArgValueView::Null,
            FieldValueView::OptionalText(Some(s)) => ArgValueView::Text(s),
            FieldValueView::TextList(texts) => ArgValueView::List(
                Seq::new(texts.len(), |i: int| Some(texts[i])),
            ),
        }
    }
}

impl View for FieldValue {
    type V = FieldValueView;

    open spec fn view(&self) -> FieldValueView {
        match self {
            FieldValue::Text(s) => FieldValueView::Text(s@),
            FieldValue::Flag(b) => FieldValueView::Flag(*b),
            FieldValue::OptionalText(None) => FieldValueView::OptionalText(None),
            FieldValue::OptionalText(Some(s)) => FieldValueView::OptionalText(Some(s@)),
            FieldValue::TextList(texts) => FieldValueView::TextList(texts.deep_view()),
        }
    }
}

/// One field of a schema: its name, its type, and the value it takes when
/// the caller leaves it out. A field without such a value is required.
#[derive(Clone, Debug, PartialEq, Eq)]
pub struct FieldSpec {
    pub name: String,
    pub kind: FieldKind,
    pub default: Option<FieldValue>,
}

/// What a `FieldSpec` denotes.
pub ghost struct FieldSpecView {
    pub name: Seq<char>,
    pub kind: FieldKind,
    pub default: Option<FieldValueView>,
}

impl View for FieldSpec {
    type V = FieldSpecView;

    open spec fn view(&self) -> FieldSpecView {
        FieldSpecView {
            name: self.name@,
            kind: self.kind,
            default: match self.default {
                Some(d) => Some(d@),
                None => None,
            },
        }
    }
}

/// The fields of a request, in order.
#[derive(Clone, Debug, PartialEq, Eq)]
pub struct ArgumentSchema {
    pub fields: Vec<FieldSpec>,
}

impl View for ArgumentSchema {
    type V = Seq<FieldSpecView>;

    open spec fn view(&self) -> Seq<FieldSpecView> {
        self.fields@.map_values(|f: FieldSpec| f@)
    }
}

/// Whether no two fields share a name.
pub open spec fn names_distinct(fields: Seq<FieldSpecView>) -> bool {
    forall|i: int, j: int|
        0 <= i < j < fields.len() ==> (#[trigger] fields[i]).name != (#[trigger] fields[j]).name
}

/// Whether every default has the type of its field.
pub open spec fn defaults_typed(fields: Seq<FieldSpecView>) -> bool {
    forall|i: int|
        0 <= i < fields.len() ==> ((#[trigger] fields[i]).default matches Some(d) ==> d.kind()
            == fields[i].kind)
}

/// A schema is in order when no two fields share a name and every default
/// has the type of its field.
pub open spec fn schema_wf(fields: Seq<FieldSpecView>) -> bool {
    names_distinct(fields) && defaults_typed(fields)
}

/// A text field; required where it has no default.
pub open spec fn text_field(name: Seq<char>, default: Option<Seq<char>>) -> FieldSpecView {
    FieldSpecView {
        name,
        kind: FieldKind::Text,
        default: match default {
            Some(d) => Some(FieldValueView::Text(d)),
            None => None,
        },
    }
}

/// A flag; required where it has no default.
pub open spec fn flag_field(name: Seq<char>, default: Option<bool>) -> FieldSpecView {
    FieldSpecView {
        name,
        kind: FieldKind::Flag,
        default: match default {
            Some(d) => Some(FieldValueView::Flag(d)),
            None => None,
        },
    }
}

/// A text that may be left out or null: it is then absent.
pub open spec fn optional_text_field(name: Seq<char>) -> FieldSpecView {
    FieldSpecView {
        name,
        kind: FieldKind::OptionalText,
        default: Some(FieldValueView::OptionalText(None)),
    }
}

/// A required list of texts.
pub open spec fn text_list_field(name: Seq<char>) -> FieldSpecView {
    FieldSpecView { name, kind: FieldKind::TextList, default: None }
}

/// Why raw arguments could not be decoded.
#[derive(Clone, Debug, PartialEq, Eq)]
pub enum DecodeError {
    /// A required field is absent.
    MissingField { field: String },
    /// A field holds a value of another type than the schema gives it.
    TypeMismatch { field: String, expected: FieldKind },
}

/// What a `DecodeError` denotes.
pub ghost enum DecodeErrorView {
    MissingField { field: Seq<char> },
    TypeMismatch { field: Seq<char>, expected: FieldKind },
}

impl View for DecodeError {
    type V = DecodeErrorView;

    open spec fn view(&self) -> DecodeErrorView {
        match self {
            DecodeError::MissingField { field } => DecodeErrorView::MissingField { field: field@ },
            DecodeError::TypeMismatch { field, expected } => DecodeErrorView::TypeMismatch {
                field: field@,
                expected: *expected,
            },
        }
    }
}

/// How a type is called in a message.
pub open spec fn kind_name(kind: FieldKind) -> Seq<char> {
    match kind {
        FieldKind::Text => "a string"@,
        FieldKind::Flag => "a boolean"@,
        FieldKind::OptionalText => "a string or null"@,
        FieldKind::TextList => "a list of strings"@,
    }
}

/// The message of a decode error: it names the field and, for a value of
/// the wrong type, the type that was expected.
pub open spec fn decode_message(error: DecodeErrorView) -> Seq<char> {
    match error {
        DecodeErrorView::MissingField { field } => "missing field `"@ + field + "`"@,
        DecodeErrorView::TypeMismatch { field, expected } => "invalid type for field `"@ + field
            + "`: expected "@ + kind_name(expected),
    }
}

impl FieldKind {
    /// How this type is called in a message.
    pub fn name(&self) -> (r: &'static str)
        ensures
            r@ == kind_name(*self),
    {
        match self {
            FieldKind::Text => "a string",
            FieldKind::Flag => "a boolean",
            FieldKind::OptionalText => "a string or null",
            FieldKind::TextList => "a list of strings",
        }
    }
}

impl DecodeError {
    /// The message of this error.
    pub fn message(&self) -> (r: String)
        ensures
            r@ == decode_message(self@),
    {
        match self {
            DecodeError::MissingField { field } => {
                let mut text = "missing field `".to_owned();
                text.append(field.as_str());
                text.append("`");
                text
            },
            DecodeError::TypeMismatch { field, expected } => {
                let mut text = "invalid type for field `".to_owned();
                text.append(field.as_str());
                text.append("`: expected ");
                text.append(expected.name());
                text
            },
        }
    }
}

/// Whether every element of a list is a text.
pub open spec fn all_texts(items: Seq<Option<Seq<char>>>) -> bool {
    forall|i: int| 0 <= i < items.len() ==> (#[trigger] items[i]) is Some
}

/// The texts of a list of texts.
pub open spec fn texts_of(items: Seq<Option<Seq<char>>>) -> Seq<Seq<char>> {
    Seq::new(items.len(), |i: int| items[i].unwrap())
}

/// A raw value read as a field of the given type; `None` where the value is
/// of another type. An optional text takes a text or null; a list of texts
/// takes a list whose elements are all texts.
pub open spec fn read_as(kind: FieldKind, value: ArgValueView) -> Option<FieldValueView> {
    match (kind, value) {
        (FieldKind::Text, ArgValueView::Text(s)) => Some(FieldValueView::Text(s)),
        (FieldKind::Flag, ArgValueView::Bool(b)) => Some(FieldValueView::Flag(b)),
        (FieldKind::OptionalText, ArgValueView::Null) => Some(FieldValueView::OptionalText(None)),
        (FieldKind::OptionalText, ArgValueView::Text(s)) => Some(
            FieldValueView::OptionalText(Some(s)),
        ),
        (FieldKind::TextList, ArgValueView::List(items)) => if all_texts(items) {
            Some(FieldValueView::TextList(texts_of(items)))
        } else {
            None
        },
        _ => None,
    }
}

/// One field decoded from raw arguments: the value given if it has the
/// field's type; the default if the field is absent and has one.
pub open spec fn decode_field(
    field: FieldSpecView,
    raw: Map<Seq<char>, ArgValueView>,
) -> Result<FieldValueView, DecodeErrorView> {
    if raw.contains_key(field.name) {
        match read_as(field.kind, raw[field.name]) {
            Some(v) => Ok(v),
            None => Err(DecodeErrorView::TypeMismatch { field: field.name, expected: field.kind }),
        }
    } else {
        match field.default {
            Some(d) => Ok(d),
            None => Err(DecodeErrorView::MissingField { field: field.name }),
        }
    }
}

/// The fields of a schema decoded in order. The first field that cannot be
/// decoded gives the error; keys that name no field are not looked at.
pub open spec fn decode_fields(
    fields: Seq<FieldSpecView>,
    raw: Map<Seq<char>, ArgValueView>,
) -> Result<Seq<FieldValueView>, DecodeErrorView>
    decreases fields.len(),
{
    if fields.len() == 0 {
        Ok(Seq::empty())
    } else {
        match decode_fields(fields.drop_last(), raw) {
            Err(e) => Err(e),
            Ok(values) => match decode_field(fields.last(), raw) {
                Ok(v) => Ok(values.push(v)),
                Err(e) => Err(e),
            },
        }
    }
}

/// What a decoded record denotes.
pub open spec fn record_view(record: Seq<FieldValue>) -> Seq<FieldValueView> {
    record.map_values(|v: FieldValue| v@)
}

/// A copy of a list of texts.
pub fn copy_texts(texts: &Vec<String>) -> (out: Vec<String>)
    ensures
        out.deep_view() == texts.deep_view(),
{
    let mut out: Vec<String> = Vec::new();
    let mut i: usize = 0;
    while i < texts.len()
        invariant
            i <= texts.len(),
            out.len() == i,
            forall|k: int| 0 <= k < i ==> out@[k]@ == texts@[k]@,
        decreases texts.len() - i,
    {
        out.push(texts[i].clone());
        i += 1;
    }
    assert(out.deep_view() =~= texts.deep_view());
    out
}

impl FieldValue {
    /// A copy of this value.
    pub fn duplicate(&self) -> (r: FieldValue)
        ensures
            r@ == self@,
    {
        match self {
            FieldValue::Text(s) => FieldValue::Text(s.clone()),
            FieldValue::Flag(b) => FieldValue::Flag(*b),
            FieldValue::OptionalText(None) => FieldValue::OptionalText(None),
            FieldValue::OptionalText(Some(s)) => FieldValue::OptionalText(Some(s.clone())),
            FieldValue::TextList(texts) => FieldValue::TextList(copy_texts(texts)),
        }
    }
}

/// The texts of a raw list, where all its elements are texts.
pub fn read_texts(items: &Vec<ArgItem>) -> (r: Option<Vec<String>>)
    ensures
        match r {
            Some(texts) => all_texts(items@.map_values(|i: ArgItem| i@)) && texts.deep_view()
                == texts_of(items@.map_values(|i: ArgItem| i@)),
            None => !all_texts(items@.map_values(|i: ArgItem| i@)),
        },
{
    let ghost views = items@.map_values(|i: ArgItem| i@);
    let mut out: Vec<String> = Vec::new();
    let mut i: usize = 0;
    while i < items.len()
        invariant
            i <= items.len(),
            out.len() == i,
            views == items@.map_values(|i: ArgItem| i@),
            forall|k: int| 0 <= k < i ==> (#[trigger] views[k]) == Some(out@[k]@),
        decreases items.len() - i,
    {
        match &items[i] {
            ArgItem::Text(s) => {
                out.push(s.clone());
            },
            ArgItem::Other => {
                assert(views[i as int] is None);
                return None;
            },
        }
        i += 1;
    }
    assert(out.deep_view() =~= texts_of(views));
    Some(out)
}

/// Reads a raw value as a field of the given type.
pub fn read_value(kind: FieldKind, value: &ArgValue) -> (r: Option<FieldValue>)
    ensures
        match r {
            Some(v) => read_as(kind, value@) == Some(v@),
            None => read_as(kind, value@) is None,
        },
{
    match kind {
        FieldKind::Text => match value {
            ArgValue::Text(s) => Some(FieldValue::Text(s.clone())),
            _ => None,
        },
        FieldKind::Flag => match value {
            ArgValue::Bool(b) => Some(FieldValue::Flag(*b)),
            _ => None,
        },
        FieldKind::OptionalText => match value {
            ArgValue::Null => Some(FieldValue::OptionalText(None)),
            ArgValue::Text(s) => Some(FieldValue::OptionalText(Some(s.clone()))),
            _ => None,
        },
        FieldKind::TextList => match value {
            ArgValue::List(items) => match read_texts(items) {
                Some(texts) => Some(FieldValue::TextList(texts)),
                None => None,
            },
            _ => None,
        },
    }
}

impl FieldSpec {
    /// A text field; required where it has no default.
    pub fn text(name: &str, default: Option<String>) -> (r: FieldSpec)
        ensures
            r@ == text_field(
                name@,
                match default {
                    Some(d) => Some(d@),
                    None => None,
                },
            ),
    {
        FieldSpec {
            name: name.to_owned(),
            kind: FieldKind::Text,
            default: match default {
                Some(d) => Some(FieldValue::Text(d)),
                None => None,
            },
        }
    }

    /// A copy of this field.
    pub fn duplicate(&self) -> (r: FieldSpec)
        ensures
            r@ == self@,
    {
        FieldSpec {
            name: self.name.clone(),
            kind: self.kind,
            default: match &self.default {
                Some(d) => Some(d.duplicate()),
                None => None,
            },
        }
    }

    /// A flag; required where it has no default.
    pub fn flag(name: &str, default: Option<bool>) -> (r: FieldSpec)
        ensures
            r@ == flag_field(name@, default),
    {
        FieldSpec {
            name: name.to_owned(),
            kind: FieldKind::Flag,
            default: match default {
                Some(d) => Some(FieldValue::Flag(d)),
                None => None,
            },
        }
    }

    /// A text that may be left out or null.
    pub fn optional_text(name: &str) -> (r: FieldSpec)
        ensures
            r@ == optional_text_field(name@),
    {
        FieldSpec {
            name: name.to_owned(),
            kind: FieldKind::OptionalText,
            default: Some(FieldValue::OptionalText(None)),
        }
    }

    /// A required list of texts.
    pub fn text_list(name: &str) -> (r: FieldSpec)
        ensures
            r@ == text_list_field(name@),
    {
        FieldSpec { name: name.to_owned(), kind: FieldKind::TextList, default: None }
    }

    /// Decodes this field from raw arguments.
    pub fn decode(&self, raw: &RawArgs) -> (r: Result<FieldValue, DecodeError>)
        ensures
            match r {
                Ok(v) => decode_field(self@, raw@) == Ok::<FieldValueView, DecodeErrorView>(v@),
                Err(e) => decode_field(self@, raw@) == Err::<FieldValueView, DecodeErrorView>(e@),
            },
    {
        match raw.get(self.name.as_str()) {
            Some(value) => match read_value(self.kind, value) {
                Some(v) => Ok(v),
                None => Err(
                    DecodeError::TypeMismatch { field: self.name.clone(), expected: self.kind },
                ),
            },
            None => match &self.default {
                Some(d) => Ok(d.duplicate()),
                None => Err(DecodeError::MissingField { field: self.name.clone() }),
            },
        }
    }
}

/// A copy of a schema.
pub fn clone_schema(schema: &ArgumentSchema) -> (r: ArgumentSchema)
    ensures
        r@ == schema@,
{
    let mut fields: Vec<FieldSpec> = Vec::new();
    let mut i: usize = 0;
    while i < schema.fields.len()
        invariant
            i <= schema.fields.len(),
            fields.len() == i,
            forall|k: int| 0 <= k < i ==> fields@[k]@ == schema.fields@[k]@,
        decreases schema.fields.len() - i,
    {
        fields.push(schema.fields[i].duplicate());
        i += 1;
    }
    let r = ArgumentSchema { fields };
    assert(r@ =~= schema@);
    r
}

impl ArgumentSchema {
    /// Decodes raw arguments against this schema: one value for each field,
    /// in the schema's order, or the error of the first field that fails.
    pub fn decode(&self, raw: &RawArgs) -> (r: Result<Vec<FieldValue>, DecodeError>)
        ensures
            match r {
                Ok(record) => decode_fields(self@, raw@) == Ok::<
                    Seq<FieldValueView>,
                    DecodeErrorView,
                >(record_view(record@)),
                Err(e) => decode_fields(self@, raw@) == Err::<Seq<FieldValueView>, DecodeErrorView>(
                    e@,
                ),
            },
    {
        let mut record: Vec<FieldValue> = Vec::new();
        let mut i: usize = 0;
        assert(self@.take(0) =~= Seq::<FieldSpecView>::empty());
        assert(record_view(record@) =~= Seq::<FieldValueView>::empty());
        while i < self.fields.len()
            invariant
                i <= self.fields.len(),
                self@.len() == self.fields.len(),
                decode_fields(self@.take(i as int), raw@) == Ok::<
                    Seq<FieldValueView>,
                    DecodeErrorView,
                >(record_view(record@)),
            decreases self.fields.len() - i,
        {
            let ghost prefix = self@.take(i + 1);
            assert(prefix.drop_last() =~= self@.take(i as int));
            assert(prefix.last() == self.fields@[i as int]@);
            match self.fields[i].decode(raw) {
                Ok(v) => {
                    let ghost before = record_view(record@);
                    record.push(v);
                    assert(record_view(record@) =~= before.push(v@));
                },
                Err(e) => {
                    proof {
                        lemma_decode_error_stays(self@, raw@, i + 1);
                    }
                    return Err(e);
                },
            }
            i += 1;
        }
        assert(self@.take(i as int) =~= self@);
        Ok(record)
    }
}

/// Once a prefix of the fields fails to decode, the whole schema fails with
/// the same error.
proof fn lemma_decode_error_stays(
    fields: Seq<FieldSpecView>,
    raw: Map<Seq<char>, ArgValueView>,
    k: int,
)
    requires
        0 <= k <= fields.len(),
        decode_fields(fields.take(k), raw) is Err,
    ensures
        decode_fields(fields, raw) == decode_fields(fields.take(k), raw),
    decreases fields.len() - k,
{
    if k == fields.len() {
        assert(fields.take(k) =~= fields);
    } else {
        assert(fields.drop_last().take(k) =~= fields.take(k));
        lemma_decode_error_stays(fields.drop_last(), raw, k);
    }
}

/// A record that decodes from a schema with typed defaults has one value
/// for each field, of the field's type.
pub proof fn decoded_follows_schema(fields: Seq<FieldSpecView>, raw: Map<Seq<char>, ArgValueView>)
    requires
        defaults_typed(fields),
        decode_fields(fields, raw) is Ok,
    ensures
        decode_fields(fields, raw)->Ok_0.len() == fields.len(),
        forall|i: int|
            0 <= i < fields.len() ==> (#[trigger] decode_fields(fields, raw)->Ok_0[i]).kind()
                == fields[i].kind,
        forall|i: int|
            0 <= i < fields.len() ==> Ok::<FieldValueView, DecodeErrorView>(
                #[trigger] decode_fields(fields, raw)->Ok_0[i],
            ) == decode_field(fields[i], raw),
    decreases fields.len(),
{
    if fields.len() > 0 {
        let front = fields.drop_last();
        assert forall|a: int| 0 <= a < front.len() implies ((#[trigger] front[a]).default matches Some(
            dd,
        ) ==> dd.kind() == front[a].kind) by {
            assert(front[a] == fields[a]);
        }
        decoded_follows_schema(front, raw);
        let values = decode_fields(fields, raw)->Ok_0;
        let last = fields.last();
        assert(last == fields[fields.len() - 1]);
        assert forall|i: int| 0 <= i < fields.len() implies (#[trigger] values[i]).kind()
            == fields[i].kind && Ok::<FieldValueView, DecodeErrorView>(values[i]) == decode_field(
            fields[i],
            raw,
        ) by {
            if i < fields.len() - 1 {
                assert(values[i] == decode_fields(front, raw)->Ok_0[i]);
                assert(front[i] == fields[i]);
            }
        }
    }
}

/// A record that was decoded against a schema with typed defaults has one
/// value for each field, of the field's type.
pub proof fn record_follows_schema(
    fields: Seq<FieldSpecView>,
    raw: Map<Seq<char>, ArgValueView>,
    record: Seq<FieldValue>,
)
    requires
        defaults_typed(fields),
        decode_fields(fields, raw) == Ok::<Seq<FieldValueView>, DecodeErrorView>(
            record_view(record),
        ),
    ensures
        record.len() == fields.len(),
        forall|i: int| 0 <= i < fields.len() ==> (#[trigger] record[i])@.kind() == fields[i].kind,
{
    decoded_follows_schema(fields, raw);
    assert forall|i: int| 0 <= i < fields.len() implies (#[trigger] record[i])@.kind()
        == fields[i].kind by {
        assert(record_view(record)[i] == record[i]@);
    }
}

/// The text at place `i` of a record.
pub(crate) fn text_at(record: &Vec<FieldValue>, i: usize) -> (r: String)
    requires
        i < record.len(),
        record@[i as int]@ is Text,
    ensures
        record@[i as int]@ == FieldValueView::Text(r@),
{
    match &record[i] {
        FieldValue::Text(s) => s.clone(),
        _ => String::new(),
    }
}

/// The flag at place `i` of a record.
pub(crate) fn flag_at(record: &Vec<FieldValue>, i: usize) -> (r: bool)
    requires
        i < record.len(),
        record@[i as int]@ is Flag,
    ensures
        record@[i as int]@ == FieldValueView::Flag(r),
{
    match &record[i] {
        FieldValue::Flag(b) => *b,
        _ => false,
    }
}

/// The optional text at place `i` of a record.
pub(crate) fn optional_text_at(record: &Vec<FieldValue>, i: usize) -> (r: Option<String>)
    requires
        i < record.len(),
        record@[i as int]@ is OptionalText,
    ensures
        record@[i as int]@ == FieldValueView::OptionalText(
            match r {
                Some(s) => Some(s@),
                None => None,
            },
        ),
{
    match &record[i] {
        FieldValue::OptionalText(Some(s)) => Some(s.clone()),
        _ => None,
    }
}

/// The list of texts at place `i` of a record.
pub(crate) fn text_list_at(record: &Vec<FieldValue>, i: usize) -> (r: Vec<String>)
    requires
        i < record.len(),
        record@[i as int]@ is TextList,
    ensures
        record@[i as int]@ == FieldValueView::TextList(r.deep_view()),
{
    match &record[i] {
        FieldValue::TextList(texts) => copy_texts(texts),
        _ => Vec::new(),
    }
}

/// Reading back the raw form of a value gives the value.
pub proof fn raw_form_reads_back(v: FieldValueView)
    ensures
        read_as(v.kind(), v.raw_form()) == Some(v),
{
    match v {
        FieldValueView::TextList(texts) => {
            let items = Seq::new(texts.len(), |i: int| Some(texts[i]));
            assert(all_texts(items));
            assert(texts_of(items) =~= texts);
        },
        _ => {},
    }
}

/// A request that leaves out a field with a default decodes to what the
/// request decodes to that gives the field its default explicitly.
pub proof fn absent_field_is_its_default(
    fields: Seq<FieldSpecView>,
    raw: Map<Seq<char>, ArgValueView>,
    i: int,
)
    requires
        schema_wf(fields),
        0 <= i < fields.len(),
        fields[i].default is Some,
        !raw.contains_key(fields[i].name),
    ensures
        decode_fields(fields, raw) == decode_fields(
            fields,
            raw.insert(fields[i].name, fields[i].default.unwrap().raw_form()),
        ),
    decreases fields.len(),
{
    let name = fields[i].name;
    let d = fields[i].default.unwrap();
    let given = raw.insert(name, d.raw_form());
    let last = fields.last();
    let front = fields.drop_last();
    raw_form_reads_back(d);
    if i == fields.len() - 1 {
        lemma_other_fields_unchanged(front, raw, name, d.raw_form());
        assert(decode_field(last, raw) == decode_field(last, given));
    } else {
        assert(front[i] == fields[i]);
        assert(schema_wf(front)) by {
            assert forall|a: int, b: int| 0 <= a < b < front.len() implies (#[trigger] front[a]).name
                != (#[trigger] front[b]).name by {
                assert(front[a] == fields[a] && front[b] == fields[b]);
            }
            assert forall|a: int| 0 <= a < front.len() implies ((#[trigger] front[a]).default matches Some(
                dd,
            ) ==> dd.kind() == front[a].kind) by {
                assert(front[a] == fields[a]);
            }
        }
        absent_field_is_its_default(front, raw, i);
        assert(last.name != name);
        assert(decode_field(last, raw) == decode_field(last, given));
    }
}

/// A key that names none of the fields has no part in their decoding.
pub proof fn lemma_other_fields_unchanged(
    fields: Seq<FieldSpecView>,
    raw: Map<Seq<char>, ArgValueView>,
    key: Seq<char>,
    value: ArgValueView,
)
    requires
        forall|i: int| 0 <= i < fields.len() ==> (#[trigger] fields[i]).name != key,
    ensures
        decode_fields(fields, raw) == decode_fields(fields, raw.insert(key, value)),
    decreases fields.len(),
{
    if fields.len() > 0 {
        let front = fields.drop_last();
        assert forall|i: int| 0 <= i < front.len() implies (#[trigger] front[i]).name != key by {
            assert(front[i] == fields[i]);
        }
        lemma_other_fields_unchanged(front, raw, key, value);
        assert(fields.last() == fields[fields.len() - 1]);
    }
}

} // verus!
