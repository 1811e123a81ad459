use vstd::prelude::*;
use crate::messages::{CreateExchange, CreateExchangeView, ExchangeKind, ExchangeOptions, kind_of_name};

verus! {

#[verifier::external_type_specification]
#[verifier::external_body]
pub struct ExJsonValue(serde_json::Value);

/// The member that `serde_json::Value::get` finds under a key.
pub uninterp spec fn json_member_of(v: serde_json::Value, key: Seq<char>) -> Option<serde_json::Value>;

/// The text that `serde_json::Value::as_str` finds in a value.
pub uninterp spec fn json_text_of(v: serde_json::Value) -> Option<Seq<char>>;

/// The exchange flags that `serde_json::from_value` reads out of a value.
pub uninterp spec fn json_options_of(v: serde_json::Value) -> Option<ExchangeOptions>;

/// Relies on `serde_json::Value::get`: the member stored under `key` when the
/// value is an object that holds one, which depends on the value and the key
/// alone.
#[verifier::external_body]
fn json_member(v: &serde_json::Value, key: &str) -> (r: Option<serde_json::Value>)
    ensures
        r == json_member_of(*v, key@),
{
    v.get(key).cloned()
}

/// Relies on `serde_json::Value::as_str`: the text of a JSON string value,
/// which depends on the value alone.
#[verifier::external_body]
fn json_text(v: &serde_json::Value) -> (r: Option<String>)
    ensures
        r is Some <==> json_text_of(*v) is Some,
        r is Some ==> r->Some_0@ == json_text_of(*v)->Some_0,
{
    v.as_str().map(String::from)
}

/// Relies on `serde_json::from_value` into lapin's `ExchangeDeclareOptions`,
/// whose five flags each default to false when absent; `None` when the value
/// does not deserialize into that shape. The result depends on the value
/// alone.
#[verifier::external_body]
fn json_declare_options(v: serde_json::Value) -> (r: Option<ExchangeOptions>)
    ensures
        r == json_options_of(v),
{
    match serde_json::from_value::<lapin::options::ExchangeDeclareOptions>(v) {
        Ok(o) => Some(ExchangeOptions {
            passive: o.passive,
            durable: o.durable,
            auto_delete: o.auto_delete,
            internal: o.internal,
            nowait: o.nowait,
        }),
        Err(_) => None,
    }
}

/// What a structured value holds under one required text key.
#[derive(Debug, PartialEq, Eq)]
pub enum FieldText {
    Absent,
    NotText,
    Text(String),
}

pub enum FieldView {
    Absent,
    NotText,
    Text(Seq<char>),
}

impl View for FieldText {
    type V = FieldView;

    open spec fn view(&self) -> FieldView {
        match self {
            FieldText::Absent => FieldView::Absent,
            FieldText::NotText => FieldView::NotText,
            FieldText::Text(s) => FieldView::Text(s@),
        }
    }
}

/// What `value` holds under `key`: nothing, something other than text, or
/// text.
pub open spec fn field_read(value: serde_json::Value, key: Seq<char>) -> FieldView {
    match json_member_of(value, key) {
        None => FieldView::Absent,
        Some(m) => match json_text_of(m) {
            None => FieldView::NotText,
            Some(t) => FieldView::Text(t),
        },
    }
}

/// The flags that `value` holds under `exchange_options`, if present and
/// well-formed.
pub open spec fn options_read(value: serde_json::Value) -> Option<ExchangeOptions> {
    match json_member_of(value, "exchange_options"@) {
        Some(o) => json_options_of(o),
        None => None,
    }
}

/// Why a declaration could not be built from a structured value; each
/// variant carries the key concerned.
#[derive(Debug, PartialEq, Eq)]
pub enum AdapterError {
    MissingField(String),
    NotText(String),
}

pub enum AdapterErrorView {
    MissingField(Seq<char>),
    NotText(Seq<char>),
}

impl View for AdapterError {
    type V = AdapterErrorView;

    open spec fn view(&self) -> AdapterErrorView {
        match self {
            AdapterError::MissingField(k) => AdapterErrorView::MissingField(k@),
            AdapterError::NotText(k) => AdapterErrorView::NotText(k@),
        }
    }
}

/// The error for a required key, if its field is not usable text.
pub open spec fn field_error(f: FieldView, key: Seq<char>) -> Option<AdapterErrorView> {
    match f {
        FieldView::Absent => Some(AdapterErrorView::MissingField(key)),
        FieldView::NotText => Some(AdapterErrorView::NotText(key)),
        FieldView::Text(_) => None,
    }
}

/// The declaration built from a name, a kind name and parsed options: absent
/// options stand for all flags cleared.
pub open spec fn declaration_of(name: Seq<char>, kind: Seq<char>, options: Option<ExchangeOptions>) -> CreateExchangeView {
    CreateExchangeView {
        name,
        options: Some(CreateExchange::effective_options(options)),
        kind: kind_of_name(kind),
    }
}

fn key_error(f: &FieldText, key: &str) -> (r: Option<AdapterError>)
    ensures
        match r {
            Some(e) => field_error(f@, key@) == Some(e@),
            None => field_error(f@, key@) is None,
        },
{
    match f {
        FieldText::Absent => Some(AdapterError::MissingField(key.to_owned())),
        FieldText::NotText => Some(AdapterError::NotText(key.to_owned())),
        FieldText::Text(_) => None,
    }
}

/// The outcome of building a declaration from the fields read out of a
/// structured value: the name is checked before the kind.
pub open spec fn adapted(name: FieldView, kind: FieldView, options: Option<ExchangeOptions>) -> Result<CreateExchangeView, AdapterErrorView> {
    match (field_error(name, "exchange_name"@), field_error(kind, "exchange_kind"@)) {
        (Some(e), _) => Err(e),
        (None, Some(e)) => Err(e),
        (None, None) => Ok(declaration_of(name->Text_0, kind->Text_0, options)),
    }
}

/// The model of an adapter result.
pub open spec fn outcome_view(r: Result<CreateExchange, AdapterError>) -> Result<CreateExchangeView, AdapterErrorView> {
    match r {
        Ok(c) => Ok(c@),
        Err(e) => Err(e@),
    }
}

impl CreateExchange {
    /// Builds a declaration from the fields read out of a structured value.
    /// The name is checked before the kind; options that are absent or could
    /// not be parsed fall back to all flags cleared.
    pub fn from_fields(name: FieldText, kind: FieldText, options: Option<ExchangeOptions>) -> (r: Result<CreateExchange, AdapterError>)
        ensures
            outcome_view(r) == adapted(name@, kind@, options),
    {
        if let Some(e) = key_error(&name, "exchange_name") {
            return Err(e);
        }
        if let Some(e) = key_error(&kind, "exchange_kind") {
            return Err(e);
        }
        match (name, kind) {
            (FieldText::Text(n), FieldText::Text(k)) => {
                let exchange_options = match options {
                    Some(o) => o,
                    None => ExchangeOptions::default(),
                };
                Ok(CreateExchange {
                    exchange_name: n,
                    exchange_options: Some(exchange_options),
                    exchange_kind: ExchangeKind::from_name(k),
                })
            },
            _ => Err(AdapterError::MissingField("exchange_kind".to_owned())),
        }
    }

    /// Builds a declaration from a structured value with the text keys
    /// `exchange_name` and `exchange_kind` and the optional object
    /// `exchange_options`: the result is that of `from_fields` on what the
    /// value holds under those keys.
    pub fn from_value(value: &serde_json::Value) -> (r: Result<CreateExchange, AdapterError>)
        ensures
            outcome_view(r) == adapted(
                field_read(*value, "exchange_name"@),
                field_read(*value, "exchange_kind"@),
                options_read(*value),
            ),
    {
        let name = read_text(value, "exchange_name");
        let kind = read_text(value, "exchange_kind");
        let options = match json_member(value, "exchange_options") {
            Some(o) => json_declare_options(o),
            None => None,
        };
        Self::from_fields(name, kind, options)
    }
}

fn read_text(value: &serde_json::Value, key: &str) -> (r: FieldText)
    ensures
        r@ == field_read(*value, key@),
{
    match json_member(value, key) {
        None => FieldText::Absent,
        Some(v) => match json_text(&v) {
            Some(s) => FieldText::Text(s),
            None => FieldText::NotText,
        },
    }
}

} // verus!
