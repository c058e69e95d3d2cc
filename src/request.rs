//! The requests an operation asks the transport to perform.
use vstd::prelude::*;

use crate::model::boot::{BootSourceOverrideEnabled, BootSourceOverrideTarget};
use crate::model::system::SystemPowerControl;
use crate::model::update_service::TransferProtocolType;

verus! {

/// The HTTP verb of a request.
#[derive(Clone, Copy, Debug, PartialEq, Eq, Structural)]
pub enum Method {
    Get,
    Post,
    Patch,
    Delete,
}

impl Method {
    /// Is a repeated request harmless to the BMC's state?
    pub open spec fn spec_is_idempotent(self) -> bool {
        self == Method::Get
    }

    /// Is a repeated request harmless to the BMC's state?
    pub fn is_idempotent(self) -> (r: bool)
        ensures
            r == self.spec_is_idempotent(),
    {
        match self {
            Method::Get => true,
            _ => false,
        }
    }
}

/// A value of one BIOS attribute or property in a request body.
#[derive(Clone, Debug)]
pub enum AttributeValue {
    Text(String),
    Integer(i64),
    Flag(bool),
}

/// One named value of a request body.
#[derive(Clone, Debug)]
pub struct Attribute {
    pub name: String,
    pub value: AttributeValue,
}

/// The JSON body of a request, by shape.
#[derive(Clone, Debug)]
pub enum Body {
    /// No body.
    Empty,
    /// `{"Boot": {"BootOrder": [..]}}`
    BootOrder(Vec<String>),
    /// `{"Boot": {"BootSourceOverrideEnabled": .., "BootSourceOverrideTarget": ..}}`
    BootOverride { enabled: BootSourceOverrideEnabled, target: BootSourceOverrideTarget },
    /// `{"Attributes": {name: value, ..}}`
    Attributes(Vec<Attribute>),
    /// `{name: value, ..}`
    Properties(Vec<Attribute>),
    /// `{"ResetType": ..}`
    Reset(SystemPowerControl),
    /// `{"ImageURI": .., "Targets": [..], "TransferProtocol": ..}`
    SimpleUpdate { image_uri: String, targets: Vec<String>, transfer_protocol: TransferProtocolType },
}

/// One request against a BMC: verb, URL relative to `/redfish/v1/`, and body.
#[derive(Clone, Debug)]
pub struct Request {
    pub method: Method,
    pub url: String,
    pub body: Body,
}

impl Request {
    /// A GET of `url`.
    pub fn get(url: String) -> (r: Request)
        ensures
            r.method == Method::Get,
            r.url == url,
            r.body is Empty,
    {
        Request { method: Method::Get, url, body: Body::Empty }
    }

    /// A PATCH of `url` with `body`.
    pub fn patch(url: String, body: Body) -> (r: Request)
        ensures
            r.method == Method::Patch,
            r.url == url,
            r.body == body,
    {
        Request { method: Method::Patch, url, body }
    }

    /// A POST of `body` to `url`.
    pub fn post(url: String, body: Body) -> (r: Request)
        ensures
            r.method == Method::Post,
            r.url == url,
            r.body == body,
    {
        Request { method: Method::Post, url, body }
    }
}

} // verus!

verus! {

/// A body value as plain data.
pub enum ValueView {
    Text(Seq<char>),
    Integer(i64),
    Flag(bool),
}

/// A named body value as plain data.
pub struct AttributeView {
    pub name: Seq<char>,
    pub value: ValueView,
}

/// A request body as plain data.
pub enum BodyView {
    Empty,
    BootOrder(Seq<Seq<char>>),
    BootOverride { enabled: BootSourceOverrideEnabled, target: BootSourceOverrideTarget },
    Attributes(Seq<AttributeView>),
    Properties(Seq<AttributeView>),
    Reset(SystemPowerControl),
    SimpleUpdate { image_uri: Seq<char>, targets: Seq<Seq<char>>, transfer_protocol: TransferProtocolType },
}

/// A request as plain data.
pub struct RequestView {
    pub method: Method,
    pub url: Seq<char>,
    pub body: BodyView,
}

impl View for AttributeValue {
    type V = ValueView;

    open spec fn view(&self) -> ValueView {
        match self {
            AttributeValue::Text(s) => ValueView::Text(s@),
            AttributeValue::Integer(i) => ValueView::Integer(*i),
            AttributeValue::Flag(b) => ValueView::Flag(*b),
        }
    }
}

impl View for Attribute {
    type V = AttributeView;

    open spec fn view(&self) -> AttributeView {
        AttributeView { name: self.name@, value: self.value@ }
    }
}

/// The plain data of a list of named values.
pub open spec fn attributes_view(v: Seq<Attribute>) -> Seq<AttributeView> {
    v.map_values(|a: Attribute| a@)
}

/// The characters of each string of a list.
pub open spec fn strings_view(v: Seq<String>) -> Seq<Seq<char>> {
    v.map_values(|s: String| s@)
}

impl View for Body {
    type V = BodyView;

    open spec fn view(&self) -> BodyView {
        match self {
            Body::Empty => BodyView::Empty,
            Body::BootOrder(v) => BodyView::BootOrder(strings_view(v@)),
            Body::BootOverride { enabled, target } => BodyView::BootOverride {
                enabled: *enabled,
                target: *target,
            },
            Body::Attributes(v) => BodyView::Attributes(attributes_view(v@)),
            Body::Properties(v) => BodyView::Properties(attributes_view(v@)),
            Body::Reset(a) => BodyView::Reset(*a),
            Body::SimpleUpdate { image_uri, targets, transfer_protocol } => BodyView::SimpleUpdate {
                image_uri: image_uri@,
                targets: strings_view(targets@),
                transfer_protocol: *transfer_protocol,
            },
        }
    }
}

impl View for Request {
    type V = RequestView;

    open spec fn view(&self) -> RequestView {
        RequestView { method: self.method, url: self.url@, body: self.body@ }
    }
}

/// A named text value.
pub fn text_attribute(name: &str, value: &str) -> (r: Attribute)
    ensures
        r@ == (AttributeView { name: name@, value: ValueView::Text(value@) }),
{
    Attribute { name: String::from_str(name), value: AttributeValue::Text(String::from_str(value)) }
}

/// A named integer value.
pub fn integer_attribute(name: &str, value: i64) -> (r: Attribute)
    ensures
        r@ == (AttributeView { name: name@, value: ValueView::Integer(value) }),
{
    Attribute { name: String::from_str(name), value: AttributeValue::Integer(value) }
}

/// A named flag.
pub fn flag_attribute(name: &str, value: bool) -> (r: Attribute)
    ensures
        r@ == (AttributeView { name: name@, value: ValueView::Flag(value) }),
{
    Attribute { name: String::from_str(name), value: AttributeValue::Flag(value) }
}

} // verus!

verus! {

/// A request-or-error as plain data.
pub open spec fn result_view(r: Result<Request, crate::error::RedfishError>) -> Result<RequestView, crate::error::ErrorView> {
    match r {
        Ok(q) => Ok(q@),
        Err(e) => Err(e@),
    }
}

} // verus!
