//! What passes between the crate and the driver that performs the
//! exchanges: the plan of an exchange, and what came of it.

use vstd::prelude::*;
use crate::config::{ClientConfig, ConfigModel};
use crate::method::Method;
use crate::strmap::StrMap;

verus! {

/// What a request carries.
#[derive(Debug)]
pub enum Payload {
    /// Nothing.
    Empty,
    /// These bytes as the body.
    Bytes(Vec<u8>),
    /// This text as the body.
    Text(String),
    /// This mapping, written as a JSON object of strings, as the body.
    JsonMap(StrMap<String>),
}

/// A payload as a mathematical value.
pub enum PayloadModel {
    Empty,
    Bytes(Seq<u8>),
    Text(Seq<char>),
    JsonMap(Seq<(String, String)>),
}

impl Payload {
    /// The payload as a mathematical value.
    pub open spec fn view(&self) -> PayloadModel {
        match self {
            Payload::Empty => PayloadModel::Empty,
            Payload::Bytes(bytes) => PayloadModel::Bytes(bytes@),
            Payload::Text(text) => PayloadModel::Text(text@),
            Payload::JsonMap(map) => PayloadModel::JsonMap(map.entries()),
        }
    }
}

/// One exchange for the driver to perform: the request, the file that the
/// body of the response goes to, if any, and the configuration in force.
#[derive(Debug)]
pub struct RequestPlan {
    pub config: ClientConfig,
    pub method: Method,
    pub url: String,
    pub payload: Payload,
    pub destination: Option<String>,
}

/// A plan as a mathematical value.
pub struct PlanModel {
    pub config: ConfigModel,
    pub method: Method,
    pub url: Seq<char>,
    pub payload: PayloadModel,
    pub destination: Option<Seq<char>>,
}

impl RequestPlan {
    /// The plan as a mathematical value.
    pub open spec fn view(&self) -> PlanModel {
        PlanModel {
            config: self.config@,
            method: self.method,
            url: self.url@,
            payload: self.payload@,
            destination: match self.destination {
                Some(path) => Some(path@),
                None => None,
            },
        }
    }
}

/// What a transport hands back for an exchange that completed. A body that
/// could not be read is `None`.
#[derive(Debug)]
pub struct RawResponse {
    pub status_code: u16,
    pub headers: Vec<(String, String)>,
    pub body: Option<Vec<u8>>,
}

/// What came of one exchange.
#[derive(Debug)]
pub enum Outcome {
    /// The transport brought a response.
    Response(RawResponse),
    /// The body of the response was written to its destination.
    Written,
    /// The exchange failed in transport; holds the cause.
    FetchFailed(String),
    /// The body of the response could not be read; holds the cause.
    ReadFailed(String),
    /// The body could not be written to its destination; holds the cause.
    WriteFailed(String),
}

impl Outcome {
    /// Whether the exchange did what it was planned to do.
    pub open spec fn succeeded(&self) -> bool {
        self is Response || self is Written
    }
}

} // verus!
