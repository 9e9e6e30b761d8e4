//! The Hetzner DNS API, as far as it can be said without a network: the
//! request that each operation sends, and what a reply to it means.

use vstd::prelude::*;
use crate::engine::{Event, EventView};
use crate::http::Method;
use crate::providers::{ProviderError, ProviderErrorView};
use crate::record::{Record, RecordView};
use crate::text::{decimal, push_decimal};

verus! {

/// The name of the header that carries the API token.
pub const AUTH_HEADER: &'static str = "Auth-API-Token";

/// The name of the query parameter that names the zone to list.
pub const ZONE_QUERY: &'static str = "zone_id";

/// One request to the API.
#[derive(Debug)]
pub struct ApiRequest {
    pub method: Method,
    pub url: String,
    /// The value of the [`AUTH_HEADER`] header.
    pub apitoken: String,
    /// The value of the [`ZONE_QUERY`] query parameter, where the request
    /// has one.
    pub zone_id: Option<String>,
    /// The record sent as the body, where the request has one.
    pub body: Option<Record>,
}

/// What an [`ApiRequest`] holds.
pub struct ApiRequestView {
    pub method: Method,
    pub url: Seq<char>,
    pub apitoken: Seq<char>,
    pub zone_id: Option<Seq<char>>,
    pub body: Option<RecordView>,
}

impl View for ApiRequest {
    type V = ApiRequestView;

    open spec fn view(&self) -> ApiRequestView {
        ApiRequestView {
            method: self.method,
            url: self.url@,
            apitoken: self.apitoken@,
            zone_id: match self.zone_id {
                Some(id) => Some(id@),
                None => None,
            },
            body: match self.body {
                Some(record) => Some(record@),
                None => None,
            },
        }
    }
}

/// The address of the zone listing.
pub open spec fn zones_url() -> Seq<char> {
    "https://dns.hetzner.com/api/v1/zones"@
}

/// The address of the record listing.
pub open spec fn records_url() -> Seq<char> {
    "https://dns.hetzner.com/api/v1/records"@
}

/// The address of the record with the given id.
pub open spec fn record_url(id: Seq<char>) -> Seq<char> {
    "https://dns.hetzner.com/api/v1/records/"@ + id
}

/// The request that lists the zones of the account.
pub fn zones_request(apitoken: &str) -> (request: ApiRequest)
    ensures
        request@ == (ApiRequestView {
            method: Method::Get,
            url: zones_url(),
            apitoken: apitoken@,
            zone_id: None,
            body: None,
        }),
{
    ApiRequest {
        method: Method::Get,
        url: "https://dns.hetzner.com/api/v1/zones".to_owned(),
        apitoken: apitoken.to_owned(),
        zone_id: None,
        body: None,
    }
}

/// The request that lists all records of the zone with the given id.
pub fn records_request(apitoken: &str, zone_id: &str) -> (request: ApiRequest)
    ensures
        request@ == (ApiRequestView {
            method: Method::Get,
            url: records_url(),
            apitoken: apitoken@,
            zone_id: Some(zone_id@),
            body: None,
        }),
{
    ApiRequest {
        method: Method::Get,
        url: "https://dns.hetzner.com/api/v1/records".to_owned(),
        apitoken: apitoken.to_owned(),
        zone_id: Some(zone_id.to_owned()),
        body: None,
    }
}

/// The request that stores `record` in place of the record with its id:
/// the whole record is sent to the address of that id.
pub fn update_record_request(apitoken: &str, record: Record) -> (request: ApiRequest)
    ensures
        request@ == (ApiRequestView {
            method: Method::Put,
            url: record_url(record@.id),
            apitoken: apitoken@,
            zone_id: None,
            body: Some(record@),
        }),
{
    let url = "https://dns.hetzner.com/api/v1/records/".to_owned().concat(record.id.as_str());
    ApiRequest {
        method: Method::Put,
        url,
        apitoken: apitoken.to_owned(),
        zone_id: None,
        body: Some(record),
    }
}

/// What came back for a request.
#[derive(Debug)]
pub enum Reply<T> {
    /// No answer came: the request could not be sent, or the connection
    /// broke. Holds the underlying detail.
    Unreachable(String),
    /// The provider answered with this status. `body` is what the answer
    /// was read as, or the detail of why it could not be read.
    Answered { status: u16, body: Result<T, String> },
}

/// Whether an HTTP status stands for success: those from 200 to 299.
pub open spec fn spec_is_success(status: u16) -> bool {
    200 <= status < 300
}

/// Whether an HTTP status stands for success.
pub fn is_success(status: u16) -> (yes: bool)
    ensures
        yes == spec_is_success(status),
{
    200 <= status && status < 300
}

/// The detail reported for an answer with a status that is no success.
pub open spec fn status_detail(status: u16) -> Seq<char> {
    "Provider answered with status "@ + decimal(status as nat)
}

/// The two sorts of operation: one that reads from the provider, and one
/// that writes to it.
#[derive(PartialEq, Eq, Clone, Copy, Debug, Structural)]
pub enum Operation {
    Read,
    Write,
}

/// The error that a status which is no success stands for: the provider
/// turned a write down, or a read did not get through.
pub open spec fn spec_status_error(operation: Operation, status: u16) -> ProviderErrorView {
    match operation {
        Operation::Read => ProviderErrorView::Transport(status_detail(status)),
        Operation::Write => ProviderErrorView::Update(status_detail(status)),
    }
}

/// The error that a status which is no success stands for.
fn status_error(operation: Operation, status: u16) -> (error: ProviderError)
    ensures
        error@ == spec_status_error(operation, status),
{
    let mut detail = "Provider answered with status ".to_owned();
    push_decimal(&mut detail, status as u64);
    match operation {
        Operation::Read => ProviderError::Transport(detail),
        Operation::Write => ProviderError::Update(detail),
    }
}

/// The payload of a reply to an operation, or the error it failed with.
///
/// A reply carries its payload when the provider answered with a success
/// status and the answer could be read. No answer and an unreadable answer
/// are transport errors. Another status is a transport error for a read,
/// and an update error for a write.
pub fn checked<T>(reply: Reply<T>, operation: Operation) -> (res: Result<T, ProviderError>)
    ensures
        match reply {
            Reply::Unreachable(detail) => res matches Err(e) && e@
                == ProviderErrorView::Transport(detail@),
            Reply::Answered { status, body } => if !spec_is_success(status) {
                res matches Err(e) && e@ == spec_status_error(operation, status)
            } else {
                match body {
                    Ok(payload) => res == Ok::<T, ProviderError>(payload),
                    Err(detail) => res matches Err(e) && e@ == ProviderErrorView::Transport(
                        detail@,
                    ),
                }
            },
        },
{
    match reply {
        Reply::Unreachable(detail) => Err(ProviderError::Transport(detail)),
        Reply::Answered { status, body } => {
            if !is_success(status) {
                Err(status_error(operation, status))
            } else {
                match body {
                    Ok(payload) => Ok(payload),
                    Err(detail) => Err(ProviderError::Transport(detail)),
                }
            }
        },
    }
}

/// What a reply to [`records_request`] means to the engine.
pub open spec fn spec_records_event(reply: Reply<Vec<Record>>) -> EventView {
    match reply {
        Reply::Unreachable(detail) => EventView::Failed(ProviderErrorView::Transport(detail@)),
        Reply::Answered { status, body } => if !spec_is_success(status) {
            EventView::Failed(spec_status_error(Operation::Read, status))
        } else {
            match body {
                Ok(records) => EventView::Records(records.deep_view()),
                Err(detail) => EventView::Failed(ProviderErrorView::Transport(detail@)),
            }
        },
    }
}

/// Turns the reply to [`records_request`] into the engine's next event.
pub fn records_event(reply: Reply<Vec<Record>>) -> (event: Event)
    ensures
        event@ == spec_records_event(reply),
{
    match checked(reply, Operation::Read) {
        Ok(records) => Event::Records(records),
        Err(error) => Event::Failed(error),
    }
}

/// What a reply to [`update_record_request`] means to the engine.
pub open spec fn spec_update_event(reply: Reply<Record>) -> EventView {
    match reply {
        Reply::Unreachable(detail) => EventView::Failed(ProviderErrorView::Transport(detail@)),
        Reply::Answered { status, body } => if !spec_is_success(status) {
            EventView::Failed(spec_status_error(Operation::Write, status))
        } else {
            match body {
                Ok(record) => EventView::Updated(record@),
                Err(detail) => EventView::Failed(ProviderErrorView::Transport(detail@)),
            }
        },
    }
}

/// Turns the reply to [`update_record_request`] into the engine's next
/// event.
pub fn update_event(reply: Reply<Record>) -> (event: Event)
    ensures
        event@ == spec_update_event(reply),
{
    match checked(reply, Operation::Write) {
        Ok(record) => Event::Updated(record),
        Err(error) => Event::Failed(error),
    }
}

} // verus!
