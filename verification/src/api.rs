//! The administrative surface: the values it exchanges and what each
//! operation answers and changes once the persistent store has done its part.
//!
//! Every change of the stored domains is applied to the route table in the
//! same call, so that the table and the store do not drift apart.

use vstd::prelude::*;
use vstd::string::StringExecFns;
use crate::route_table::RouteTable;
use crate::status;

verus! {

/// A routed domain as the administrative surface shows and accepts it.
#[derive(Debug, Clone)]
pub struct DomainDto {
    /// The row's identifier in the store, once it has one.
    pub id: Option<i64>,
    /// The virtual-host name.
    pub domain: String,
    /// The upstream origin URL prefix.
    pub origin: String,
    /// Whether requests for the host are routed.
    pub enabled: bool,
}

/// A domain as plain values.
pub ghost struct DomainRecord {
    pub id: Option<i64>,
    pub domain: Seq<char>,
    pub origin: Seq<char>,
    pub enabled: bool,
}

impl View for DomainDto {
    type V = DomainRecord;

    open spec fn view(&self) -> DomainRecord {
        DomainRecord {
            id: self.id,
            domain: self.domain@,
            origin: self.origin@,
            enabled: self.enabled,
        }
    }
}

/// The envelope of every administrative answer: either data or an error
/// message.
#[derive(Debug)]
pub struct ApiResponse<T> {
    /// Whether the operation succeeded.
    pub success: bool,
    /// The result of a successful operation.
    pub data: Option<T>,
    /// What went wrong in a failed one.
    pub error: Option<String>,
}

impl<T> ApiResponse<T> {
    /// The envelope of a success that carries `data`.
    pub fn ok(data: T) -> (response: Self)
        ensures
            response.success,
            response.data == Some(data),
            response.error is None,
    {
        Self { success: true, data: Some(data), error: None }
    }

    /// The envelope of a failure described by `error`.
    pub fn err(error: String) -> (response: ApiResponse<()>)
        ensures
            !response.success,
            response.data is None,
            response.error == Some(error),
    {
        ApiResponse { success: false, data: None, error: Some(error) }
    }
}

/// The persistent store failed; the administrative surface never says how.
#[derive(Debug, Clone, Copy, PartialEq, Eq)]
pub struct StoreError;

/// What an administrative operation answers.
#[derive(Debug)]
pub enum Reply<T> {
    /// The operation succeeded and answers with data.
    Success { status: u16, body: ApiResponse<T> },
    /// The operation failed and answers with a message.
    Failure { status: u16, error: ApiResponse<()> },
    /// The operation succeeded and answers with an empty body.
    NoContent { status: u16 },
}

/// Whether `reply` is the failure with the given status and message.
pub open spec fn is_failure<T>(reply: Reply<T>, status: u16, message: Seq<char>) -> bool {
    &&& reply matches Reply::Failure { status: s, error }
    &&& s == status
    &&& !error.success
    &&& error.data is None
    &&& error.error matches Some(e)
    &&& e@ == message
}

/// Whether `reply` is the success with the given status that carries `data`.
pub open spec fn is_success<T>(reply: Reply<T>, status: u16, data: T) -> bool {
    &&& reply matches Reply::Success { status: s, body }
    &&& s == status
    &&& body.success
    &&& body.data == Some(data)
    &&& body.error is None
}

/// Whether `reply` is the success with the given status that carries the
/// domain `record`.
pub open spec fn is_domain(reply: Reply<DomainDto>, status: u16, record: DomainRecord) -> bool {
    &&& reply matches Reply::Success { status: s, body }
    &&& s == status
    &&& body.success
    &&& body.data matches Some(d)
    &&& d@ == record
    &&& body.error is None
}

/// Whether `reply` is the success with the given status that carries the one
/// setting `key` with `value`.
pub open spec fn is_setting(
    reply: Reply<Vec<(String, String)>>,
    status: u16,
    key: Seq<char>,
    value: Seq<char>,
) -> bool {
    &&& reply matches Reply::Success { status: s, body }
    &&& s == status
    &&& body.success
    &&& body.data matches Some(pairs)
    &&& pairs@.len() == 1
    &&& pairs@[0].0@ == key
    &&& pairs@[0].1@ == value
    &&& body.error is None
}

/// The first of `rows` that is stored under `id`, if there is one.
pub open spec fn stored_under(rows: Seq<DomainDto>, id: i64) -> Option<DomainRecord> {
    match rows.map_values(|d: DomainDto| d.id).index_of_first(Some(id)) {
        Some(i) => Some(rows[i]@),
        None => None,
    }
}

/// The route table after the domain stored under `id` in `fetched`, if the
/// rows were fetched and hold one, has been taken out of `routes`.
pub open spec fn without_stored(
    routes: Map<Seq<char>, Seq<char>>,
    fetched: Result<Vec<DomainDto>, StoreError>,
    id: i64,
) -> Map<Seq<char>, Seq<char>> {
    match fetched {
        Ok(rows) => match stored_under(rows@, id) {
            Some(record) => routes.remove(record.domain),
            None => routes,
        },
        Err(_) => routes,
    }
}

/// The failure reply with the given status and message.
fn failure<T>(status: u16, message: &str) -> (reply: Reply<T>)
    ensures
        is_failure(reply, status, message@),
{
    Reply::Failure { status, error: ApiResponse::<()>::err(String::from_str(message)) }
}

/// The index of the first of `rows` that is stored under `id`.
fn find_row(rows: &Vec<DomainDto>, id: i64) -> (found: Option<usize>)
    ensures
        match found {
            Some(i) => i < rows@.len() && stored_under(rows@, id) == Some(rows@[i as int]@),
            None => stored_under(rows@, id) is None,
        },
{
    let ghost ids = rows@.map_values(|d: DomainDto| d.id);
    let mut i: usize = 0;
    while i < rows.len()
        invariant
            i <= rows@.len(),
            ids == rows@.map_values(|d: DomainDto| d.id),
            forall|j: int| 0 <= j < i ==> ids[j] != Some(id),
        decreases rows@.len() - i,
    {
        let here = match rows[i].id {
            Some(row_id) => row_id == id,
            None => false,
        };
        if here {
            proof {
                ids.index_of_first_ensures(Some(id));
                assert(ids[i as int] == Some(id));
            }
            return Some(i);
        }
        i += 1;
    }
    proof {
        ids.index_of_first_ensures(Some(id));
    }
    None
}

/// Answers a request for all domains, given what the store returned.
pub fn list_domains(fetched: Result<Vec<DomainDto>, StoreError>) -> (reply: Reply<Vec<DomainDto>>)
    ensures
        match fetched {
            Ok(rows) => is_success(reply, status::OK, rows),
            Err(_) => is_failure(reply, status::INTERNAL_SERVER_ERROR, "Failed to fetch domains"@),
        },
{
    match fetched {
        Ok(rows) => Reply::Success { status: status::OK, body: ApiResponse::ok(rows) },
        Err(_) => failure(status::INTERNAL_SERVER_ERROR, "Failed to fetch domains"),
    }
}

/// Answers a request to create the domain `payload`, given the identifier
/// that the store gave the new row, and routes the new host.
///
/// When the store failed the route table stays as it is.
pub fn create_domain(routes: &mut RouteTable, payload: DomainDto, stored: Result<i64, StoreError>) -> (reply:
    Reply<DomainDto>)
    ensures
        match stored {
            Ok(id) => {
                &&& final(routes)@ == old(routes)@.insert(payload.domain@, payload.origin@)
                &&& is_domain(
                    reply,
                    status::CREATED,
                    DomainRecord {
                        id: Some(id),
                        domain: payload.domain@,
                        origin: payload.origin@,
                        enabled: true,
                    },
                )
            },
            Err(_) => {
                &&& final(routes)@ == old(routes)@
                &&& is_failure(reply, status::INTERNAL_SERVER_ERROR, "Failed to create domain"@)
            },
        },
{
    match stored {
        Ok(id) => {
            routes.upsert(payload.domain.clone(), payload.origin.clone());
            let created = DomainDto {
                id: Some(id),
                domain: payload.domain,
                origin: payload.origin,
                enabled: true,
            };
            Reply::Success { status: status::CREATED, body: ApiResponse::ok(created) }
        },
        Err(_) => failure(status::INTERNAL_SERVER_ERROR, "Failed to create domain"),
    }
}

/// Answers a request for the domain stored under `id`, given all the rows of
/// the store.
pub fn get_domain(fetched: Result<Vec<DomainDto>, StoreError>, id: i64) -> (reply: Reply<DomainDto>)
    ensures
        match fetched {
            Ok(rows) => match stored_under(rows@, id) {
                Some(record) => is_domain(reply, status::OK, record),
                None => is_failure(reply, status::NOT_FOUND, "Domain not found"@),
            },
            Err(_) => is_failure(reply, status::INTERNAL_SERVER_ERROR, "Failed to fetch domain"@),
        },
{
    match fetched {
        Ok(rows) => match find_row(&rows, id) {
            Some(i) => {
                let row = &rows[i];
                let found = DomainDto {
                    id: row.id,
                    domain: row.domain.clone(),
                    origin: row.origin.clone(),
                    enabled: row.enabled,
                };
                Reply::Success { status: status::OK, body: ApiResponse::ok(found) }
            },
            None => failure(status::NOT_FOUND, "Domain not found"),
        },
        Err(_) => failure(status::INTERNAL_SERVER_ERROR, "Failed to fetch domain"),
    }
}

/// Takes the host of the domain stored under `id` in `fetched` out of the
/// route table.
fn unroute_stored(routes: &mut RouteTable, fetched: &Result<Vec<DomainDto>, StoreError>, id: i64)
    ensures
        final(routes)@ == without_stored(old(routes)@, *fetched, id),
{
    match fetched {
        Ok(rows) => match find_row(rows, id) {
            Some(i) => {
                routes.remove(rows[i].domain.as_str());
            },
            None => {},
        },
        Err(_) => {},
    }
}

/// Answers a request to change the domain stored under `id` to `payload`,
/// given whether the store took the change and the rows it held under their
/// identifiers, and routes accordingly: the host that `fetched` holds under
/// `id` is taken out, then the host of `payload` is bound to its origin.
///
/// When the store failed the route table stays as it is.
pub fn update_domain(
    routes: &mut RouteTable,
    id: i64,
    payload: DomainDto,
    stored: Result<(), StoreError>,
    fetched: Result<Vec<DomainDto>, StoreError>,
) -> (reply: Reply<DomainDto>)
    ensures
        match stored {
            Ok(_) => {
                &&& final(routes)@ == without_stored(old(routes)@, fetched, id).insert(
                    payload.domain@,
                    payload.origin@,
                )
                &&& is_domain(
                    reply,
                    status::OK,
                    DomainRecord {
                        id: Some(id),
                        domain: payload.domain@,
                        origin: payload.origin@,
                        enabled: true,
                    },
                )
            },
            Err(_) => {
                &&& final(routes)@ == old(routes)@
                &&& is_failure(reply, status::INTERNAL_SERVER_ERROR, "Failed to update domain"@)
            },
        },
{
    match stored {
        Ok(_) => {
            unroute_stored(routes, &fetched, id);
            routes.upsert(payload.domain.clone(), payload.origin.clone());
            let updated = DomainDto {
                id: Some(id),
                domain: payload.domain,
                origin: payload.origin,
                enabled: true,
            };
            Reply::Success { status: status::OK, body: ApiResponse::ok(updated) }
        },
        Err(_) => failure(status::INTERNAL_SERVER_ERROR, "Failed to update domain"),
    }
}

/// Answers a request to delete the domain stored under `id`, given whether
/// the store deleted it and the rows it held under their identifiers, and
/// takes the host that `fetched` holds under `id` out of the route table.
///
/// When the store failed the route table stays as it is.
pub fn delete_domain(
    routes: &mut RouteTable,
    id: i64,
    deleted: Result<(), StoreError>,
    fetched: Result<Vec<DomainDto>, StoreError>,
) -> (reply: Reply<()>)
    ensures
        match deleted {
            Ok(_) => {
                &&& final(routes)@ == without_stored(old(routes)@, fetched, id)
                &&& reply == Reply::<()>::NoContent { status: status::NO_CONTENT }
            },
            Err(_) => {
                &&& final(routes)@ == old(routes)@
                &&& is_failure(reply, status::INTERNAL_SERVER_ERROR, "Failed to delete domain"@)
            },
        },
{
    match deleted {
        Ok(_) => {
            unroute_stored(routes, &fetched, id);
            Reply::NoContent { status: status::NO_CONTENT }
        },
        Err(_) => failure(status::INTERNAL_SERVER_ERROR, "Failed to delete domain"),
    }
}

/// Answers a request for all settings, given what the store returned.
pub fn get_all_config_endpoint(fetched: Result<Vec<(String, String)>, StoreError>) -> (reply: Reply<
    Vec<(String, String)>,
>)
    ensures
        match fetched {
            Ok(pairs) => is_success(reply, status::OK, pairs),
            Err(_) => is_failure(reply, status::INTERNAL_SERVER_ERROR, "Failed to fetch config"@),
        },
{
    match fetched {
        Ok(pairs) => Reply::Success { status: status::OK, body: ApiResponse::ok(pairs) },
        Err(_) => failure(status::INTERNAL_SERVER_ERROR, "Failed to fetch config"),
    }
}

/// Answers a request for the setting `key`, given what the store returned
/// for it.
pub fn get_config_endpoint(key: String, fetched: Result<Option<String>, StoreError>) -> (reply: Reply<
    Vec<(String, String)>,
>)
    ensures
        match fetched {
            Ok(Some(value)) => is_setting(reply, status::OK, key@, value@),
            Ok(None) => is_failure(reply, status::NOT_FOUND, "Config key not found"@),
            Err(_) => is_failure(reply, status::INTERNAL_SERVER_ERROR, "Failed to fetch config"@),
        },
{
    match fetched {
        Ok(Some(value)) => {
            let mut pairs: Vec<(String, String)> = Vec::new();
            pairs.push((key, value));
            Reply::Success { status: status::OK, body: ApiResponse::ok(pairs) }
        },
        Ok(None) => failure(status::NOT_FOUND, "Config key not found"),
        Err(_) => failure(status::INTERNAL_SERVER_ERROR, "Failed to fetch config"),
    }
}

/// Answers a request to set the setting `key` to `value`, given whether the
/// store took the change.
pub fn update_config_endpoint(key: String, value: String, stored: Result<(), StoreError>) -> (reply:
    Reply<Vec<(String, String)>>)
    ensures
        match stored {
            Ok(_) => is_setting(reply, status::OK, key@, value@),
            Err(_) => is_failure(reply, status::INTERNAL_SERVER_ERROR, "Failed to update config"@),
        },
{
    match stored {
        Ok(_) => {
            let mut pairs: Vec<(String, String)> = Vec::new();
            pairs.push((key, value));
            Reply::Success { status: status::OK, body: ApiResponse::ok(pairs) }
        },
        Err(_) => failure(status::INTERNAL_SERVER_ERROR, "Failed to update config"),
    }
}

/// Answers a request to set all the settings of `payload`, given whether the
/// store took every one of them.
pub fn set_config_endpoint(payload: Vec<(String, String)>, stored: Result<(), StoreError>) -> (reply:
    Reply<Vec<(String, String)>>)
    ensures
        match stored {
            Ok(_) => is_success(reply, status::OK, payload),
            Err(_) => is_failure(reply, status::INTERNAL_SERVER_ERROR, "Failed to update config"@),
        },
{
    match stored {
        Ok(_) => Reply::Success { status: status::OK, body: ApiResponse::ok(payload) },
        Err(_) => failure(status::INTERNAL_SERVER_ERROR, "Failed to update config"),
    }
}

} // verus!
