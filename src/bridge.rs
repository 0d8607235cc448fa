//! The three lookups the host makes: the request sent for each, and the
//! mapping of the authority's reply to the outcome the host understands.
use crate::ancestry::{is_daemon_parent, parent_name_in, process_table, should_pre_check};
use crate::record::{maps_all, passwd_entries_to_passwds, passwd_entry_to_passwd, local_of, Passwd, PasswdEntry};
use sysinfo::System;
use tonic::Status;
use vstd::prelude::*;

verus! {

/// The status code with which the authority reports that no record matches.
pub const NOT_FOUND_CODE: i32 = 5;

/// Why a call to the authority produced no record.
#[derive(Debug)]
pub enum RpcError {
    /// No connection could be made (or no execution context was had to make
    /// one); the text gives the cause.
    Unreachable(String),
    /// The authority answered with a failure status and its message.
    Status { code: i32, message: String },
}

/// What the host is told of one lookup.
#[derive(Debug)]
pub enum Lookup<T> {
    Success(T),
    NotFound,
    /// The authority could not be reached; the text gives the cause.
    TemporarilyUnavailable(String),
    /// The authority reported a failure; the text is its message.
    ServerError(String),
}

/// The request of a lookup by name, with the pre-check hint.
#[derive(Debug)]
pub struct GetPasswdByNameRequest {
    pub name: String,
    pub should_pre_check: bool,
}

#[verifier::external_type_specification]
#[verifier::external_body]
pub struct ExStatus(Status);

/// The numeric gRPC code a status carries.
pub uninterp spec fn code_of(s: Status) -> i32;

/// The message text a status carries.
pub uninterp spec fn message_of(s: Status) -> Seq<char>;

/// Relies on tonic's `Status::code` and its `From<Code> for i32`: the numeric
/// gRPC code the status carries, one of the codes 0 through 16 of `Code`.
#[verifier::external_body]
fn status_code(s: &Status) -> (r: i32)
    ensures
        r == code_of(*s),
        0 <= r <= 16,
{
    i32::from(s.code())
}

/// Relies on tonic's `Status::message`: the message text the status carries.
#[verifier::external_body]
fn status_message(s: &Status) -> (r: String)
    ensures
        r@ == message_of(*s),
{
    s.message().to_string()
}

/// The failure a gRPC status reports: its code and its message.
pub fn rpc_error_from_status(s: &Status) -> (r: RpcError)
    ensures
        match r {
            RpcError::Status { code, message } => code == code_of(*s) && message@ == message_of(*s),
            _ => false,
        },
{
    let code = status_code(s);
    let message = status_message(s);
    RpcError::Status { code, message }
}

/// The outcome of a failed call. A not-found status means "no such entry" for
/// a single-record lookup; for a full listing it is a server error.
pub open spec fn failure_outcome<T>(e: RpcError, listing: bool) -> Lookup<T> {
    match e {
        RpcError::Unreachable(cause) => Lookup::TemporarilyUnavailable(cause),
        RpcError::Status { code, message } => if code == NOT_FOUND_CODE && !listing {
            Lookup::NotFound
        } else {
            Lookup::ServerError(message)
        },
    }
}

/// The outcome of a single-record lookup for the authority's reply.
pub open spec fn record_outcome(reply: Result<PasswdEntry, RpcError>, r: Lookup<Passwd>) -> bool {
    match reply {
        Ok(e) => match r {
            Lookup::Success(p) => p@ == local_of(e@),
            _ => false,
        },
        Err(e) => r == failure_outcome::<Passwd>(e, false),
    }
}

fn failure_to_outcome<T>(e: RpcError, listing: bool) -> (r: Lookup<T>)
    ensures
        r == failure_outcome::<T>(e, listing),
{
    match e {
        RpcError::Unreachable(cause) => Lookup::TemporarilyUnavailable(cause),
        RpcError::Status { code, message } => if code == NOT_FOUND_CODE && !listing {
            Lookup::NotFound
        } else {
            Lookup::ServerError(message)
        },
    }
}

fn record_reply_to_outcome(reply: Result<PasswdEntry, RpcError>) -> (r: Lookup<Passwd>)
    ensures
        record_outcome(reply, r),
{
    match reply {
        Ok(e) => Lookup::Success(passwd_entry_to_passwd(e)),
        Err(e) => failure_to_outcome(e, false),
    }
}

/// A lookup for a record the authority does not hold ends in "no such
/// entry": never a record, never a server error.
pub proof fn lemma_missing_record_not_found(message: String, r: Lookup<Passwd>)
    ensures
        record_outcome(Err(RpcError::Status { code: NOT_FOUND_CODE, message }), r) <==> r is NotFound,
{
}

/// A connection failure ends every lookup as temporarily unavailable, with
/// its cause: never a record, never another outcome.
pub proof fn lemma_unreachable_unavailable(cause: String, r: Lookup<Passwd>)
    ensures
        record_outcome(Err(RpcError::Unreachable(cause)), r) <==> r == Lookup::<
            Passwd,
        >::TemporarilyUnavailable(cause),
        failure_outcome::<Vec<Passwd>>(RpcError::Unreachable(cause), true) == Lookup::<
            Vec<Passwd>,
        >::TemporarilyUnavailable(cause),
{
}

/// Whether `q` is a request for a lookup of `name` by the process `pid`: the
/// name as given, and the hint on where the override is set, else as some
/// snapshot of the process table gives it for `pid`.
pub open spec fn is_name_request(
    q: GetPasswdByNameRequest,
    name: Seq<char>,
    override_set: bool,
    pid: u32,
) -> bool {
    &&& q.name@ == name
    &&& override_set ==> q.should_pre_check
    &&& !override_set ==> exists|sys: System|
        q.should_pre_check == is_daemon_parent(#[trigger] parent_name_in(process_table(sys), pid))
}

/// The request for a lookup of `name` by the process `pid`; the override, when
/// set, forces the hint on without reading the process table.
pub fn name_request(name: String, override_set: bool, pid: u32) -> (r: GetPasswdByNameRequest)
    ensures
        is_name_request(r, name@, override_set, pid),
{
    let should_pre_check = should_pre_check(override_set, pid);
    GetPasswdByNameRequest { name, should_pre_check }
}

/// The module's implementation of the host's user-identity lookups.
pub struct AuthdPasswd;

impl AuthdPasswd {
    /// Every record, from the authority's reply to a full listing. An empty
    /// listing is a valid, empty success.
    pub fn get_all_entries(reply: Result<Vec<PasswdEntry>, RpcError>) -> (r: Lookup<Vec<Passwd>>)
        ensures
            match reply {
                Ok(es) => match r {
                    Lookup::Success(ps) => maps_all(es@, ps@),
                    _ => false,
                },
                Err(e) => r == failure_outcome::<Vec<Passwd>>(e, true),
            },
    {
        match reply {
            Ok(es) => Lookup::Success(passwd_entries_to_passwds(es)),
            Err(e) => failure_to_outcome(e, true),
        }
    }

    /// The record for a uid, from the authority's reply to a lookup by id.
    pub fn get_entry_by_uid(reply: Result<PasswdEntry, RpcError>) -> (r: Lookup<Passwd>)
        ensures
            record_outcome(reply, r),
    {
        record_reply_to_outcome(reply)
    }

    /// The record for `name`, looked up by the process `pid`: the request is
    /// built with the pre-check hint, sent once through `call`, and its reply
    /// mapped to the outcome.
    pub fn get_entry_by_name<F>(name: String, override_set: bool, pid: u32, call: F) -> (r: Lookup<
        Passwd,
    >) where F: FnOnce(GetPasswdByNameRequest) -> Result<PasswdEntry, RpcError>
        requires
            forall|q: GetPasswdByNameRequest| call.requires((q,)),
        ensures
            exists|q: GetPasswdByNameRequest, reply: Result<PasswdEntry, RpcError>|
                #[trigger] call.ensures((q,), reply) && is_name_request(q, name@, override_set, pid)
                    && record_outcome(reply, r),
    {
        let req = name_request(name, override_set, pid);
        let ghost q = req;
        let reply = call(req);
        let r = record_reply_to_outcome(reply);
        assert(call.ensures((q,), reply) && is_name_request(q, name@, override_set, pid)
            && record_outcome(reply, r));
        r
    }
}

} // verus!
