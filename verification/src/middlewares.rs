//! Gates that stand before request handlers.
//!
//! A gate enforces one limit. It resolves the client's address, refuses the
//! client that is over the limit before the handler runs, and counts the
//! request against the client once the handler has answered, where the
//! gate's policy says so. Whether a client is let in goes by its counters
//! alone: nothing that the request carries is asked.

use vstd::prelude::*;
use crate::api::{Field, IpInfo, DATE_FORMAT};
use crate::clock::{
    now_local, parse_timestamp, second_of_day, spec_expiry, spec_parse_timestamp, spec_ttl, Timestamp,
};
use crate::errors::Error;
use crate::ip_allow::{is_allowed, plan_update, spec_allow, CacheReply, IpAllower, StoreReply};
use crate::store::{spec_current, spec_increment, spec_live, CounterRecord, InProcessStore};

verus! {

/// How the handler behind a gate ended.
#[derive(Clone, Copy, Debug, PartialEq, Eq, Structural)]
pub enum Outcome {
    /// The handler answered and the answer reports no error.
    Success,
    /// The handler answered and the answer reports an error.
    Failure,
    /// The handler never answered.
    Cancelled,
}

/// What a gate reads of a request.
#[derive(Debug)]
pub struct Request {
    /// The client's address as a proxy reported it, where one did so in
    /// readable form.
    pub real_ip: Option<String>,
    /// The address of the peer that holds the connection.
    pub peer_ip: String,
    /// When the request arrived.
    pub now: Timestamp,
}

/// Whether `timestamp` lies a day or more before the start of the day of
/// `now`.
///
/// `timestamp` counts seconds from 1970-01-01T00:00:00 UTC. The start of the
/// local day is held against it as if the local calendar were that of UTC.
pub open spec fn spec_interval_one_day(now: Timestamp, timestamp: int) -> bool {
    now.midnight() - timestamp >= 86_400
}

/// How a date that was read as `parsed` is taken: it passes where it names
/// an instant a day or more before the start of today, and a date that could
/// not be read does not pass.
pub open spec fn spec_date_allows(parsed: Option<i64>, now: Timestamp) -> bool {
    match parsed {
        Some(timestamp) => spec_interval_one_day(now, timestamp as int),
        None => false,
    }
}

/// How a header that carries a date is taken.
///
/// A missing header passes. A header passes where it names, in the layout
/// of dated headers, an instant a day or more before the start of today; any
/// other does not, nor does one that cannot be read. This is the reading of
/// a date and nothing more: no gate asks for it.
pub open spec fn spec_header_allows(header: Option<Seq<char>>, now: Timestamp) -> bool {
    match header {
        None => true,
        Some(text) => spec_date_allows(spec_parse_timestamp(text, DATE_FORMAT@), now),
    }
}

/// The characters of a header's value.
pub open spec fn header_text(header: Option<&str>) -> Option<Seq<char>> {
    match header {
        Some(text) => Some(text@),
        None => None,
    }
}

/// The address that a client is counted under: the one a proxy reported,
/// else the peer's.
pub open spec fn spec_get_ip(real_ip: Option<String>, peer_ip: String) -> String {
    match real_ip {
        Some(ip) => ip,
        None => peer_ip,
    }
}

/// Whether a gate on `field` counts a request whose handler ended in
/// `outcome`.
///
/// Wrong guesses are counted when the handler reports an error and never
/// otherwise. Uploads are counted whenever the handler answered. A handler
/// that never answered counts for neither.
pub open spec fn spec_should_record(field: Field, outcome: Outcome) -> bool {
    match field {
        Field::VisitError => outcome == Outcome::Failure,
        Field::Upload => outcome != Outcome::Cancelled,
    }
}

/// The refusal of a client that is over `limit` on `field`.
pub open spec fn spec_refusal(field: Field, limit: i32) -> Error {
    match field {
        Field::VisitError => Error::IpVisitErrorLimit(limit),
        Field::Upload => Error::IpUploadLimit(limit),
    }
}

/// Whether `timestamp` lies a day or more before the start of the day of
/// `now`.
pub fn is_interval_one_day_at(now: Timestamp, timestamp: i64) -> (old_enough: bool)
    ensures
        old_enough == spec_interval_one_day(now, timestamp as int),
{
    let midnight: i128 = (now.secs as i128) - (second_of_day(&now) as i128);
    midnight - (timestamp as i128) >= 86_400
}

/// Whether `timestamp` lies a day or more before the start of today on the
/// local clock.
pub fn is_the_interval_one_day(timestamp: i64) -> (old_enough: bool)
    ensures
        exists|now: Timestamp| old_enough == #[trigger] spec_interval_one_day(now, timestamp as int),
{
    let now: Timestamp = now_local();
    is_interval_one_day_at(now, timestamp)
}

/// Takes a date that has been read as `parsed`: it passes where it lies a
/// day or more before the start of the day of `now`.
pub fn date_allows(parsed: Option<i64>, now: Timestamp) -> (allowed: bool)
    ensures
        allowed == spec_date_allows(parsed, now),
{
    match parsed {
        Some(timestamp) => is_interval_one_day_at(now, timestamp),
        None => false,
    }
}

/// Takes a dated header at `now`: a missing header passes, a date a day or
/// more before the start of the day passes, anything else does not.
pub fn header_allows(header: Option<&str>, now: Timestamp) -> (allowed: bool)
    ensures
        allowed == spec_header_allows(header_text(header), now),
{
    match header {
        None => true,
        Some(text) => date_allows(parse_timestamp(text, DATE_FORMAT), now),
    }
}

/// Takes a dated header now.
///
/// A missing header passes, and a header that cannot be read does not,
/// whatever the time. A date that can be read is held against the local
/// clock.
pub fn is_allow_ip_from_header(header: Option<&str>) -> (allowed: bool)
    ensures
        header is None ==> allowed,
        header matches Some(text) && spec_parse_timestamp(text@, DATE_FORMAT@) is None ==> !allowed,
        exists|now: Timestamp| allowed == #[trigger] spec_header_allows(header_text(header), now),
{
    let now: Timestamp = now_local();
    header_allows(header, now)
}

/// Resolves the address that a client is counted under: the one that a
/// proxy reported where there is one, else the address of the peer.
pub fn get_ip(real_ip: Option<String>, peer_ip: String) -> (ip: String)
    ensures
        ip == spec_get_ip(real_ip, peer_ip),
{
    match real_ip {
        Some(ip) => ip,
        None => peer_ip,
    }
}

/// Decides whether a gate on `field` counts a request whose handler ended in
/// `outcome`.
pub fn should_record(field: Field, outcome: Outcome) -> (counted: bool)
    ensures
        counted == spec_should_record(field, outcome),
{
    match field {
        Field::VisitError => outcome == Outcome::Failure,
        Field::Upload => outcome != Outcome::Cancelled,
    }
}

/// One limit and what it is a limit on.
#[derive(Clone, Copy, Debug, PartialEq, Eq, Structural)]
pub struct Gate {
    /// How many events a client has per day.
    pub limit: i32,
    /// The counter that is read and written.
    pub field: Field,
    /// How many days ahead the counter resets; 1 is the coming midnight.
    pub reset_days_ahead: i64,
}

/// Where a gate stands with one request whose counters are in the remote
/// cache.
#[derive(Clone, Copy, Debug, PartialEq, Eq, Structural)]
pub enum GateState {
    /// Nothing has happened yet.
    Idle,
    /// The client's record has been asked for, to decide on admission.
    Admitting,
    /// The handler is running.
    Serving,
    /// The client's record has been asked for again, to count the request.
    Reading,
    /// The new record is on its way to the cache.
    Writing,
    /// The request has been answered.
    Finished,
}

/// What happened outside a gate.
#[derive(Debug)]
pub enum GateEvent {
    /// A request came in.
    Arrived(Request),
    /// The cache answered the lookup.
    Found(CacheReply),
    /// The handler ended.
    Handled(Outcome),
    /// The cache answered the second read, at the given instant.
    Refreshed(CacheReply, Timestamp),
    /// The cache answered the write.
    Written(StoreReply),
}

/// What a gate wants done next.
#[derive(Debug)]
pub enum GateAction {
    /// Ask the cache for the record under this address, then report `Found`.
    Lookup(String),
    /// Answer with this refusal. The handler is not to run.
    Deny(Error),
    /// Run the handler, then report `Handled`.
    Forward,
    /// Ask the cache for the client's record again, then report `Refreshed`.
    Refresh,
    /// Send `SETEX` for the client with these values, then report `Written`.
    Write { ttl_seconds: i64, value: IpInfo },
    /// Hand the handler's response back as it is.
    Respond,
    /// Hand the handler's response back as it is and log that the count
    /// could not be kept.
    RespondLogging(Error),
    /// The event does not belong to the state: answer with this error.
    Fail(Error),
}

/// How a gate over the in-process store receives a request.
#[derive(Debug)]
pub enum Admission {
    /// The handler may run; the client is counted under this address.
    Proceed(String),
    /// The client is refused.
    Deny(Error),
}

impl Gate {
    /// The refusal that this gate answers with.
    pub open spec fn refusal(self) -> Error {
        spec_refusal(self.field, self.limit)
    }

    /// The move from `state` on `event`: the state that follows and
    /// what is to be done.
    pub open spec fn spec_step(self, state: GateState, event: GateEvent) -> (GateState, GateAction) {
        match (state, event) {
            (GateState::Idle, GateEvent::Arrived(request)) => (
                GateState::Admitting,
                GateAction::Lookup(spec_get_ip(request.real_ip, request.peer_ip)),
            ),
            (GateState::Admitting, GateEvent::Found(reply)) => {
                if spec_allow(reply.seen(), self.limit as int, self.field) {
                    (GateState::Serving, GateAction::Forward)
                } else {
                    (GateState::Finished, GateAction::Deny(self.refusal()))
                }
            },
            (GateState::Serving, GateEvent::Handled(outcome)) => {
                if spec_should_record(self.field, outcome) {
                    (GateState::Reading, GateAction::Refresh)
                } else {
                    (GateState::Finished, GateAction::Respond)
                }
            },
            (GateState::Reading, GateEvent::Refreshed(reply, now)) => {
                match reply.base() {
                    Ok(counts) => (
                        GateState::Writing,
                        GateAction::Write {
                            ttl_seconds: spec_ttl(now, self.reset_days_ahead as int) as i64,
                            value: counts.bumped(self.field),
                        },
                    ),
                    Err(error) => (GateState::Finished, GateAction::RespondLogging(error)),
                }
            },
            (GateState::Writing, GateEvent::Written(reply)) => {
                match reply.outcome() {
                    Ok(_) => (GateState::Finished, GateAction::Respond),
                    Err(error) => (GateState::Finished, GateAction::RespondLogging(error)),
                }
            },
            _ => (GateState::Finished, GateAction::Fail(Error::Unknown)),
        }
    }

    /// How `request` is received, going by `records`.
    pub open spec fn spec_pre_check(
        self,
        records: Map<Seq<char>, CounterRecord>,
        request: Request,
    ) -> Admission {
        let key = spec_get_ip(request.real_ip, request.peer_ip);
        if spec_allow(spec_live(records, key@, request.now), self.limit as int, self.field) {
            Admission::Proceed(key)
        } else {
            Admission::Deny(self.refusal())
        }
    }

    /// A gate that allows `limit` events on `field` per client and day.
    pub fn new(limit: i32, field: Field, reset_days_ahead: i64) -> (gate: Gate)
        ensures
            gate.limit == limit,
            gate.field == field,
            gate.reset_days_ahead == reset_days_ahead,
    {
        Gate { limit, field, reset_days_ahead }
    }

    /// A gate before the handlers that take a code.
    pub fn for_visit_errors(ip_allower: &IpAllower) -> (gate: Gate)
        ensures
            gate == (Gate {
                limit: ip_allower.visit_error_limit,
                field: Field::VisitError,
                reset_days_ahead: ip_allower.ttl,
            }),
    {
        Gate { limit: ip_allower.visit_error_limit, field: Field::VisitError, reset_days_ahead: ip_allower.ttl }
    }

    /// A gate before the handler that takes uploads.
    pub fn for_uploads(ip_allower: &IpAllower) -> (gate: Gate)
        ensures
            gate == (Gate {
                limit: ip_allower.upload_limit,
                field: Field::Upload,
                reset_days_ahead: ip_allower.ttl,
            }),
    {
        Gate { limit: ip_allower.upload_limit, field: Field::Upload, reset_days_ahead: ip_allower.ttl }
    }

    /// The refusal that this gate answers with: the error of its field,
    /// carrying the limit.
    pub fn deny(&self) -> (error: Error)
        ensures
            error == self.refusal(),
    {
        match self.field {
            Field::VisitError => Error::IpVisitErrorLimit(self.limit),
            Field::Upload => Error::IpUploadLimit(self.limit),
        }
    }

    /// Moves a request one step on.
    ///
    /// The caller starts in [`GateState::Idle`] with
    /// [`GateEvent::Arrived`], does what the returned action says, and comes
    /// back with the event that the action names, until the state is
    /// [`GateState::Finished`].
    pub fn step(&self, state: GateState, event: GateEvent) -> (moved: (GateState, GateAction))
        ensures
            moved == self.spec_step(state, event),
    {
        match (state, event) {
            (GateState::Idle, GateEvent::Arrived(request)) => (
                GateState::Admitting,
                GateAction::Lookup(get_ip(request.real_ip, request.peer_ip)),
            ),
            (GateState::Admitting, GateEvent::Found(reply)) => {
                if is_allowed(reply, self.limit, self.field) {
                    (GateState::Serving, GateAction::Forward)
                } else {
                    (GateState::Finished, GateAction::Deny(self.deny()))
                }
            },
            (GateState::Serving, GateEvent::Handled(outcome)) => {
                if should_record(self.field, outcome) {
                    (GateState::Reading, GateAction::Refresh)
                } else {
                    (GateState::Finished, GateAction::Respond)
                }
            },
            (GateState::Reading, GateEvent::Refreshed(reply, now)) => {
                match plan_update(reply, self.field, self.reset_days_ahead, now) {
                    Ok((ttl_seconds, value)) => (GateState::Writing, GateAction::Write { ttl_seconds, value }),
                    Err(error) => (GateState::Finished, GateAction::RespondLogging(error)),
                }
            },
            (GateState::Writing, GateEvent::Written(reply)) => {
                match crate::ip_allow::check_stored(reply) {
                    Ok(_) => (GateState::Finished, GateAction::Respond),
                    Err(error) => (GateState::Finished, GateAction::RespondLogging(error)),
                }
            },
            _ => (GateState::Finished, GateAction::Fail(Error::Unknown)),
        }
    }

    /// Receives a request whose counters are in `store`.
    ///
    /// The client is refused where its live record has reached the limit, and
    /// nowhere else. Otherwise the handler may run.
    pub fn pre_check(&self, store: &InProcessStore, request: Request) -> (admission: Admission)
        ensures
            admission == self.spec_pre_check(store@, request),
    {
        let now: Timestamp = request.now;
        let key: String = get_ip(request.real_ip, request.peer_ip);
        let seen: Option<IpInfo> = match store.get(key.as_str(), now) {
            Some(record) => Some(record.counts),
            None => None,
        };
        if crate::ip_allow::allow(seen, self.limit, self.field) {
            Admission::Proceed(key)
        } else {
            Admission::Deny(self.deny())
        }
    }

    /// Closes a request that was let in under `key`, once its handler has
    /// ended in `outcome` at `now`.
    ///
    /// Where this gate's policy counts the outcome, the client's counter goes
    /// up by one and the new record comes back. Otherwise the store stays as
    /// it is.
    pub fn post_check(
        &self,
        store: &mut InProcessStore,
        key: &str,
        outcome: Outcome,
        now: Timestamp,
    ) -> (counted: Option<CounterRecord>)
        ensures
            final(store)@ == if spec_should_record(self.field, outcome) {
                spec_increment(old(store)@, key@, self.field, now, self.reset_days_ahead as int)
            } else {
                old(store)@
            },
            counted == if spec_should_record(self.field, outcome) {
                Some(
                    CounterRecord {
                        counts: spec_current(old(store)@, key@, now).bumped(self.field),
                        expires_at: spec_expiry(now, self.reset_days_ahead as int),
                    },
                )
            } else {
                None
            },
    {
        if should_record(self.field, outcome) {
            Some(store.increment(key, self.field, now, self.reset_days_ahead))
        } else {
            None
        }
    }
}

/// One step of a gate that limits wrong guesses per client and day.
pub fn ip_visit_error_limit_of_day_mw(
    ip_allower: &IpAllower,
    state: GateState,
    event: GateEvent,
) -> (moved: (GateState, GateAction))
    ensures
        moved == (Gate {
            limit: ip_allower.visit_error_limit,
            field: Field::VisitError,
            reset_days_ahead: ip_allower.ttl,
        }).spec_step(state, event),
{
    Gate::for_visit_errors(ip_allower).step(state, event)
}

/// One step of a gate that limits uploads per client and day.
pub fn ip_upload_limit_of_day_mw(
    ip_allower: &IpAllower,
    state: GateState,
    event: GateEvent,
) -> (moved: (GateState, GateAction))
    ensures
        moved == (Gate {
            limit: ip_allower.upload_limit,
            field: Field::Upload,
            reset_days_ahead: ip_allower.ttl,
        }).spec_step(state, event),
{
    Gate::for_uploads(ip_allower).step(state, event)
}

} // verus!
