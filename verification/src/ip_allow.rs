//! The limiter's policy and its dealings with the remote cache.
//!
//! The remote cache knows two commands, `GET key` and
//! `SETEX key seconds value`. Whoever talks to it hands the replies in as
//! plain values and sends what the functions here tell it to send.
//!
//! Counting in the cache takes a read and a write. Two requests of one
//! client that read before either has written both write the same record,
//! and one of the two events is lost. The error favours the client and is
//! accepted; a store that counts in one step, such as the one in this
//! process, does not have it.

use vstd::prelude::*;
use crate::api::{Field, IpInfo};
use crate::clock::{seconds_until_next_midnight, spec_expiry, spec_ttl, Timestamp};
use crate::errors::Error;
use crate::store::{spec_current, spec_increment, spec_live, CounterRecord, InProcessStore};

verus! {

/// The limits of one service: how many wrong guesses and how many uploads a
/// client has per day, and how many days ahead the counters reset.
#[derive(Clone, Copy, Debug, PartialEq, Eq, Structural)]
pub struct IpAllower {
    pub visit_error_limit: i32,
    pub upload_limit: i32,
    pub ttl: i64,
}

/// What the cache answered to `GET key`, as far as the limiter reads it.
#[derive(Clone, Copy, Debug, PartialEq, Eq, Structural)]
pub enum CacheReply {
    /// The key is not there.
    Miss,
    /// The stored record.
    Record(IpInfo),
    /// Something is stored that is not text.
    NotText,
    /// Text is stored that is not a record.
    Malformed,
    /// The cache could not be reached.
    Unavailable,
}

/// What the cache answered to `SETEX`.
#[derive(Debug)]
pub enum StoreReply {
    /// Any answer that is not an error.
    Done,
    /// The cache refused the command and said why.
    Refused(String),
    /// The cache could not be reached.
    Unavailable,
}

/// A `SETEX` to send: the record to put under `key` and its time to live.
#[derive(Debug)]
pub struct SetexCommand {
    pub key: String,
    pub ttl_seconds: i64,
    pub value: IpInfo,
}

/// Whether a client with `record` may go on under `limit`.
///
/// A client without a record has done nothing today and may. One with a
/// record may while the counter of `field` is below the limit.
pub open spec fn spec_allow(record: Option<IpInfo>, limit: int, field: Field) -> bool {
    match record {
        None => true,
        Some(counts) => counts.count(field) < limit,
    }
}

/// Decides whether a client with `record` may act on `field` under `limit`.
/// No record allows; a record allows while its counter is below the limit.
pub fn allow(record: Option<IpInfo>, limit: i32, field: Field) -> (allowed: bool)
    ensures
        allowed == spec_allow(record, limit as int, field),
{
    match record {
        None => true,
        Some(counts) => counts.count_of(field) < limit,
    }
}

impl CacheReply {
    /// The record that admission goes by: whatever keeps the stored record
    /// from being read counts as no record.
    pub open spec fn seen(self) -> Option<IpInfo> {
        match self {
            CacheReply::Record(counts) => Some(counts),
            _ => None,
        }
    }

    /// The reply as a reader takes it: the stored record and that one was
    /// found, or zeroes and that none was. Whatever keeps the stored record
    /// from being read, a value that is not text, text that is not a record
    /// or a cache out of reach, reads as no record.
    pub open spec fn read(self) -> (IpInfo, bool) {
        match self.seen() {
            Some(counts) => (counts, true),
            None => (IpInfo::zero(), false),
        }
    }

    /// The counters from which an update starts, or the error that stops
    /// it. Only an unreachable cache stops an update: a stored value that
    /// cannot be read is overwritten as if nothing had been stored.
    pub open spec fn base(self) -> Result<IpInfo, Error> {
        match self {
            CacheReply::Unavailable => Err(Error::RedisError),
            CacheReply::Record(counts) => Ok(counts),
            _ => Ok(IpInfo::zero()),
        }
    }
}

/// Reads a reply to `GET`.
///
/// Reading never fails: the caller gets the stored record, or zeroes with
/// the word that no record was found.
pub fn get(reply: CacheReply) -> (read: Result<(IpInfo, bool), Error>)
    ensures
        read == Ok::<(IpInfo, bool), Error>(reply.read()),
{
    match reply {
        CacheReply::Record(counts) => Ok((counts, true)),
        _ => Ok((IpInfo::new(), false)),
    }
}

/// Whether the client whose record the cache answered with may act on
/// `field` under `limit`. A reply without a readable record admits.
pub fn is_allowed(reply: CacheReply, limit: i32, field: Field) -> (allowed: bool)
    ensures
        allowed == spec_allow(reply.seen(), limit as int, field),
{
    match get(reply) {
        Ok((counts, true)) => allow(Some(counts), limit, field),
        _ => true,
    }
}

/// Whether a client may guess another code.
pub fn is_allow_ip_for_visit(reply: CacheReply, visit_error_limit: i32) -> (allowed: bool)
    ensures
        allowed == spec_allow(reply.seen(), visit_error_limit as int, Field::VisitError),
{
    is_allowed(reply, visit_error_limit, Field::VisitError)
}

/// Whether a client may upload again.
pub fn is_allow_ip_for_upload(reply: CacheReply, upload_limit: i32) -> (allowed: bool)
    ensures
        allowed == spec_allow(reply.seen(), upload_limit as int, Field::Upload),
{
    is_allowed(reply, upload_limit, Field::Upload)
}

/// The record to write after one more event on `field`, and for how many
/// seconds it is to live.
///
/// `reply` is the answer to a `GET` just made for the client. The time to
/// live runs to the local midnight `ttl` days after the day of `now`.
pub fn plan_update(
    reply: CacheReply,
    field: Field,
    ttl: i64,
    now: Timestamp,
) -> (plan: Result<(i64, IpInfo), Error>)
    ensures
        match reply.base() {
            Ok(counts) => plan == Ok::<(i64, IpInfo), Error>(
                (
                    spec_ttl(now, ttl as int) as i64,
                    counts.bumped(field),
                ),
            ),
            Err(error) => plan == Err::<(i64, IpInfo), Error>(error),
        },
{
    let counts: IpInfo = match reply {
        CacheReply::Unavailable => {
            return Err(Error::RedisError);
        },
        CacheReply::Record(counts) => counts,
        _ => IpInfo::new(),
    };
    Ok((seconds_until_next_midnight(now, ttl), counts.bump(field)))
}

/// Whether `command` is what counting one more event on `field` for `ip`
/// comes to, given the cache's `reply` to a `GET ip`.
///
/// Where the reply lets the update start, the command puts the counters
/// with `field` raised by one under `ip`, to live until the local midnight
/// `ttl` days after the day of `now`. Where the cache could not be reached,
/// there is no command but the error.
pub open spec fn is_count_command(
    command: Result<SetexCommand, Error>,
    reply: CacheReply,
    ip: Seq<char>,
    field: Field,
    ttl: int,
    now: Timestamp,
) -> bool {
    match reply.base() {
        Ok(counts) => command matches Ok(setex) && setex.key@ == ip && setex.ttl_seconds == spec_ttl(now, ttl)
            && setex.value == counts.bumped(field),
        Err(error) => command == Err::<SetexCommand, Error>(error),
    }
}

/// The `SETEX` that counts one more event on `field` for `ip`.
fn add_count(
    reply: CacheReply,
    ip: &str,
    field: Field,
    ttl: i64,
    now: Timestamp,
) -> (command: Result<SetexCommand, Error>)
    ensures
        is_count_command(command, reply, ip@, field, ttl as int, now),
{
    match plan_update(reply, field, ttl, now) {
        Ok((ttl_seconds, value)) => Ok(SetexCommand { key: ip.to_owned(), ttl_seconds, value }),
        Err(error) => Err(error),
    }
}

/// The `SETEX` that counts one more wrong guess for `ip`.
///
/// `reply` is the answer to a `GET ip` just made. Where the cache could not
/// be reached the error is handed on and nothing is to be sent.
pub fn add_ip_visit_error_limit_count(
    reply: CacheReply,
    ip: &str,
    ttl: i64,
    now: Timestamp,
) -> (command: Result<SetexCommand, Error>)
    ensures
        is_count_command(command, reply, ip@, Field::VisitError, ttl as int, now),
{
    add_count(reply, ip, Field::VisitError, ttl, now)
}

/// The `SETEX` that counts one more upload for `ip`.
///
/// `reply` is the answer to a `GET ip` just made. Where the cache could not
/// be reached the error is handed on and nothing is to be sent.
pub fn add_ip_upload_limit_count(
    reply: CacheReply,
    ip: &str,
    ttl: i64,
    now: Timestamp,
) -> (command: Result<SetexCommand, Error>)
    ensures
        is_count_command(command, reply, ip@, Field::Upload, ttl as int, now),
{
    add_count(reply, ip, Field::Upload, ttl, now)
}

impl StoreReply {
    /// How a `SETEX` ended.
    pub open spec fn outcome(self) -> Result<(), Error> {
        match self {
            StoreReply::Done => Ok(()),
            StoreReply::Refused(why) => Err(Error::RedisSendCommandError(why)),
            StoreReply::Unavailable => Err(Error::RedisError),
        }
    }
}

/// Reads the reply to a `SETEX`: a failed write is an error of its own and
/// never passes for a success.
pub fn check_stored(reply: StoreReply) -> (written: Result<(), Error>)
    ensures
        written == reply.outcome(),
{
    match reply {
        StoreReply::Done => Ok(()),
        StoreReply::Refused(why) => Err(Error::RedisSendCommandError(why)),
        StoreReply::Unavailable => Err(Error::RedisError),
    }
}

impl IpAllower {
    /// The limit on `field`.
    pub open spec fn limit(self, field: Field) -> int {
        match field {
            Field::VisitError => self.visit_error_limit as int,
            Field::Upload => self.upload_limit as int,
        }
    }

    /// The limits as given; `ttl` counts the days until the counters reset.
    pub fn new(visit_error_limit: i32, upload_limit: i32, ttl: i64) -> (allower: IpAllower)
        ensures
            allower.visit_error_limit == visit_error_limit,
            allower.upload_limit == upload_limit,
            allower.ttl == ttl,
    {
        IpAllower { visit_error_limit, upload_limit, ttl }
    }

    /// Reads the limit on `field`.
    pub fn limit_of(&self, field: Field) -> (limit: i32)
        ensures
            limit == self.limit(field),
    {
        match field {
            Field::VisitError => self.visit_error_limit,
            Field::Upload => self.upload_limit,
        }
    }

    /// Whether the client `key` may act on `field` at `now`, going by the
    /// records in `store`.
    pub fn allow(
        &self,
        store: &InProcessStore,
        key: &str,
        field: Field,
        now: Timestamp,
    ) -> (allowed: bool)
        ensures
            allowed == spec_allow(spec_live(store@, key@, now), self.limit(field), field),
    {
        let seen: Option<IpInfo> = match store.get(key, now) {
            Some(record) => Some(record.counts),
            None => None,
        };
        allow(seen, self.limit_of(field), field)
    }

    /// Counts one event on `field` against the client `key` and returns the
    /// client's record after it.
    pub fn record(
        &self,
        store: &mut InProcessStore,
        key: &str,
        field: Field,
        now: Timestamp,
    ) -> (record: CounterRecord)
        ensures
            final(store)@ == spec_increment(old(store)@, key@, field, now, self.ttl as int),
            record.counts == spec_current(old(store)@, key@, now).bumped(field),
            record.expires_at == spec_expiry(now, self.ttl as int),
    {
        store.increment(key, field, now, self.ttl)
    }
}

} // verus!
