//! What holds of the limiter as a whole, proved from the models that the
//! functions' contracts are stated over.

use vstd::prelude::*;
use crate::api::{
    byte_len, codes_for, with_error, CreateFileboxRequest, Field, FileboxFileType, IpInfo, Violation,
};
use crate::clock::{spec_expiry, spec_midnight_after, spec_seconds_until_next_midnight, Timestamp};
use crate::errors::Error;
use crate::ip_allow::{spec_allow, CacheReply};
use crate::middlewares::{
    spec_get_ip, spec_should_record, Admission, Gate, GateAction, GateEvent, GateState, Outcome, Request,
};
use crate::store::{spec_current, spec_get, spec_increment, spec_live, spec_sweep, CounterRecord};

verus! {

/// The store after one increment of `field` under `key` at each of `times`,
/// in their order.
pub open spec fn spec_increments(
    records: Map<Seq<char>, CounterRecord>,
    key: Seq<char>,
    field: Field,
    times: Seq<Timestamp>,
    days_ahead: int,
) -> Map<Seq<char>, CounterRecord>
    decreases times.len(),
{
    if times.len() == 0 {
        records
    } else {
        spec_increment(
            spec_increments(records, key, field, times.drop_last(), days_ahead),
            key,
            field,
            times.last(),
            days_ahead,
        )
    }
}

/// `n`, or `i32::MAX` where `n` is larger.
pub open spec fn capped(n: int) -> int {
    if n > i32::MAX {
        i32::MAX as int
    } else {
        n
    }
}

/// A client that has no live record is allowed under every limit of at
/// least one.
pub proof fn law_unseen_client_is_allowed(
    records: Map<Seq<char>, CounterRecord>,
    key: Seq<char>,
    now: Timestamp,
    limit: int,
    field: Field,
)
    requires
        spec_live(records, key, now) is None,
        limit >= 1,
    ensures
        spec_allow(spec_live(records, key, now), limit, field),
{
}

/// A reply of the remote cache that holds no readable record allows the
/// client under every limit: a miss, a value that is not a record and an
/// unreachable cache all count for the client.
pub proof fn law_unreadable_reply_is_allowed(reply: CacheReply, limit: int, field: Field)
    requires
        !(reply is Record),
    ensures
        spec_allow(reply.seen(), limit, field),
{
}

/// The limit is sharp: a client whose counter equals the limit is refused,
/// and one whose counter is one below the limit is allowed.
pub proof fn law_limit_is_sharp(counts: IpInfo, limit: int, field: Field)
    ensures
        counts.count(field) == limit ==> !spec_allow(Some(counts), limit, field),
        counts.count(field) == limit - 1 ==> spec_allow(Some(counts), limit, field),
{
}

/// Counting on one field leaves the other field's counter as it was, and
/// moves the counted field up by one below `i32::MAX`.
pub proof fn law_fields_do_not_interfere(counts: IpInfo, counted: Field, other: Field)
    requires
        counted != other,
    ensures
        counts.bumped(counted).count(other) == counts.count(other),
        counts.bumped(counted).count(counted) == capped(counts.count(counted) + 1),
{
}

/// A record written with the reset at least one day ahead is live at the
/// instant of the write, unless the reset lies beyond the last instant that
/// a timestamp can name.
pub proof fn law_fresh_record_is_live(
    records: Map<Seq<char>, CounterRecord>,
    key: Seq<char>,
    field: Field,
    now: Timestamp,
    days_ahead: int,
)
    requires
        days_ahead >= 1,
        spec_midnight_after(now, days_ahead) <= i64::MAX,
    ensures
        spec_live(spec_increment(records, key, field, now, days_ahead), key, now) == Some(
            spec_current(records, key, now).bumped(field),
        ),
{
}

/// Increments add up within a day.
///
/// After one increment at each of `times`, all of them on one calendar day,
/// the counter stands at what a reader saw at the first of them plus their
/// number, and at `i32::MAX` where that is larger. For a client that had no
/// live record the counter is the number of increments.
pub proof fn law_increments_add_up(
    records: Map<Seq<char>, CounterRecord>,
    key: Seq<char>,
    field: Field,
    times: Seq<Timestamp>,
    days_ahead: int,
)
    requires
        times.len() >= 1,
        days_ahead >= 1,
        spec_midnight_after(times[0], days_ahead) <= i64::MAX,
        forall|i: int| 0 <= i < times.len() ==> (#[trigger] times[i]).midnight() == times[0].midnight(),
    ensures
        spec_live(spec_increments(records, key, field, times, days_ahead), key, times.last()) is Some,
        spec_current(spec_increments(records, key, field, times, days_ahead), key, times.last()).count(field)
            == capped(spec_current(records, key, times[0]).count(field) + times.len()),
        spec_live(records, key, times[0]) is None && times.len() <= i32::MAX ==> spec_current(
            spec_increments(records, key, field, times, days_ahead),
            key,
            times.last(),
        ).count(field) == times.len(),
    decreases times.len(),
{
    let last = times.last();
    let earlier = times.drop_last();
    if times.len() == 1 {
        law_fresh_record_is_live(records, key, field, last, days_ahead);
    } else {
        // By induction the earlier increments left a live record. It expires
        // at the midnight after this day, which `last` has not reached, so
        // the last increment starts from it.
        law_increments_add_up(records, key, field, earlier, days_ahead);
        let before = spec_increments(records, key, field, earlier, days_ahead);
        law_fresh_record_is_live(before, key, field, last, days_ahead);
    }
}

/// Once the expiry that a write computed has been reached, a reader sees no
/// record under the key, whether or not the record is still stored, and an
/// increment starts from zero again.
pub proof fn law_expired_record_is_absent(
    records: Map<Seq<char>, CounterRecord>,
    key: Seq<char>,
    field: Field,
    written: Timestamp,
    days_ahead: int,
    now: Timestamp,
)
    requires
        now.at_or_after(spec_expiry(written, days_ahead)),
    ensures
        spec_increment(records, key, field, written, days_ahead).dom().contains(key),
        spec_get(spec_increment(records, key, field, written, days_ahead), key, now) is None,
        spec_live(spec_increment(records, key, field, written, days_ahead), key, now) is None,
        spec_current(spec_increment(records, key, field, written, days_ahead), key, now) == IpInfo::zero(),
{
}

/// A sweep changes nothing that a reader at the instant of the sweep, or
/// later, can see.
pub proof fn law_sweep_is_invisible(
    records: Map<Seq<char>, CounterRecord>,
    swept_at: Timestamp,
    key: Seq<char>,
    now: Timestamp,
)
    requires
        now.at_or_after(swept_at),
    ensures
        spec_get(spec_sweep(records, swept_at), key, now) == spec_get(records, key, now),
{
}

/// The time to live that is handed to the cache ends at the midnight that
/// the in-process store takes for the expiry: a record written at a whole
/// second lives exactly until then.
pub proof fn law_ttl_reaches_expiry(now: Timestamp, days_ahead: int)
    requires
        days_ahead >= 1,
        now.nanos == 0,
    ensures
        now.secs + spec_seconds_until_next_midnight(now, days_ahead) == spec_midnight_after(now, days_ahead),
{
}

/// The handler runs only for a client that was allowed: a gate says
/// `Forward` in no other place than on the cache's answer to the lookup, and
/// there only where the record seen is below the limit or missing.
pub proof fn law_handler_runs_only_when_allowed(gate: Gate, state: GateState, event: GateEvent)
    requires
        gate.spec_step(state, event).1 is Forward,
    ensures
        state == GateState::Admitting,
        event matches GateEvent::Found(reply) && spec_allow(reply.seen(), gate.limit as int, gate.field),
        gate.spec_step(state, event).0 == GateState::Serving,
{
}

/// A gate asks for a write only after the handler has ended in an outcome
/// that its policy counts: the way into `Reading` leads through `Handled`
/// with such an outcome, and the way into `Writing` through `Reading`.
pub proof fn law_writes_follow_counted_outcomes(gate: Gate, state: GateState, event: GateEvent)
    ensures
        gate.spec_step(state, event).0 == GateState::Reading ==> state == GateState::Serving && (event matches GateEvent::Handled(
            outcome,
        ) && spec_should_record(gate.field, outcome)),
        gate.spec_step(state, event).0 == GateState::Writing ==> state == GateState::Reading,
        gate.spec_step(state, event).1 is Write ==> gate.spec_step(state, event).0 == GateState::Writing,
{
}

/// What each gate counts: a wrong guess counts against the guess limit and
/// a right one does not; an upload counts whether or not it went well; a
/// handler that never answered counts for nothing.
pub proof fn law_counting_policy(field: Field)
    ensures
        spec_should_record(Field::VisitError, Outcome::Failure),
        !spec_should_record(Field::VisitError, Outcome::Success),
        spec_should_record(Field::Upload, Outcome::Success),
        spec_should_record(Field::Upload, Outcome::Failure),
        !spec_should_record(field, Outcome::Cancelled),
{
}

/// Within a day no counter goes down: after an increment at `now` a reader
/// at `now` finds each counter at least where it was, and the counters are
/// never negative if they were not so before.
pub proof fn law_counts_never_decrease(
    records: Map<Seq<char>, CounterRecord>,
    key: Seq<char>,
    counted: Field,
    now: Timestamp,
    days_ahead: int,
    read: Field,
)
    requires
        days_ahead >= 1,
        spec_midnight_after(now, days_ahead) <= i64::MAX,
    ensures
        spec_current(spec_increment(records, key, counted, now, days_ahead), key, now).count(read) >= spec_current(
            records,
            key,
            now,
        ).count(read),
        spec_current(records, key, now).well_formed() ==> spec_current(
            spec_increment(records, key, counted, now, days_ahead),
            key,
            now,
        ).well_formed(),
{
    law_fresh_record_is_live(records, key, counted, now, days_ahead);
}

/// An increment under one key leaves every other key's record as it was.
pub proof fn law_clients_do_not_interfere(
    records: Map<Seq<char>, CounterRecord>,
    key: Seq<char>,
    field: Field,
    now: Timestamp,
    days_ahead: int,
    other: Seq<char>,
    read_at: Timestamp,
)
    requires
        other != key,
    ensures
        spec_get(spec_increment(records, key, field, now, days_ahead), other, read_at) == spec_get(
            records,
            other,
            read_at,
        ),
{
}

/// The two ways of running a gate decide alike: the in-process gate lets a
/// request through to the handler exactly when the step-wise gate forwards
/// it on a reply that shows the same counters, and both count the client
/// under the same address.
pub proof fn law_gates_agree(
    gate: Gate,
    records: Map<Seq<char>, CounterRecord>,
    request: Request,
    reply: CacheReply,
)
    requires
        reply.seen() == spec_live(records, spec_get_ip(request.real_ip, request.peer_ip)@, request.now),
    ensures
        gate.spec_step(GateState::Idle, GateEvent::Arrived(request)) == (
            GateState::Admitting,
            GateAction::Lookup(spec_get_ip(request.real_ip, request.peer_ip)),
        ),
        gate.spec_pre_check(records, request) is Proceed <==> gate.spec_step(
            GateState::Admitting,
            GateEvent::Found(reply),
        ).1 is Forward,
        gate.spec_pre_check(records, request) is Proceed ==> gate.spec_pre_check(records, request)
            == Admission::Proceed(spec_get_ip(request.real_ip, request.peer_ip)),
{
}

/// A client is refused if and only if its counter has reached the limit.
///
/// Whatever a request looks like, a gate refuses it exactly where the
/// counters of its client do not allow it, and then with the refusal that
/// names the limit. A first step never refuses: it asks for the client's
/// record. A client without a live record is let in under every limit of at
/// least one.
pub proof fn law_refusal_goes_by_the_counters_alone(
    gate: Gate,
    records: Map<Seq<char>, CounterRecord>,
    request: Request,
    reply: CacheReply,
)
    ensures
        gate.spec_pre_check(records, request) is Deny <==> !spec_allow(
            spec_live(records, spec_get_ip(request.real_ip, request.peer_ip)@, request.now),
            gate.limit as int,
            gate.field,
        ),
        gate.spec_pre_check(records, request) is Deny ==> gate.spec_pre_check(records, request) == Admission::Deny(
            gate.refusal(),
        ),
        !(gate.spec_step(GateState::Idle, GateEvent::Arrived(request)).1 is Deny),
        gate.spec_step(GateState::Admitting, GateEvent::Found(reply)).1 is Deny <==> !spec_allow(
            reply.seen(),
            gate.limit as int,
            gate.field,
        ),
        gate.limit >= 1 && spec_live(
            records,
            spec_get_ip(request.real_ip, request.peer_ip)@,
            request.now,
        ) is None ==> gate.spec_pre_check(records, request) is Proceed,
        gate.limit >= 1 && !(reply is Record) ==> gate.spec_step(GateState::Admitting, GateEvent::Found(reply)).1
            is Forward,
{
}

/// The record in the cache after `n` updates of `field` that follow one
/// another: the first starts from `first`, the cache's reply before anything
/// has been written, and each later one reads what the one before it wrote.
/// Each update writes what the counting functions say: the counters that
/// its reply lets it start from, with `field` raised by one.
pub open spec fn spec_serial_updates(first: CacheReply, field: Field, n: nat) -> IpInfo
    decreases n,
{
    if n == 0 {
        first.base()->Ok_0
    } else if n == 1 {
        first.base()->Ok_0.bumped(field)
    } else {
        CacheReply::Record(spec_serial_updates(first, field, (n - 1) as nat)).base()->Ok_0.bumped(field)
    }
}

/// Updates of the cache add up as long as each reads what the one before it
/// wrote: after `n` of them the counter stands at what the first reply
/// showed plus `n`, and at `i32::MAX` where that is larger. For a client of
/// which the cache held no readable record the counter is the number of
/// updates.
pub proof fn law_serial_updates_add_up(first: CacheReply, field: Field, n: nat)
    requires
        n >= 1,
        first.base() is Ok,
    ensures
        spec_serial_updates(first, field, n).count(field) == capped(first.base()->Ok_0.count(field) + n),
        !(first is Record) && n <= i32::MAX ==> spec_serial_updates(first, field, n).count(field) == n,
    decreases n,
{
    if n > 1 {
        law_serial_updates_add_up(first, field, (n - 1) as nat);
    }
}

/// The fields of the form are four different names.
proof fn lemma_field_names_differ()
    ensures
        "name"@ != "duration_day"@,
        "name"@ != "text"@,
        "name"@ != "file"@,
        "duration_day"@ != "text"@,
        "duration_day"@ != "file"@,
        "text"@ != "file"@,
{
    reveal_strlit("name");
    reveal_strlit("duration_day");
    reveal_strlit("text");
    reveal_strlit("file");
    assert("name"@[0] == 'n');
    assert("text"@[0] == 't');
    assert("file"@[0] == 'f');
    assert("duration_day"@.len() == 12);
}

/// One more violation is one more error in the collection.
proof fn lemma_codes_for_push(violations: Seq<Violation>, next: Violation)
    ensures
        codes_for(violations.push(next)) == with_error(codes_for(violations), next.spec_field(), next.spec_code()),
{
    assert(violations.push(next).drop_last() =~= violations);
}

/// What a request that fails validation is told, field by field.
///
/// The errors hold an entry for `name` exactly when the name is too long,
/// one for `duration_day` exactly when the duration is out of range, one
/// for `text` exactly when a text box lacks its text or has one of the wrong
/// length, and one for `file` exactly when a file box lacks its file. Each
/// entry holds the one code of its violation, and there are no other
/// entries.
pub proof fn law_errors_by_field(request: CreateFileboxRequest)
    ensures
        ({
            let held = codes_for(request.spec_violations());
            let name_wrong = byte_len(request.name@) > 50;
            let duration_wrong = request.duration_day == 0 || request.duration_day >= 30;
            let text_wrong = request.file_type == FileboxFileType::Text && (request.text matches Some(text)
                && (byte_len(text@) == 0 || byte_len(text@) > 2000));
            let text_missing = request.file_type == FileboxFileType::Text && request.text is None;
            let file_missing = request.file_type == FileboxFileType::File && request.file is None;
            &&& held.dom().contains("name"@) <==> name_wrong
            &&& name_wrong ==> held["name"@] == Some(seq!["name more than 50 characters"@])
            &&& held.dom().contains("duration_day"@) <==> duration_wrong
            &&& duration_wrong ==> held["duration_day"@] == Some(seq!["duration_day over scope"@])
            &&& held.dom().contains("text"@) <==> text_wrong || text_missing
            &&& text_wrong ==> held["text"@] == Some(seq!["text over scope"@])
            &&& text_missing ==> held["text"@] == Some(seq!["text empty"@])
            &&& held.dom().contains("file"@) <==> file_missing
            &&& file_missing ==> held["file"@] == Some(seq!["file empty"@])
            &&& forall|field: Seq<char>| #[trigger]
                held.dom().contains(field) ==> field == "name"@ || field == "duration_day"@ || field == "text"@
                    || field == "file"@
        }),
{
    lemma_field_names_differ();
    let none = Seq::<Violation>::empty();
    let named = if byte_len(request.name@) > 50 {
        none.push(Violation::NameTooLong)
    } else {
        none
    };
    let timed = if request.duration_day == 0 || request.duration_day >= 30 {
        named.push(Violation::DurationOutOfRange)
    } else {
        named
    };
    let content = request.content_violations();
    let all = if content.len() == 0 {
        timed
    } else {
        timed.push(content[0])
    };
    assert(request.spec_violations() =~= all);
    if byte_len(request.name@) > 50 {
        lemma_codes_for_push(none, Violation::NameTooLong);
    }
    if request.duration_day == 0 || request.duration_day >= 30 {
        lemma_codes_for_push(named, Violation::DurationOutOfRange);
    }
    if content.len() > 0 {
        lemma_codes_for_push(timed, content[0]);
    }
}

/// The price of counting in two steps: two updates that start from one and
/// the same reply of the cache write one and the same record, so that the
/// counter ends one above what the reply showed, not two.
pub proof fn law_stale_read_counts_once(reply: CacheReply, field: Field)
    requires
        reply.base() is Ok,
    ensures
        reply.base()->Ok_0.bumped(field).count(field) == capped(reply.base()->Ok_0.count(field) + 1),
        reply.base()->Ok_0.bumped(field).bumped(field).count(field) == capped(reply.base()->Ok_0.count(field) + 2),
{
}

/// A client is refused exactly from the moment at which its events of the
/// day have reached the limit: after one increment at each of `times`, all
/// on one calendar day, a client that had no live record is allowed under
/// `limit` if and only if there were fewer increments than the limit.
pub proof fn law_refused_once_the_limit_is_reached(
    records: Map<Seq<char>, CounterRecord>,
    key: Seq<char>,
    field: Field,
    times: Seq<Timestamp>,
    days_ahead: int,
    limit: int,
)
    requires
        times.len() >= 1,
        times.len() <= i32::MAX,
        days_ahead >= 1,
        spec_midnight_after(times[0], days_ahead) <= i64::MAX,
        forall|i: int| 0 <= i < times.len() ==> (#[trigger] times[i]).midnight() == times[0].midnight(),
        spec_live(records, key, times[0]) is None,
    ensures
        spec_allow(
            spec_live(spec_increments(records, key, field, times, days_ahead), key, times.last()),
            limit,
            field,
        ) <==> times.len() < limit,
{
    law_increments_add_up(records, key, field, times, days_ahead);
}

/// Both stores count alike: where the cache's reply shows the counters that
/// a reader of the in-process store finds, the record that is sent to the
/// cache holds the counters that the in-process store would hold after its
/// increment.
pub proof fn law_stores_count_alike(
    records: Map<Seq<char>, CounterRecord>,
    key: Seq<char>,
    field: Field,
    now: Timestamp,
    days_ahead: int,
    reply: CacheReply,
)
    requires
        reply is Record || reply is Miss,
        reply.seen() == spec_live(records, key, now),
    ensures
        reply.base() == Ok::<IpInfo, Error>(spec_current(records, key, now)),
        spec_increment(records, key, field, now, days_ahead)[key].counts == reply.base()->Ok_0.bumped(field),
{
}

} // verus!
