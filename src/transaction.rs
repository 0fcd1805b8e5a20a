//! The per-request transaction: an identifier and the time the request was
//! received, created once per request and reused for its response.
use crate::digits::{decimal, digit_char};
use vstd::arithmetic::power::pow;
use vstd::arithmetic::power2::pow2;
use vstd::prelude::*;

verus! {

/// The earliest second chrono can represent: January 1 of the year -262143.
pub const MIN_SECS: i64 = -8_334_601_228_800;

/// The last second chrono can represent: December 31 of the year 262142.
pub const MAX_SECS: i64 = 8_210_266_876_799;

/// A point in time: whole seconds since the Unix epoch and the nanoseconds
/// past them.
#[derive(Clone, Copy, Debug, PartialEq, Eq, Structural)]
pub struct Timestamp {
    pub secs: i64,
    pub nanos: u32,
}

impl Timestamp {
    pub open spec fn total_nanos(self) -> int {
        self.secs * 1_000_000_000 + self.nanos
    }

    /// A time within chrono's range, outside any leap second.
    pub open spec fn wf(self) -> bool {
        &&& MIN_SECS <= self.secs <= MAX_SECS
        &&& self.nanos < 1_000_000_000
    }

    /// The time `secs` seconds and `nanos` nanoseconds after the Unix epoch,
    /// where it is a valid time.
    pub fn from_parts(secs: i64, nanos: u32) -> (r: Option<Timestamp>)
        ensures
            r is Some <==> (Timestamp { secs, nanos }).wf(),
            r matches Some(t) ==> t.secs == secs && t.nanos == nanos,
    {
        if MIN_SECS <= secs && secs <= MAX_SECS && nanos < 1_000_000_000 {
            Some(Timestamp { secs, nanos })
        } else {
            None
        }
    }
}

/// A request's identifier and the time it was received.
#[derive(Clone, Copy, Debug, PartialEq, Eq, Structural)]
pub struct RequestTransaction {
    /// The identifier's 128 bits, most significant first.
    pub id: u128,
    pub received: Timestamp,
}

pub open spec fn hex_char(d: nat) -> char {
    seq!['0', '1', '2', '3', '4', '5', '6', '7', '8', '9', 'a', 'b', 'c', 'd', 'e', 'f'][d as int]
}

/// The `i`-th of the 32 hexadecimal digits of `id`, most significant first.
pub open spec fn nibble(id: nat, i: nat) -> nat {
    (id / pow2((4 * (31 - i)) as nat)) % 16
}

pub open spec fn hex_digits(id: nat, from: nat, to: nat) -> Seq<char> {
    Seq::new((to - from) as nat, |k: int| hex_char(nibble(id, (from + k) as nat)))
}

/// The hyphenated lower-case form of an identifier: 8-4-4-4-12 hexadecimal
/// digits.
pub open spec fn hyphenated(id: nat) -> Seq<char> {
    hex_digits(id, 0, 8) + "-"@ + hex_digits(id, 8, 12) + "-"@ + hex_digits(id, 12, 16) + "-"@
        + hex_digits(id, 16, 20) + "-"@ + hex_digits(id, 20, 32)
}

/// An identifier of version 4 (random), in the RFC 4122 variant.
pub open spec fn is_random_id(id: nat) -> bool {
    nibble(id, 12) == 4 && (id / pow2(62)) % 4 == 2
}

/// What chrono writes as the RFC 3339 form of a UTC time.
pub uninterp spec fn rfc3339_of(secs: int, nanos: int) -> Seq<char>;

/// `s` without its trailing zeros.
pub open spec fn trim_zeros(s: Seq<char>) -> Seq<char>
    decreases s.len(),
{
    if s.len() > 0 && s.last() == '0' {
        trim_zeros(s.drop_last())
    } else {
        s
    }
}

/// The nine decimal digits of a count of nanoseconds below one second.
pub open spec fn nine_digits(n: nat) -> Seq<char> {
    Seq::new(9, |i: int| digit_char(((n / pow(10, (8 - i) as nat) as nat) % 10) as nat))
}

/// The ISO 8601 form of a duration of `secs` seconds plus `nanos` nanoseconds
/// (`0 <= nanos < 10^9`): a sign where it is negative, then `P0D` for zero,
/// else `PT`, the whole seconds of its magnitude, the fraction without
/// trailing zeros where there is one, and `S`.
pub open spec fn iso_duration(secs: int, nanos: int) -> Seq<char> {
    let negative = secs < 0;
    let abs_secs = if !negative { secs } else if nanos == 0 { -secs } else { -secs - 1 };
    let abs_nanos = if !negative || nanos == 0 { nanos } else { 1_000_000_000 - nanos };
    let body = if abs_secs == 0 && abs_nanos == 0 {
        "0D"@
    } else {
        "T"@ + decimal(abs_secs as nat) + (if abs_nanos > 0 {
            "."@ + trim_zeros(nine_digits(abs_nanos as nat))
        } else {
            Seq::empty()
        }) + "S"@
    };
    (if negative { "-"@ } else { Seq::empty() }) + "P"@ + body
}

/// Relies on `uuid::Uuid::new_v4`, which fills the identifier with random
/// bits, then sets the version to 4 and the variant to RFC 4122.
#[verifier::external_body]
fn random_id() -> (r: u128)
    ensures
        is_random_id(r as nat),
{
    uuid::Uuid::new_v4().as_u128()
}

/// Relies on `uuid::Uuid::from_u128` (big-endian bytes) and on
/// `Hyphenated::encode_lower`, which writes the 8-4-4-4-12 lower-case form.
#[verifier::external_body]
fn hyphenated_text(id: u128) -> (r: String)
    ensures
        r@ == hyphenated(id as nat),
{
    uuid::Uuid::from_u128(id).hyphenated().encode_lower(&mut uuid::Uuid::encode_buffer()).to_string()
}

/// Relies on `chrono::Utc::now`, which reads the clock as a time after the
/// Unix epoch that chrono can represent, outside any leap second.
#[verifier::external_body]
pub(crate) fn now() -> (r: Timestamp)
    ensures
        r.wf(),
        r.secs >= 0,
{
    let t = chrono::Utc::now();
    Timestamp { secs: t.timestamp(), nanos: t.timestamp_subsec_nanos() }
}

/// Relies on `chrono::DateTime::<Utc>::from_timestamp`, which gives a time
/// for every valid one, and on `DateTime::to_rfc3339`.
#[verifier::external_body]
fn rfc3339_text(t: Timestamp) -> (r: Option<String>)
    requires
        t.wf(),
    ensures
        r is Some,
        r->0@ == rfc3339_of(t.secs as int, t.nanos as int),
{
    chrono::DateTime::<chrono::Utc>::from_timestamp(t.secs, t.nanos).map(|d| d.to_rfc3339())
}

/// Relies on `chrono::TimeDelta::new`, which gives a duration for whole
/// seconds within `i64::MAX` milliseconds and nanoseconds below one second,
/// and on `TimeDelta`'s `Display`, which writes its ISO 8601 form.
#[verifier::external_body]
fn duration_text(secs: i64, nanos: u32) -> (r: Option<String>)
    requires
        -9_223_372_036_854_774 <= secs <= 9_223_372_036_854_774,
        nanos < 1_000_000_000,
    ensures
        r is Some,
        r->0@ == iso_duration(secs as int, nanos as int),
{
    chrono::TimeDelta::new(secs, nanos).map(|d| d.to_string())
}

/// The nanoseconds from `received` to `now`, where they fit in an `i64`.
pub open spec fn elapsed_model(received: Timestamp, now: Timestamp) -> Option<int> {
    let d = now.total_nanos() - received.total_nanos();
    if i64::MIN <= d <= i64::MAX {
        Some(d)
    } else {
        None
    }
}

/// The whole seconds from `received` to `now`, rounded down.
pub open spec fn elapsed_secs(received: Timestamp, now: Timestamp) -> int {
    if now.nanos >= received.nanos {
        now.secs - received.secs
    } else {
        now.secs - received.secs - 1
    }
}

/// The nanoseconds from `received` to `now` past `elapsed_secs`.
pub open spec fn elapsed_subsec(received: Timestamp, now: Timestamp) -> int {
    if now.nanos >= received.nanos {
        now.nanos - received.nanos
    } else {
        now.nanos + 1_000_000_000 - received.nanos
    }
}

/// The transaction that a request uses: the one it already holds, else the
/// one offered.
pub open spec fn attached(cached: Option<RequestTransaction>, fresh: RequestTransaction) -> RequestTransaction {
    match cached {
        Some(t) => t,
        None => fresh,
    }
}

/// Request-scoped storage that holds a request's transaction once one has
/// been attached.
#[derive(Clone, Copy, Debug)]
pub struct RequestScope {
    transaction: Option<RequestTransaction>,
}

impl RequestScope {
    pub closed spec fn cached(&self) -> Option<RequestTransaction> {
        self.transaction
    }

    /// A scope for a request that holds no transaction yet.
    pub fn new() -> (r: RequestScope)
        ensures
            r.cached() is None,
    {
        RequestScope { transaction: None }
    }

    /// The transaction attached to this request, if any.
    pub fn transaction(&self) -> (r: Option<RequestTransaction>)
        ensures
            r == self.cached(),
    {
        self.transaction
    }
}

impl RequestTransaction {
    /// A transaction with a fresh random identifier, received now.
    pub fn new() -> (r: RequestTransaction)
        ensures
            is_random_id(r.id as nat),
            r.received.wf(),
    {
        RequestTransaction { id: random_id(), received: now() }
    }

    /// A transaction with the given identifier and time of receipt.
    pub fn with_parts(id: u128, received: Timestamp) -> (r: RequestTransaction)
        ensures
            r.id == id,
            r.received == received,
    {
        RequestTransaction { id, received }
    }

    /// Attaches this transaction to the request's scope, unless the request
    /// already holds one, and returns the one the request holds afterwards.
    pub fn attach_on(self, scope: &mut RequestScope) -> (r: RequestTransaction)
        ensures
            r == attached(old(scope).cached(), self),
            final(scope).cached() == Some(r),
    {
        match scope.transaction {
            Some(t) => t,
            None => {
                scope.transaction = Some(self);
                self
            },
        }
    }

    /// The identifier in hyphenated lower-case form.
    pub fn id_as_string(&self) -> (r: String)
        ensures
            r@ == hyphenated(self.id as nat),
    {
        hyphenated_text(self.id)
    }

    /// The time of receipt in RFC 3339 form.
    pub fn received_as_string(&self) -> (r: String)
        requires
            self.received.wf(),
        ensures
            r@ == rfc3339_of(self.received.secs as int, self.received.nanos as int),
    {
        match rfc3339_text(self.received) {
            Some(text) => text,
            None => String::new(),
        }
    }

    /// The nanoseconds elapsed between receipt and `now`; none where they do
    /// not fit in an `i64`.
    pub fn elapsed_ns_at(&self, now: Timestamp) -> (r: Option<i64>)
        ensures
            match r {
                Some(v) => elapsed_model(self.received, now) == Some(v as int),
                None => elapsed_model(self.received, now) is None,
            },
    {
        let secs: i128 = now.secs as i128 - self.received.secs as i128;
        assert(-0x1_0000_0000_0000_0000 <= secs <= 0x1_0000_0000_0000_0000);
        assert(-0x1_0000_0000_0000_0000 * 1_000_000_000 <= secs * 1_000_000_000
            <= 0x1_0000_0000_0000_0000 * 1_000_000_000) by (nonlinear_arith)
            requires
                -0x1_0000_0000_0000_0000 <= secs <= 0x1_0000_0000_0000_0000,
        ;
        let d: i128 = secs * 1_000_000_000 + (now.nanos as i128 - self.received.nanos as i128);
        if d >= i64::MIN as i128 && d <= i64::MAX as i128 {
            Some(d as i64)
        } else {
            None
        }
    }

    /// The nanoseconds elapsed since receipt, by the clock; none where they
    /// do not fit in an `i64`.
    pub fn elapsed_ns(&self) -> (r: Option<i64>)
        ensures
            exists|at: Timestamp|
                at.wf() && match r {
                    Some(v) => #[trigger] elapsed_model(self.received, at) == Some(v as int),
                    None => elapsed_model(self.received, at) is None,
                },
    {
        let t = now();
        self.elapsed_ns_at(t)
    }

    /// The time elapsed between receipt and `now` in ISO 8601 form.
    pub fn elapsed_as_string_at(&self, now: Timestamp) -> (r: String)
        requires
            self.received.wf(),
            now.wf(),
        ensures
            r@ == iso_duration(elapsed_secs(self.received, now), elapsed_subsec(self.received, now)),
    {
        let mut secs: i64 = now.secs - self.received.secs;
        let nanos: u32 = if now.nanos >= self.received.nanos {
            now.nanos - self.received.nanos
        } else {
            secs = secs - 1;
            now.nanos + 1_000_000_000 - self.received.nanos
        };
        match duration_text(secs, nanos) {
            Some(text) => text,
            None => String::new(),
        }
    }

    /// The time elapsed since receipt, by the clock, in ISO 8601 form.
    pub fn elapsed_as_string(&self) -> (r: String)
        requires
            self.received.wf(),
        ensures
            exists|at: Timestamp|
                at.wf() && r@ == iso_duration(
                    #[trigger] elapsed_secs(self.received, at),
                    elapsed_subsec(self.received, at),
                ),
    {
        let t = now();
        self.elapsed_as_string_at(t)
    }
}

impl Default for RequestTransaction {
    fn default() -> (r: RequestTransaction)
        ensures
            is_random_id(r.id as nat),
    {
        RequestTransaction::new()
    }
}

/// Once a request holds a transaction, attaching another leaves it in place:
/// the request and the response of one request carry the same transaction.
pub proof fn lemma_transaction_stable(
    cached: Option<RequestTransaction>,
    first: RequestTransaction,
    second: RequestTransaction,
)
    ensures
        attached(Some(attached(cached, first)), second) == attached(cached, first),
{
}

/// The elapsed time is never negative once the clock has passed the time of
/// receipt, and it grows with the time at which it is read.
pub proof fn lemma_elapsed_monotonic(received: Timestamp, now1: Timestamp, now2: Timestamp)
    requires
        received.total_nanos() <= now1.total_nanos() <= now2.total_nanos(),
        elapsed_model(received, now2) is Some,
    ensures
        elapsed_model(received, now1) is Some,
        elapsed_model(received, now1)->0 >= 0,
        elapsed_model(received, now1)->0 <= elapsed_model(received, now2)->0,
{
}

} // verus!
