//! The identifier of a session.

use vstd::arithmetic::power;
use vstd::prelude::*;
use crate::time::{since_epoch, NANOS_PER_MILLI};
use super::gate::draw_random;

verus! {

/// How many random bytes an identifier takes.
pub const RANDOM_BYTES: usize = 10;

/// How many milliseconds the time of an identifier counts before it starts over.
pub const MILLIS_WRAP: u128 = 0x1_0000_0000_0000_0000;

/// How many milliseconds an identifier can tell apart.
pub const TIMES: u128 = 0x1_0000_0000_0000;

/// How many identifiers of one millisecond are kept in order.
pub const COUNTERS: u128 = 0x400_0000_0000;

/// How many random tails an identifier can have.
pub const TAILS: u128 = 0x1_0000_0000;

/// Why no identifier could be made.
#[derive(Debug, Clone, Copy, PartialEq, Eq, Structural)]
pub enum SessionIdError {
    /// The clock reads before the epoch.
    ClockBeforeEpoch,
    /// There is no randomness to draw from.
    NoRandomness,
    /// No identifier is later than the last one.
    Exhausted,
}

/// The whole milliseconds of a span.
pub open spec fn millis_of(span: u128) -> u64 {
    (span as int / NANOS_PER_MILLI as int % MILLIS_WRAP as int) as u64
}

/// A session's identifier: the 128 bits of a version 7 UUID.
#[derive(Debug, Clone, Copy, PartialEq, Eq, Hash, Structural)]
pub struct SessionId(pub u128);

/// One hexadecimal digit.
pub open spec fn hex_digit(n: int) -> char {
    if n < 10 {
        (48 + n) as char
    } else {
        (87 + n) as char
    }
}

/// The thirty-two hexadecimal digits of `bits`, most significant first.
pub open spec fn simple_text(bits: u128) -> Seq<char> {
    Seq::new(32, |i: int| hex_digit((bits as int / power::pow(16, (31 - i) as nat)) % 16))
}

/// The digits of `bits` in groups of eight, four, four, four and twelve.
pub open spec fn hyphenated_text(bits: u128) -> Seq<char> {
    let digits = simple_text(bits);
    digits.subrange(0, 8) + seq!['-'] + digits.subrange(8, 12) + seq!['-'] + digits.subrange(12, 16)
        + seq!['-'] + digits.subrange(16, 20) + seq!['-'] + digits.subrange(20, 32)
}

/// The number that `bytes` spell, most significant first.
pub open spec fn be_value(bytes: Seq<u8>) -> int
    decreases bytes.len(),
{
    if bytes.len() == 0 {
        0
    } else {
        be_value(bytes.drop_last()) * 256 + bytes.last()
    }
}

/// The bytes of a version 7 identifier: forty-eight bits of the time in
/// milliseconds, then the random bytes, with the version and the variant set
/// over their upper bits.
pub open spec fn v7_bytes(millis: u64, random: Seq<u8>) -> Seq<u8> {
    seq![
        (millis as int / 0x100_0000_0000 % 256) as u8,
        (millis as int / 0x1_0000_0000 % 256) as u8,
        (millis as int / 0x100_0000 % 256) as u8,
        (millis as int / 0x1_0000 % 256) as u8,
        (millis as int / 0x100 % 256) as u8,
        (millis as int % 256) as u8,
        (0x70 + random[0] % 16) as u8,
        random[1],
        (0x80 + random[2] % 64) as u8,
    ] + random.subrange(3, 10)
}

/// Whether the bits of an identifier are marked as those of version 7, in the
/// variant that has versions.
pub open spec fn is_v7(bits: u128) -> bool {
    bits as int / 0x1000_0000_0000_0000_0000 % 16 == 7 && bits as int / 0x4000_0000_0000_0000 % 4
        == 2
}

/// The time of an identifier, in milliseconds.
pub open spec fn time_of(bits: u128) -> int {
    bits as int / 0x1_0000_0000_0000_0000_0000
}

/// The counter of an identifier that keeps those of one millisecond in order:
/// the forty-two bits after its time, apart from version and variant.
pub open spec fn counter_of(bits: u128) -> int {
    (bits as int / 0x1_0000_0000_0000_0000 % 0x1000) * 0x4000_0000 + bits as int / 0x1_0000_0000
        % 0x4000_0000
}

/// The random tail of an identifier.
pub open spec fn tail_of(bits: u128) -> int {
    bits as int % TAILS as int
}

/// The identifier of a time, a counter and a random tail.
pub open spec fn counted(time: int, counter: int, tail: int) -> int {
    time * 0x1_0000_0000_0000_0000_0000 + 0x7000_0000_0000_0000_0000 + (counter / 0x4000_0000)
        * 0x1_0000_0000_0000_0000 + 0x8000_0000_0000_0000 + (counter % 0x4000_0000) * 0x1_0000_0000
        + tail
}

/// The identifier that follows `last` where a clock and a draw gave `made`: that
/// one where it is later, and otherwise the next value of the counter, or of the
/// time where the counter is used up, with the random tail of `made`.
pub open spec fn following(last: Option<SessionId>, made: SessionId) -> Option<SessionId> {
    match last {
        None => Some(made),
        Some(last) => if made.0 > last.0 {
            Some(made)
        } else if counter_of(last.0) + 1 < COUNTERS {
            Some(
                SessionId(
                    counted(time_of(last.0), counter_of(last.0) + 1, tail_of(made.0)) as u128,
                ),
            )
        } else if time_of(last.0) + 1 < TIMES {
            Some(SessionId(counted(time_of(last.0) + 1, 0, tail_of(made.0)) as u128))
        } else {
            None
        },
    }
}

/// The identifier of a reading of the clock and of a draw.
pub open spec fn drawn_id(
    clock: Result<u128, u128>,
    drawn: Result<[u8; RANDOM_BYTES], getrandom::Error>,
) -> Result<SessionId, SessionIdError> {
    match (clock, drawn) {
        (Err(_), _) => Err(SessionIdError::ClockBeforeEpoch),
        (Ok(_), Err(_)) => Err(SessionIdError::NoRandomness),
        (Ok(span), Ok(random)) => Ok(
            SessionId(be_value(v7_bytes(millis_of(span), random@)) as u128),
        ),
    }
}

/// Calls `uuid::Builder::from_unix_timestamp_millis`, and reads the identifier
/// it builds with `Uuid::as_u128`: the bits of [`v7_bytes`], most significant
/// first.
#[verifier::external_body]
fn v7_bits(millis: u64, random: &[u8; RANDOM_BYTES]) -> (bits: u128)
    ensures
        bits == be_value(v7_bytes(millis, random@)),
{
    uuid::Builder::from_unix_timestamp_millis(millis, random).into_uuid().as_u128()
}

/// Calls `uuid::Uuid`'s `Display`: the hyphenated lower-case form of the bits.
#[verifier::external_body]
fn hyphenated(bits: u128) -> (text: String)
    ensures
        text@ == hyphenated_text(bits),
{
    uuid::Uuid::from_u128(bits).to_string()
}

/// Calls `uuid::Uuid::simple` and its `Display`: the lower-case digits of the
/// bits without hyphens.
#[verifier::external_body]
fn simple(bits: u128) -> (text: String)
    ensures
        text@ == simple_text(bits),
{
    uuid::Uuid::from_u128(bits).simple().to_string()
}

impl SessionId {
    /// The identifier of a reading of the clock, in nanoseconds after the epoch
    /// or before it, and of a draw of random bytes.
    pub fn from_draw(
        clock: Result<u128, u128>,
        drawn: Result<[u8; RANDOM_BYTES], getrandom::Error>,
    ) -> (made: Result<Self, SessionIdError>)
        ensures
            made == drawn_id(clock, drawn),
            made matches Ok(id) ==> is_v7(id.0),
    {
        match (clock, drawn) {
            (Err(_), _) => Err(SessionIdError::ClockBeforeEpoch),
            (_, Err(_)) => Err(SessionIdError::NoRandomness),
            (Ok(span), Ok(random)) => {
                let millis: u128 = span / NANOS_PER_MILLI % MILLIS_WRAP;
                proof {
                    lemma_drawn_is_marked(millis as u64, random@);
                }
                Ok(SessionId(v7_bits(millis as u64, &random)))
            },
        }
    }

    /// The identifier as hyphenated text.
    pub fn to_text(self) -> (text: String)
        ensures
            text@ == hyphenated_text(self.0),
    {
        hyphenated(self.0)
    }

    /// The identifier as digits alone, for a name without hyphens.
    pub fn to_simple_text(self) -> (text: String)
        ensures
            text@ == simple_text(self.0),
    {
        simple(self.0)
    }
}

/// The identifiers of one process. Each is later than the one before, whatever
/// the clock does.
#[derive(Debug)]
pub struct SessionIds {
    last: Option<SessionId>,
}

impl View for SessionIds {
    type V = Option<SessionId>;

    closed spec fn view(&self) -> Option<SessionId> {
        self.last
    }
}

impl SessionIds {
    #[verifier::type_invariant]
    spec fn marked(self) -> bool {
        self.last matches Some(last) ==> is_v7(last.0)
    }

    /// Before the first identifier.
    pub fn new() -> (ids: Self)
        ensures
            ids@ is None,
    {
        SessionIds { last: None }
    }

    /// A fresh identifier, of the time and random bytes. What it is depends on
    /// the clock and on chance, and whether it can be made on the machine;
    /// [`Self::next`] says what each outcome comes to.
    pub fn fresh(&mut self) -> (made: Result<SessionId, SessionIdError>)
        ensures
            match made {
                Ok(id) => is_v7(id.0) && (old(self)@ matches Some(last) ==> id.0 > last.0)
                    && final(self)@ == Some(id),
                Err(_) => final(self)@ == old(self)@,
            },
    {
        self.next(since_epoch(), draw_random())
    }

    /// The next identifier, of a reading of the clock, in nanoseconds after the
    /// epoch or before it, and of a draw of random bytes.
    pub fn next(
        &mut self,
        clock: Result<u128, u128>,
        drawn: Result<[u8; RANDOM_BYTES], getrandom::Error>,
    ) -> (made: Result<SessionId, SessionIdError>)
        ensures
            made == (match drawn_id(clock, drawn) {
                Err(err) => Err::<SessionId, SessionIdError>(err),
                Ok(id) => match following(old(self)@, id) {
                    Some(id) => Ok::<SessionId, SessionIdError>(id),
                    None => Err::<SessionId, SessionIdError>(SessionIdError::Exhausted),
                },
            }),
            match made {
                Ok(id) => is_v7(id.0) && (old(self)@ matches Some(last) ==> id.0 > last.0)
                    && final(self)@ == Some(id),
                Err(_) => final(self)@ == old(self)@,
            },
    {
        proof {
            use_type_invariant(&*self);
        }
        let made = match SessionId::from_draw(clock, drawn) {
            Ok(id) => id,
            Err(err) => {
                return Err(err);
            },
        };
        let id = match self.last {
            None => made,
            Some(last) => if made.0 > last.0 {
                made
            } else {
                match after(last, made) {
                    Some(id) => id,
                    None => {
                        return Err(SessionIdError::Exhausted);
                    },
                }
            },
        };
        self.last = Some(id);
        Ok(id)
    }
}

/// The identifier that follows `last` where `made` does not.
fn after(last: SessionId, made: SessionId) -> (next: Option<SessionId>)
    requires
        is_v7(last.0),
        made.0 <= last.0,
    ensures
        next == following(Some(last), made),
        next matches Some(id) ==> is_v7(id.0) && id.0 > last.0,
{
    let tail: u128 = made.0 % TAILS;
    let high: u128 = last.0 / 0x1_0000_0000_0000_0000 % 0x1000;
    let low: u128 = last.0 / 0x1_0000_0000 % 0x4000_0000;
    let time: u128 = last.0 / 0x1_0000_0000_0000_0000_0000;
    proof {
        lemma_fields(last.0);
    }
    if high == 0xFFF && low == 0x3FFF_FFFF {
        if time + 1 == TIMES {
            return None;
        }
        proof {
            lemma_counted(time + 1, 0, tail as int);
            lemma_order(last.0, time + 1, 0, tail as int);
        }
        return Some(
            SessionId(
                (time + 1) * 0x1_0000_0000_0000_0000_0000 + 0x7000_0000_0000_0000_0000
                    + 0x8000_0000_0000_0000 + tail,
            ),
        );
    }
    let counter: u128 = high * 0x4000_0000 + low + 1;
    proof {
        lemma_counted(time as int, counter as int, tail as int);
        lemma_order(last.0, time as int, counter as int, tail as int);
    }
    Some(
        SessionId(
            time * 0x1_0000_0000_0000_0000_0000 + 0x7000_0000_0000_0000_0000 + counter / 0x4000_0000
                * 0x1_0000_0000_0000_0000 + 0x8000_0000_0000_0000 + counter % 0x4000_0000
                * 0x1_0000_0000 + tail,
        ),
    )
}

/// Identifiers made one after another are in order, each is marked, and none is
/// of an earlier time than its clock gave.
pub proof fn law_identifiers_are_ordered(last: Option<SessionId>, made: SessionId)
    requires
        is_v7(made.0),
        last matches Some(last) ==> is_v7(last.0),
    ensures
        following(last, made) matches Some(id) ==> is_v7(id.0) && (last matches Some(last) ==> id.0
            > last.0) && time_of(id.0) >= time_of(made.0),
        following(last, made) is None ==> (last matches Some(last) && made.0 <= last.0 && time_of(
            last.0,
        ) == TIMES - 1 && counter_of(last.0) == COUNTERS - 1),
{
    if let Some(last) = last {
        if made.0 <= last.0 {
            let tail = tail_of(made.0);
            lemma_fields(last.0);
            assert(time_of(made.0) <= time_of(last.0)) by {
                vstd::arithmetic::div_mod::lemma_div_is_ordered(
                    made.0 as int,
                    last.0 as int,
                    0x1_0000_0000_0000_0000_0000,
                );
            }
            if counter_of(last.0) + 1 < COUNTERS {
                lemma_counted(time_of(last.0), counter_of(last.0) + 1, tail);
                lemma_order(last.0, time_of(last.0), counter_of(last.0) + 1, tail);
            } else if time_of(last.0) + 1 < TIMES {
                lemma_counted(time_of(last.0) + 1, 0, tail);
                lemma_order(last.0, time_of(last.0) + 1, 0, tail);
            }
        }
    }
}

/// The parts of a marked identifier.
proof fn lemma_fields(bits: u128)
    requires
        is_v7(bits),
    ensures
        0 <= time_of(bits) < TIMES,
        0 <= counter_of(bits) < COUNTERS,
        counter_of(bits) / 0x4000_0000 == bits as int / 0x1_0000_0000_0000_0000 % 0x1000,
        counter_of(bits) % 0x4000_0000 == bits as int / 0x1_0000_0000 % 0x4000_0000,
        bits == counted(time_of(bits), counter_of(bits), tail_of(bits)),
{
    let x = bits as int;
    let q1 = x / 0x1_0000_0000;
    let q2 = q1 / 0x4000_0000;
    let q3 = q2 / 4;
    let q4 = q3 / 0x1000;
    let q5 = q4 / 16;
    vstd::arithmetic::div_mod::lemma_div_denominator(x, 0x1_0000_0000, 0x4000_0000);
    vstd::arithmetic::div_mod::lemma_div_denominator(x, 0x4000_0000_0000_0000, 4);
    vstd::arithmetic::div_mod::lemma_div_denominator(x, 0x1_0000_0000_0000_0000, 0x1000);
    vstd::arithmetic::div_mod::lemma_div_denominator(x, 0x1000_0000_0000_0000_0000, 16);
    assert(q2 == x / 0x4000_0000_0000_0000);
    assert(q3 == x / 0x1_0000_0000_0000_0000);
    assert(q4 == x / 0x1000_0000_0000_0000_0000);
    assert(q5 == x / 0x1_0000_0000_0000_0000_0000);
}

/// The parts of an identifier are those it was built from.
proof fn lemma_counted(time: int, counter: int, tail: int)
    requires
        0 <= time < TIMES,
        0 <= counter < COUNTERS,
        0 <= tail < TAILS,
    ensures
        0 <= counted(time, counter, tail) <= u128::MAX,
        is_v7(counted(time, counter, tail) as u128),
        time_of(counted(time, counter, tail) as u128) == time,
        counter_of(counted(time, counter, tail) as u128) == counter,
        tail_of(counted(time, counter, tail) as u128) == tail,
{
    let x = counted(time, counter, tail);
    let high = counter / 0x4000_0000;
    let low = counter % 0x4000_0000;
    let under_time = 0x7000_0000_0000_0000_0000 + high * 0x1_0000_0000_0000_0000
        + 0x8000_0000_0000_0000 + low * 0x1_0000_0000 + tail;
    vstd::arithmetic::div_mod::lemma_fundamental_div_mod_converse(
        x,
        0x1_0000_0000_0000_0000_0000,
        time,
        under_time,
    );
    vstd::arithmetic::div_mod::lemma_fundamental_div_mod_converse(
        x,
        0x1000_0000_0000_0000_0000,
        time * 16 + 7,
        under_time - 0x7000_0000_0000_0000_0000,
    );
    vstd::arithmetic::div_mod::lemma_fundamental_div_mod_converse(
        x,
        0x4000_0000_0000_0000,
        time * 0x4_0000 + 7 * 0x4000 + high * 4 + 2,
        low * 0x1_0000_0000 + tail,
    );
    vstd::arithmetic::div_mod::lemma_fundamental_div_mod_converse(
        x,
        0x1_0000_0000_0000_0000,
        time * 0x1_0000 + 7 * 0x1000 + high,
        0x8000_0000_0000_0000 + low * 0x1_0000_0000 + tail,
    );
    vstd::arithmetic::div_mod::lemma_fundamental_div_mod_converse(
        x,
        0x1_0000_0000,
        time * 0x1_0000_0000_0000 + 0x7000_0000_0000 + high * 0x1_0000_0000 + 0x8000_0000 + low,
        tail,
    );
    assert(counter == high * 0x4000_0000 + low);
}

/// A later time, or a later counter at the same time, makes a later identifier.
proof fn lemma_order(bits: u128, time: int, counter: int, tail: int)
    requires
        is_v7(bits),
        time > time_of(bits) || (time == time_of(bits) && counter > counter_of(bits)),
        0 <= counter < COUNTERS,
        0 <= tail < TAILS,
    ensures
        counted(time, counter, tail) > bits,
{
    lemma_fields(bits);
}

/// A draw is marked.
proof fn lemma_drawn_is_marked(millis: u64, random: Seq<u8>)
    requires
        random.len() == RANDOM_BYTES,
    ensures
        0 <= be_value(v7_bytes(millis, random)) <= u128::MAX,
        is_v7(be_value(v7_bytes(millis, random)) as u128),
        time_of(be_value(v7_bytes(millis, random)) as u128) == be_value(
            v7_bytes(millis, random).take(6),
        ),
{
    let bytes = v7_bytes(millis, random);
    assert(bytes.take(0) =~= Seq::<u8>::empty());
    assert(bytes.take(16) =~= bytes);
    lemma_next_byte(bytes, 0);
    lemma_next_byte(bytes, 1);
    lemma_next_byte(bytes, 2);
    lemma_next_byte(bytes, 3);
    lemma_next_byte(bytes, 4);
    lemma_next_byte(bytes, 5);
    lemma_next_byte(bytes, 6);
    lemma_next_byte(bytes, 7);
    lemma_next_byte(bytes, 8);
    lemma_next_byte(bytes, 9);
    lemma_next_byte(bytes, 10);
    lemma_next_byte(bytes, 11);
    lemma_next_byte(bytes, 12);
    lemma_next_byte(bytes, 13);
    lemma_next_byte(bytes, 14);
    lemma_next_byte(bytes, 15);
    let x = be_value(bytes);
    let to_version = be_value(bytes.take(6));
    let to_variant = be_value(bytes.take(8));
    let low = be_value(bytes) - be_value(bytes.take(9)) * 0x100_0000_0000_0000;
    assert(0 <= low < 0x100_0000_0000_0000);
    assert(0 <= to_version < 0x1_0000_0000_0000);
    assert(bytes[6] == 0x70 + random[0] % 16);
    assert(bytes[8] == 0x80 + random[2] % 64);
    vstd::arithmetic::div_mod::lemma_fundamental_div_mod_converse(
        x,
        0x1000_0000_0000_0000_0000,
        to_version * 16 + 7,
        x - (to_version * 16 + 7) * 0x1000_0000_0000_0000_0000,
    );
    vstd::arithmetic::div_mod::lemma_fundamental_div_mod_converse(
        x,
        0x4000_0000_0000_0000,
        to_variant * 4 + 2,
        x - (to_variant * 4 + 2) * 0x4000_0000_0000_0000,
    );
    vstd::arithmetic::div_mod::lemma_fundamental_div_mod_converse(
        x,
        0x1_0000_0000_0000_0000_0000,
        to_version,
        x - to_version * 0x1_0000_0000_0000_0000_0000,
    );
}


/// Every identifier is marked as one of version 7, in the variant that has
/// versions, and begins with the low forty-eight bits of its time.
pub proof fn law_identifiers_are_marked(millis: u64, random: Seq<u8>)
    requires
        random.len() == RANDOM_BYTES,
    ensures
        v7_bytes(millis, random).len() == 16,
        v7_bytes(millis, random)[6] / 16 == 7,
        v7_bytes(millis, random)[8] / 64 == 2,
        be_value(v7_bytes(millis, random).take(6)) == millis as int % 0x1_0000_0000_0000,
{
    let bytes = v7_bytes(millis, random);
    assert(bytes.take(0) =~= Seq::<u8>::empty());
    lemma_next_byte(bytes, 0);
    lemma_next_byte(bytes, 1);
    lemma_next_byte(bytes, 2);
    lemma_next_byte(bytes, 3);
    lemma_next_byte(bytes, 4);
    lemma_next_byte(bytes, 5);
    lemma_low_bytes(millis);
}

proof fn lemma_next_byte(bytes: Seq<u8>, i: int)
    requires
        0 <= i < bytes.len(),
    ensures
        be_value(bytes.take(i + 1)) == be_value(bytes.take(i)) * 256 + bytes[i],
{
    assert(bytes.take(i + 1).drop_last() =~= bytes.take(i));
}

proof fn lemma_low_bytes(n: u64)
    ensures
        (((((n as int / 0x100_0000_0000 % 256) * 256 + n as int / 0x1_0000_0000 % 256) * 256
            + n as int / 0x100_0000 % 256) * 256 + n as int / 0x1_0000 % 256) * 256 + n as int
            / 0x100 % 256) * 256 + n as int % 256 == n as int % 0x1_0000_0000_0000,
{
    assert((n / 0x100_0000_0000 % 256) * 0x100_0000_0000 + (n / 0x1_0000_0000 % 256) * 0x1_0000_0000
        + (n / 0x100_0000 % 256) * 0x100_0000 + (n / 0x1_0000 % 256) * 0x1_0000 + (n / 0x100 % 256)
        * 0x100 + n % 256 == n % 0x1_0000_0000_0000) by (bit_vector);
}

/// An identifier that its clock and its draw would not put behind the last one is
/// the next after it: the same time and the next value of the counter, or the
/// next time where the counter is used up, with the draw's own tail.
pub proof fn law_an_identifier_follows_by_one(last: SessionId, made: SessionId)
    requires
        is_v7(last.0),
        made.0 <= last.0,
    ensures
        following(Some(last), made) matches Some(id) ==> {
            &&& tail_of(id.0) == tail_of(made.0)
            &&& counter_of(last.0) < COUNTERS - 1 ==> time_of(id.0) == time_of(last.0)
                && counter_of(id.0) == counter_of(last.0) + 1
            &&& counter_of(last.0) == COUNTERS - 1 ==> time_of(id.0) == time_of(last.0) + 1
                && counter_of(id.0) == 0
        },
{
    let tail = tail_of(made.0);
    lemma_fields(last.0);
    if counter_of(last.0) + 1 < COUNTERS {
        lemma_counted(time_of(last.0), counter_of(last.0) + 1, tail);
    } else if time_of(last.0) + 1 < TIMES {
        lemma_counted(time_of(last.0) + 1, 0, tail);
    }
}

/// The first identifier, and one that its clock or its draw puts behind the last,
/// is taken as it was made.
pub proof fn law_a_later_identifier_is_taken_as_made(last: SessionId, made: SessionId)
    ensures
        following(None, made) == Some(made),
        made.0 > last.0 ==> following(Some(last), made) == Some(made),
{
}

/// An identifier begins with its time in milliseconds and is made of its draw. A
/// clock before the epoch makes none, and neither does a draw that failed.
pub proof fn law_an_identifier_is_its_time_and_its_draw(
    clock: Result<u128, u128>,
    drawn: Result<[u8; RANDOM_BYTES], getrandom::Error>,
)
    ensures
        match (clock, drawn) {
            (Ok(span), Ok(random)) => drawn_id(clock, drawn) matches Ok(id) && is_v7(id.0)
                && time_of(id.0) == span as int / 1_000_000 % 0x1_0000_0000_0000_0000
                % 0x1_0000_0000_0000,
            (Err(_), _) => drawn_id(clock, drawn) == Err::<SessionId, SessionIdError>(
                SessionIdError::ClockBeforeEpoch,
            ),
            (Ok(_), Err(_)) => drawn_id(clock, drawn) == Err::<SessionId, SessionIdError>(
                SessionIdError::NoRandomness,
            ),
        },
{
    if let (Ok(span), Ok(random)) = (clock, drawn) {
        lemma_drawn_is_marked(millis_of(span), random@);
        law_identifiers_are_marked(millis_of(span), random@);
    }
}

} // verus!
