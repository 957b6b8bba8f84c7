//! What the outside world adds to a write: a fresh row identifier and the
//! current time.

use vstd::prelude::*;

verus! {

/// The identifier and the time that one write is made with.
#[derive(Clone, Copy, Debug, PartialEq, Eq, Structural)]
pub struct WriteStamp {
    /// Identifier for a row that the write may create.
    pub id: u128,
    /// Time of the write, in microseconds since the Unix epoch.
    pub now: i64,
}

/// The three stamps that handling one hook event may use, one per table.
#[derive(Clone, Copy, Debug, PartialEq, Eq, Structural)]
pub struct EventStamps {
    pub session: WriteStamp,
    pub agent: WriteStamp,
    pub event: WriteStamp,
}

/// The bits that mark a 128-bit identifier as a random (version 4) UUID of
/// the RFC 4122 variant.
pub open spec fn is_random_uuid(id: u128) -> bool {
    id & 0x0000_0000_0000_f000_c000_0000_0000_0000u128
        == 0x0000_0000_0000_4000_8000_0000_0000_0000u128
}

/// Calls `uuid::Uuid::new_v4` and returns the identifier as a number
/// (`Uuid::as_u128`). The value is random; trusted here is only that its
/// version and variant bits are those of a version 4 UUID, which `new_v4`
/// sets by masking. The call panics if the operating system cannot supply
/// random bytes.
#[verifier::external_body]
pub(crate) fn random_row_id() -> (id: u128)
    ensures
        is_random_uuid(id),
{
    uuid::Uuid::new_v4().as_u128()
}

/// Calls `chrono::Utc::now` and returns the time in microseconds since the
/// Unix epoch (`DateTime::timestamp_micros`). Trusted here is only that the
/// value is not negative: `Utc::now` panics when the system clock is set
/// before 1970.
#[verifier::external_body]
pub(crate) fn clock_micros() -> (now: i64)
    ensures
        0 <= now,
{
    chrono::Utc::now().timestamp_micros()
}

impl WriteStamp {
    /// A stamp with a fresh random identifier and the current time.
    pub fn fresh() -> (stamp: WriteStamp)
        ensures
            is_random_uuid(stamp.id),
            0 <= stamp.now,
    {
        WriteStamp { id: random_row_id(), now: clock_micros() }
    }
}

impl EventStamps {
    /// Three fresh stamps, drawn in the order session, agent, event.
    pub fn fresh() -> (stamps: EventStamps)
        ensures
            is_random_uuid(stamps.session.id),
            is_random_uuid(stamps.agent.id),
            is_random_uuid(stamps.event.id),
            0 <= stamps.session.now,
            0 <= stamps.agent.now,
            0 <= stamps.event.now,
    {
        let session = WriteStamp::fresh();
        let agent = WriteStamp::fresh();
        let event = WriteStamp::fresh();
        EventStamps { session, agent, event }
    }
}

} // verus!
