use crate::domain::NewSubscriber;
use vstd::prelude::*;

verus! {

/// Bits of a UUID that hold its version and its variant.
pub const UUID_VERSION_VARIANT_MASK: u128 = 0x0000_0000_0000_f000_c000_0000_0000_0000;

/// Those bits in a random (version 4) UUID of the RFC 4122 variant.
pub const UUID_V4_BITS: u128 = 0x0000_0000_0000_4000_8000_0000_0000_0000;

/// A random UUID of version 4, as its 128 bits in big-endian order.
pub open spec fn is_v4_uuid(id: u128) -> bool {
    id & UUID_VERSION_VARIANT_MASK == UUID_V4_BITS
}

/// Relies on `uuid::Uuid::new_v4`, read as `as_u128`: random bits with the version set to 4
/// and the variant to RFC 4122.
#[verifier::external_body]
fn random_v4_uuid() -> (r: u128)
    ensures
        is_v4_uuid(r),
{
    uuid::Uuid::new_v4().as_u128()
}

/// Relies on `chrono::Utc::now`, read as `timestamp_micros`: the system clock, in microseconds
/// since the Unix epoch. Nothing is known of its value.
#[verifier::external_body]
fn now_micros() -> (r: i64) {
    chrono::Utc::now().timestamp_micros()
}

/// Status of a subscription, as stored.
#[derive(Debug, Clone, Copy, PartialEq, Eq, Structural)]
pub enum SubscriptionStatus {
    PendingConfirmation,
    Confirmed,
}

/// The status that a new subscription is stored with.
pub open spec fn initial_status() -> SubscriptionStatus {
    SubscriptionStatus::Confirmed
}

impl SubscriptionStatus {
    pub open spec fn text(self) -> Seq<char> {
        match self {
            SubscriptionStatus::PendingConfirmation => "pending_confirmation"@,
            SubscriptionStatus::Confirmed => "confirmed"@,
        }
    }

    /// The text stored in the `status` column.
    pub fn as_str(&self) -> (r: &'static str)
        ensures
            r@ == self.text(),
    {
        match self {
            SubscriptionStatus::PendingConfirmation => "pending_confirmation",
            SubscriptionStatus::Confirmed => "confirmed",
        }
    }
}

/// One row of the subscriptions table.
pub struct SubscriptionRecord {
    /// A UUID, as its 128 bits in big-endian order.
    pub id: u128,
    pub email: String,
    pub name: String,
    /// Microseconds since the Unix epoch, in UTC.
    pub subscribed_at: i64,
    pub status: SubscriptionStatus,
}

impl SubscriptionRecord {
    /// The row that stores `subscriber`: a fresh random identifier, the time now, and the
    /// initial status.
    pub fn new(subscriber: &NewSubscriber) -> (r: SubscriptionRecord)
        ensures
            r.email@ == subscriber.email@,
            r.name@ == subscriber.name@,
            r.status == initial_status(),
            is_v4_uuid(r.id),
    {
        let id = random_v4_uuid();
        let subscribed_at = now_micros();
        SubscriptionRecord {
            id,
            email: String::from_str(subscriber.email.as_ref()),
            name: String::from_str(subscriber.name.as_ref()),
            subscribed_at,
            status: SubscriptionStatus::Confirmed,
        }
    }
}

} // verus!
