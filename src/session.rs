//! Session identifiers: opaque 128-bit correlation tokens that every response
//! carries. Nothing about a session is stored.

use vstd::prelude::*;

verus! {

/// The bits that fix the version nibble and the variant of a random UUID.
pub const RANDOM_UUID_MASK: u128 = 0xF000_C000_0000_0000_0000;

/// The value of those bits in a random (version 4, RFC 4122) UUID.
pub const RANDOM_UUID_TAG: u128 = 0x4000_8000_0000_0000_0000;

/// A session identifier, held as the UUID's 128 bits in big-endian order.
#[derive(Clone, Copy, Debug, PartialEq, Eq, Structural)]
pub struct SessionId {
    pub bits: u128,
}

impl SessionId {
    /// A well-formed identifier is not the nil UUID.
    pub open spec fn is_well_formed(self) -> bool {
        self.bits != 0
    }

    /// Carries the version and variant bits of a freshly drawn random UUID.
    pub open spec fn is_random_uuid(self) -> bool {
        self.bits & RANDOM_UUID_MASK == RANDOM_UUID_TAG
    }
}

/// Relies on uuid::Uuid::new_v4: the result is random, except that its
/// version nibble is 4 and its variant bits are those of RFC 4122.
#[verifier::external_body]
fn random_uuid_bits() -> (r: u128)
    ensures
        r & RANDOM_UUID_MASK == RANDOM_UUID_TAG,
{
    uuid::Uuid::new_v4().as_u128()
}

/// Every random UUID is distinct from the nil UUID.
pub proof fn lemma_random_is_well_formed(s: SessionId)
    requires
        s.is_random_uuid(),
    ensures
        s.is_well_formed(),
{
    let b = s.bits;
    assert(b & 0xF000_C000_0000_0000_0000u128 == 0x4000_8000_0000_0000_0000u128 ==> b != 0)
        by (bit_vector);
}

/// Draws a new session identifier.
pub fn new_session() -> (r: SessionId)
    ensures
        r.is_random_uuid(),
        r.is_well_formed(),
{
    let r = SessionId { bits: random_uuid_bits() };
    proof {
        lemma_random_is_well_formed(r);
    }
    r
}

/// The session an execution request runs under: the one the client supplied,
/// or a new one when it supplied none.
pub fn derive_session(requested: Option<SessionId>) -> (r: SessionId)
    ensures
        requested is Some ==> r == requested->Some_0,
        requested is None ==> r.is_random_uuid() && r.is_well_formed(),
{
    match requested {
        Some(s) => s,
        None => new_session(),
    }
}

} // verus!
