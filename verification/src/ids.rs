//! Identifiers of actors and messages.
//!
//! Both are 32 opaque bytes. The orchestrator never looks inside them: it only
//! compares them, stores them, and hands them back.
use vstd::prelude::*;

verus! {

/// Whether two 32-byte identifiers hold the same bytes.
pub(crate) fn same_bytes(a: &[u8; 32], b: &[u8; 32]) -> (same: bool)
    ensures
        same == (*a == *b),
{
    let mut i: usize = 0;
    while i < 32
        invariant
            i <= 32,
            forall|j: int| 0 <= j < i ==> a[j] == b[j],
        decreases 32 - i,
    {
        if a[i] != b[i] {
            return false;
        }
        i += 1;
    }
    assert(*a =~= *b);
    true
}

/// Identity of an actor: a user, the guessing service, or the orchestrator itself.
#[derive(Clone, Copy, Debug, Eq)]
pub struct ActorId {
    pub bytes: [u8; 32],
}

impl ActorId {
    /// The all-zero identity, which no actor carries.
    pub open spec fn spec_zero() -> ActorId {
        ActorId { bytes: vstd::array::spec_array_fill_for_copy_type::<u8, 32>(0u8) }
    }

    /// The identity that these bytes spell.
    pub fn new(bytes: [u8; 32]) -> (id: ActorId)
        ensures
            id.bytes == bytes,
    {
        ActorId { bytes }
    }

    /// The identity whose bytes are all zero.
    #[verifier::when_used_as_spec(spec_zero)]
    pub fn zero() -> (id: ActorId)
        ensures
            id == ActorId::zero(),
            forall|i: int| 0 <= i < 32 ==> id.bytes[i] == 0,
    {
        ActorId { bytes: [0u8; 32] }
    }

    /// Whether all bytes are zero.
    pub fn is_zero(&self) -> (zero: bool)
        ensures
            zero == (*self == ActorId::zero()),
            zero == (forall|i: int| 0 <= i < 32 ==> self.bytes[i] == 0),
    {
        let zeros = [0u8; 32];
        let zero = same_bytes(&self.bytes, &zeros);
        proof {
            if forall|i: int| 0 <= i < 32 ==> self.bytes[i] == 0 {
                assert(self.bytes =~= zeros);
            }
        }
        zero
    }

    /// The bytes of the identity.
    pub fn into_bytes(self) -> (bytes: [u8; 32])
        ensures
            bytes == self.bytes,
    {
        self.bytes
    }
}

impl PartialEq for ActorId {
    fn eq(&self, other: &ActorId) -> (same: bool) {
        same_bytes(&self.bytes, &other.bytes)
    }
}

impl vstd::std_specs::cmp::PartialEqSpecImpl for ActorId {
    open spec fn obeys_eq_spec() -> bool {
        true
    }

    open spec fn eq_spec(&self, other: &ActorId) -> bool {
        *self == *other
    }
}

/// Identity of a message: an inbound invocation or an outbound request.
#[derive(Clone, Copy, Debug, Eq)]
pub struct MessageId {
    pub bytes: [u8; 32],
}

impl MessageId {
    /// The all-zero identifier, held by a session that has not started a game yet.
    pub open spec fn spec_zero() -> MessageId {
        MessageId { bytes: vstd::array::spec_array_fill_for_copy_type::<u8, 32>(0u8) }
    }

    /// The identifier that these bytes spell.
    pub fn new(bytes: [u8; 32]) -> (id: MessageId)
        ensures
            id.bytes == bytes,
    {
        MessageId { bytes }
    }

    /// The identifier whose bytes are all zero.
    #[verifier::when_used_as_spec(spec_zero)]
    pub fn zero() -> (id: MessageId)
        ensures
            id == MessageId::zero(),
            forall|i: int| 0 <= i < 32 ==> id.bytes[i] == 0,
    {
        MessageId { bytes: [0u8; 32] }
    }

    /// Whether all bytes are zero.
    pub fn is_zero(&self) -> (zero: bool)
        ensures
            zero == (*self == MessageId::zero()),
            zero == (forall|i: int| 0 <= i < 32 ==> self.bytes[i] == 0),
    {
        let zeros = [0u8; 32];
        let zero = same_bytes(&self.bytes, &zeros);
        proof {
            if forall|i: int| 0 <= i < 32 ==> self.bytes[i] == 0 {
                assert(self.bytes =~= zeros);
            }
        }
        zero
    }

    /// The bytes of the identifier.
    pub fn into_bytes(self) -> (bytes: [u8; 32])
        ensures
            bytes == self.bytes,
    {
        self.bytes
    }
}

impl PartialEq for MessageId {
    fn eq(&self, other: &MessageId) -> (same: bool) {
        same_bytes(&self.bytes, &other.bytes)
    }
}

impl vstd::std_specs::cmp::PartialEqSpecImpl for MessageId {
    open spec fn obeys_eq_spec() -> bool {
        true
    }

    open spec fn eq_spec(&self, other: &MessageId) -> bool {
        *self == *other
    }
}

} // verus!
