//! Identities, versions and digests of on-chain objects.

use crate::u256::U256;
use vstd::prelude::*;

verus! {

/// Whether two 32-byte arrays hold the same bytes.
pub fn bytes_equal(a: &[u8; 32], b: &[u8; 32]) -> (same: bool)
    ensures
        same == (*a == *b),
{
    let mut k: usize = 0;
    while k < 32
        invariant
            0 <= k <= 32,
            forall|j: int| 0 <= j < k ==> a@[j] == b@[j],
        decreases 32 - k,
    {
        if a[k] != b[k] {
            return false;
        }
        k = k + 1;
    }
    assert(*a =~= *b);
    true
}

/// The array whose first `upto` bytes are those of `bytes`, and whose other
/// bytes are zero.
pub open spec fn array_upto(bytes: Seq<u8>, upto: int) -> [u8; 32]
    decreases upto,
{
    if upto <= 0 {
        vstd::array::spec_array_fill_for_copy_type::<u8, 32>(0u8)
    } else {
        vstd::array::spec_array_update(array_upto(bytes, upto - 1), upto - 1, bytes[upto - 1])
    }
}

/// The first `upto` bytes of `array_upto(bytes, upto)` are those of `bytes`.
proof fn lemma_array_upto(bytes: Seq<u8>, upto: int)
    requires
        0 <= upto <= 32,
    ensures
        forall|j: int| 0 <= j < upto ==> array_upto(bytes, upto)@[j] == bytes[j],
    decreases upto,
{
    if upto > 0 {
        lemma_array_upto(bytes, upto - 1);
    }
}

/// The array that holds the 32 bytes `bytes`.
pub open spec fn array_of(bytes: Seq<u8>) -> [u8; 32] {
    array_upto(bytes, 32)
}

/// `array_of(bytes)` holds `bytes`.
pub proof fn lemma_array_of(bytes: Seq<u8>)
    requires
        bytes.len() == 32,
    ensures
        array_of(bytes)@ == bytes,
{
    lemma_array_upto(bytes, 32);
    assert(array_of(bytes)@ =~= bytes);
}

/// The version of an object.
#[derive(Clone, Copy, Debug, PartialEq, Eq, Hash, Structural)]
pub struct SequenceNumber(pub u64);

impl SequenceNumber {
    pub fn from_u64(value: u64) -> (version: SequenceNumber)
        ensures
            version == SequenceNumber(value),
    {
        SequenceNumber(value)
    }

    pub fn value(&self) -> (value: u64)
        ensures
            value == self.0,
    {
        self.0
    }
}

/// The address of an account or of an object that owns another.
#[derive(Clone, Copy, Debug, PartialEq, Eq, Hash)]
pub struct SuiAddress(pub [u8; 32]);

/// The real identity of an object: 32 address bytes, most significant first.
#[derive(Clone, Copy, Debug, PartialEq, Eq, Hash)]
pub struct ObjectID(pub [u8; 32]);

impl ObjectID {
    /// The identity whose address bytes are the bytes of `n`, most
    /// significant first: the little-endian bytes of `n` in reverse.
    pub open spec fn spec_from_u256(n: U256) -> ObjectID {
        ObjectID(array_of(n.le_bytes@.reverse()))
    }

    pub fn from_u256(n: &U256) -> (id: ObjectID)
        ensures
            id.0@ == n.le_bytes@.reverse(),
            id == Self::spec_from_u256(*n),
    {
        let mut bytes: [u8; 32] = [0u8; 32];
        let mut k: usize = 0;
        while k < 32
            invariant
                0 <= k <= 32,
                forall|j: int| 0 <= j < k ==> bytes@[j] == n.le_bytes@[31 - j],
            decreases 32 - k,
        {
            bytes[k] = n.le_bytes[31 - k];
            k = k + 1;
        }
        assert(bytes@ =~= n.le_bytes@.reverse());
        let id = ObjectID(bytes);
        proof {
            lemma_array_of(n.le_bytes@.reverse());
            assert(id.0 =~= Self::spec_from_u256(*n).0);
        }
        id
    }

    /// Whether `self` and `other` are the same identity.
    pub fn same(&self, other: &ObjectID) -> (same: bool)
        ensures
            same == (*self == *other),
    {
        bytes_equal(&self.0, &other.0)
    }
}

/// The content digest of one version of an object.
#[derive(Clone, Copy, Debug, PartialEq, Eq, Hash)]
pub struct ObjectDigest(pub [u8; 32]);

/// The digest of a transaction.
#[derive(Clone, Copy, Debug, PartialEq, Eq, Hash)]
pub struct TransactionDigest(pub [u8; 32]);

/// An exact reference to one version of an object: identity, version and
/// content digest.
pub type ObjectRef = (ObjectID, SequenceNumber, ObjectDigest);

} // verus!
