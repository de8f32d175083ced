use vstd::prelude::*;

use vstd::string::StringSliceAdditionalSpecFns;

use crate::murmur::{hash32, murmur2};

verus! {

/// Why a partition could not be computed.
#[derive(Debug, Clone, Copy, PartialEq, Eq, Structural)]
pub enum PartitionError {
    /// The partition count was zero or negative.
    InvalidArgument,
}

/// `h` with its sign bit cleared.
pub open spec fn positive_of(h: i32) -> i32 {
    h & 0x7fff_ffff
}

/// The partition that a key with bytes `key` is routed to among `n` partitions.
pub open spec fn partition_of(key: Seq<u8>, n: i32) -> int {
    (positive_of(hash32(key)) as int) % (n as int)
}

/// Clears the sign bit of a 32-bit hash, mapping it into `[0, i32::MAX]`.
pub fn to_positive(num: i32) -> (r: i32)
    ensures
        r == positive_of(num),
        0 <= r,
        num >= 0 ==> r == num,
        num < 0 ==> r == num + 0x8000_0000,
{
    proof {
        assert(0 <= num & 0x7fff_ffff) by (bit_vector);
        assert(num >= 0 ==> num & 0x7fff_ffff == num) by (bit_vector);
        assert(num < 0 ==> num & 0x7fff_ffff == num + 0x8000_0000) by (bit_vector);
    }
    num & 0x7fff_ffff
}

/// Kafka's default partitioning strategy: the MurmurHash2 of the key's
/// UTF-8 bytes, sign bit cleared, modulo the partition count.
pub fn get_partition(key: &str, num_partitions: i32) -> (r: Result<i32, PartitionError>)
    ensures
        num_partitions <= 0 <==> r == Err::<i32, PartitionError>(PartitionError::InvalidArgument),
        num_partitions > 0 ==> r == Ok::<i32, PartitionError>(
            partition_of(key.spec_bytes(), num_partitions) as i32,
        ),
        r matches Ok(p) ==> 0 <= p < num_partitions,
{
    if num_partitions <= 0 {
        return Err(PartitionError::InvalidArgument);
    }
    let hash = murmur2(key.as_bytes());
    let pos = to_positive(hash);
    proof {
        lemma_partition_in_range(key.spec_bytes(), num_partitions);
    }
    Ok(pos % num_partitions)
}

proof fn lemma_positive_nonneg(h: i32)
    ensures
        0 <= positive_of(h),
{
    assert(0 <= h & 0x7fff_ffff) by (bit_vector);
}

/// The hash is a function of the bytes alone: equal byte sequences hash
/// to the same value, whenever and however often it is computed.
pub proof fn lemma_hash_deterministic(a: Seq<u8>, b: Seq<u8>)
    requires
        a == b,
    ensures
        hash32(a) == hash32(b),
{
}

/// Every key lands in `[0, n)` when there is at least one partition.
pub proof fn lemma_partition_in_range(key: Seq<u8>, n: i32)
    requires
        n > 0,
    ensures
        0 <= partition_of(key, n) < n,
{
    lemma_positive_nonneg(hash32(key));
}

/// With a single partition every key goes to partition `0`.
pub proof fn lemma_single_partition(key: Seq<u8>)
    ensures
        partition_of(key, 1) == 0,
{
    lemma_positive_nonneg(hash32(key));
}

} // verus!
