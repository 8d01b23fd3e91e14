//! Identifiers of gossiped messages.
//!
//! Messages are content-addressed: a message's identifier is the decimal
//! text, in ASCII, of the 64-bit `DefaultHasher` digest of its data.
use std::collections::hash_map::DefaultHasher;
use std::hash::Hasher;
use vstd::prelude::*;
use vstd::endian::{endianness, Endian};
use vstd::std_specs::hash::DefaultHasherAdditionalSpecFns;

verus! {

/// The ASCII decimal digits of `n`, most significant first, with no leading
/// zero.
pub open spec fn decimal_digits(n: nat) -> Seq<u8>
    decreases n,
{
    if n < 10 {
        seq![(n + 48) as u8]
    } else {
        decimal_digits(n / 10).push((n % 10 + 48) as u8)
    }
}

/// The number that the ASCII decimal digits `digits` stand for, read most
/// significant first.
pub open spec fn decimal_value(digits: Seq<u8>) -> int
    decreases digits.len(),
{
    if digits.len() == 0 {
        0
    } else {
        10 * decimal_value(digits.drop_last()) + (digits.last() - 48)
    }
}

/// The identifier of a message whose data hashed to `digest`: the decimal
/// text of the digest.  It is a non-empty run of ASCII digits, with no
/// leading zero, that reads back in base 10 as the digest.
pub fn message_id_from_digest(digest: u64) -> (id: Vec<u8>)
    ensures
        id@ == decimal_digits(digest as nat),
        decimal_value(id@) == digest,
        id@.len() >= 1,
        forall|i: int| 0 <= i < id@.len() ==> 48 <= #[trigger] id@[i] <= 57,
        id@.len() > 1 ==> id@[0] != 48,
{
    proof {
        decimal_digits_read_back(digest as nat);
        decimal_digits_well_formed(digest as nat);
        if digest < 10 {
            assert(decimal_digits(digest as nat).len() == 1);
        }
    }
    let mut id: Vec<u8> = Vec::new();
    let mut rest: u64 = digest;
    while rest >= 10
        invariant
            decimal_digits(digest as nat) == decimal_digits(rest as nat) + id@,
        decreases rest,
    {
        let digit: u8 = (rest % 10) as u8 + 48;
        let ghost old_id = id@;
        id.insert(0, digit);
        assert(decimal_digits((rest / 10) as nat).push(digit) + old_id =~= decimal_digits(
            (rest / 10) as nat,
        ) + id@);
        rest = rest / 10;
    }
    let digit: u8 = rest as u8 + 48;
    let ghost old_id = id@;
    id.insert(0, digit);
    assert(decimal_digits(rest as nat) + old_id =~= id@);
    id
}

/// The number that `bytes` stand for, least significant byte first.
pub open spec fn le_number(bytes: Seq<u8>) -> nat
    decreases bytes.len(),
{
    if bytes.len() == 0 {
        0
    } else {
        (bytes[0] + 256 * le_number(bytes.drop_first())) as nat
    }
}

/// The number that `bytes` stand for, most significant byte first.
pub open spec fn be_number(bytes: Seq<u8>) -> nat
    decreases bytes.len(),
{
    if bytes.len() == 0 {
        0
    } else {
        (256 * be_number(bytes.drop_last()) + bytes.last()) as nat
    }
}

/// The bytes of the length `n` in the byte order of the machine that runs
/// (vstd's `endianness()`): as many bytes as a `usize` has, read as a
/// little-endian number on a little-endian machine and as a big-endian one
/// on a big-endian machine.
pub open spec fn is_native_length_prefix(bytes: Seq<u8>, n: nat) -> bool {
    &&& bytes.len() * 8 == usize::BITS
    &&& match endianness() {
        Endian::Little => le_number(bytes) == n,
        Endian::Big => be_number(bytes) == n,
    }
}

/// Calls `usize::to_ne_bytes`: the memory representation of `n`, in the
/// machine's byte order.  Claimed of it: there are as many bytes as a
/// `usize` has, and they are `n` in the byte order of the machine, which
/// vstd's `endianness()` stands for; which order that is stays unsaid.
#[verifier::external_body]
fn native_endian_bytes(n: usize) -> (bytes: Vec<u8>)
    ensures
        is_native_length_prefix(bytes@, n as nat),
{
    n.to_ne_bytes().to_vec()
}

/// The identifier of a gossiped message with data `data`: the decimal text of
/// the `DefaultHasher` digest of the data.  The data is hashed as `Hash` hashes
/// a byte slice or the `Vec<u8>` a message carries: a write of its length in
/// the machine's byte order, then a write of its bytes.  The byte order
/// depends on the machine, so the length prefix stands in the contract as
/// some `prefix` that holds the length in the machine's byte order; for a
/// given length there is one such prefix (`native_length_prefix_unique`).
pub fn gossip_message_id(data: &[u8]) -> (id: Vec<u8>)
    ensures
        exists|prefix: Seq<u8>|
            is_native_length_prefix(prefix, data@.len()) && id@ == decimal_digits(
                DefaultHasher::spec_finish(seq![prefix, data@]) as nat,
            ),
{
    let mut hasher = DefaultHasher::new();
    let prefix = native_endian_bytes(data.len());
    hasher.write(prefix.as_slice());
    hasher.write(data);
    let digest = hasher.finish();
    assert(hasher@ =~= seq![prefix@, data@]);
    message_id_from_digest(digest)
}

/// Bytes of equal length that read as the same little-endian number are the
/// same bytes.
pub proof fn le_number_injective(a: Seq<u8>, b: Seq<u8>)
    requires
        a.len() == b.len(),
        le_number(a) == le_number(b),
    ensures
        a == b,
    decreases a.len(),
{
    if a.len() > 0 {
        le_number_injective(a.drop_first(), b.drop_first());
        assert(a =~= seq![a[0]] + a.drop_first());
        assert(b =~= seq![b[0]] + b.drop_first());
    }
}

/// Bytes of equal length that read as the same big-endian number are the
/// same bytes.
pub proof fn be_number_injective(a: Seq<u8>, b: Seq<u8>)
    requires
        a.len() == b.len(),
        be_number(a) == be_number(b),
    ensures
        a == b,
    decreases a.len(),
{
    if a.len() > 0 {
        be_number_injective(a.drop_last(), b.drop_last());
        assert(a =~= a.drop_last().push(a.last()));
        assert(b =~= b.drop_last().push(b.last()));
    }
}

/// On a given machine, the length prefix of a length is one sequence of
/// bytes: every call hashes a message of that length with the same prefix,
/// so equal data gets equal identifiers.
pub proof fn native_length_prefix_unique(p1: Seq<u8>, p2: Seq<u8>, n: nat)
    requires
        is_native_length_prefix(p1, n),
        is_native_length_prefix(p2, n),
    ensures
        p1 == p2,
{
    match endianness() {
        Endian::Little => le_number_injective(p1, p2),
        Endian::Big => be_number_injective(p1, p2),
    }
}

/// Identifiers read back as their digest: the decimal text of `n`, read in
/// base 10, is `n`.
pub proof fn decimal_digits_read_back(n: nat)
    ensures
        decimal_value(decimal_digits(n)) == n,
    decreases n,
{
    if n >= 10 {
        decimal_digits_read_back(n / 10);
        let d = decimal_digits(n);
        assert(d.drop_last() =~= decimal_digits(n / 10));
        assert(d.last() == (n % 10 + 48) as u8);
        assert(((n % 10 + 48) as u8) as int == n % 10 + 48);
        assert(n == 10 * (n / 10) + n % 10) by (nonlinear_arith);
        assert(decimal_value(d) == 10 * decimal_value(d.drop_last()) + (d.last() - 48));
    } else {
        let d = decimal_digits(n);
        assert(d.drop_last() =~= Seq::<u8>::empty());
        assert(decimal_value(d.drop_last()) == 0);
        assert(d.last() == (n + 48) as u8);
        assert(decimal_value(d) == 10 * decimal_value(d.drop_last()) + (d.last() - 48));
    }
}

/// Every identifier is a non-empty run of ASCII digits with no leading zero
/// (save the identifier `0` itself).
pub proof fn decimal_digits_well_formed(n: nat)
    ensures
        decimal_digits(n).len() >= 1,
        forall|i: int|
            0 <= i < decimal_digits(n).len() ==> 48 <= #[trigger] decimal_digits(n)[i] <= 57,
        n >= 10 ==> decimal_digits(n)[0] != 48,
        n >= 10 ==> decimal_digits(n).len() >= 2,
    decreases n,
{
    if n >= 10 {
        decimal_digits_well_formed(n / 10);
        let prefix = decimal_digits(n / 10);
        assert(forall|i: int| 0 <= i < prefix.len() ==> decimal_digits(n)[i] == prefix[i]);
    }
}

/// Distinct digests give distinct identifiers.
pub proof fn decimal_digits_injective(a: nat, b: nat)
    requires
        decimal_digits(a) == decimal_digits(b),
    ensures
        a == b,
    decreases a,
{
    decimal_digits_well_formed(a);
    decimal_digits_well_formed(b);
    if a >= 10 && b >= 10 {
        let (da, db) = (decimal_digits(a), decimal_digits(b));
        assert(da.last() == db.last());
        assert(da.drop_last() =~= decimal_digits(a / 10));
        assert(db.drop_last() =~= decimal_digits(b / 10));
        decimal_digits_injective(a / 10, b / 10);
    } else if a < 10 && b < 10 {
        assert(decimal_digits(a)[0] == (a + 48) as u8);
        assert(decimal_digits(b)[0] == (b + 48) as u8);
    } else if a < 10 {
        assert(decimal_digits(a).len() == 1);
    } else {
        assert(decimal_digits(b).len() == 1);
    }
}

} // verus!
