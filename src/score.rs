//! The persisted high-score record: one unsigned integer in bincode's
//! default layout, eight little-endian bytes.
use vstd::prelude::*;

verus! {

/// Bytes in a score record.
pub const RECORD_LEN: usize = 8;

/// The `n` little-endian base-256 digits of `v`.
pub open spec fn le_bytes(v: nat, n: nat) -> Seq<u8>
    decreases n,
{
    if n == 0 {
        seq![]
    } else {
        seq![(v % 256) as u8] + le_bytes(v / 256, (n - 1) as nat)
    }
}

/// The number that little-endian base-256 digits stand for.
pub open spec fn le_value(s: Seq<u8>) -> nat
    decreases s.len(),
{
    if s.len() == 0 {
        0
    } else {
        s[0] as nat + 256 * le_value(s.drop_first())
    }
}

/// `256` to the power `n`.
pub open spec fn place(n: nat) -> nat
    decreases n,
{
    if n == 0 {
        1
    } else {
        256 * place((n - 1) as nat)
    }
}

/// Relies on `bincode::serialize` with its default options (fixed-width
/// little-endian integers, no size limit): a `u64` becomes its eight
/// little-endian bytes, and writing into a `Vec` cannot fail.
#[verifier::external_body]
fn serialize_u64(v: u64) -> (r: Option<Vec<u8>>)
    ensures
        r is Some && r->0@ == le_bytes(v as nat, 8),
{
    bincode::serialize(&v).ok()
}

/// Relies on `bincode::deserialize` with its default options (fixed-width
/// little-endian integers, trailing bytes allowed): a `u64` is read from the
/// first eight bytes, and a shorter input is an end-of-input error.
#[verifier::external_body]
fn deserialize_u64(bytes: &[u8]) -> (r: Option<u64>)
    ensures
        bytes@.len() >= 8 ==> r is Some && r->0 as nat == le_value(bytes@.take(8)),
        bytes@.len() < 8 ==> r is None,
{
    bincode::deserialize::<u64>(bytes).ok()
}

/// Why a score record could not be read.
#[derive(Clone, Copy, Debug, PartialEq, Eq, Structural)]
pub enum ScoreError {
    /// Fewer bytes than a record holds.
    Truncated,
    /// The stored number does not fit in a `usize`.
    OutOfRange,
}

/// What reading a score record from `bytes` yields.
pub open spec fn decoded(bytes: Seq<u8>) -> Result<usize, ScoreError> {
    if bytes.len() < RECORD_LEN {
        Err(ScoreError::Truncated)
    } else if le_value(bytes.take(RECORD_LEN as int)) > usize::MAX {
        Err(ScoreError::OutOfRange)
    } else {
        Ok(le_value(bytes.take(RECORD_LEN as int)) as usize)
    }
}

/// The high-score record `{ score }`; a record of one field is laid out as
/// that field alone.
pub struct ScoreRepository {
    pub score: usize,
}

impl ScoreRepository {
    /// The bytes that store `value`.
    pub fn encode(value: usize) -> (r: Vec<u8>)
        ensures
            r@ == le_bytes(value as nat, RECORD_LEN as nat),
    {
        match serialize_u64(value as u64) {
            Some(bytes) => bytes,
            None => Vec::new(),
        }
    }

    /// The score stored in `bytes`; bytes after the record are ignored.
    pub fn decode(bytes: &[u8]) -> (r: Result<usize, ScoreError>)
        ensures
            r == decoded(bytes@),
    {
        match deserialize_u64(bytes) {
            None => Err(ScoreError::Truncated),
            Some(v) => {
                if v <= usize::MAX as u64 {
                    Ok(v as usize)
                } else {
                    Err(ScoreError::OutOfRange)
                }
            },
        }
    }
}

/// Digits of a number below `256^n` read back as that number.
proof fn lemma_le_round_trip(v: nat, n: nat)
    requires
        v < place(n),
    ensures
        le_bytes(v, n).len() == n,
        le_value(le_bytes(v, n)) == v,
    decreases n,
{
    if n > 0 {
        let p = place((n - 1) as nat);
        let q = v / 256;
        let r = v % 256;
        assert(v == 256 * q + r && 0 <= r < 256);
        assert(q < p) by (nonlinear_arith)
            requires
                v == 256 * q + r,
                0 <= r,
                v < 256 * p,
        ;
        lemma_le_round_trip(q, (n - 1) as nat);
        assert(le_bytes(v, n).drop_first() =~= le_bytes(q, (n - 1) as nat));
    }
}

/// Every score reads back from the bytes that store it.
pub proof fn lemma_score_round_trip(value: usize)
    ensures
        decoded(le_bytes(value as nat, RECORD_LEN as nat)) == Ok::<usize, ScoreError>(value),
{
    reveal_with_fuel(place, 9);
    assert(place(8) == 0x1_0000_0000_0000_0000);
    lemma_le_round_trip(value as nat, 8);
    let b = le_bytes(value as nat, 8);
    assert(b.take(8) =~= b);
}

} // verus!
