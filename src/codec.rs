use crate::error::VerifyError;
use vstd::prelude::*;

verus! {

/// Length of the fixed prefix of an instruction; later bytes are not interpreted.
pub const INSTRUCTION_PREFIX_LEN: usize = 106;

/// Offset one past the last byte of the transaction id field.
pub const TX_ID_END: usize = 130;

/// The instruction types that release funds.
pub const META_TYPE_UNSHIELD: u8 = 157;
pub const META_TYPE_UNSHIELD_ALT: u8 = 158;

/// The shard whose withdrawals this bridge accepts.
pub const EXPECTED_SHARD: u8 = 1;

/// The typed fields of a withdrawal instruction.
#[derive(Debug, Clone)]
pub struct WithdrawalInstruction {
    pub meta_type: u8,
    pub shard_id: u8,
    /// 32 bytes naming the released asset.
    pub token_id: Vec<u8>,
    /// 32 bytes naming the recipient.
    pub receiver_key: Vec<u8>,
    /// The released quantity.
    pub unshield_amount: u64,
    /// The source chain's transaction id: bytes 98 up to 130 of the instruction,
    /// as far as it reaches.
    pub tx_id: Vec<u8>,
}

/// `256` to the power `n`.
pub open spec fn pow256(n: nat) -> nat
    decreases n,
{
    if n == 0 {
        1
    } else {
        pow256((n - 1) as nat) * 256
    }
}

/// The unsigned number that bytes `s` write in big-endian order.
pub open spec fn be_value(s: Seq<u8>) -> nat
    decreases s.len(),
{
    if s.len() == 0 {
        0
    } else {
        be_value(s.drop_last()) * 256 + s.last() as nat
    }
}

/// The lowest `n` base-256 digits of `v`, least significant first.
pub open spec fn le_digits(v: nat, n: nat) -> Seq<u8>
    decreases n,
{
    if n == 0 {
        Seq::empty()
    } else {
        seq![(v % 256) as u8] + le_digits(v / 256, (n - 1) as nat)
    }
}

/// A height as a 32-byte big-endian word: 24 zero bytes, then the 8 bytes of
/// the height.
pub open spec fn height_word(height: u64) -> Seq<u8> {
    Seq::new(32, |i: int| if i < 24 { 0u8 } else { le_digits(height as nat, 8)[31 - i] })
}

/// Whether an instruction's type and shard bytes are accepted.
pub open spec fn type_accepted(raw: Seq<u8>) -> bool {
    (raw[0] == META_TYPE_UNSHIELD || raw[0] == META_TYPE_UNSHIELD_ALT) && raw[1] == EXPECTED_SHARD
}

/// Whether `raw` decodes to an instruction.
pub open spec fn decodes(raw: Seq<u8>) -> bool {
    raw.len() >= INSTRUCTION_PREFIX_LEN && type_accepted(raw)
}

/// The end of the transaction id field in an instruction of length `len`.
pub open spec fn tx_id_end(len: nat) -> int {
    if len < TX_ID_END {
        len as int
    } else {
        TX_ID_END as int
    }
}

/// Whether `inst` holds the fields of the instruction `raw`.
pub open spec fn fields_of(inst: WithdrawalInstruction, raw: Seq<u8>) -> bool {
    &&& inst.meta_type == raw[0]
    &&& inst.shard_id == raw[1]
    &&& inst.token_id@ == raw.subrange(2, 34)
    &&& inst.receiver_key@ == raw.subrange(34, 66)
    &&& inst.unshield_amount as nat == be_value(raw.subrange(90, 98))
    &&& inst.tx_id@ == raw.subrange(98, tx_id_end(raw.len()))
}

proof fn lemma_pow256_mono(a: nat, b: nat)
    requires
        a <= b,
    ensures
        pow256(a) <= pow256(b),
    decreases b,
{
    if a < b {
        lemma_pow256_mono(a, (b - 1) as nat);
    }
}

proof fn lemma_be_value_bound(s: Seq<u8>)
    ensures
        be_value(s) < pow256(s.len()),
    decreases s.len(),
{
    if s.len() > 0 {
        lemma_be_value_bound(s.drop_last());
    }
}

/// The bytes `raw[start..end]` in a vector.
pub fn copy_range(raw: &[u8], start: usize, end: usize) -> (r: Vec<u8>)
    requires
        start <= end <= raw@.len(),
    ensures
        r@ == raw@.subrange(start as int, end as int),
{
    let mut out: Vec<u8> = Vec::new();
    let mut i: usize = start;
    while i < end
        invariant
            start <= i <= end,
            end <= raw@.len(),
            out@ == raw@.subrange(start as int, i as int),
        decreases end - i,
    {
        out.push(raw[i]);
        i = i + 1;
        assert(raw@.subrange(start as int, i as int) == raw@.subrange(start as int, i - 1 as int).push(raw@[i - 1]));
    }
    out
}

/// The number that the eight bytes `raw[start..start + 8]` write in big-endian order.
pub fn read_be_u64(raw: &[u8], start: usize) -> (r: u64)
    requires
        start + 8 <= raw@.len(),
    ensures
        r as nat == be_value(raw@.subrange(start as int, start + 8)),
{
    let len = raw.len();
    let mut acc: u64 = 0;
    let mut k: usize = 0;
    while k < 8
        invariant
            k <= 8,
            len == raw@.len(),
            start + 8 <= raw@.len(),
            acc as nat == be_value(raw@.subrange(start as int, start + k)),
        decreases 8 - k,
    {
        let ghost s = raw@.subrange(start as int, start + k + 1);
        assert(s.drop_last() == raw@.subrange(start as int, start + k));
        proof {
            lemma_be_value_bound(s.drop_last());
            lemma_pow256_mono(k as nat, 7);
            reveal_with_fuel(pow256, 8);
        }
        acc = acc * 256 + raw[start + k] as u64;
        k = k + 1;
    }
    acc
}

/// Parses the fixed-offset layout of an instruction: type, shard, token id,
/// receiver key, 24 reserved bytes, big-endian amount and transaction id.
/// The type and shard are checked before anything else is done with it.
pub fn decode(raw: &[u8]) -> (r: Result<WithdrawalInstruction, VerifyError>)
    ensures
        raw@.len() < INSTRUCTION_PREFIX_LEN <==> r == Err::<WithdrawalInstruction, VerifyError>(
            VerifyError::TruncatedInstruction,
        ),
        raw@.len() >= INSTRUCTION_PREFIX_LEN && !type_accepted(raw@) <==> r == Err::<
            WithdrawalInstruction,
            VerifyError,
        >(VerifyError::UnrecognizedInstructionType),
        decodes(raw@) <==> r is Ok,
        r matches Ok(inst) ==> fields_of(inst, raw@),
{
    if raw.len() < INSTRUCTION_PREFIX_LEN {
        return Err(VerifyError::TruncatedInstruction);
    }
    let meta_type = raw[0];
    let shard_id = raw[1];
    if (meta_type != META_TYPE_UNSHIELD && meta_type != META_TYPE_UNSHIELD_ALT) || shard_id
        != EXPECTED_SHARD {
        return Err(VerifyError::UnrecognizedInstructionType);
    }
    let end = if raw.len() < TX_ID_END {
        raw.len()
    } else {
        TX_ID_END
    };
    Ok(
        WithdrawalInstruction {
            meta_type,
            shard_id,
            token_id: copy_range(raw, 2, 34),
            receiver_key: copy_range(raw, 34, 66),
            unshield_amount: read_be_u64(raw, 90),
            tx_id: copy_range(raw, 98, end),
        },
    )
}

/// A height as a 32-byte big-endian word, its high 24 bytes zero.
pub fn append_at_top(height: u64) -> (r: Vec<u8>)
    ensures
        r@ == height_word(height),
{
    let mut digits: Vec<u8> = Vec::new();
    let mut v: u64 = height;
    let mut k: usize = 0;
    while k < 8
        invariant
            k <= 8,
            digits@.len() == k,
            digits@ + le_digits(v as nat, (8 - k) as nat) == le_digits(height as nat, 8),
        decreases 8 - k,
    {
        let ghost rest = le_digits((v / 256) as nat, (8 - k - 1) as nat);
        assert(le_digits(v as nat, (8 - k) as nat) == seq![(v % 256) as u8] + rest);
        assert(digits@ + (seq![(v % 256) as u8] + rest) == digits@.push((v % 256) as u8) + rest);
        digits.push((v % 256) as u8);
        v = v / 256;
        k = k + 1;
    }
    assert(digits@ + le_digits(v as nat, 0) == digits@);
    let mut out: Vec<u8> = Vec::new();
    let mut i: usize = 0;
    while i < 32
        invariant
            i <= 32,
            digits@ == le_digits(height as nat, 8),
            digits@.len() == 8,
            out@.len() == i,
            forall|j: int| 0 <= j < i ==> out@[j] == height_word(height)[j],
        decreases 32 - i,
    {
        if i < 24 {
            out.push(0);
        } else {
            out.push(digits[31 - i]);
        }
        i = i + 1;
    }
    assert(out@ =~= height_word(height));
    out
}

} // verus!
