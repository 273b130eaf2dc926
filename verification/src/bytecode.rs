//! Bytecode preprocessing: padding raw contract code and building the
//! jump-destination bitmap consulted on every dynamic jump.
//!
//! The scan walks the code a byte at a time; a `JUMPDEST` opcode marks its
//! offset valid, while a `PUSH` opcode skips its immediate data so that data
//! bytes that happen to equal `JUMPDEST` are never mistaken for jump targets.

use vstd::prelude::*;

use bitvec::order::Lsb0;
use bitvec::vec::BitVec;

verus! {

/// Opcode marking a byte offset as a valid target for dynamic jumps.
pub const OPCODE_JUMPDEST: u8 = 0x5b;

/// First opcode of the 32-slot `PUSH` range.
pub const OPCODE_PUSH1: u8 = 0x60;

/// Number of zero bytes appended to raw code, so that a 32-byte push
/// immediate starting at the last logical byte can be read without bounds
/// checks.
pub const PADDING_LEN: usize = 33;

/// One bit per code-byte offset, set iff that offset is a valid jump target.
///
/// The bitmap is held in a `bitvec::vec::BitVec<u8, Lsb0>`, as the execution
/// engine expects; Verus sees the collection only through `bit_seq` and the
/// trusted accessors below.
#[verifier::external_body]
pub struct JumpTable {
    bits: BitVec<u8, Lsb0>,
}

/// The bits a `JumpTable`'s backing `bitvec::vec::BitVec` holds, in index
/// order.
pub uninterp spec fn bit_seq(v: JumpTable) -> Seq<bool>;

impl JumpTable {
    /// Relies on bitvec's `BitVec::repeat`: a vector of `len` copies of the
    /// given bit.
    #[verifier::external_body]
    pub fn repeat(bit: bool, len: usize) -> (r: JumpTable)
        ensures
            bit_seq(r) == Seq::new(len as nat, |i: int| bit),
    {
        JumpTable { bits: BitVec::repeat(bit, len) }
    }

    /// Relies on bitvec's `BitSlice::set`: writes one bit, leaving the rest
    /// unchanged.
    #[verifier::external_body]
    fn set_bit(&mut self, index: usize, value: bool)
        requires
            index < bit_seq(*old(self)).len(),
        ensures
            bit_seq(*final(self)) == bit_seq(*old(self)).update(index as int, value),
    {
        self.bits.set(index, value);
    }

    /// Relies on bitvec's `BitSlice` indexing: reads one bit.
    #[verifier::external_body]
    pub fn get_bit(&self, index: usize) -> (r: bool)
        requires
            index < bit_seq(*self).len(),
        ensures
            r == bit_seq(*self)[index as int],
    {
        self.bits[index]
    }

    /// Relies on bitvec's `BitSlice::len`: the number of bits held.
    #[verifier::external_body]
    pub fn len(&self) -> (r: usize)
        ensures
            r == bit_seq(*self).len(),
    {
        self.bits.len()
    }
}

/// Whether `op` is one of the 32 `PUSH` opcodes.
pub open spec fn is_push_opcode(op: u8) -> bool {
    OPCODE_PUSH1 <= op < OPCODE_PUSH1 + 32
}

/// Number of immediate data bytes following a `PUSH` opcode.
pub open spec fn push_data_len(op: u8) -> int {
    op - OPCODE_PUSH1 + 1
}

/// `i`, clamped from above to `len`.
pub open spec fn clamp_index(len: int, i: int) -> int {
    if i > len {
        len
    } else {
        i
    }
}

/// The set of byte offsets in `code` that hold a valid jump destination,
/// scanning from offset `i`: a `JUMPDEST` byte reached by the scan is valid,
/// and a `PUSH` opcode's immediate data is skipped over.
pub open spec fn jump_dests_from(code: Seq<u8>, i: int) -> Set<int>
    decreases code.len() - i,
{
    if i < 0 || i >= code.len() {
        Set::empty()
    } else if code[i] == OPCODE_JUMPDEST {
        jump_dests_from(code, i + 1).insert(i)
    } else if is_push_opcode(code[i]) {
        jump_dests_from(code, clamp_index(code.len() as int, i + 1 + push_data_len(code[i])))
    } else {
        jump_dests_from(code, i + 1)
    }
}

/// The valid jump destinations of `code`, scanned from its start.
pub open spec fn jump_dests(code: Seq<u8>) -> Set<int> {
    jump_dests_from(code, 0)
}

/// Every destination the scan from `j` finds lies in `[j, code.len())`.
proof fn lemma_jump_dests_in_range(code: Seq<u8>, j: int)
    ensures
        forall|k: int| jump_dests_from(code, j).contains(k) ==> j <= k < code.len(),
    decreases code.len() - j,
{
    if 0 <= j < code.len() {
        if code[j] == OPCODE_JUMPDEST {
            lemma_jump_dests_in_range(code, j + 1);
            assert(jump_dests_from(code, j) == jump_dests_from(code, j + 1).insert(j));
        } else if is_push_opcode(code[j]) {
            let next = clamp_index(code.len() as int, j + 1 + push_data_len(code[j]));
            lemma_jump_dests_in_range(code, next);
            assert(jump_dests_from(code, j) == jump_dests_from(code, next));
            assert(next > j);
        } else {
            lemma_jump_dests_in_range(code, j + 1);
            assert(jump_dests_from(code, j) == jump_dests_from(code, j + 1));
        }
    } else {
        assert(jump_dests_from(code, j) =~= Set::<int>::empty());
    }
}

/// Zero padding holds no jump destinations: scanning a zero-padded code from
/// any offset finds exactly the destinations of the unpadded scan.
proof fn lemma_jump_dests_pad(code: Seq<u8>, pad: Seq<u8>, j: int)
    requires
        forall|p: int| 0 <= p < pad.len() ==> pad[p] == 0,
    ensures
        jump_dests_from(code + pad, j) == jump_dests_from(code, j),
    decreases (code + pad).len() - j,
{
    let whole = code + pad;
    if j < 0 || j >= whole.len() {
        assert(jump_dests_from(whole, j) =~= jump_dests_from(code, j));
    } else if j >= code.len() {
        assert(whole[j] == 0);
        lemma_jump_dests_pad(code, pad, j + 1);
        assert(jump_dests_from(code, j) =~= Set::<int>::empty());
        assert(jump_dests_from(code, j + 1) =~= Set::<int>::empty());
    } else {
        assert(whole[j] == code[j]);
        if code[j] == OPCODE_JUMPDEST {
            lemma_jump_dests_pad(code, pad, j + 1);
        } else if is_push_opcode(code[j]) {
            let next = j + 1 + push_data_len(code[j]);
            let next_whole = clamp_index(whole.len() as int, next);
            let next_code = clamp_index(code.len() as int, next);
            lemma_jump_dests_pad(code, pad, next_whole);
            if next_whole != next_code {
                lemma_jump_dests_pad(code, pad, next_code);
                assert(jump_dests_from(code, next_whole) =~= Set::<int>::empty());
                assert(jump_dests_from(code, next_code) =~= Set::<int>::empty());
            }
        } else {
            lemma_jump_dests_pad(code, pad, j + 1);
        }
    }
}

/// Build the jump-destination bitmap for `code` (one bit per byte offset).
pub fn analyze(code: &Vec<u8>) -> (r: JumpTable)
    requires
        code@.len() + 32 <= usize::MAX,
    ensures
        bit_seq(r).len() == code@.len(),
        forall|k: int|
            0 <= k < code@.len() ==> (bit_seq(r)[k] <==> jump_dests(code@).contains(k)),
{
    let len: usize = code.len();
    let mut bits = JumpTable::repeat(false, len);
    let mut i: usize = 0;
    proof {
        lemma_jump_dests_in_range(code@, 0);
    }
    while i < len
        invariant
            len == code@.len(),
            len + 32 <= usize::MAX,
            0 <= i <= len,
            bit_seq(bits).len() == len,
            forall|k: int| 0 <= k < len && #[trigger] bit_seq(bits)[k] ==> k < i,
            forall|k: int|
                0 <= k < len
                    ==> (#[trigger] jump_dests(code@).contains(k) <==> ((k < i && bit_seq(
                    bits,
                )[k]) || jump_dests_from(code@, i as int).contains(k))),
        decreases len - i,
    {
        let op = code[i];
        proof {
            lemma_jump_dests_in_range(code@, i as int);
        }
        if op == OPCODE_JUMPDEST {
            proof {
                lemma_jump_dests_in_range(code@, i + 1);
                assert(jump_dests_from(code@, i as int) == jump_dests_from(
                    code@,
                    i + 1,
                ).insert(i as int));
            }
            bits.set_bit(i, true);
            i = i + 1;
        } else if OPCODE_PUSH1 <= op && op <= 0x7f {
            let data_len: usize = (op - OPCODE_PUSH1) as usize + 1;
            let next: usize = i + 1 + data_len;
            proof {
                lemma_jump_dests_in_range(code@, clamp_index(len as int, next as int));
                assert(jump_dests_from(code@, i as int) == jump_dests_from(
                    code@,
                    clamp_index(len as int, next as int),
                ));
            }
            i = if next > len {
                len
            } else {
                next
            };
        } else {
            proof {
                lemma_jump_dests_in_range(code@, i + 1);
                assert(jump_dests_from(code@, i as int) == jump_dests_from(code@, i + 1));
            }
            i = i + 1;
        }
    }
    proof {
        assert(jump_dests_from(code@, len as int) =~= Set::<int>::empty());
    }
    bits
}

/// What it means for `(padded, orig_len, bits)` to be the analyzed form of
/// the raw code `raw`: the bytes are `raw` followed by zero padding, and the
/// bitmap marks exactly the valid jump destinations of `raw`.
pub open spec fn analyzed_form(padded: Seq<u8>, orig_len: int, bits: Seq<bool>, raw: Seq<u8>) -> bool {
    &&& orig_len == raw.len()
    &&& padded.len() == raw.len() + PADDING_LEN
    &&& padded.subrange(0, raw.len() as int) == raw
    &&& (forall|p: int| raw.len() <= p < padded.len() ==> padded[p] == 0)
    &&& bits.len() == padded.len()
    &&& (forall|k: int| 0 <= k < padded.len() ==> (bits[k] <==> jump_dests(raw).contains(k)))
}

/// Contract code with its jump table precomputed, safe for an interpreter to
/// read past the logical end.
pub struct AnalyzedBytecode {
    /// The code bytes, zero-padded by `PADDING_LEN`.
    pub bytecode: Vec<u8>,
    /// The logical (pre-padding) code length.
    pub original_len: usize,
    /// One bit per byte of `bytecode`, set iff a valid jump destination.
    pub jump_table: JumpTable,
}

impl AnalyzedBytecode {
    /// The logical (unpadded) code bytes.
    pub open spec fn logical_code(self) -> Seq<u8> {
        self.bytecode@.subrange(0, self.original_len as int)
    }

    /// The analyzed fields agree with the logical code.
    pub open spec fn wf(self) -> bool {
        analyzed_form(
            self.bytecode@,
            self.original_len as int,
            bit_seq(self.jump_table),
            self.logical_code(),
        )
    }

    /// Whether `offset` may be the target of a dynamic jump; offsets past
    /// the padded code are never valid.
    pub fn is_valid_jump_dest(&self, offset: usize) -> (r: bool)
        requires
            self.wf(),
        ensures
            r == (offset < self.bytecode@.len() && jump_dests(self.logical_code()).contains(
                offset as int,
            )),
    {
        offset < self.jump_table.len() && self.jump_table.get_bit(offset)
    }
}

/// Contract code as held by an account: raw, or already analyzed.
pub enum Bytecode {
    LegacyRaw(Vec<u8>),
    LegacyAnalyzed(AnalyzedBytecode),
}

/// The analyzed shape the execution engine consumes.
pub struct EvmCode {
    /// The code bytes, zero-padded by `PADDING_LEN`.
    pub bytecode: Vec<u8>,
    /// The logical (pre-padding) code length.
    pub original_len: usize,
    /// One bit per byte of `bytecode`, set iff a valid jump destination.
    pub jump_table: JumpTable,
}

/// Pad `code` with `PADDING_LEN` zero bytes and build its jump table.
fn analyse_raw(code: Vec<u8>) -> (r: AnalyzedBytecode)
    requires
        code@.len() + 65 <= usize::MAX,
    ensures
        analyzed_form(r.bytecode@, r.original_len as int, bit_seq(r.jump_table), code@),
{
    let ghost raw = code@;
    let len: usize = code.len();
    let mut padded = code;
    let mut p: usize = 0;
    proof {
        assert(padded@ =~= raw + Seq::new(0, |q: int| 0u8));
    }
    while p < PADDING_LEN
        invariant
            len == raw.len(),
            len + 65 <= usize::MAX,
            0 <= p <= PADDING_LEN,
            padded@ == raw + Seq::new(p as nat, |q: int| 0u8),
        decreases PADDING_LEN - p,
    {
        padded.push(0);
        p = p + 1;
        proof {
            assert(padded@ =~= raw + Seq::new(p as nat, |q: int| 0u8));
        }
    }
    let jump_table = analyze(&padded);
    proof {
        lemma_jump_dests_pad(raw, Seq::new(PADDING_LEN as nat, |q: int| 0u8), 0);
        assert(padded@.subrange(0, raw.len() as int) =~= raw);
    }
    AnalyzedBytecode { bytecode: padded, original_len: len, jump_table }
}

/// Analyze raw code; already-analyzed code is returned unchanged.
pub fn to_analysed(bytecode: Bytecode) -> (r: Bytecode)
    requires
        bytecode matches Bytecode::LegacyRaw(code) ==> code@.len() + 65 <= usize::MAX,
    ensures
        bytecode is LegacyAnalyzed ==> r == bytecode,
        bytecode matches Bytecode::LegacyRaw(code) ==> (r matches Bytecode::LegacyAnalyzed(a)
            && analyzed_form(a.bytecode@, a.original_len as int, bit_seq(a.jump_table), code@)),
{
    match bytecode {
        Bytecode::LegacyRaw(code) => Bytecode::LegacyAnalyzed(analyse_raw(code)),
        n => n,
    }
}

/// Convert account bytecode into the execution engine's analyzed shape,
/// analyzing it first if it is still raw.
pub fn bytecode_to_evmcode(code: Bytecode) -> (r: EvmCode)
    requires
        code matches Bytecode::LegacyRaw(c) ==> c@.len() + 65 <= usize::MAX,
    ensures
        code matches Bytecode::LegacyAnalyzed(a) ==> (r.bytecode@ == a.bytecode@
            && r.original_len == a.original_len && bit_seq(r.jump_table) == bit_seq(a.jump_table)),
        code matches Bytecode::LegacyRaw(c) ==> analyzed_form(
            r.bytecode@,
            r.original_len as int,
            bit_seq(r.jump_table),
            c@,
        ),
{
    match code {
        Bytecode::LegacyAnalyzed(a) => EvmCode {
            bytecode: a.bytecode,
            original_len: a.original_len,
            jump_table: a.jump_table,
        },
        Bytecode::LegacyRaw(c) => {
            let a = analyse_raw(c);
            EvmCode {
                bytecode: a.bytecode,
                original_len: a.original_len,
                jump_table: a.jump_table,
            }
        },
    }
}

} // verus!
