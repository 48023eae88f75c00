//! NEC infrared command encoding.
//!
//! A 16-bit address and a 16-bit command are turned into a fixed train of 67
//! mark/space pulse pairs: one start pair, sixteen address-bit pairs, sixteen
//! command-bit pairs (both most-significant bit first), zero-length filler up
//! to the fixed buffer length, and a trailing end mark. The decoder is the
//! exact inverse on well-shaped trains.
use vstd::prelude::*;
use vstd::arithmetic::power2::lemma2_to64;
use vstd::arithmetic::power2::lemma_pow2_strictly_increases;
use vstd::arithmetic::power2::lemma_pow2_unfold;
use vstd::arithmetic::power2::pow2;

verus! {

/// Largest tick count a single pulse may carry: the transmit hardware's
/// duration field is fifteen bits wide.
pub const MAX_PULSE_TICKS: u16 = 32767;

/// Start marker: mark duration in clock ticks.
pub const START_MARK_TICKS: u16 = 9000;

/// Start marker: space duration in clock ticks.
pub const START_SPACE_TICKS: u16 = 4500;

/// Every data bit opens with a mark of this duration.
pub const BIT_MARK_TICKS: u16 = 560;

/// Space duration that encodes a logical 0.
pub const ZERO_SPACE_TICKS: u16 = 560;

/// Space duration that encodes a logical 1.
pub const ONE_SPACE_TICKS: u16 = 1690;

/// Trailing end marker: mark duration; its space is zero-length.
pub const END_MARK_TICKS: u16 = 560;

/// Number of entries in an encoded pulse train.
pub const PULSE_TRAIN_LEN: usize = 67;

/// Signal level of a pulse while it lasts.
#[derive(Clone, Copy, PartialEq, Eq, Structural, Debug)]
pub enum Level {
    High,
    Low,
}

/// One timed pulse: hold `level` for `ticks` hardware clock ticks.
#[derive(Clone, Copy, PartialEq, Eq, Structural, Debug)]
pub struct PulseSpec {
    pub level: Level,
    pub ticks: u16,
}

impl PulseSpec {
    /// A pulse is well formed when its duration fits the hardware field.
    pub open spec fn wf(self) -> bool {
        self.ticks <= MAX_PULSE_TICKS
    }
}

/// A mark pulse followed by a space pulse: one slot of the pulse train.
#[derive(Clone, Copy, PartialEq, Eq, Structural, Debug)]
pub struct PulsePair {
    pub mark: PulseSpec,
    pub space: PulseSpec,
}

impl PulsePair {
    pub open spec fn wf(self) -> bool {
        self.mark.wf() && self.space.wf()
    }
}

/// An encoded command: an ordered train of mark/space pairs, consumed by the
/// pulse transmitter exactly once and never mutated after construction.
pub struct PulseSequence {
    pub pairs: Vec<PulsePair>,
}

impl View for PulseSequence {
    type V = Seq<PulsePair>;

    open spec fn view(&self) -> Seq<PulsePair> {
        self.pairs@
    }
}

/// Bit `k` of `v`, with bit 0 the least significant.
pub open spec fn nec_bit(v: u16, k: u16) -> bool {
    (v >> k) & 1 == 1
}

/// The fixed start pair: a long mark, then a long space.
pub open spec fn start_pair() -> PulsePair {
    PulsePair {
        mark: PulseSpec { level: Level::High, ticks: START_MARK_TICKS },
        space: PulseSpec { level: Level::Low, ticks: START_SPACE_TICKS },
    }
}

/// The pair that encodes one data bit: the space length tells 0 from 1.
pub open spec fn bit_pair(b: bool) -> PulsePair {
    PulsePair {
        mark: PulseSpec { level: Level::High, ticks: BIT_MARK_TICKS },
        space: PulseSpec {
            level: Level::Low,
            ticks: if b {
                ONE_SPACE_TICKS
            } else {
                ZERO_SPACE_TICKS
            },
        },
    }
}

/// The trailing pair: an end mark with a zero-length space.
pub open spec fn end_pair() -> PulsePair {
    PulsePair {
        mark: PulseSpec { level: Level::High, ticks: END_MARK_TICKS },
        space: PulseSpec { level: Level::Low, ticks: 0 },
    }
}

/// A zero-length slot: the fixed-length transmit buffer leaves unused slots
/// at rest level with no duration.
pub open spec fn filler_pair() -> PulsePair {
    PulsePair {
        mark: PulseSpec { level: Level::Low, ticks: 0 },
        space: PulseSpec { level: Level::Low, ticks: 0 },
    }
}

/// The encoded train for an address/command pair: slot 0 the start pair,
/// slots 1..=16 the address bits and 17..=32 the command bits (both most
/// significant first), slots 33..=65 filler, slot 66 the end pair.
pub open spec fn nec_encoded(address: u16, command: u16) -> Seq<PulsePair> {
    Seq::new(
        PULSE_TRAIN_LEN as nat,
        |i: int|
            if i == 0 {
                start_pair()
            } else if 1 <= i <= 16 {
                bit_pair(nec_bit(address, (16 - i) as u16))
            } else if 17 <= i <= 32 {
                bit_pair(nec_bit(command, (32 - i) as u16))
            } else if i == 66 {
                end_pair()
            } else {
                filler_pair()
            },
    )
}

pub fn start_pair_exec() -> (p: PulsePair)
    ensures
        p == start_pair(),
{
    PulsePair {
        mark: PulseSpec { level: Level::High, ticks: START_MARK_TICKS },
        space: PulseSpec { level: Level::Low, ticks: START_SPACE_TICKS },
    }
}

pub fn bit_pair_exec(b: bool) -> (p: PulsePair)
    ensures
        p == bit_pair(b),
{
    let ticks: u16 = if b {
        ONE_SPACE_TICKS
    } else {
        ZERO_SPACE_TICKS
    };
    PulsePair {
        mark: PulseSpec { level: Level::High, ticks: BIT_MARK_TICKS },
        space: PulseSpec { level: Level::Low, ticks },
    }
}

pub fn end_pair_exec() -> (p: PulsePair)
    ensures
        p == end_pair(),
{
    PulsePair {
        mark: PulseSpec { level: Level::High, ticks: END_MARK_TICKS },
        space: PulseSpec { level: Level::Low, ticks: 0 },
    }
}

pub fn filler_pair_exec() -> (p: PulsePair)
    ensures
        p == filler_pair(),
{
    PulsePair {
        mark: PulseSpec { level: Level::Low, ticks: 0 },
        space: PulseSpec { level: Level::Low, ticks: 0 },
    }
}

/// Encode an address/command pair as its NEC pulse train.
///
/// Every 16-bit input is accepted; the result always has exactly 67 entries,
/// opens with the start pair, closes with the end mark, and carries each bit
/// most-significant first as the length of its slot's space pulse.
pub fn encode(address: u16, command: u16) -> (r: PulseSequence)
    ensures
        r@ == nec_encoded(address, command),
        r@.len() == PULSE_TRAIN_LEN,
        r@[0] == start_pair(),
        r@[66] == end_pair(),
        forall|i: int| 1 <= i <= 16 ==> r@[i] == bit_pair(nec_bit(address, (16 - i) as u16)),
        forall|i: int| 17 <= i <= 32 ==> r@[i] == bit_pair(nec_bit(command, (32 - i) as u16)),
        forall|i: int| 0 <= i < 67 ==> r@[i].wf(),
{
    let ghost target: Seq<PulsePair> = nec_encoded(address, command);
    let mut pairs: Vec<PulsePair> = Vec::new();
    pairs.push(start_pair_exec());
    proof {
        assert(pairs@ =~= target.take(1));
    }
    let mut i: usize = 0;
    while i < 16
        invariant
            i <= 16,
            pairs@ == target.take(1 + i as int),
            target == nec_encoded(address, command),
        decreases 16 - i,
    {
        let shift: u16 = 15 - (i as u16);
        let b: bool = ((address >> shift) & 1) == 1;
        pairs.push(bit_pair_exec(b));
        proof {
            assert(target[1 + i as int] == bit_pair(nec_bit(address, (16 - (1 + i as int)) as u16)));
            assert(pairs@ =~= target.take(2 + i as int));
        }
        i = i + 1;
    }
    let mut j: usize = 0;
    while j < 16
        invariant
            j <= 16,
            pairs@ == target.take(17 + j as int),
            target == nec_encoded(address, command),
        decreases 16 - j,
    {
        let shift: u16 = 15 - (j as u16);
        let b: bool = ((command >> shift) & 1) == 1;
        pairs.push(bit_pair_exec(b));
        proof {
            assert(target[17 + j as int] == bit_pair(
                nec_bit(command, (32 - (17 + j as int)) as u16),
            ));
            assert(pairs@ =~= target.take(18 + j as int));
        }
        j = j + 1;
    }
    let mut k: usize = 33;
    while k < 66
        invariant
            33 <= k <= 66,
            pairs@ == target.take(k as int),
            target == nec_encoded(address, command),
        decreases 66 - k,
    {
        pairs.push(filler_pair_exec());
        proof {
            assert(target[k as int] == filler_pair());
            assert(pairs@ =~= target.take(k as int + 1));
        }
        k = k + 1;
    }
    pairs.push(end_pair_exec());
    proof {
        assert(pairs@ =~= target);
    }
    PulseSequence { pairs }
}

/// Whether a slot carries a data bit: a bit mark, and a space of either the
/// logical-0 or the logical-1 length.
pub open spec fn is_bit_pair(p: PulsePair) -> bool {
    p == bit_pair(true) || p == bit_pair(false)
}

/// Whether a train has the exact shape `encode` produces for some input.
pub open spec fn nec_shape(s: Seq<PulsePair>) -> bool {
    &&& s.len() == PULSE_TRAIN_LEN
    &&& s[0] == start_pair()
    &&& forall|i: int| 1 <= i <= 32 ==> is_bit_pair(#[trigger] s[i])
    &&& forall|i: int| 33 <= i <= 65 ==> #[trigger] s[i] == filler_pair()
    &&& s[66] == end_pair()
}

/// The word spelled by `k` consecutive bit slots starting at `base`, most
/// significant first: a slot whose space has the logical-1 length contributes
/// a 1 bit.
pub open spec fn word_rec(s: Seq<PulsePair>, base: int, k: int) -> int
    decreases k,
{
    if k <= 0 {
        0
    } else {
        2 * word_rec(s, base, k - 1) + if s[base + k - 1].space.ticks == ONE_SPACE_TICKS {
            1int
        } else {
            0int
        }
    }
}

/// What decoding a train yields: the address and command words when the train
/// is well shaped, nothing otherwise.
pub open spec fn nec_decoded(s: Seq<PulsePair>) -> Option<(u16, u16)> {
    if nec_shape(s) {
        Some(((word_rec(s, 1, 16) as u16), (word_rec(s, 17, 16) as u16)))
    } else {
        None
    }
}

proof fn lemma_word_rec_bound(s: Seq<PulsePair>, base: int, k: int)
    requires
        0 <= k,
    ensures
        0 <= word_rec(s, base, k) < pow2(k as nat),
    decreases k,
{
    if k == 0 {
        assert(pow2(0) == 1) by {
            lemma2_to64();
        }
    } else {
        lemma_word_rec_bound(s, base, k - 1);
        lemma_pow2_unfold(k as nat);
    }
}

proof fn lemma_u16_shr_zero(v: u16)
    by (bit_vector)
    ensures
        v >> 0u16 == v,
{
}

proof fn lemma_u16_shr_all(v: u16)
    by (bit_vector)
    ensures
        v >> 16u16 == 0,
{
}

proof fn lemma_u16_shift_step(v: u16, j: u16)
    by (bit_vector)
    requires
        j < 16,
    ensures
        (v >> j) == 2 * (v >> ((j + 1) as u16)) + ((v >> j) & 1),
{
}

/// The word read back from `k` slots that spell the low-to-high bits
/// `15 - (k-1) .. 15` of `v`, most significant first, equals `v` shifted
/// right past the bits not yet read.
proof fn lemma_word_rec_encoded(v: u16, s: Seq<PulsePair>, base: int, k: int)
    requires
        0 <= k <= 16,
        forall|j: int| 0 <= j < k ==> #[trigger] s[base + j] == bit_pair(nec_bit(v, (15 - j) as u16)),
    ensures
        word_rec(s, base, k) == (v >> ((16 - k) as u16)) as int,
    decreases k,
{
    if k == 0 {
        lemma_u16_shr_all(v);
    } else {
        lemma_word_rec_encoded(v, s, base, k - 1);
        let j: u16 = (16 - k) as u16;
        assert(s[base + k - 1] == bit_pair(nec_bit(v, (15 - (k - 1)) as u16)));
        assert((15 - (k - 1)) as u16 == j);
        lemma_u16_shift_step(v, j);
        assert(bit_pair(nec_bit(v, j)).space.ticks == ONE_SPACE_TICKS <==> (v >> j) & 1 == 1);
        assert((v >> j) & 1 == 1 || (v >> j) & 1 == 0) by (bit_vector);
    }
}

/// Round trip: decoding the train that `encode` produces for any
/// address/command pair reconstructs that pair exactly.
pub proof fn lemma_nec_round_trip(address: u16, command: u16)
    ensures
        nec_decoded(nec_encoded(address, command)) == Some((address, command)),
{
    let s = nec_encoded(address, command);
    assert forall|i: int| 1 <= i <= 32 implies is_bit_pair(#[trigger] s[i]) by {
        if i <= 16 {
            assert(s[i] == bit_pair(nec_bit(address, (16 - i) as u16)));
        } else {
            assert(s[i] == bit_pair(nec_bit(command, (32 - i) as u16)));
        }
    }
    assert(nec_shape(s));
    assert forall|j: int| 0 <= j < 16 implies #[trigger] s[1 + j] == bit_pair(
        nec_bit(address, (15 - j) as u16),
    ) by {
        assert(s[1 + j] == bit_pair(nec_bit(address, (16 - (1 + j)) as u16)));
    }
    lemma_word_rec_encoded(address, s, 1, 16);
    assert forall|j: int| 0 <= j < 16 implies #[trigger] s[17 + j] == bit_pair(
        nec_bit(command, (15 - j) as u16),
    ) by {
        assert(s[17 + j] == bit_pair(nec_bit(command, (32 - (17 + j)) as u16)));
    }
    lemma_word_rec_encoded(command, s, 17, 16);
    lemma_u16_shr_zero(address);
    lemma_u16_shr_zero(command);
}

fn decode_word(s: &Vec<PulsePair>, base: usize) -> (r: Option<u16>)
    requires
        s@.len() == PULSE_TRAIN_LEN,
        base + 16 <= s@.len(),
    ensures
        match r {
            Some(w) => w as int == word_rec(s@, base as int, 16) && forall|j: int|
                base <= j < base + 16 ==> is_bit_pair(#[trigger] s@[j]),
            None => exists|j: int| base <= j < base + 16 && !is_bit_pair(#[trigger] s@[j]),
        },
{
    let one = bit_pair_exec(true);
    let zero = bit_pair_exec(false);
    let mut acc: u32 = 0;
    let mut i: usize = 0;
    while i < 16
        invariant
            i <= 16,
            s@.len() == PULSE_TRAIN_LEN,
            base + 16 <= s@.len(),
            acc as int == word_rec(s@, base as int, i as int),
            one == bit_pair(true),
            zero == bit_pair(false),
            forall|j: int| base <= j < base + i ==> is_bit_pair(#[trigger] s@[j]),
        decreases 16 - i,
    {
        proof {
            lemma_word_rec_bound(s@, base as int, i as int);
            lemma_pow2_strictly_increases(i as nat, 17);
            lemma2_to64();
        }
        let p = s[base + i];
        if p == one {
            acc = acc * 2 + 1;
        } else if p == zero {
            acc = acc * 2;
        } else {
            proof {
                assert(!is_bit_pair(s@[base as int + i as int]));
            }
            return None;
        }
        i = i + 1;
    }
    proof {
        lemma_word_rec_bound(s@, base as int, 16);
        lemma2_to64();
    }
    Some(acc as u16)
}

/// Decode a pulse train: the exact inverse of `encode` on well-shaped trains,
/// and `None` on every train that no address/command pair encodes to.
pub fn decode(seq: &PulseSequence) -> (r: Option<(u16, u16)>)
    ensures
        r == nec_decoded(seq@),
{
    let s = &seq.pairs;
    if s.len() != PULSE_TRAIN_LEN {
        return None;
    }
    if !(s[0] == start_pair_exec()) {
        return None;
    }
    if !(s[66] == end_pair_exec()) {
        return None;
    }
    let filler = filler_pair_exec();
    let mut k: usize = 33;
    while k < 66
        invariant
            33 <= k <= 66,
            seq@ == s@,
            s@.len() == PULSE_TRAIN_LEN,
            filler == filler_pair(),
            forall|j: int| 33 <= j < k ==> #[trigger] s@[j] == filler_pair(),
        decreases 66 - k,
    {
        if !(s[k] == filler) {
            proof {
                assert(seq@[k as int] != filler_pair());
                assert(!nec_shape(seq@));
            }
            return None;
        }
        k = k + 1;
    }
    let address = match decode_word(s, 1) {
        Some(w) => w,
        None => {
            return None;
        },
    };
    let command = match decode_word(s, 17) {
        Some(w) => w,
        None => {
            return None;
        },
    };
    assert(nec_shape(seq@)) by {
        assert forall|i: int| 1 <= i <= 32 implies is_bit_pair(#[trigger] seq@[i]) by {
            if i <= 16 {
                assert(is_bit_pair(seq@[1 + (i - 1)]));
            } else {
                assert(is_bit_pair(seq@[17 + (i - 17)]));
            }
        }
    }
    Some((address, command))
}

} // verus!
