//! The frame counter and the time origin behind the `frame` and `time`
//! uniforms.
//!
//! The shader sees the frame counter as a binary32 float. A float counter
//! that grows by one per frame counts exactly up to 2^24 and then stays
//! there, since 2^24 + 1 is not a binary32 value. The clock keeps the count
//! as an integer with that bound and computes the float's bit pattern from
//! it.

use vstd::arithmetic::power2::{
    lemma2_to64,
    lemma_pow2_adds,
    lemma_pow2_pos,
    lemma_pow2_strictly_increases,
    lemma_pow2_unfold,
    pow2,
};
use vstd::prelude::*;

verus! {

/// The count at which the frame counter stops: 2^24.
pub const FRAME_LIMIT: u32 = 16_777_216;

/// The position of the highest set bit of `n`: the `e` with
/// `2^e <= n < 2^(e + 1)`, and 0 for `n == 0`.
pub open spec fn floor_log2(n: nat) -> nat
    decreases n,
{
    if n < 2 {
        0
    } else {
        1 + floor_log2(n / 2)
    }
}

/// The binary32 bit pattern of the float that equals `count`.
///
/// A positive count with highest set bit `e` has sign 0, exponent field
/// `127 + e`, and as fraction field the count scaled to 24 bits without its
/// leading one. Counts above `FRAME_LIMIT` are not all binary32 values; the
/// function is meant for the counts up to it.
pub open spec fn binary32_of_count(count: nat) -> nat
    recommends
        count <= FRAME_LIMIT,
{
    if count == 0 {
        0
    } else {
        let e = floor_log2(count);
        let significand = if e <= 23 {
            count * pow2((23 - e) as nat)
        } else {
            count / pow2((e - 23) as nat)
        };
        ((127 + e) * pow2(23) + (significand - pow2(23))) as nat
    }
}

/// The sign bit of a binary32 bit pattern.
pub open spec fn binary32_sign(bits: nat) -> nat {
    bits / pow2(31)
}

/// The exponent field of a binary32 bit pattern.
pub open spec fn binary32_exponent(bits: nat) -> nat {
    bits / pow2(23) % 256
}

/// The fraction field of a binary32 bit pattern.
pub open spec fn binary32_fraction(bits: nat) -> nat {
    bits % pow2(23)
}

/// `floor_log2` is the position of the highest set bit.
pub proof fn lemma_floor_log2(n: nat, e: nat)
    requires
        pow2(e) <= n < pow2(e + 1),
    ensures
        floor_log2(n) == e,
    decreases e,
{
    lemma_pow2_unfold(e + 1);
    if e == 0 {
        lemma2_to64();
    } else {
        lemma_pow2_unfold(e);
        lemma_floor_log2(n / 2, (e - 1) as nat);
    }
}

/// The bit pattern of a count from 1 to 2^24 is that of a positive normal
/// float whose value is the count: with exponent field `x` and fraction
/// field `f`, the float is `(2^23 + f) * 2^(x - 150)`.
pub proof fn lemma_binary32_denotes_count(count: nat)
    requires
        1 <= count <= FRAME_LIMIT,
    ensures
        binary32_of_count(count) < pow2(31),
        binary32_sign(binary32_of_count(count)) == 0,
        1 <= binary32_exponent(binary32_of_count(count)) <= 254,
        (pow2(23) + binary32_fraction(binary32_of_count(count))) * pow2(
            binary32_exponent(binary32_of_count(count)),
        ) == count * pow2(150),
{
    let bits = binary32_of_count(count);
    let e = floor_log2(count);
    lemma2_to64();
    lemma_count_exponent(count);
    lemma_pow2_pos(e);
    let significand: nat = if e <= 23 {
        count * pow2((23 - e) as nat)
    } else {
        count / pow2((e - 23) as nat)
    };
    lemma_count_significand(count);
    let x = 127 + e;
    let f = (significand - pow2(23)) as nat;
    assert(bits == x * pow2(23) + f);
    assert(f < pow2(23));
    assert(bits / pow2(23) == x && bits % pow2(23) == f) by {
        vstd::arithmetic::div_mod::lemma_fundamental_div_mod_converse(
            bits as int,
            pow2(23) as int,
            x as int,
            f as int,
        );
    }
    assert(x % 256 == x);
    assert(bits < pow2(31)) by {
        assert(bits < (x + 1) * pow2(23));
        assert((x + 1) * pow2(23) <= 152 * pow2(23)) by (nonlinear_arith)
            requires
                x + 1 <= 152,
        ;
    }
    assert(bits / pow2(31) == 0);
    assert((pow2(23) + f) * pow2(x as nat) == count * pow2(150)) by {
        assert(pow2(23) + f == significand);
        if e <= 23 {
            let k = (23 - e) as nat;
            lemma_pow2_adds(k, x as nat);
            assert(count * pow2(k) * pow2(x as nat) == count * (pow2(k) * pow2(x as nat)))
                by (nonlinear_arith);
        } else {
            assert(count == FRAME_LIMIT && e == 24);
            lemma_pow2_unfold(151);
            assert(significand == pow2(23));
            assert(pow2(23) * pow2(151) == pow2(24) * pow2(150)) by {
                lemma_pow2_adds(23, 151);
                lemma_pow2_adds(24, 150);
            }
        }
    }
}

/// A count from 1 to 2^24 has its highest set bit at position 24 or below,
/// and only 2^24 itself has it at 24.
proof fn lemma_count_exponent(count: nat)
    requires
        1 <= count <= FRAME_LIMIT,
    ensures
        floor_log2(count) <= 24,
        pow2(floor_log2(count)) <= count < pow2(floor_log2(count) + 1),
        floor_log2(count) == 24 ==> count == FRAME_LIMIT,
    decreases count,
{
    lemma2_to64();
    if count < 2 {
    } else {
        lemma_count_exponent(count / 2);
        let e = floor_log2(count / 2);
        lemma_pow2_unfold(e + 1);
        lemma_pow2_unfold(e + 2);
        if e + 1 > 24 {
            lemma_pow2_strictly_increases(24, e + 1);
        }
    }
}

/// The significand of a count from 1 to 2^24 fills exactly 24 bits.
proof fn lemma_count_significand(count: nat)
    requires
        1 <= count <= FRAME_LIMIT,
    ensures
        ({
            let e = floor_log2(count);
            let significand = if e <= 23 {
                count * pow2((23 - e) as nat)
            } else {
                count / pow2((e - 23) as nat)
            };
            pow2(23) <= significand < pow2(24)
        }),
{
    let e = floor_log2(count);
    lemma2_to64();
    lemma_count_exponent(count);
    if e <= 23 {
        let k = (23 - e) as nat;
        lemma_pow2_adds(e, k);
        lemma_pow2_adds(e + 1, k);
        lemma_pow2_pos(k);
        assert(pow2(e) * pow2(k) <= count * pow2(k)) by (nonlinear_arith)
            requires
                pow2(e) <= count,
        ;
        assert(count * pow2(k) < pow2(e + 1) * pow2(k)) by (nonlinear_arith)
            requires
                count < pow2(e + 1),
                pow2(k) > 0,
        ;
    } else {
        assert(e == 24 && count == FRAME_LIMIT);
    }
}

/// What a clock holds.
pub struct ClockState {
    /// The instant of the last reset, in the host's ticks.
    pub origin: u64,
    /// Frames shown since the last reset.
    pub frame: nat,
}

impl ClockState {
    /// The count stays within what a float counter can reach.
    pub open spec fn wf(self) -> bool {
        self.frame <= FRAME_LIMIT
    }

    /// The clock after a reset at `now`.
    pub open spec fn reset(self, now: u64) -> ClockState {
        ClockState { origin: now, frame: 0 }
    }

    /// The clock after one more frame was shown.
    pub open spec fn advance(self) -> ClockState {
        ClockState {
            origin: self.origin,
            frame: if self.frame < FRAME_LIMIT {
                self.frame + 1
            } else {
                self.frame
            },
        }
    }

    /// Ticks from the last reset to `now`; zero where `now` lies before it.
    pub open spec fn elapsed(self, now: u64) -> nat {
        if now >= self.origin {
            (now - self.origin) as nat
        } else {
            0
        }
    }
}

/// Counts frames and remembers when the count last started over.
///
/// Instants are integers in a unit of the host's choosing, taken from a
/// clock that does not run backwards.
#[derive(Clone, Copy, Debug)]
pub struct FrameClock {
    origin: u64,
    frame: u32,
}

impl View for FrameClock {
    type V = ClockState;

    closed spec fn view(&self) -> ClockState {
        ClockState { origin: self.origin, frame: self.frame as nat }
    }
}

impl FrameClock {
    #[verifier::type_invariant]
    spec fn inv(self) -> bool {
        self.frame <= FRAME_LIMIT
    }

    /// A clock that starts counting at `now`.
    pub fn new(now: u64) -> (clock: FrameClock)
        ensures
            clock@ == (ClockState { origin: now, frame: 0 }),
            clock@.wf(),
    {
        FrameClock { origin: now, frame: 0 }
    }

    /// Starts the count over and makes `now` the new time origin.
    pub fn reset(&mut self, now: u64)
        ensures
            final(self)@ == old(self)@.reset(now),
            final(self)@.wf(),
    {
        self.frame = 0;
        self.origin = now;
    }

    /// Counts one more frame; at `FRAME_LIMIT` the count stays.
    pub fn advance(&mut self)
        ensures
            final(self)@ == old(self)@.advance(),
            final(self)@.wf(),
    {
        proof {
            use_type_invariant(&*self);
        }
        if self.frame < FRAME_LIMIT {
            self.frame = self.frame + 1;
        }
    }

    /// Ticks from the last reset to `now`.
    pub fn elapsed(&self, now: u64) -> (ticks: u64)
        ensures
            ticks == self@.elapsed(now),
    {
        if now >= self.origin {
            now - self.origin
        } else {
            0
        }
    }

    /// Frames shown since the last reset.
    pub fn frame(&self) -> (count: u32)
        ensures
            count == self@.frame,
            self@.wf(),
    {
        proof {
            use_type_invariant(self);
        }
        self.frame
    }

    /// The instant of the last reset.
    pub fn origin(&self) -> (instant: u64)
        ensures
            instant == self@.origin,
    {
        self.origin
    }

    /// The frame count as the bit pattern of a binary32 float.
    pub fn frame_bits(&self) -> (bits: u32)
        ensures
            bits == binary32_of_count(self@.frame),
            self@.wf(),
    {
        proof {
            use_type_invariant(self);
        }
        count_bits(self.frame)
    }
}

/// The bit pattern of the binary32 float that equals `count`.
pub(crate) fn count_bits(count: u32) -> (bits: u32)
    requires
        count <= FRAME_LIMIT,
    ensures
        bits == binary32_of_count(count as nat),
{
    if count == 0 {
        return 0;
    }
    proof {
        lemma2_to64();
        lemma_count_exponent(count as nat);
    }
    if count == FRAME_LIMIT {
        proof {
            lemma_floor_log2(count as nat, 24);
        }
        return 0x4B80_0000;
    }
    let mut significand: u32 = count;
    let mut exponent: u32 = 150;
    let ghost mut shift: nat = 0;
    while significand < 8_388_608
        invariant
            0 < count < FRAME_LIMIT,
            significand == count * pow2(shift),
            exponent + shift == 150,
            shift <= 23,
            0 < significand < 16_777_216,
        decreases 24 - shift,
    {
        proof {
            lemma2_to64();
            lemma_pow2_unfold(shift + 1);
            if shift >= 23 {
                if shift > 23 {
                    lemma_pow2_strictly_increases(23, shift);
                }
                assert(count * pow2(shift) >= pow2(shift)) by (nonlinear_arith)
                    requires
                        count >= 1,
                ;
            }
            assert(count * (2 * pow2(shift)) == 2 * (count * pow2(shift))) by (nonlinear_arith);
        }
        significand = significand * 2;
        exponent = exponent - 1;
        proof {
            shift = shift + 1;
        }
    }
    proof {
        lemma2_to64();
        let e = (23 - shift) as nat;
        lemma_pow2_adds(e, shift);
        lemma_pow2_adds(e + 1, shift);
        lemma_pow2_pos(shift);
        assert(pow2(e) <= count) by (nonlinear_arith)
            requires
                pow2(e) * pow2(shift) <= count * pow2(shift),
                pow2(shift) > 0,
        ;
        assert(count < pow2(e + 1)) by (nonlinear_arith)
            requires
                count * pow2(shift) < pow2(e + 1) * pow2(shift),
                pow2(shift) > 0,
        ;
        lemma_floor_log2(count as nat, e);
        assert(exponent * 8_388_608 <= 150 * 8_388_608) by (nonlinear_arith)
            requires
                exponent <= 150,
        ;
    }
    exponent * 8_388_608 + (significand - 8_388_608)
}

} // verus!
