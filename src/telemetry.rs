//! Decoding of the arm's fixed-layout real-time telemetry frame.
//!
//! A frame is a four-byte big-endian length prefix (counting itself) followed
//! by the body. Only frames of [`FRAME_SIZE`] bytes are recognised; every field
//! of interest is an IEEE-754 double stored big-endian in the body. Doubles are
//! kept as their raw bit patterns, and the integer-valued fields are converted
//! the way a Rust `as` cast truncates a double.
use vstd::arithmetic::power2::*;
use vstd::prelude::*;

verus! {

/// Total size, prefix included, of the one frame kind that is decoded.
pub const FRAME_SIZE: u32 = 1220;

/// Size of the body of a recognised frame.
pub const BODY_SIZE: usize = 1216;

/// Body offset of the six joint positions.
pub const JOINT_POSITIONS_AT: usize = 248;

/// Body offset of the six joint speeds.
pub const JOINT_SPEEDS_AT: usize = 296;

/// Body offset of the digital input bitmap.
pub const DIGITAL_INPUTS_AT: usize = 680;

/// Body offset of the robot machine state.
pub const ROBOT_STATE_AT: usize = 808;

/// Body offset of the digital output bitmap.
pub const DIGITAL_OUTPUTS_AT: usize = 1040;

/// Body offset of the program machine state.
pub const PROGRAM_STATE_AT: usize = 1048;

/// Number of joints of the arm.
pub const JOINTS: usize = 6;

/// The big-endian unsigned value of `s[off..off + 4]`.
pub open spec fn be_u32_at(s: Seq<u8>, off: int) -> int {
    s[off] * 0x1000000 + s[off + 1] * 0x10000 + s[off + 2] * 0x100 + s[off + 3]
}

/// The big-endian unsigned value of `s[off..off + 8]`.
pub open spec fn be_u64_at(s: Seq<u8>, off: int) -> int {
    s[off] * 0x100000000000000 + s[off + 1] * 0x1000000000000 + s[off + 2] * 0x10000000000
        + s[off + 3] * 0x100000000 + s[off + 4] * 0x1000000 + s[off + 5] * 0x10000 + s[off + 6]
        * 0x100 + s[off + 7]
}

/// Whether bit `k` of `x` is set.
pub open spec fn bit_set(x: int, k: nat) -> bool {
    (x / (pow2(k) as int)) % 2 == 1
}

/// Sign bit of an IEEE-754 double.
pub open spec fn f64_negative(bits: u64) -> bool {
    bits >= 0x8000000000000000
}

/// Biased exponent field of an IEEE-754 double.
pub open spec fn f64_exponent(bits: u64) -> int {
    (bits as int / 0x10000000000000) % 0x800
}

/// Fraction field of an IEEE-754 double.
pub open spec fn f64_fraction(bits: u64) -> int {
    bits as int % 0x10000000000000
}

pub open spec fn f64_is_nan(bits: u64) -> bool {
    f64_exponent(bits) == 0x7ff && f64_fraction(bits) != 0
}

pub open spec fn f64_is_infinite(bits: u64) -> bool {
    f64_exponent(bits) == 0x7ff && f64_fraction(bits) == 0
}

/// Magnitude of a finite double, rounded toward zero.
///
/// A normal double is `(2^52 + fraction) * 2^(exponent - 1075)`; a subnormal
/// one (exponent field zero) is below one.
pub open spec fn f64_trunc_magnitude(bits: u64) -> int {
    let e = f64_exponent(bits);
    let m = f64_fraction(bits) + 0x10000000000000;
    if e == 0 {
        0
    } else if e >= 1075 {
        m * pow2((e - 1075) as nat)
    } else {
        m / pow2((1075 - e) as nat) as int
    }
}

/// Value of a finite double, rounded toward zero.
pub open spec fn f64_trunc(bits: u64) -> int {
    if f64_negative(bits) {
        -f64_trunc_magnitude(bits)
    } else {
        f64_trunc_magnitude(bits)
    }
}

pub open spec fn clamp(x: int, lo: int, hi: int) -> int {
    if x < lo {
        lo
    } else if x > hi {
        hi
    } else {
        x
    }
}

/// What `value as T` gives for a double `value` and an integer type `T`
/// whose range is `lo..=hi`: rounded toward zero, saturated at the bounds,
/// and zero for NaN.
pub open spec fn f64_cast(bits: u64, lo: int, hi: int) -> int {
    if f64_is_nan(bits) {
        0
    } else if f64_is_infinite(bits) {
        if f64_negative(bits) {
            lo
        } else {
            hi
        }
    } else {
        clamp(f64_trunc(bits), lo, hi)
    }
}

/// Total size of a telemetry frame, as announced by its four-byte big-endian prefix.
pub fn frame_size(prefix: [u8; 4]) -> (r: u32)
    ensures
        r == be_u32_at(prefix@, 0),
{
    (prefix[0] as u32) * 0x1000000 + (prefix[1] as u32) * 0x10000 + (prefix[2] as u32) * 0x100
        + (prefix[3] as u32)
}

/// Number of bytes that follow the prefix of a frame of `size` bytes; a size
/// too small to hold its own prefix announces no body.
pub fn body_len(size: u32) -> (r: usize)
    ensures
        r == if size >= 4 {
            size - 4
        } else {
            0
        },
{
    if size >= 4 {
        (size - 4) as usize
    } else {
        0
    }
}

/// The big-endian 64-bit word at `off`.
pub fn read_be_u64(s: &[u8], off: usize) -> (r: u64)
    requires
        off + 8 <= s@.len(),
    ensures
        r == be_u64_at(s@, off as int),
{
    (s[off] as u64) * 0x100000000000000 + (s[off + 1] as u64) * 0x1000000000000 + (s[off + 2]
        as u64) * 0x10000000000 + (s[off + 3] as u64) * 0x100000000 + (s[off + 4] as u64)
        * 0x1000000 + (s[off + 5] as u64) * 0x10000 + (s[off + 6] as u64) * 0x100 + (s[off
        + 7] as u64)
}

/// `2^k` for a small `k`.
fn pow2_u64(k: u64) -> (r: u64)
    requires
        k <= 52,
    ensures
        r == pow2(k as nat),
        1 <= r <= 0x10000000000000,
{
    let mut p: u64 = 1;
    let mut i: u64 = 0;
    proof {
        lemma2_to64();
        lemma2_to64_rest();
    }
    while i < k
        invariant
            i <= k <= 52,
            p == pow2(i as nat),
            p >= 1,
            pow2(52) == 0x10000000000000,
        decreases k - i,
    {
        proof {
            lemma_pow2_unfold((i + 1) as nat);
            if i + 1 < 52 {
                lemma_pow2_strictly_increases((i + 1) as nat, 52);
            }
        }
        p = p * 2;
        i = i + 1;
    }
    p
}

/// Upper bound past which every truncated magnitude saturates both target types.
const MAGNITUDE_CAP: u64 = 0x100000000;

/// The truncated magnitude of a finite double, capped at [`MAGNITUDE_CAP`].
fn capped_magnitude(bits: u64) -> (r: u64)
    requires
        f64_exponent(bits) != 0x7ff,
    ensures
        r == if f64_trunc_magnitude(bits) >= MAGNITUDE_CAP {
            MAGNITUDE_CAP as int
        } else {
            f64_trunc_magnitude(bits)
        },
{
    let e = (bits / 0x10000000000000) % 0x800;
    let m = bits % 0x10000000000000 + 0x10000000000000;
    if e == 0 {
        0
    } else if e >= 1075 {
        proof {
            lemma_pow2_pos((e - 1075) as nat);
            assert(m * pow2((e - 1075) as nat) >= m) by (nonlinear_arith)
                requires
                    pow2((e - 1075) as nat) >= 1,
                    m >= 0,
            ;
        }
        MAGNITUDE_CAP
    } else if 1075 - e > 52 {
        proof {
            lemma2_to64_rest();
            if 1075 - e > 53 {
                lemma_pow2_strictly_increases(53, (1075 - e) as nat);
            }
            assert(m < pow2(53));
            assert(m as int / pow2((1075 - e) as nat) as int == 0) by (nonlinear_arith)
                requires
                    0 <= m < pow2((1075 - e) as nat),
            ;
        }
        0
    } else {
        let p = pow2_u64(1075 - e);
        proof {
            lemma_pow2_pos((1075 - e) as nat);
            assert(m / p <= m) by (nonlinear_arith)
                requires
                    p >= 1,
                    m >= 0,
            ;
        }
        let q = m / p;
        if q >= MAGNITUDE_CAP {
            MAGNITUDE_CAP
        } else {
            q
        }
    }
}

/// `value as u32` for the double whose bit pattern is `bits`.
pub fn f64_bits_to_u32(bits: u64) -> (r: u32)
    ensures
        r == f64_cast(bits, 0, u32::MAX as int),
{
    let e = (bits / 0x10000000000000) % 0x800;
    let f = bits % 0x10000000000000;
    let negative = bits >= 0x8000000000000000;
    if e == 0x7ff {
        if f != 0 || negative {
            0
        } else {
            u32::MAX
        }
    } else {
        let mag = capped_magnitude(bits);
        if negative {
            0
        } else if mag >= MAGNITUDE_CAP {
            u32::MAX
        } else {
            mag as u32
        }
    }
}

/// `value as i32` for the double whose bit pattern is `bits`.
pub fn f64_bits_to_i32(bits: u64) -> (r: i32)
    ensures
        r == f64_cast(bits, i32::MIN as int, i32::MAX as int),
{
    let e = (bits / 0x10000000000000) % 0x800;
    let f = bits % 0x10000000000000;
    let negative = bits >= 0x8000000000000000;
    if e == 0x7ff {
        if f != 0 {
            0
        } else if negative {
            i32::MIN
        } else {
            i32::MAX
        }
    } else {
        let mag = capped_magnitude(bits);
        if negative {
            if mag >= 0x80000000 {
                i32::MIN
            } else {
                -(mag as i32)
            }
        } else if mag >= 0x7fffffff {
            i32::MAX
        } else {
            mag as i32
        }
    }
}

/// Whether input `i` (0 to 9) is set in a digital input bitmap: inputs 0 to 7
/// are bits 0 to 7, and the two tool inputs 8 and 9 are bits 16 and 17.
pub open spec fn input_flag(bitmap: int, i: int) -> bool {
    if i < 8 {
        bit_set(bitmap, i as nat)
    } else {
        bit_set(bitmap, (i + 8) as nat)
    }
}

/// Whether bit `k` of `x` is set.
fn test_bit(x: u32, k: u64) -> (r: bool)
    requires
        k <= 52,
    ensures
        r == bit_set(x as int, k as nat),
{
    let p = pow2_u64(k);
    (x as u64) / p % 2 == 1
}

/// The ten digital inputs of a digital input bitmap.
pub fn input_flags(bitmap: u32) -> (r: Vec<bool>)
    ensures
        r@.len() == 10,
        forall|i: int| 0 <= i < 10 ==> r@[i] == input_flag(bitmap as int, i),
{
    let mut r: Vec<bool> = Vec::new();
    for i in 0..10u64
        invariant
            r@.len() == i,
            forall|j: int| 0 <= j < i ==> r@[j] == input_flag(bitmap as int, j),
    {
        let k = if i < 8 {
            i
        } else {
            i + 8
        };
        r.push(test_bit(bitmap, k));
    }
    r
}

/// The eight digital outputs of a digital output bitmap: output `i` is bit `i`.
pub fn output_flags(bitmap: u32) -> (r: Vec<bool>)
    ensures
        r@.len() == 8,
        forall|i: int| 0 <= i < 8 ==> r@[i] == bit_set(bitmap as int, i as nat),
{
    let mut r: Vec<bool> = Vec::new();
    for i in 0..8u64
        invariant
            r@.len() == i,
            forall|j: int| 0 <= j < i ==> r@[j] == bit_set(bitmap as int, j as nat),
    {
        r.push(test_bit(bitmap, i));
    }
    r
}

/// The six doubles, as bit patterns, stored from `off` on.
pub open spec fn doubles_at(body: Seq<u8>, off: int, v: Seq<u64>) -> bool {
    &&& v.len() == JOINTS
    &&& forall|i: int| 0 <= i < JOINTS ==> v[i] == be_u64_at(body, off + 8 * i)
}

/// The double at `off`, converted to `u32`.
pub open spec fn u32_field(body: Seq<u8>, off: int) -> int {
    f64_cast(be_u64_at(body, off) as u64, 0, u32::MAX as int)
}

/// The double at `off`, converted to `i32`.
pub open spec fn i32_field(body: Seq<u8>, off: int) -> int {
    f64_cast(be_u64_at(body, off) as u64, i32::MIN as int, i32::MAX as int)
}

/// The fields of a recognised telemetry frame. Joint positions and speeds are
/// the bit patterns of their doubles.
pub struct TelemetrySample {
    pub joint_positions: Vec<u64>,
    pub joint_speeds: Vec<u64>,
    pub digital_inputs: Vec<bool>,
    pub digital_outputs: Vec<bool>,
    pub robot_state: i32,
    pub program_state: i32,
}

impl TelemetrySample {
    /// This sample holds exactly the fields of the frame body `body`.
    pub open spec fn decoded_from(&self, body: Seq<u8>) -> bool {
        &&& doubles_at(body, JOINT_POSITIONS_AT as int, self.joint_positions@)
        &&& doubles_at(body, JOINT_SPEEDS_AT as int, self.joint_speeds@)
        &&& self.robot_state == i32_field(body, ROBOT_STATE_AT as int)
        &&& self.program_state == i32_field(body, PROGRAM_STATE_AT as int)
        &&& self.digital_inputs@.len() == 10
        &&& forall|i: int|
            0 <= i < 10 ==> self.digital_inputs@[i] == input_flag(
                u32_field(body, DIGITAL_INPUTS_AT as int),
                i,
            )
        &&& self.digital_outputs@.len() == 8
        &&& forall|i: int|
            0 <= i < 8 ==> self.digital_outputs@[i] == bit_set(
                u32_field(body, DIGITAL_OUTPUTS_AT as int),
                i as nat,
            )
    }
}

/// The six doubles stored from `off` on.
fn read_doubles(body: &[u8], off: usize) -> (r: Vec<u64>)
    requires
        off + 8 * JOINTS <= body@.len(),
    ensures
        doubles_at(body@, off as int, r@),
{
    let n = body.len();
    let mut r: Vec<u64> = Vec::new();
    for i in 0..JOINTS
        invariant
            n == body@.len(),
            off + 8 * JOINTS <= n,
            r@.len() == i,
            forall|j: int| 0 <= j < i ==> r@[j] == be_u64_at(body@, off + 8 * j),
    {
        r.push(read_be_u64(body, off + 8 * i));
    }
    r
}

/// Decodes the body of a telemetry frame: a frame of any size but
/// [`FRAME_SIZE`] is not recognised.
pub fn decode_frame(body: &[u8]) -> (r: Option<TelemetrySample>)
    ensures
        r is Some <==> body@.len() == BODY_SIZE,
        r matches Some(s) ==> s.decoded_from(body@),
{
    if body.len() != BODY_SIZE {
        return None;
    }
    let joint_positions = read_doubles(body, JOINT_POSITIONS_AT);
    let joint_speeds = read_doubles(body, JOINT_SPEEDS_AT);
    let inputs = f64_bits_to_u32(read_be_u64(body, DIGITAL_INPUTS_AT));
    let robot_state = f64_bits_to_i32(read_be_u64(body, ROBOT_STATE_AT));
    let outputs = f64_bits_to_u32(read_be_u64(body, DIGITAL_OUTPUTS_AT));
    let program_state = f64_bits_to_i32(read_be_u64(body, PROGRAM_STATE_AT));
    Some(
        TelemetrySample {
            joint_positions,
            joint_speeds,
            digital_inputs: input_flags(inputs),
            digital_outputs: output_flags(outputs),
            robot_state,
            program_state,
        },
    )
}

} // verus!
