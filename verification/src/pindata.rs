//! The counter pair that the TPM keeps for each PIN.
use vstd::prelude::*;

verus! {

/// Contents of a `PinFail` index: the failed attempts so far and the number at
/// which the TPM locks the PIN.
#[allow(non_snake_case)]
#[derive(Debug, Clone, Copy, PartialEq, Eq, Structural)]
pub struct PinData {
    pub pinCount: i32,
    pub pinLimit: i32,
}

/// The number whose big-endian bytes are the first four of `b`.
pub open spec fn be_u32(b: Seq<u8>) -> int {
    ((b[0] * 256 + b[1]) * 256 + b[2]) * 256 + b[3]
}

/// The signed number whose big-endian two's complement bytes are the first
/// four of `b`.
pub open spec fn be_i32(b: Seq<u8>) -> int {
    if be_u32(b) < 0x8000_0000 {
        be_u32(b)
    } else {
        be_u32(b) - 0x1_0000_0000
    }
}

/// The big-endian two's complement bytes of `v`.
pub open spec fn be_bytes(v: i32) -> Seq<u8> {
    let u = if v < 0 {
        v + 0x1_0000_0000
    } else {
        v as int
    };
    seq![
        (u / 0x100_0000) as u8,
        (u / 0x1_0000 % 0x100) as u8,
        (u / 0x100 % 0x100) as u8,
        (u % 0x100) as u8,
    ]
}

/// The pair that a payload holds: the count in its first four bytes, the limit
/// in the next four. What follows is ignored; a shorter payload holds none.
pub open spec fn decoded(b: Seq<u8>) -> Option<PinData> {
    if b.len() < 8 {
        None
    } else {
        Some(PinData { pinCount: be_i32(b) as i32, pinLimit: be_i32(b.skip(4)) as i32 })
    }
}

/// The payload that holds a pair.
pub open spec fn encoded(d: PinData) -> Seq<u8> {
    be_bytes(d.pinCount) + be_bytes(d.pinLimit)
}

/// Reads a signed 32-bit number at `at`.
fn read_be_i32(b: &[u8], at: usize) -> (v: i32)
    requires
        at + 4 <= b@.len(),
    ensures
        v == be_i32(b@.skip(at as int)),
{
    let u: u32 = ((b[at] as u32 * 256 + b[at + 1] as u32) * 256 + b[at + 2] as u32) * 256 + b[at
        + 3] as u32;
    if u < 0x8000_0000 {
        u as i32
    } else {
        (u as i64 - 0x1_0000_0000) as i32
    }
}

/// Appends a signed 32-bit number.
fn push_be_i32(out: &mut Vec<u8>, v: i32)
    ensures
        final(out)@ == old(out)@ + be_bytes(v),
{
    let u: u64 = if v < 0 {
        (v as i64 + 0x1_0000_0000) as u64
    } else {
        v as u64
    };
    out.push((u / 0x100_0000) as u8);
    out.push((u / 0x1_0000 % 0x100) as u8);
    out.push((u / 0x100 % 0x100) as u8);
    out.push((u % 0x100) as u8);
    assert(out@ =~= old(out)@ + be_bytes(v));
}

impl PinData {
    /// Number of bytes in a payload.
    pub const SIZE: usize = 8;

    pub fn new(pin_count: i32, pin_limit: i32) -> (d: PinData)
        ensures
            d.pinCount == pin_count,
            d.pinLimit == pin_limit,
    {
        PinData { pinCount: pin_count, pinLimit: pin_limit }
    }

    /// Reads a TPM NV payload; `None` if it is too short.
    pub fn from_bytes(bytes: &[u8]) -> (r: Option<PinData>)
        ensures
            r == decoded(bytes@),
    {
        if bytes.len() < 8 {
            None
        } else {
            assert(bytes@.skip(0) =~= bytes@);
            Some(PinData { pinCount: read_be_i32(bytes, 0), pinLimit: read_be_i32(bytes, 4) })
        }
    }

    /// The TPM NV payload.
    pub fn to_bytes(&self) -> (r: Vec<u8>)
        ensures
            r@ == encoded(*self),
            r@.len() == PinData::SIZE,
    {
        let mut out: Vec<u8> = Vec::with_capacity(PinData::SIZE);
        push_be_i32(&mut out, self.pinCount);
        push_be_i32(&mut out, self.pinLimit);
        assert(out@ =~= encoded(*self));
        out
    }

    /// True once the failed attempts have reached the limit.
    pub open spec fn exhausted(self) -> bool {
        self.pinCount >= self.pinLimit
    }

    /// True once the failed attempts have reached the limit.
    pub fn is_exhausted(&self) -> (b: bool)
        ensures
            b == self.exhausted(),
    {
        self.pinCount >= self.pinLimit
    }
}

/// The attempt counters as they are shown to users: never negative.
#[derive(Debug, Clone, Copy, PartialEq, Eq, Structural)]
pub struct AttemptInfo {
    pub used: u32,
    pub limit: u32,
}

/// The counters of a slot with negative values shown as zero.
pub open spec fn attempts_of(slot: PinData) -> AttemptInfo {
    AttemptInfo {
        used: (if slot.pinCount < 0 { 0 } else { slot.pinCount as int }) as u32,
        limit: (if slot.pinLimit < 0 { 0 } else { slot.pinLimit as int }) as u32,
    }
}

impl AttemptInfo {
    pub fn from_pin_data(slot: PinData) -> (r: AttemptInfo)
        ensures
            r == attempts_of(slot),
    {
        let used: u32 = if slot.pinCount < 0 {
            0
        } else {
            slot.pinCount as u32
        };
        let limit: u32 = if slot.pinLimit <= 0 {
            0
        } else {
            slot.pinLimit as u32
        };
        AttemptInfo { used, limit }
    }

    /// True if there is a limit and it has been reached.
    pub open spec fn is_locked(self) -> bool {
        self.limit > 0 && self.used >= self.limit
    }

    pub fn locked(&self) -> (b: bool)
        ensures
            b == self.is_locked(),
    {
        self.limit > 0 && self.used >= self.limit
    }

    pub fn prompt_tuple(&self) -> (r: (u32, u32))
        ensures
            r == (self.used, self.limit),
    {
        (self.used, self.limit)
    }

    /// The attempts that are left, or `None` if more were used than there are.
    pub fn remaining(&self) -> (r: Option<u32>)
        ensures
            r == (if self.used <= self.limit {
                Some((self.limit - self.used) as u32)
            } else {
                None
            }),
    {
        self.limit.checked_sub(self.used)
    }
}

/// Reading a payload gives back what was written to it.
pub proof fn law_payload_round_trip(d: PinData)
    ensures
        encoded(d).len() == PinData::SIZE,
        decoded(encoded(d)) == Some(d),
{
    lemma_be_round_trip(d.pinCount);
    lemma_be_round_trip(d.pinLimit);
    let b = encoded(d);
    assert(b.skip(4) =~= be_bytes(d.pinLimit));
    assert(be_u32(b) == be_u32(be_bytes(d.pinCount)));
}

/// Writing what was read from a payload of the right size gives the payload
/// back.
pub proof fn law_payload_is_canonical(b: Seq<u8>)
    requires
        b.len() == PinData::SIZE,
    ensures
        decoded(b) is Some,
        encoded(decoded(b)->0) == b,
{
    lemma_be_canonical(b);
    lemma_be_canonical(b.skip(4));
    assert(encoded(decoded(b)->0) =~= b);
}

proof fn lemma_be_canonical(b: Seq<u8>)
    requires
        b.len() >= 4,
    ensures
        i32::MIN <= be_i32(b) <= i32::MAX,
        be_bytes(be_i32(b) as i32) == b.take(4),
{
    let u = be_u32(b);
    let (b0, b1, b2, b3) = (b[0] as int, b[1] as int, b[2] as int, b[3] as int);
    assert(u / 0x100 == (b0 * 256 + b1) * 256 + b2 && u % 0x100 == b3);
    assert(u / 0x1_0000 == b0 * 256 + b1 && u / 0x100 % 0x100 == b2);
    assert(u / 0x100_0000 == b0 && u / 0x1_0000 % 0x100 == b1);
    let v = be_i32(b) as i32;
    assert(u == (if v < 0 { v + 0x1_0000_0000 } else { v as int }));
    assert(be_bytes(v) =~= b.take(4));
}

proof fn lemma_be_round_trip(v: i32)
    ensures
        be_i32(be_bytes(v)) == v,
{
    let u = if v < 0 {
        v + 0x1_0000_0000
    } else {
        v as int
    };
    assert(u == ((u / 0x100_0000 * 256 + u / 0x1_0000 % 0x100) * 256 + u / 0x100 % 0x100) * 256 + u
        % 0x100);
}

/// What is shown of counters that are not negative is what they are, and the user
/// counts as locked out exactly when there is a limit and the TPM has reached it.
pub proof fn law_shown_counters(slot: PinData)
    ensures
        slot.pinCount >= 0 ==> attempts_of(slot).used == slot.pinCount,
        slot.pinLimit >= 0 ==> attempts_of(slot).limit == slot.pinLimit,
        slot.pinCount < 0 ==> attempts_of(slot).used == 0,
        slot.pinLimit < 0 ==> attempts_of(slot).limit == 0,
        slot.pinLimit > 0 ==> attempts_of(slot).is_locked() == slot.exhausted(),
        slot.pinLimit <= 0 ==> !attempts_of(slot).is_locked(),
{
}

/// The count comes first and the limit last, each with its most significant byte first
/// and in two's complement.
pub proof fn law_payload_is_big_endian(d: PinData)
    ensures
        ({
            let b = encoded(d);
            let count = b[0] * 0x100_0000 + b[1] * 0x1_0000 + b[2] * 0x100 + b[3];
            let limit = b[4] * 0x100_0000 + b[5] * 0x1_0000 + b[6] * 0x100 + b[7];
            &&& b.len() == 8
            &&& d.pinCount == if count < 0x8000_0000 {
                count
            } else {
                count - 0x1_0000_0000
            }
            &&& d.pinLimit == if limit < 0x8000_0000 {
                limit
            } else {
                limit - 0x1_0000_0000
            }
        }),
{
    lemma_be_round_trip(d.pinCount);
    lemma_be_round_trip(d.pinLimit);
    let b = encoded(d);
    assert(b.take(4) =~= be_bytes(d.pinCount));
    assert(b.skip(4) =~= be_bytes(d.pinLimit));
}

} // verus!
