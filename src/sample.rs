use vstd::prelude::*;

verus! {

/// The element type of a segment's sample payload.
#[derive(Debug, Clone, Copy, PartialEq, Eq, Structural)]
pub enum MSSampleType {
    Integer32,
    Float32,
    Float64,
}

/// The one-byte tag that the format uses for each sample type.
pub open spec fn tag_of(t: MSSampleType) -> i8 {
    match t {
        MSSampleType::Integer32 => 105,
        MSSampleType::Float32 => 102,
        MSSampleType::Float64 => 100,
    }
}

/// The number of payload bytes that one sample of the type takes.
pub open spec fn width_of(t: MSSampleType) -> nat {
    match t {
        MSSampleType::Integer32 => 4,
        MSSampleType::Float32 => 4,
        MSSampleType::Float64 => 8,
    }
}

/// The sample type that a known tag names.
pub open spec fn type_of_tag(c: i8) -> MSSampleType {
    if c == 102 {
        MSSampleType::Float32
    } else if c == 100 {
        MSSampleType::Float64
    } else {
        MSSampleType::Integer32
    }
}

/// The tags that name a sample type.
pub open spec fn is_known_tag(c: i8) -> bool {
    c == 105 || c == 102 || c == 100
}

impl MSSampleType {
    /// The format's tag: 'i', 'f' or 'd'.
    pub fn as_char(&self) -> (r: i8)
        ensures
            r == tag_of(*self),
    {
        match self {
            MSSampleType::Integer32 => 105,
            MSSampleType::Float32 => 102,
            MSSampleType::Float64 => 100,
        }
    }

    /// The sample type that a tag names; `None` for a tag outside the three.
    pub fn from_char(c: i8) -> (r: Option<MSSampleType>)
        ensures
            r is Some <==> is_known_tag(c),
            r matches Some(t) ==> tag_of(t) == c && t == type_of_tag(c),
    {
        if c == 105 {
            Some(MSSampleType::Integer32)
        } else if c == 102 {
            Some(MSSampleType::Float32)
        } else if c == 100 {
            Some(MSSampleType::Float64)
        } else {
            None
        }
    }

    /// Bytes per sample.
    pub fn width(&self) -> (r: usize)
        ensures
            r as nat == width_of(*self),
    {
        match self {
            MSSampleType::Float64 => 8,
            _ => 4,
        }
    }
}

/// The `i`-th little-endian 32-bit integer of a byte sequence.
pub open spec fn le_i32_at(b: Seq<u8>, i: int) -> i32 {
    (b[4 * i] as int + 256 * b[4 * i + 1] + 65536 * b[4 * i + 2] + 16777216 * b[4 * i
        + 3]) as u32 as i32
}

/// Reads the first `n` little-endian 32-bit integers of `bytes`.
pub fn decode_i32_le(bytes: &[u8], n: usize) -> (r: Vec<i32>)
    requires
        4 * n <= bytes@.len(),
    ensures
        r@.len() == n,
        forall|i: int| 0 <= i < n ==> #[trigger] r@[i] == le_i32_at(bytes@, i),
{
    let len: usize = bytes.len();
    let mut out: Vec<i32> = Vec::new();
    let mut i: usize = 0;
    while i < n
        invariant
            4 * n <= bytes@.len(),
            len == bytes@.len(),
            i <= n,
            out@.len() == i,
            forall|k: int| 0 <= k < i ==> #[trigger] out@[k] == le_i32_at(bytes@, k),
        decreases n - i,
    {
        let p: usize = 4 * i;
        let u: u32 = bytes[p] as u32 + 256 * (bytes[p + 1] as u32) + 65536 * (bytes[p + 2] as u32)
            + 16777216 * (bytes[p + 3] as u32);
        out.push(#[verifier::truncate] (u as i32));
        i = i + 1;
    }
    out
}

} // verus!
