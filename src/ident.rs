use vstd::prelude::*;
use vstd::string::*;
use vstd::utf8::*;

verus! {

/// Padding around a field: ASCII white space or NUL.
pub open spec fn is_pad(c: char) -> bool {
    c == ' ' || c == '\t' || c == '\n' || c == '\r' || c == '\x0B' || c == '\x0C' || c == '\0'
}

/// Whether `c` is padding.
pub fn is_pad_char(c: char) -> (r: bool)
    ensures
        r == is_pad(c),
{
    c == ' ' || c == '\t' || c == '\n' || c == '\r' || c == '\x0B' || c == '\x0C' || c == '\0'
}

/// `r` is `s` with its leading and trailing padding removed.
pub open spec fn is_trim_of(s: Seq<char>, r: Seq<char>) -> bool {
    exists|i: int, j: int| #[trigger] trim_bounds(s, i, j) && r == s.subrange(i, j)
}

/// `s[i..j]` is what remains of `s` once its outer padding is cut off.
pub open spec fn trim_bounds(s: Seq<char>, i: int, j: int) -> bool {
    &&& 0 <= i <= j <= s.len()
    &&& forall|k: int| 0 <= k < i ==> is_pad(s[k])
    &&& forall|k: int| j <= k < s.len() ==> is_pad(s[k])
    &&& i < j ==> !is_pad(s[i]) && !is_pad(s[j - 1])
}

/// Cuts the padding (white space, NUL) off both ends of a fixed-width text field.
pub fn trim_field(s: &str) -> (r: String)
    ensures
        is_trim_of(s@, r@),
{
    let len: usize = s.unicode_len();
    let mut j: usize = len;
    while j > 0 && is_pad_char(s.get_char(j - 1))
        invariant
            len == s@.len(),
            j <= len,
            forall|k: int| j <= k < len ==> is_pad(s@[k]),
        decreases j,
    {
        j = j - 1;
    }
    let mut i: usize = 0;
    while i < j && is_pad_char(s.get_char(i))
        invariant
            len == s@.len(),
            i <= j <= len,
            forall|k: int| 0 <= k < i ==> is_pad(s@[k]),
        decreases j - i,
    {
        i = i + 1;
    }
    proof {
        if i == j && j > 0 {
            assert(is_pad(s@[j - 1]));
        }
        assert(trim_bounds(s@, i as int, j as int));
    }
    String::from_str(s.substring_char(i, j))
}

/// Cutting the padding off a field gives one result only.
pub proof fn trim_is_unique(s: Seq<char>, r1: Seq<char>, r2: Seq<char>)
    requires
        is_trim_of(s, r1),
        is_trim_of(s, r2),
    ensures
        r1 == r2,
{
    let (i1, j1) = choose|i: int, j: int| #[trigger] trim_bounds(s, i, j) && r1 == s.subrange(i, j);
    let (i2, j2) = choose|i: int, j: int| #[trigger] trim_bounds(s, i, j) && r2 == s.subrange(i, j);
    if i1 < j1 {
        assert(!is_pad(s[i1]));
        assert(!is_pad(s[j1 - 1]));
        if i2 == j2 {
            assert(i1 < i2 || i1 >= j2);
        }
        assert(i1 == i2);
        assert(j1 == j2);
    } else if i2 < j2 {
        assert(!is_pad(s[i2]));
        assert(i2 < i1 || i2 >= j1);
    }
}

/// A field that was already cut is left as it is by a second cut.
pub proof fn trim_is_idempotent(s: Seq<char>, r: Seq<char>)
    requires
        is_trim_of(s, r),
    ensures
        is_trim_of(r, r),
{
    let (i, j) = choose|i: int, j: int| #[trigger] trim_bounds(s, i, j) && r == s.subrange(i, j);
    assert(trim_bounds(r, 0, r.len() as int));
    assert(r == r.subrange(0, r.len() as int));
}

/// The bytes of a NUL-padded text buffer without its NULs.
pub open spec fn strip_nuls(v: Seq<i8>) -> Seq<u8>
    decreases v.len(),
{
    if v.len() == 0 {
        Seq::empty()
    } else if v.last() == 0 {
        strip_nuls(v.drop_last())
    } else {
        strip_nuls(v.drop_last()).push(v.last() as u8)
    }
}

/// Relies on std's `String::from_utf8`: it succeeds exactly on valid UTF-8
/// and then holds the decoded characters.
#[verifier::external_body]
fn string_from_utf8(v: Vec<u8>) -> (r: Option<String>)
    ensures
        r is Some <==> valid_utf8(v@),
        r matches Some(s) ==> s@ == decode_utf8(v@),
{
    String::from_utf8(v).ok()
}

/// The text of a C character buffer, NULs dropped.
pub fn i8_to_string(vin: &[i8]) -> (r: String)
    requires
        valid_utf8(strip_nuls(vin@)),
    ensures
        r@ == decode_utf8(strip_nuls(vin@)),
{
    let n: usize = vin.len();
    let mut v: Vec<u8> = Vec::new();
    let mut i: usize = 0;
    while i < n
        invariant
            n == vin@.len(),
            i <= n,
            v@ == strip_nuls(vin@.subrange(0, i as int)),
        decreases n - i,
    {
        proof {
            assert(vin@.subrange(0, i + 1).drop_last() == vin@.subrange(0, i as int));
        }
        let x: i8 = vin[i];
        if x != 0 {
            v.push(x as u8);
        }
        i = i + 1;
    }
    proof {
        assert(vin@.subrange(0, n as int) == vin@);
    }
    match string_from_utf8(v) {
        Some(s) => s,
        None => String::new(),
    }
}

/// A channel's identity: network, station, location and channel codes.
#[derive(Debug)]
pub struct Nslc {
    pub net: String,
    pub sta: String,
    pub loc: String,
    pub cha: String,
}

/// `n` holds the four fixed-width fields, each with its padding cut off.
pub open spec fn is_nslc_of(n: Nslc, net: Seq<char>, sta: Seq<char>, loc: Seq<char>, cha: Seq<char>) -> bool {
    &&& is_trim_of(net, n.net@)
    &&& is_trim_of(sta, n.sta@)
    &&& is_trim_of(loc, n.loc@)
    &&& is_trim_of(cha, n.cha@)
}

/// The compact display form `NET_STA_LOC_CHA`.
pub open spec fn joined_id(n: Nslc) -> Seq<char> {
    n.net@ + seq!['_'] + n.sta@ + seq!['_'] + n.loc@ + seq!['_'] + n.cha@
}

impl Nslc {
    /// Builds the identity from the space-padded fields of the canonical form.
    pub fn from_fields(net: &str, sta: &str, loc: &str, cha: &str) -> (r: Nslc)
        ensures
            is_nslc_of(r, net@, sta@, loc@, cha@),
    {
        Nslc {
            net: trim_field(net),
            sta: trim_field(sta),
            loc: trim_field(loc),
            cha: trim_field(cha),
        }
    }

    /// The codes joined by underscores.
    pub fn id(&self) -> (r: String)
        ensures
            r@ == joined_id(*self),
    {
        proof {
            reveal_strlit("_");
        }
        let mut r = self.net.clone();
        r.append("_");
        r.append(self.sta.as_str());
        r.append("_");
        r.append(self.loc.as_str());
        r.append("_");
        r.append(self.cha.as_str());
        r
    }
}

/// Reading the same padded fields twice gives the same identity, and each
/// code read back is left unchanged by another cut.
pub proof fn identity_parse_is_stable(
    a: Nslc,
    b: Nslc,
    net: Seq<char>,
    sta: Seq<char>,
    loc: Seq<char>,
    cha: Seq<char>,
)
    requires
        is_nslc_of(a, net, sta, loc, cha),
        is_nslc_of(b, net, sta, loc, cha),
    ensures
        a.net@ == b.net@,
        a.sta@ == b.sta@,
        a.loc@ == b.loc@,
        a.cha@ == b.cha@,
        is_nslc_of(a, a.net@, a.sta@, a.loc@, a.cha@),
{
    trim_is_unique(net, a.net@, b.net@);
    trim_is_unique(sta, a.sta@, b.sta@);
    trim_is_unique(loc, a.loc@, b.loc@);
    trim_is_unique(cha, a.cha@, b.cha@);
    trim_is_idempotent(net, a.net@);
    trim_is_idempotent(sta, a.sta@);
    trim_is_idempotent(loc, a.loc@);
    trim_is_idempotent(cha, a.cha@);
}

} // verus!
