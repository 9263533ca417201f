//! On-chain addresses as plain bytes, and parsing from hex text.
//!
//! A pool or oracle identity is a 20-byte account address.  Configuration
//! hands addresses in as ASCII hex text, one per pool, comma-separated;
//! parsing is total and exact: a string is accepted if and only if, after an
//! optional `0x`/`0X` prefix, it holds exactly 40 hex digits.

use vstd::prelude::*;
use crate::errors::ConfigError;

verus! {

/// Length in bytes of an account address.
pub const ADDRESS_LEN: usize = 20;

/// A 20-byte on-chain account address.
#[derive(Clone, Debug)]
pub struct Address {
    bytes: Vec<u8>,
}

impl View for Address {
    type V = Seq<u8>;

    closed spec fn view(&self) -> Seq<u8> {
        self.bytes@
    }
}

impl Address {
    /// A well-formed address holds exactly [`ADDRESS_LEN`] bytes.
    pub open spec fn wf(&self) -> bool {
        self@.len() == ADDRESS_LEN
    }

    /// The raw bytes of the address.
    pub fn as_bytes(&self) -> (b: &Vec<u8>)
        ensures
            b@ == self@,
    {
        &self.bytes
    }
}

/// Whether `b` is the ASCII code of a hex digit.
pub open spec fn is_hex_digit(b: u8) -> bool {
    (48 <= b && b <= 57) || (65 <= b && b <= 70) || (97 <= b && b <= 102)
}

/// Numeric value of the ASCII hex digit `b` (meaningful only when
/// `is_hex_digit(b)`).
pub open spec fn hex_value(b: u8) -> int {
    if 48 <= b && b <= 57 {
        b - 48
    } else if 65 <= b && b <= 70 {
        b - 55
    } else {
        b - 87
    }
}

/// The digit portion of an address string: the input without its optional
/// `0x`/`0X` prefix.
pub open spec fn digits_of(s: Seq<u8>) -> Seq<u8> {
    if s.len() >= 2 && s[0] == 48 && (s[1] == 120 || s[1] == 88) {
        s.subrange(2, s.len() as int)
    } else {
        s
    }
}

/// Whether `s` is a valid hex address: after the optional prefix, exactly
/// 40 hex digits.
pub open spec fn is_valid_address(s: Seq<u8>) -> bool {
    let d = digits_of(s);
    d.len() == 40 && (forall|j: int| 0 <= j < 40 ==> is_hex_digit(#[trigger] d[j]))
}

/// The 20 bytes denoted by a valid address string `s`: byte `i` is the
/// value of digit pair `2i`, `2i + 1` of the digit portion.
pub open spec fn parsed_address(s: Seq<u8>) -> Seq<u8> {
    let d = digits_of(s);
    Seq::new(ADDRESS_LEN as nat, |i: int| (hex_value(d[2 * i]) * 16 + hex_value(d[2 * i + 1])) as u8)
}

/// Numeric value of one ASCII hex digit, or `None` for any other byte.
pub fn hex_digit_value(b: u8) -> (r: Option<u8>)
    ensures
        r == if is_hex_digit(b) {
            Some(hex_value(b) as u8)
        } else {
            None::<u8>
        },
{
    if 48 <= b && b <= 57 {
        Some(b - 48)
    } else if 65 <= b && b <= 70 {
        Some(b - 55)
    } else if 97 <= b && b <= 102 {
        Some(b - 87)
    } else {
        None
    }
}

/// Parses one hex-encoded account address.
///
/// Succeeds exactly on valid address strings (optional `0x`/`0X` prefix,
/// then 40 hex digits) and then returns the denoted 20 bytes; every other
/// input is rejected as `InvalidPoolAddress`.
pub fn parse_address(s: &Vec<u8>) -> (r: Result<Address, ConfigError>)
    ensures
        (match r {
            Ok(a) => is_valid_address(s@) && a.wf() && a@ == parsed_address(s@),
            Err(e) => !is_valid_address(s@) && e == ConfigError::InvalidPoolAddress,
        }),
{
    let n = s.len();
    let start: usize = if n >= 2 && s[0] == 48 && (s[1] == 120 || s[1] == 88) {
        2
    } else {
        0
    };
    let ghost d = digits_of(s@);
    assert(d =~= s@.subrange(start as int, n as int));
    if n - start != 40 {
        return Err(ConfigError::InvalidPoolAddress);
    }
    let mut bytes: Vec<u8> = Vec::new();
    let mut i: usize = 0;
    while i < 20
        invariant
            0 <= i <= 20,
            n == s@.len(),
            start + 40 == n,
            d =~= s@.subrange(start as int, n as int),
            d.len() == 40,
            bytes@.len() == i,
            forall|j: int| 0 <= j < 2 * i ==> is_hex_digit(#[trigger] d[j]),
            forall|j: int| 0 <= j < i ==> bytes@[j] == (hex_value(d[2 * j]) * 16 + hex_value(
                d[2 * j + 1],
            )) as u8,
        decreases 20 - i,
    {
        let hi = s[start + 2 * i];
        let lo = s[start + 2 * i + 1];
        let hv = hex_digit_value(hi);
        let lv = hex_digit_value(lo);
        match (hv, lv) {
            (Some(h), Some(l)) => {
                assert(hex_value(hi) <= 15 && hex_value(lo) <= 15);
                bytes.push(h * 16 + l);
            },
            _ => {
                assert(!is_hex_digit(d[2 * i]) || !is_hex_digit(d[2 * i + 1]));
                return Err(ConfigError::InvalidPoolAddress);
            },
        }
        i += 1;
    }
    let a = Address { bytes };
    assert(a@ =~= parsed_address(s@));
    Ok(a)
}

/// Index of the first comma in `s`, or `-1` if there is none.
pub open spec fn first_comma(s: Seq<u8>) -> int
    decreases s.len(),
{
    if s.len() == 0 {
        -1
    } else if s[0] == 44 {
        0
    } else if first_comma(s.drop_first()) == -1 {
        -1
    } else {
        first_comma(s.drop_first()) + 1
    }
}

/// The comma-separated segments of `s`, in order.  An input without commas
/// is one segment; every comma separates two (possibly empty) segments.
pub open spec fn split_commas(s: Seq<u8>) -> Seq<Seq<u8>>
    decreases s.len(),
{
    let fc = first_comma(s);
    if fc < 0 || fc >= s.len() {
        seq![s]
    } else {
        seq![s.subrange(0, fc)] + split_commas(s.subrange(fc + 1, s.len() as int))
    }
}

/// If `i` is a comma position with no comma before it, `first_comma` is `i`.
pub proof fn lemma_first_comma_at(s: Seq<u8>, i: int)
    requires
        0 <= i < s.len(),
        s[i] == 44,
        forall|j: int| 0 <= j < i ==> s[j] != 44,
    ensures
        first_comma(s) == i,
    decreases i,
{
    if i > 0 {
        assert(forall|j: int| 0 <= j < s.len() - 1 ==> s.drop_first()[j] == s[j + 1]);
        lemma_first_comma_at(s.drop_first(), i - 1);
    }
}

/// If `s` holds no comma, `first_comma` reports none.
pub proof fn lemma_first_comma_none(s: Seq<u8>)
    requires
        forall|j: int| 0 <= j < s.len() ==> s[j] != 44,
    ensures
        first_comma(s) == -1,
    decreases s.len(),
{
    if s.len() > 0 {
        assert(forall|j: int| 0 <= j < s.len() - 1 ==> s.drop_first()[j] == s[j + 1]);
        lemma_first_comma_none(s.drop_first());
    }
}

/// Whether every comma-separated segment of `s` is a valid address string.
pub open spec fn all_segments_valid(s: Seq<u8>) -> bool {
    forall|k: int| 0 <= k < split_commas(s).len() ==> is_valid_address(#[trigger] split_commas(s)[k])
}

/// Whether `v` holds exactly the addresses denoted by the segments of `s`.
pub open spec fn pools_match(v: Seq<Address>, s: Seq<u8>) -> bool {
    &&& v.len() == split_commas(s).len()
    &&& forall|k: int| 0 <= k < v.len() ==> (#[trigger] v[k]).wf() && v[k]@ == parsed_address(
        split_commas(s)[k],
    )
}

/// Parses a comma-separated list of hex-encoded pool addresses.
///
/// Succeeds exactly when every segment (including empty ones, as produced
/// by a leading, trailing or doubled comma, or by an empty input) is a
/// valid address string, and then returns the denoted addresses in order.
pub fn parse_pool_list(s: &Vec<u8>) -> (r: Result<Vec<Address>, ConfigError>)
    ensures
        (match r {
            Ok(v) => all_segments_valid(s@) && pools_match(v@, s@),
            Err(e) => !all_segments_valid(s@) && e == ConfigError::InvalidPoolAddress,
        }),
{
    let n = s.len();
    let ghost segs = split_commas(s@);
    let mut pools: Vec<Address> = Vec::new();
    let mut seg_start: usize = 0;
    proof {
        assert(s@.subrange(0, n as int) =~= s@);
        assert(segs.skip(0) =~= segs);
    }
    loop
        invariant
            n == s@.len(),
            0 <= seg_start <= n,
            pools@.len() <= segs.len(),
            segs == split_commas(s@),
            split_commas(s@.subrange(seg_start as int, n as int)) == segs.skip(
                pools@.len() as int,
            ),
            forall|k: int| 0 <= k < pools@.len() ==> is_valid_address(#[trigger] segs[k]),
            forall|k: int| 0 <= k < pools@.len() ==> (#[trigger] pools@[k]).wf() && pools@[k]@
                == parsed_address(segs[k]),
        decreases n - seg_start + 1,
    {
        let ghost tail = s@.subrange(seg_start as int, n as int);
        let ghost done: int = pools@.len() as int;
        // Scan to the next comma (or the end of the input).
        let mut i: usize = seg_start;
        while i < n && s[i] != 44u8
            invariant
                n == s@.len(),
                seg_start <= i <= n,
                forall|j: int| seg_start <= j < i ==> s@[j] != 44,
            decreases n - i,
        {
            i += 1;
        }
        let ghost seg = s@.subrange(seg_start as int, i as int);
        // Copy the segment out and parse it.
        let mut seg_vec: Vec<u8> = Vec::new();
        let mut j: usize = seg_start;
        while j < i
            invariant
                n == s@.len(),
                seg_start <= j <= i <= n,
                seg_vec@ == s@.subrange(seg_start as int, j as int),
            decreases i - j,
        {
            let b = s[j];
            seg_vec.push(b);
            assert(seg_vec@ =~= s@.subrange(seg_start as int, j + 1 as int));
            j += 1;
        }
        assert(seg_vec@ == seg);
        proof {
            // Relate the scanned segment to the spec-level split of `tail`.
            if i < n {
                assert(tail[i - seg_start] == 44);
                assert(forall|j2: int| 0 <= j2 < i - seg_start ==> tail[j2] != 44);
                lemma_first_comma_at(tail, i - seg_start);
                assert(tail.subrange(0, i - seg_start) =~= seg);
                assert(tail.subrange(i - seg_start + 1, tail.len() as int) =~= s@.subrange(
                    i + 1 as int,
                    n as int,
                ));
                assert(split_commas(tail) == seq![seg] + split_commas(
                    s@.subrange(i + 1 as int, n as int),
                ));
            } else {
                assert(forall|j2: int| 0 <= j2 < tail.len() ==> tail[j2] != 44);
                lemma_first_comma_none(tail);
                assert(tail =~= seg);
                assert(split_commas(tail) == seq![seg]);
            }
            assert(segs.skip(done)[0] == seg);
            assert(segs[done] == seg);
        }
        match parse_address(&seg_vec) {
            Ok(a) => {
                pools.push(a);
            },
            Err(_) => {
                assert(!is_valid_address(segs[done]));
                return Err(ConfigError::InvalidPoolAddress);
            },
        }
        if i < n {
            proof {
                assert(segs.skip(done).drop_first() =~= segs.skip(done + 1));
                assert(segs.skip(done + 1) =~= split_commas(s@.subrange(i + 1 as int, n as int)));
            }
            seg_start = i + 1;
        } else {
            proof {
                assert(segs.skip(done) =~= seq![seg]);
                assert(segs.len() == done + 1);
            }
            assert(forall|k: int| 0 <= k < segs.len() ==> is_valid_address(#[trigger] segs[k]));
            return Ok(pools);
        }
    }
}

} // verus!
