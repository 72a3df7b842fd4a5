//! Patching a driver binary: every occurrence of a marker is overwritten
//! with random letters and digits, so the marker cannot be spotted.
use vstd::prelude::*;
use crate::outside::is_ascii_alphanumeric;
use crate::utils::generate_random_string;
use crate::text::{find_first, find_str};

verus! {

/// `pattern` occurs in `bytes` at position `i`.
pub open spec fn bytes_occur_at(bytes: Seq<u8>, pattern: Seq<u8>, i: int) -> bool {
    &&& 0 <= i
    &&& i + pattern.len() <= bytes.len()
    &&& bytes.subrange(i, i + pattern.len()) == pattern
}

/// The positions below `k` where `pattern` occurs, in increasing order.
pub open spec fn occurrences_below(bytes: Seq<u8>, pattern: Seq<u8>, k: int) -> Seq<usize>
    decreases k,
{
    if k <= 0 {
        Seq::empty()
    } else if bytes_occur_at(bytes, pattern, k - 1) {
        occurrences_below(bytes, pattern, k - 1).push((k - 1) as usize)
    } else {
        occurrences_below(bytes, pattern, k - 1)
    }
}

/// Every position where `pattern` occurs in `bytes`, in increasing order.
pub open spec fn occurrences(bytes: Seq<u8>, pattern: Seq<u8>) -> Seq<usize> {
    occurrences_below(bytes, pattern, bytes.len() as int)
}

/// `bytes` with `replacement` written over it from position `i` on.
pub open spec fn overwrite(bytes: Seq<u8>, i: int, replacement: Seq<u8>) -> Seq<u8> {
    bytes.subrange(0, i) + replacement + bytes.subrange(i + replacement.len(), bytes.len() as int)
}

/// `bytes` with `replacement` written at each of `positions`, in turn.
pub open spec fn overwrite_all(bytes: Seq<u8>, positions: Seq<usize>, replacement: Seq<u8>) -> Seq<u8>
    decreases positions.len(),
{
    if positions.len() == 0 {
        bytes
    } else {
        overwrite(overwrite_all(bytes, positions.drop_last(), replacement), positions.last() as int, replacement)
    }
}

/// Each position leaves room for the replacement.
pub open spec fn all_fit(positions: Seq<usize>, room: int, len: int) -> bool {
    forall|j: int| 0 <= j < positions.len() ==> #[trigger] positions[j] + room <= len
}

/// Whether `pattern` occurs in `bytes` at position `i`.
fn occurs_at(bytes: &[u8], pattern: &[u8], i: usize) -> (res: bool)
    requires
        i + pattern@.len() <= bytes@.len(),
    ensures
        res == bytes_occur_at(bytes@, pattern@, i as int),
{
    let blen = bytes.len();
    let mut k: usize = 0;
    while k < pattern.len()
        invariant
            blen == bytes@.len(),
            i + pattern@.len() <= bytes@.len(),
            k <= pattern@.len(),
            forall|j: int| 0 <= j < k ==> bytes@[i + j] == pattern@[j],
        decreases pattern.len() - k,
    {
        if bytes[i + k] != pattern[k] {
            assert(bytes@.subrange(i as int, i + pattern@.len())[k as int] != pattern@[k as int]);
            return false;
        }
        k = k + 1;
    }
    assert(bytes@.subrange(i as int, i + pattern@.len()) =~= pattern@);
    true
}

/// Every position where `pattern` occurs in `bytes`, in increasing order,
/// overlapping occurrences included.
pub fn find_occurrences(bytes: &[u8], pattern: &[u8]) -> (res: Vec<usize>)
    requires
        pattern@.len() > 0,
    ensures
        res@ == occurrences(bytes@, pattern@),
{
    let n = bytes.len();
    let mut out: Vec<usize> = Vec::new();
    let mut i: usize = 0;
    while i < n
        invariant
            n == bytes@.len(),
            i <= n,
            pattern@.len() > 0,
            out@ == occurrences_below(bytes@, pattern@, i as int),
        decreases n - i,
    {
        if pattern.len() <= n - i && occurs_at(bytes, pattern, i) {
            out.push(i);
        }
        i = i + 1;
    }
    out
}

/// Writes `replacement` into `bytes` at each of `positions`, in turn.
pub fn overwrite_positions(bytes: &mut Vec<u8>, positions: &Vec<usize>, replacement: &[u8])
    requires
        all_fit(positions@, replacement@.len() as int, old(bytes)@.len() as int),
    ensures
        final(bytes)@ == overwrite_all(old(bytes)@, positions@, replacement@),
{
    let mut p: usize = 0;
    while p < positions.len()
        invariant
            p <= positions@.len(),
            bytes@.len() == old(bytes)@.len(),
            all_fit(positions@, replacement@.len() as int, old(bytes)@.len() as int),
            bytes@ == overwrite_all(old(bytes)@, positions@.subrange(0, p as int), replacement@),
        decreases positions.len() - p,
    {
        let start = positions[p];
        let ghost before = bytes@;
        let blen = bytes.len();
        let mut k: usize = 0;
        while k < replacement.len()
            invariant
                blen == bytes@.len(),
                k <= replacement@.len(),
                start + replacement@.len() <= bytes@.len(),
                bytes@.len() == before.len(),
                forall|j: int| 0 <= j < start ==> bytes@[j] == before[j],
                forall|j: int| 0 <= j < k ==> bytes@[start + j] == replacement@[j],
                forall|j: int| start + k <= j < bytes@.len() ==> bytes@[j] == before[j],
            decreases replacement.len() - k,
        {
            bytes.set(start + k, replacement[k]);
            k = k + 1;
        }
        assert(bytes@ =~= overwrite(before, start as int, replacement@));
        assert(positions@.subrange(0, p + 1).drop_last() =~= positions@.subrange(0, p as int));
        p = p + 1;
    }
    assert(positions@.subrange(0, positions@.len() as int) =~= positions@);
}

/// Overwrites every occurrence of `pattern` in `binary`, each with the same
/// `random_string_size` random letters and digits. `None` when the pattern
/// does not occur, so there is nothing to patch.
pub fn patch_with_random(binary: Vec<u8>, pattern: &[u8], random_string_size: usize) -> (res: Option<Vec<u8>>)
    requires
        pattern@.len() > 0,
        all_fit(occurrences(binary@, pattern@), random_string_size as int, binary@.len() as int),
    ensures
        occurrences(binary@, pattern@).len() == 0 ==> res is None,
        occurrences(binary@, pattern@).len() > 0 ==> (res matches Some(patched) && exists|r: Seq<u8>|
            r.len() == random_string_size && (forall|i: int| 0 <= i < r.len() ==> is_alphanumeric_byte(#[trigger] r[i]))
            && patched@ == overwrite_all(binary@, occurrences(binary@, pattern@), r)),
{
    let matches = find_occurrences(binary.as_slice(), pattern);
    if matches.len() == 0 {
        return None;
    }
    let new_string = generate_random_string(random_string_size);
    let replacement = ascii_string_bytes(new_string.as_str());
    let mut patched = binary;
    overwrite_positions(&mut patched, &matches, replacement.as_slice());
    Some(patched)
}

/// An ASCII letter or digit, as a byte.
pub open spec fn is_alphanumeric_byte(b: u8) -> bool {
    ||| (48 <= b && b <= 57)
    ||| (65 <= b && b <= 90)
    ||| (97 <= b && b <= 122)
}

/// The bytes of a string of ASCII letters and digits, one per character.
fn ascii_string_bytes(s: &str) -> (res: Vec<u8>)
    requires
        forall|i: int| 0 <= i < s@.len() ==> is_ascii_alphanumeric(#[trigger] s@[i]),
    ensures
        res@.len() == s@.len(),
        forall|i: int| 0 <= i < s@.len() ==> #[trigger] res@[i] as int == s@[i] as int,
        forall|i: int| 0 <= i < res@.len() ==> is_alphanumeric_byte(#[trigger] res@[i]),
{
    let n = s.unicode_len();
    let mut out: Vec<u8> = Vec::new();
    let mut i: usize = 0;
    while i < n
        invariant
            n == s@.len(),
            i <= n,
            out@.len() == i,
            forall|j: int| 0 <= j < s@.len() ==> is_ascii_alphanumeric(#[trigger] s@[j]),
            forall|j: int| 0 <= j < i ==> #[trigger] out@[j] as int == s@[j] as int,
            forall|j: int| 0 <= j < i ==> is_alphanumeric_byte(#[trigger] out@[j]),
        decreases n - i,
    {
        let c = s.get_char(i);
        assert(is_ascii_alphanumeric(s@[i as int]));
        let u: u32 = c as u32;
        assert(u < 128);
        assert((u as u8) as u32 == u) by (bit_vector)
            requires
                u < 128;
        let b: u8 = u as u8;
        out.push(b);
        i = i + 1;
    }
    out
}

/// The marker chromedriver carries that gives automation away: `cdc_`.
pub fn chrome_driver_marker() -> (res: Vec<u8>)
    ensures
        res@ == seq![0x63u8, 0x64, 0x63, 0x5f],
{
    vec![0x63u8, 0x64, 0x63, 0x5f]
}

/// How many random characters replace each chromedriver marker.
pub const CHROME_DRIVER_MARKER_REPLACEMENT_LEN: usize = 22;

/// The marker the Firefox engine library carries: `webdriver`.
pub fn gecko_marker() -> (res: Vec<u8>)
    ensures
        res@ == seq![0x77u8, 0x65, 0x62, 0x64, 0x72, 0x69, 0x76, 0x65, 0x72],
{
    vec![0x77u8, 0x65, 0x62, 0x64, 0x72, 0x69, 0x76, 0x65, 0x72]
}

/// How many random characters replace each Firefox marker.
pub const GECKO_MARKER_REPLACEMENT_LEN: usize = 9;

/// The argument that sets chromedriver's port.
pub fn chrome_driver_port_arg(port: &str) -> (res: String)
    ensures
        res@ == "--port="@ + port@,
{
    let mut out = "--port=".to_owned();
    out.append(port);
    out
}

/// Whether a line chromedriver printed says it started.
pub fn chrome_driver_started(line: &str) -> (res: bool)
    ensures
        res == find_first(line@, "success"@) is Some,
{
    proof {
        crate::text::lemma_find_from(line@, "success"@, 0);
    }
    find_str(line, "success").is_some()
}

/// Whether a line geckodriver printed says it is listening.
pub fn gecko_driver_started(line: &str) -> (res: bool)
    ensures
        res == find_first(line@, "Listening on"@) is Some,
{
    proof {
        crate::text::lemma_find_from(line@, "Listening on"@, 0);
    }
    find_str(line, "Listening on").is_some()
}

/// The line chromedriver prints once it serves on `port`.
pub open spec fn started_on_text(port: Seq<char>) -> Seq<char> {
    "ChromeDriver was started successfully on port "@ + port
}

/// Whether a line chromedriver printed says it serves on `port`.
pub fn chrome_driver_started_on(line: &str, port: &str) -> (res: bool)
    ensures
        res == find_first(line@, started_on_text(port@)) is Some,
{
    let mut expected = "ChromeDriver was started successfully on port ".to_owned();
    expected.append(port);
    proof {
        crate::text::lemma_find_from(line@, expected@, 0);
    }
    find_str(line, expected.as_str()).is_some()
}

} // verus!
