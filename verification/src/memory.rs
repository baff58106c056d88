use vstd::prelude::*;

verus! {

broadcast use vstd::string::group_string_axioms;

/// The byte of an ASCII space.
pub open spec fn is_space(b: u8) -> bool {
    b == 0x20u8
}

/// The bytes of an ASCII character sequence.
pub open spec fn ascii_bytes(s: Seq<char>) -> Seq<u8> {
    Seq::new(s.len(), |i: int| s[i] as u8)
}

/// `s` with every space removed.
pub open spec fn without_spaces(s: Seq<u8>) -> Seq<u8>
    decreases s.len(),
{
    if s.len() == 0 {
        seq![]
    } else if is_space(s.last()) {
        without_spaces(s.drop_last())
    } else {
        without_spaces(s.drop_last()).push(s.last())
    }
}

/// A hexadecimal digit, in either case.
pub open spec fn is_hex_digit(b: u8) -> bool {
    (0x30u8 <= b <= 0x39u8) || (0x41u8 <= b <= 0x46u8) || (0x61u8 <= b <= 0x66u8)
}

/// The value of a hexadecimal digit.
pub open spec fn hex_value(b: u8) -> int {
    if b <= 0x39u8 {
        b - 0x30
    } else if b <= 0x46u8 {
        b - 0x41 + 10
    } else {
        b - 0x61 + 10
    }
}

/// A chunk of one or two bytes that `i32::from_str_radix(_, 16)` accepts:
/// hexadecimal digits, or a `+` or `-` sign followed by a digit.
pub open spec fn chunk_parses(c: Seq<u8>) -> bool {
    if c.len() == 1 {
        is_hex_digit(c[0])
    } else {
        &&& c.len() == 2
        &&& is_hex_digit(c[1])
        &&& (is_hex_digit(c[0]) || c[0] == 0x2Bu8 || c[0] == 0x2Du8)
    }
}

/// The value `i32::from_str_radix(_, 16)` gives a chunk that parses.
pub open spec fn chunk_value(c: Seq<u8>) -> i32 {
    if c.len() == 1 {
        hex_value(c[0]) as i32
    } else if c[0] == 0x2Bu8 {
        hex_value(c[1]) as i32
    } else if c[0] == 0x2Du8 {
        (-hex_value(c[1])) as i32
    } else {
        (16 * hex_value(c[0]) + hex_value(c[1])) as i32
    }
}

/// The length of the next chunk of `t`: two bytes, or one at the end.
pub open spec fn chunk_len(t: Seq<u8>) -> int {
    if t.len() >= 2 {
        2
    } else {
        t.len() as int
    }
}

/// Every two-byte chunk of `t` (the last one may have one byte) holds a
/// wildcard or parses as a hexadecimal number.
pub open spec fn chunks_well_formed(t: Seq<u8>) -> bool
    decreases t.len(),
{
    if t.len() == 0 {
        true
    } else {
        let c = t.take(chunk_len(t));
        &&& (c.contains(0x3Fu8) || chunk_parses(c))
        &&& chunks_well_formed(t.skip(chunk_len(t)))
    }
}

/// The values of the chunks of `t` that hold no wildcard, in order.
pub open spec fn chunk_values(t: Seq<u8>) -> Seq<i32>
    decreases t.len(),
{
    if t.len() == 0 {
        seq![]
    } else {
        let c = t.take(chunk_len(t));
        let rest = chunk_values(t.skip(chunk_len(t)));
        if c.contains(0x3Fu8) {
            rest
        } else {
            seq![chunk_value(c)] + rest
        }
    }
}

/// A signature string the parser accepts: ASCII, and with spaces removed
/// every chunk of two characters holds a `?` or parses as a hex number.
pub open spec fn pattern_well_formed(pattern: Seq<char>) -> bool {
    &&& vstd::utf8::is_ascii_chars(pattern)
    &&& chunks_well_formed(without_spaces(ascii_bytes(pattern)))
}

/// The byte pattern a signature string stands for.
pub open spec fn pattern_values(pattern: Seq<char>) -> Seq<i32> {
    chunk_values(without_spaces(ascii_bytes(pattern)))
}

/// The pattern matches the image at offset `i`: each pattern entry equals
/// the image byte (compared as a byte), or is `-1`.
pub open spec fn matches_at(image: Seq<u8>, pattern: Seq<i32>, i: int) -> bool {
    forall|j: int|
        0 <= j < pattern.len() ==> image[i + j] == #[verifier::truncate] (#[trigger] pattern[j] as u8)
            || pattern[j] == -1
}

/// The first offset in `[i, end)` at which the pattern matches.
pub open spec fn first_match_from(image: Seq<u8>, pattern: Seq<i32>, i: int, end: int) -> Option<
    int,
>
    decreases end - i,
{
    if i >= end {
        None
    } else if matches_at(image, pattern, i) {
        Some(i)
    } else {
        first_match_from(image, pattern, i + 1, end)
    }
}

/// The address `pattern_scan` reports: the module base plus the first
/// matching offset below `image.len() - pattern.len()`, or 0.
pub open spec fn scan_result(module_base: usize, image: Seq<u8>, pattern: Seq<i32>) -> usize {
    match first_match_from(image, pattern, 0, image.len() - pattern.len()) {
        Some(i) => (module_base + i) as usize,
        None => 0,
    }
}

/// Some byte of the image at offset `q` differs from a pattern entry that
/// is not `-1`.
pub open spec fn differs_at(image: Seq<u8>, pattern: Seq<i32>, q: int) -> bool {
    exists|j: int|
        0 <= j < pattern.len() && #[trigger] pattern[j] != -1 && image[q + j]
            != #[verifier::truncate] (pattern[j] as u8)
}

/// What a scan reports, over the bytes themselves. A non-zero address lies
/// at an offset `i` below `image.len() - pattern.len()` where each pattern
/// entry other than `-1` equals the image byte (so an entry 0 matches only
/// a zero byte), and every earlier offset has a byte that differs. An
/// address of 0 with a non-null base means every offset in range has a
/// byte that differs.
pub proof fn lemma_scan_reports_match(module_base: usize, image: Seq<u8>, pattern: Seq<i32>)
    requires
        pattern.len() <= image.len(),
        module_base + image.len() <= usize::MAX,
    ensures
        ({
            let address = scan_result(module_base, image, pattern);
            let end = image.len() - pattern.len();
            &&& address != 0 ==> {
                &&& module_base <= address < module_base + end
                &&& forall|j: int|
                    0 <= j < pattern.len() && #[trigger] pattern[j] != -1 ==> image[address
                        - module_base + j] == #[verifier::truncate] (pattern[j] as u8)
                &&& forall|q: int|
                    0 <= q < address - module_base ==> #[trigger] differs_at(image, pattern, q)
            }
            &&& address == 0 && module_base != 0 ==> forall|q: int|
                0 <= q < end ==> #[trigger] differs_at(image, pattern, q)
        }),
{
    let end = image.len() - pattern.len();
    lemma_first_match(image, pattern, 0, end);
    assert forall|q: int| 0 <= q < end && !matches_at(image, pattern, q) implies #[trigger] differs_at(
        image,
        pattern,
        q,
    ) by {
        let j = choose|j: int|
            !(0 <= j < pattern.len() ==> image[q + j] == #[verifier::truncate] (
            #[trigger] pattern[j] as u8) || pattern[j] == -1);
        assert(0 <= j < pattern.len() && pattern[j] != -1 && image[q + j]
            != #[verifier::truncate] (pattern[j] as u8));
    }
}

/// The bytes of an ASCII string with the spaces left out.
fn strip_spaces(s: &str) -> (v: Vec<u8>)
    requires
        s.is_ascii(),
    ensures
        v@ == without_spaces(ascii_bytes(s@)),
{
    let bytes = s.as_bytes();
    let ghost all = ascii_bytes(s@);
    assert(bytes@ =~= all);
    let mut v: Vec<u8> = Vec::new();
    let mut i: usize = 0;
    while i < bytes.len()
        invariant
            i <= bytes@.len(),
            bytes@ == all,
            v@ == without_spaces(all.take(i as int)),
        decreases bytes@.len() - i,
    {
        assert(all.take(i + 1).drop_last() =~= all.take(i as int));
        if bytes[i] != 0x20u8 {
            v.push(bytes[i]);
        }
        i = i + 1;
    }
    assert(all.take(i as int) =~= all);
    v
}

/// Whether `b` is a hexadecimal digit.
fn hex_digit(b: u8) -> (d: bool)
    ensures
        d == is_hex_digit(b),
{
    (0x30u8 <= b && b <= 0x39u8) || (0x41u8 <= b && b <= 0x46u8) || (0x61u8 <= b && b <= 0x66u8)
}

/// The value of a hexadecimal digit.
fn hex_digit_value(b: u8) -> (v: i32)
    requires
        is_hex_digit(b),
    ensures
        v == hex_value(b),
        0 <= v < 16,
{
    if b <= 0x39u8 {
        (b - 0x30u8) as i32
    } else if b <= 0x46u8 {
        (b - 0x41u8 + 10) as i32
    } else {
        (b - 0x61u8 + 10) as i32
    }
}

proof fn lemma_chunk_step(t: Seq<u8>, i: int)
    requires
        0 <= i < t.len(),
    ensures
        ({
            let rest = t.skip(i);
            let n = chunk_len(rest);
            &&& n == (if t.len() - i >= 2 {
                2int
            } else {
                1int
            })
            &&& rest.take(n) =~= t.subrange(i, i + n)
            &&& rest.skip(n) =~= t.skip(i + n)
        }),
{
}

/// Whether a signature string is one that `pattern_to_bytes` accepts.
pub fn pattern_is_well_formed(pattern: &str) -> (ok: bool)
    ensures
        ok == pattern_well_formed(pattern@),
{
    if !pattern.is_ascii() {
        return false;
    }
    let v = strip_spaces(pattern);
    let ghost t = v@;
    assert(t.skip(0) =~= t);
    let mut i: usize = 0;
    while i < v.len()
        invariant
            i <= v@.len(),
            t == v@,
            t == without_spaces(ascii_bytes(pattern@)),
            vstd::utf8::is_ascii_chars(pattern@),
            chunks_well_formed(t) == chunks_well_formed(t.skip(i as int)),
        decreases v@.len() - i,
    {
        proof {
            lemma_chunk_step(t, i as int);
        }
        let n: usize = if v.len() - i >= 2 {
            2
        } else {
            1
        };
        let c0 = v[i];
        let has_wildcard = c0 == 0x3Fu8 || (n == 2 && v[i + 1] == 0x3Fu8);
        let parses = if n == 1 {
            hex_digit(c0)
        } else {
            hex_digit(v[i + 1]) && (hex_digit(c0) || c0 == 0x2Bu8 || c0 == 0x2Du8)
        };
        proof {
            let c = t.subrange(i as int, i + n);
            assert(c[0] == c0);
            if n == 2 {
                assert(c[1] == v@[i + 1]);
            }
            assert(has_wildcard == c.contains(0x3Fu8)) by {
                if c.contains(0x3Fu8) {
                    let k = choose|k: int| 0 <= k < c.len() && c[k] == 0x3Fu8;
                    assert(k == 0 || k == 1);
                }
                if has_wildcard {
                    if c0 == 0x3Fu8 {
                        assert(c[0] == 0x3Fu8);
                    } else {
                        assert(c[1] == 0x3Fu8);
                    }
                }
            }
            assert(parses == chunk_parses(c));
            assert(t.skip(i as int).take(chunk_len(t.skip(i as int))) == c);
        }
        if !has_wildcard && !parses {
            assert(t.skip(i as int).len() > 0);
            assert(!chunks_well_formed(t.skip(i as int)));
            return false;
        }
        i = i + n;
    }
    true
}

/// Turns a signature such as `"C6 87 ? ? 8B"` into the values of its bytes.
///
/// Spaces are removed first; the rest is cut into chunks of two characters,
/// chunks that hold a `?` are dropped and every other chunk is read as a
/// hexadecimal number. Strings that are not ASCII, or that hold a chunk
/// with neither `?` nor a hexadecimal reading, are left out by `requires`.
pub fn pattern_to_bytes(pattern: String) -> (values: Vec<i32>)
    requires
        pattern_well_formed(pattern@),
    ensures
        values@ == pattern_values(pattern@),
{
    let s = pattern.as_str();
    let v = strip_spaces(s);
    let ghost t = v@;
    assert(t.skip(0) =~= t);
    let mut out: Vec<i32> = Vec::new();
    let mut i: usize = 0;
    while i < v.len()
        invariant
            i <= v@.len(),
            t == v@,
            chunks_well_formed(t.skip(i as int)),
            chunk_values(t) == out@ + chunk_values(t.skip(i as int)),
        decreases v@.len() - i,
    {
        proof {
            lemma_chunk_step(t, i as int);
        }
        let n: usize = if v.len() - i >= 2 {
            2
        } else {
            1
        };
        let c0 = v[i];
        let has_wildcard = c0 == 0x3Fu8 || (n == 2 && v[i + 1] == 0x3Fu8);
        let ghost c = t.subrange(i as int, i + n);
        proof {
            assert(c[0] == c0);
            if n == 2 {
                assert(c[1] == v@[i + 1]);
            }
            assert(has_wildcard == c.contains(0x3Fu8)) by {
                if c.contains(0x3Fu8) {
                    let k = choose|k: int| 0 <= k < c.len() && c[k] == 0x3Fu8;
                    assert(k == 0 || k == 1);
                }
                if has_wildcard {
                    if c0 == 0x3Fu8 {
                        assert(c[0] == 0x3Fu8);
                    } else {
                        assert(c[1] == 0x3Fu8);
                    }
                }
            }
        }
        if !has_wildcard {
            let value: i32 = if n == 1 {
                hex_digit_value(c0)
            } else {
                let c1 = v[i + 1];
                if c0 == 0x2Bu8 {
                    hex_digit_value(c1)
                } else if c0 == 0x2Du8 {
                    -hex_digit_value(c1)
                } else {
                    hex_digit_value(c0) * 16 + hex_digit_value(c1)
                }
            };
            assert(value == chunk_value(c));
            out.push(value);
            assert(chunk_values(t) == out@ + chunk_values(t.skip(i + n)));
        }
        i = i + n;
    }
    assert(t.skip(i as int) =~= Seq::<u8>::empty());
    assert(out@ + chunk_values(t.skip(i as int)) =~= out@);
    out
}

/// Finds a signature in a loaded module image.
///
/// `image` is the module's mapped image (`SizeOfImage` bytes starting at
/// `module_base`). Returns `module_base + i` for the first offset `i` below
/// `image.len() - pattern.len()` at which every pattern byte matches (an
/// entry of `-1` matches any byte), or 0 when there is none.
pub fn pattern_scan(module_base: usize, image: &[u8], sig: &str) -> (address: usize)
    requires
        pattern_well_formed(sig@),
        pattern_values(sig@).len() <= image@.len(),
        module_base + image@.len() <= usize::MAX,
    ensures
        address == scan_result(module_base, image@, pattern_values(sig@)),
        address != 0 ==> module_base <= address < module_base + image@.len() - pattern_values(
            sig@,
        ).len(),
        address != 0 ==> forall|j: int|
            0 <= j < pattern_values(sig@).len() && #[trigger] pattern_values(sig@)[j] != -1
                ==> image@[address - module_base + j] == #[verifier::truncate] (pattern_values(
                sig@,
            )[j] as u8),
        address != 0 ==> forall|q: int|
            0 <= q < address - module_base ==> #[trigger] differs_at(
                image@,
                pattern_values(sig@),
                q,
            ),
        address == 0 && module_base != 0 ==> forall|q: int|
            0 <= q < image@.len() - pattern_values(sig@).len() ==> #[trigger] differs_at(
                image@,
                pattern_values(sig@),
                q,
            ),
{
    let pattern_bytes = pattern_to_bytes(sig.to_owned());
    let size = pattern_bytes.len();
    let len = image.len();
    let end = len - size;
    let ghost img = image@;
    let ghost pat = pattern_bytes@;
    let mut i: usize = 0;
    while i < end
        invariant
            i <= end,
            len == img.len(),
            size <= img.len(),
            end == img.len() - pat.len(),
            size == pat.len(),
            img == image@,
            pat == pattern_bytes@,
            pat == pattern_values(sig@),
            module_base + img.len() <= usize::MAX,
            first_match_from(img, pat, 0, end as int) == first_match_from(img, pat, i as int, end as int),
        decreases end - i,
    {
        let mut found = true;
        let mut j: usize = 0;
        while j < size
            invariant_except_break
                found,
            invariant
                j <= size,
                i < end,
                len == img.len(),
                size <= img.len(),
                end == img.len() - pat.len(),
                size == pat.len(),
                img == image@,
                pat == pattern_bytes@,
                forall|k: int|
                    0 <= k < j ==> img[i + k] == #[verifier::truncate] (#[trigger] pat[k] as u8)
                        || pat[k] == -1,
            ensures
                found ==> matches_at(img, pat, i as int),
                !found ==> !matches_at(img, pat, i as int),
            decreases size - j,
        {
            if image[i + j] != #[verifier::truncate] (pattern_bytes[j] as u8) && pattern_bytes[j] != -1 {
                found = false;
                assert(!(img[i + j] == #[verifier::truncate] (pat[j as int] as u8) || pat[j as int] == -1));
                break;
            }
            j = j + 1;
        }
        if found {
            assert(first_match_from(img, pat, i as int, end as int) == Some(i as int));
            proof {
                lemma_scan_reports_match(module_base, img, pat);
            }
            return module_base + i;
        }
        i = i + 1;
    }
    proof {
        lemma_scan_reports_match(module_base, img, pat);
    }
    0
}

/// The offset a scan reports is the first one in range at which the
/// pattern matches; when it reports none, the pattern matches nowhere in
/// range.
pub proof fn lemma_first_match(image: Seq<u8>, pattern: Seq<i32>, i: int, end: int)
    ensures
        match first_match_from(image, pattern, i, end) {
            Some(k) => {
                &&& i <= k < end
                &&& matches_at(image, pattern, k)
                &&& forall|q: int| i <= q < k ==> !matches_at(image, pattern, q)
            },
            None => forall|q: int| i <= q < end ==> !matches_at(image, pattern, q),
        },
    decreases end - i,
{
    if i < end && !matches_at(image, pattern, i) {
        lemma_first_match(image, pattern, i + 1, end);
        assert forall|q: int| i <= q < end && q <= i implies !matches_at(image, pattern, q) by {
            assert(q == i);
        }
    }
}

} // verus!
