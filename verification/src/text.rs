//! Text handling shared by the device functions: decimal rendering of
//! integers, substring search, decoding of the fixed-size C strings that
//! LimeSuite fills in, and the check on names handed to LimeSuite.

use vstd::prelude::*;
use vstd::string::StrSliceExecFns;
use vstd::string::StringExecFns;
use vstd::string::StringSliceAdditionalSpecFns;
use vstd::utf8::decode_utf8;
use vstd::utf8::valid_utf8;

use crate::error::Error;

verus! {

/// Size in bytes of a LimeSuite name buffer (`lms_name_t`), terminating
/// NUL included.
pub const LMS_NAME_CAPACITY: usize = 16;

// ---------------------------------------------------------------------
// Decimal rendering
// ---------------------------------------------------------------------

/// The character of the decimal digit `d` (`0 <= d < 10`).
pub open spec fn digit_char(d: int) -> char {
    (d + 48) as char
}

/// Decimal digits of a natural number, most significant first.
pub open spec fn digits(n: nat) -> Seq<char>
    decreases n,
{
    if n < 10 {
        seq![digit_char(n as int)]
    } else {
        digits(n / 10).push(digit_char((n % 10) as int))
    }
}

/// Decimal rendering of an integer, as `{}` formats it.
pub open spec fn decimal(n: int) -> Seq<char> {
    if n < 0 {
        seq!['-'] + digits((-n) as nat)
    } else {
        digits(n as nat)
    }
}

/// The number a sequence of decimal digits denotes.
pub open spec fn digits_value(s: Seq<char>) -> int
    decreases s.len(),
{
    if s.len() == 0 {
        0
    } else {
        10 * digits_value(s.drop_last()) + (s.last() as int - 48)
    }
}

/// The decimal digits of `n` are decimal digit characters, the first of
/// them is `0` only for `n == 0`, and they denote `n`.
pub proof fn lemma_digits_denote(n: nat)
    ensures
        digits(n).len() >= 1,
        forall|i: int| 0 <= i < digits(n).len() ==> '0' <= #[trigger] digits(n)[i] <= '9',
        n > 0 ==> digits(n)[0] != '0',
        digits_value(digits(n)) == n,
    decreases n,
{
    if n >= 10 {
        lemma_digits_denote(n / 10);
        let d = digits(n);
        assert(d.drop_last() =~= digits(n / 10));
        assert(d.last() as int == (n % 10) + 48);
        assert(digits_value(d) == 10 * digits_value(digits(n / 10)) + (n % 10));
        assert forall|i: int| 0 <= i < d.len() implies '0' <= #[trigger] d[i] <= '9' by {
            if i < d.len() - 1 {
                assert(d[i] == digits(n / 10)[i]);
            }
        }
        assert(d[0] == digits(n / 10)[0]);
    } else {
        let d = digits(n);
        assert(d.last() as int == n + 48);
        assert(d.drop_last() =~= Seq::<char>::empty());
        assert(digits_value(d) == 10 * digits_value(d.drop_last()) + n);
    }
}

/// The decimal rendering of `n` denotes `n`: after a `-` for a negative
/// number, the digits of its magnitude.
pub proof fn lemma_decimal_denotes(n: int)
    ensures
        n >= 0 ==> digits_value(decimal(n)) == n,
        n < 0 ==> decimal(n)[0] == '-' && digits_value(decimal(n).drop_first()) == -n,
{
    if n >= 0 {
        lemma_digits_denote(n as nat);
    } else {
        lemma_digits_denote((-n) as nat);
        assert(decimal(n).drop_first() =~= digits((-n) as nat));
    }
}

fn digit_str(d: u64) -> (s: &'static str)
    requires
        d < 10,
    ensures
        s@ == seq![digit_char(d as int)],
{
    if d == 0 {
        proof { reveal_strlit("0"); }
        "0"
    } else if d == 1 {
        proof { reveal_strlit("1"); }
        "1"
    } else if d == 2 {
        proof { reveal_strlit("2"); }
        "2"
    } else if d == 3 {
        proof { reveal_strlit("3"); }
        "3"
    } else if d == 4 {
        proof { reveal_strlit("4"); }
        "4"
    } else if d == 5 {
        proof { reveal_strlit("5"); }
        "5"
    } else if d == 6 {
        proof { reveal_strlit("6"); }
        "6"
    } else if d == 7 {
        proof { reveal_strlit("7"); }
        "7"
    } else if d == 8 {
        proof { reveal_strlit("8"); }
        "8"
    } else {
        proof { reveal_strlit("9"); }
        "9"
    }
}

fn push_digits(s: &mut String, n: u64)
    ensures
        final(s)@ == old(s)@ + digits(n as nat),
    decreases n,
{
    let ghost start = s@;
    if n >= 10 {
        push_digits(s, n / 10);
    }
    s.append(digit_str(n % 10));
    assert(s@ =~= start + digits(n as nat));
}

/// Renders `n` in decimal, as `format!("{}", n)` does.
pub fn decimal_string(n: i32) -> (s: String)
    ensures
        s@ == decimal(n as int),
{
    let mut s = String::new();
    if n < 0 {
        proof { reveal_strlit("-"); }
        s.append("-");
        let magnitude: u64 = (0i64 - (n as i64)) as u64;
        push_digits(&mut s, magnitude);
    } else {
        push_digits(&mut s, n as u64);
    }
    s
}

// ---------------------------------------------------------------------
// Substring search
// ---------------------------------------------------------------------

/// `pat` occurs in `s` starting at index `i`.
pub open spec fn occurs_at(s: Seq<char>, pat: Seq<char>, i: int) -> bool {
    &&& 0 <= i
    &&& i + pat.len() <= s.len()
    &&& s.subrange(i, i + pat.len()) == pat
}

/// `pat` occurs somewhere in `s`, as `str::contains` tests it.
pub open spec fn contains_chars(s: Seq<char>, pat: Seq<char>) -> bool {
    exists|i: int| occurs_at(s, pat, i)
}

fn occurs_at_exec(s: &str, pat: &str, i: usize, n: usize, m: usize) -> (r: bool)
    requires
        n == s@.len(),
        m == pat@.len(),
        i + m <= n,
    ensures
        r == occurs_at(s@, pat@, i as int),
{
    let mut j: usize = 0;
    while j < m
        invariant
            n == s@.len(),
            m == pat@.len(),
            i + m <= n,
            j <= m,
            forall|t: int| 0 <= t < j ==> s@[i + t] == pat@[t],
        decreases m - j,
    {
        if s.get_char(i + j) != pat.get_char(j) {
            assert(s@.subrange(i as int, i + m)[j as int] != pat@[j as int]);
            return false;
        }
        j = j + 1;
    }
    assert(s@.subrange(i as int, i + m) =~= pat@);
    true
}

/// Tells whether `pat` occurs in `s`.
pub fn str_contains(s: &str, pat: &str) -> (r: bool)
    ensures
        r == contains_chars(s@, pat@),
{
    let n = s.unicode_len();
    let m = pat.unicode_len();
    if m > n {
        return false;
    }
    if m == 0 {
        assert(s@.subrange(0, 0) =~= pat@);
        assert(occurs_at(s@, pat@, 0));
        return true;
    }
    let mut i: usize = 0;
    while i <= n - m
        invariant
            n == s@.len(),
            m == pat@.len(),
            0 < m <= n,
            i <= n - m + 1,
            forall|k: int| 0 <= k < i ==> !occurs_at(s@, pat@, k),
        decreases n - m + 1 - i,
    {
        if occurs_at_exec(s, pat, i, n, m) {
            return true;
        }
        i = i + 1;
    }
    false
}

/// Tells whether two strings hold the same characters.
pub fn str_equals(a: &str, b: &str) -> (r: bool)
    ensures
        r == (a@ == b@),
{
    let n = a.unicode_len();
    if n != b.unicode_len() {
        return false;
    }
    let mut i: usize = 0;
    while i < n
        invariant
            n == a@.len(),
            n == b@.len(),
            i <= n,
            forall|k: int| 0 <= k < i ==> a@[k] == b@[k],
        decreases n - i,
    {
        if a.get_char(i) != b.get_char(i) {
            return false;
        }
        i = i + 1;
    }
    assert(a@ =~= b@);
    true
}

// ---------------------------------------------------------------------
// C strings
// ---------------------------------------------------------------------

/// The bytes of a C string held in a fixed-size buffer: those before the
/// first NUL, or the whole buffer when it holds none.
pub open spec fn c_str_bytes(raw: Seq<i8>) -> Seq<u8>
    decreases raw.len(),
{
    if raw.len() == 0 || raw[0] == 0 {
        Seq::empty()
    } else {
        seq![raw[0] as u8] + c_str_bytes(raw.drop_first())
    }
}

/// Copies the bytes of the C string held in `raw` (see `c_str_bytes`).
pub fn c_str_to_bytes(raw: &[i8]) -> (r: Vec<u8>)
    ensures
        r@ == c_str_bytes(raw@),
{
    let mut r: Vec<u8> = Vec::new();
    let mut i: usize = 0;
    assert(raw@.skip(0) =~= raw@);
    while i < raw.len()
        invariant
            i <= raw@.len(),
            r@ + c_str_bytes(raw@.skip(i as int)) == c_str_bytes(raw@),
        decreases raw@.len() - i,
    {
        let b = raw[i];
        if b == 0 {
            assert(r@ =~= r@ + c_str_bytes(raw@.skip(i as int)));
            return r;
        }
        assert(raw@.skip(i as int).drop_first() =~= raw@.skip(i + 1));
        r.push(b as u8);
        i = i + 1;
    }
    assert(r@ =~= r@ + c_str_bytes(raw@.skip(i as int)));
    r
}

/// Name for the characters that `String::from_utf8_lossy` makes of a byte
/// sequence: invalid sequences become U+FFFD.
pub uninterp spec fn utf8_lossy(bytes: Seq<u8>) -> Seq<char>;

/// Calls `String::from_utf8_lossy` and takes ownership of the result.
/// Its documentation says that valid UTF-8 comes back unchanged, which the
/// second clause states; of other input only the name is stated.
#[verifier::external_body]
fn string_from_utf8_lossy(bytes: &[u8]) -> (s: String)
    ensures
        s@ == utf8_lossy(bytes@),
        valid_utf8(bytes@) ==> s@ == decode_utf8(bytes@),
{
    String::from_utf8_lossy(bytes).into_owned()
}

/// Calls `String::from_utf8`: it succeeds exactly on valid UTF-8, and then
/// holds the decoded characters.
#[verifier::external_body]
fn string_from_utf8(bytes: Vec<u8>) -> (r: Option<String>)
    ensures
        r is Some <==> valid_utf8(bytes@),
        r matches Some(s) ==> s@ == decode_utf8(bytes@),
{
    String::from_utf8(bytes).ok()
}

/// Converts a C string held in a fixed-size buffer into a `String`,
/// replacing invalid UTF-8 by U+FFFD.
pub fn string_from_slice(slice: &[i8]) -> (s: String)
    ensures
        s@ == utf8_lossy(c_str_bytes(slice@)),
        valid_utf8(c_str_bytes(slice@)) ==> s@ == decode_utf8(c_str_bytes(slice@)),
{
    let bytes = c_str_to_bytes(slice);
    string_from_utf8_lossy(bytes.as_slice())
}

/// Decodes bytes as UTF-8; `None` when they are not valid UTF-8.
pub fn utf8_to_string(bytes: Vec<u8>) -> (r: Option<String>)
    ensures
        r is Some <==> valid_utf8(bytes@),
        r matches Some(s) ==> s@ == decode_utf8(bytes@),
{
    string_from_utf8(bytes)
}

/// Decodes the C string held in a fixed-size buffer as UTF-8; `None` when
/// its bytes are not valid UTF-8.
pub fn c_str_to_string(raw: &[i8]) -> (r: Option<String>)
    ensures
        r is Some <==> valid_utf8(c_str_bytes(raw@)),
        r matches Some(s) ==> s@ == decode_utf8(c_str_bytes(raw@)),
{
    utf8_to_string(c_str_to_bytes(raw))
}

/// The bytes of a C string held in a buffer are the bytes of the buffer
/// up to its first NUL: none of them is NUL, and the string ends at the
/// first NUL of the buffer, or with the buffer when it holds none.
pub proof fn lemma_c_str_bytes_prefix(raw: Seq<i8>)
    ensures
        c_str_bytes(raw).len() <= raw.len(),
        forall|k: int|
            0 <= k < c_str_bytes(raw).len() ==> #[trigger] c_str_bytes(raw)[k] == raw[k] as u8,
        forall|k: int| 0 <= k < c_str_bytes(raw).len() ==> #[trigger] raw[k] != 0,
        c_str_bytes(raw).len() == raw.len() || raw[c_str_bytes(raw).len() as int] == 0,
    decreases raw.len(),
{
    if raw.len() == 0 || raw[0] == 0 {
        assert(c_str_bytes(raw) =~= Seq::<u8>::empty());
    } else {
        let rest = raw.drop_first();
        lemma_c_str_bytes_prefix(rest);
        assert(c_str_bytes(raw) == seq![raw[0] as u8] + c_str_bytes(rest));
        assert forall|k: int| 0 <= k < c_str_bytes(raw).len() implies #[trigger] c_str_bytes(
            raw,
        )[k] == raw[k] as u8 by {
            if k > 0 {
                assert(c_str_bytes(raw)[k] == c_str_bytes(rest)[k - 1]);
                assert(rest[k - 1] == raw[k]);
            }
        }
        assert forall|k: int| 0 <= k < c_str_bytes(raw).len() implies #[trigger] raw[k] != 0 by {
            if k > 0 {
                assert(rest[k - 1] == raw[k]);
                assert(rest[k - 1] != 0);
            }
        }
        if c_str_bytes(raw).len() < raw.len() {
            assert(rest[c_str_bytes(rest).len() as int] == raw[c_str_bytes(raw).len() as int]);
        }
    }
}

// ---------------------------------------------------------------------
// Names handed to LimeSuite
// ---------------------------------------------------------------------

/// A string can be handed to C: it holds no NUL byte.
pub open spec fn fits_c_string(bytes: Seq<u8>) -> bool {
    !bytes.contains(0u8)
}

/// A name fits a LimeSuite name buffer: it can be handed to C and leaves
/// room for the terminating NUL.
pub open spec fn fits_lms_name(bytes: Seq<u8>) -> bool {
    &&& fits_c_string(bytes)
    &&& bytes.len() <= LMS_NAME_CAPACITY - 1
}

/// A string can be handed to C exactly when none of its bytes is NUL; any
/// other byte (such as `/` in a path) is accepted.
pub proof fn lemma_fits_c_string(bytes: Seq<u8>)
    ensures
        fits_c_string(bytes) <==> forall|k: int| 0 <= k < bytes.len() ==> bytes[k] != 0u8,
{
    if !fits_c_string(bytes) {
        let k = choose|k: int| 0 <= k < bytes.len() && bytes[k] == 0u8;
        assert(bytes[k] == 0u8);
    }
}

/// A name fits a LimeSuite name buffer exactly when none of its bytes is
/// NUL and it has at most 15 bytes.
pub proof fn lemma_fits_lms_name(bytes: Seq<u8>)
    ensures
        fits_lms_name(bytes) <==> (forall|k: int| 0 <= k < bytes.len() ==> bytes[k] != 0u8)
            && bytes.len() <= 15,
{
    lemma_fits_c_string(bytes);
}

/// Checks that a string can be handed to C, as `CString::new` does, and
/// returns its bytes. A string with a NUL byte is refused with
/// `Error::InvalidValue`.
pub fn c_string_bytes(s: &str) -> (r: Result<Vec<u8>, Error>)
    ensures
        r is Ok <==> fits_c_string(s.spec_bytes()),
        r is Ok <==> forall|k: int| 0 <= k < s.spec_bytes().len() ==> s.spec_bytes()[k] != 0u8,
        r matches Ok(b) ==> b@ == s.spec_bytes(),
        r matches Err(e) ==> e == Error::InvalidValue,
{
    proof {
        lemma_fits_c_string(s.spec_bytes());
    }
    let bytes = s.as_bytes();
    let mut out: Vec<u8> = Vec::new();
    let mut i: usize = 0;
    while i < bytes.len()
        invariant
            bytes@ == s.spec_bytes(),
            i <= bytes@.len(),
            out@ == bytes@.take(i as int),
            forall|k: int| 0 <= k < i ==> bytes@[k] != 0u8,
        decreases bytes@.len() - i,
    {
        if bytes[i] == 0 {
            assert(bytes@.contains(0u8));
            return Err(Error::InvalidValue);
        }
        out.push(bytes[i]);
        assert(out@ =~= bytes@.take(i + 1));
        i = i + 1;
    }
    assert(out@ =~= bytes@);
    assert(!bytes@.contains(0u8)) by {
        if bytes@.contains(0u8) {
            let k = choose|k: int| 0 <= k < bytes@.len() && bytes@[k] == 0u8;
            assert(bytes@[k] != 0u8);
        }
    }
    Ok(out)
}

/// Checks a name before it is handed to LimeSuite and returns its bytes.
/// A name with a NUL byte, or longer than 15 bytes, is refused with
/// `Error::InvalidValue`.
pub fn lms_name_bytes(name: &str) -> (r: Result<Vec<u8>, Error>)
    ensures
        r is Ok <==> fits_lms_name(name.spec_bytes()),
        r matches Ok(b) ==> b@ == name.spec_bytes(),
        r matches Err(e) ==> e == Error::InvalidValue,
{
    let bytes = c_string_bytes(name)?;
    if bytes.len() > LMS_NAME_CAPACITY - 1 {
        return Err(Error::InvalidValue);
    }
    Ok(bytes)
}

} // verus!
