//! Field-level validation of caller-supplied identifiers, text and revisions.
//!
//! Byte-level rules are stated over the UTF-8 encoding of a string
//! (`spec_bytes`), character-level rules over its characters (`@`).
use vstd::prelude::*;
use vstd::string::*;
use vstd::utf8::*;

verus! {

/// Largest number of bytes in an opaque identifier.
pub const MAX_ID_BYTES: usize = 512;

/// Largest number of bytes in a free-text field such as a summary.
pub const MAX_TEXT_BYTES: usize = 4000;

/// Largest number of exact caller Instance keys in one allowlist.
pub const MAX_CALLERS: usize = 64;

/// A byte allowed in an exact identifier: ASCII letters, digits, `.`, `_`, `-`, `:`.
pub open spec fn is_id_byte(b: u8) -> bool {
    ||| (48 <= b && b <= 57)
    ||| (65 <= b && b <= 90)
    ||| (97 <= b && b <= 122)
    ||| b == 46
    ||| b == 95
    ||| b == 45
    ||| b == 58
}

/// An exact identifier: 1 to 256 bytes, each an identifier byte.
pub open spec fn id_bytes(bytes: Seq<u8>) -> bool {
    &&& 0 < bytes.len() <= 256
    &&& forall|i: int| 0 <= i < bytes.len() ==> is_id_byte(#[trigger] bytes[i])
}

/// A control character (general category Cc: C0 and C1 control codes).
pub open spec fn is_control(c: char) -> bool {
    (c as u32) <= 0x1f || (0x7f <= (c as u32) && (c as u32) <= 0x9f)
}

/// A character with the Unicode White_Space property.
pub open spec fn is_white_space(c: char) -> bool {
    let u = c as u32;
    ||| (0x09 <= u && u <= 0x0d)
    ||| u == 0x20
    ||| u == 0x85
    ||| u == 0xa0
    ||| u == 0x1680
    ||| (0x2000 <= u && u <= 0x200a)
    ||| u == 0x2028
    ||| u == 0x2029
    ||| u == 0x202f
    ||| u == 0x205f
    ||| u == 0x3000
}

/// An opaque value: non-empty, at most `max` bytes, no NUL and no control character.
pub open spec fn bounded_opaque(s: Seq<char>, max: int) -> bool {
    &&& s.len() > 0
    &&& encode_utf8(s).len() <= max
    &&& forall|i: int| 0 <= i < s.len() ==> #[trigger] s[i] != '\0'
    &&& forall|i: int| 0 <= i < s.len() ==> !is_control(#[trigger] s[i])
}

/// Free text: at least one character that is not white space, at most `max`
/// bytes, no NUL.
pub open spec fn bounded_text(s: Seq<char>, max: int) -> bool {
    &&& exists|i: int| 0 <= i < s.len() && !is_white_space(#[trigger] s[i])
    &&& encode_utf8(s).len() <= max
    &&& forall|i: int| 0 <= i < s.len() ==> #[trigger] s[i] != '\0'
}

/// An idempotency key: an exact identifier of at most 200 bytes.
pub open spec fn idempotency_key_bytes(bytes: Seq<u8>) -> bool {
    id_bytes(bytes) && bytes.len() <= 200
}

/// A byte allowed in a slash-separated secret path.
pub open spec fn is_path_byte(b: u8) -> bool {
    ||| (48 <= b && b <= 57)
    ||| (65 <= b && b <= 90)
    ||| (97 <= b && b <= 122)
    ||| b == 46
    ||| b == 95
    ||| b == 45
    ||| b == 47
}

/// Byte `i` of `b` starts a path segment (it is first, or follows a `/`).
pub open spec fn starts_segment(b: Seq<u8>, i: int) -> bool {
    i == 0 || b[i - 1] == 47
}

/// Byte `i` of `b` ends a path segment (it is last, or a `/` follows it).
pub open spec fn ends_segment(b: Seq<u8>, i: int) -> bool {
    i == b.len() - 1 || b[i + 1] == 47
}

/// The segment `.` starts at byte `i`.
pub open spec fn dot_segment_at(b: Seq<u8>, i: int) -> bool {
    0 <= i < b.len() && b[i] == 46 && starts_segment(b, i) && ends_segment(b, i)
}

/// The segment `..` starts at byte `i`.
pub open spec fn dot_dot_segment_at(b: Seq<u8>, i: int) -> bool {
    0 <= i && i + 1 < b.len() && b[i] == 46 && b[i + 1] == 46 && starts_segment(b, i)
        && ends_segment(b, i + 1)
}

/// A relative secret path: 1 to 256 path bytes, no leading or trailing `/`,
/// no empty segment, and no `.` or `..` segment.
pub open spec fn secret_path_bytes(b: Seq<u8>) -> bool {
    &&& 0 < b.len() <= 256
    &&& b[0] != 47
    &&& b[b.len() - 1] != 47
    &&& forall|i: int| 0 <= i < b.len() ==> is_path_byte(#[trigger] b[i])
    &&& forall|i: int| 0 <= i < b.len() - 1 ==> !(#[trigger] b[i] == 47 && b[i + 1] == 47)
    &&& forall|i: int| !dot_segment_at(b, i)
    &&& forall|i: int| !dot_dot_segment_at(b, i)
}

/// A secret reference: an exact identifier or a relative secret path.
pub open spec fn secret_reference_bytes(b: Seq<u8>) -> bool {
    id_bytes(b) || secret_path_bytes(b)
}

/// Whether `value` is an exact identifier.
pub fn valid_id(value: &str) -> (r: bool)
    ensures
        r == id_bytes(value.spec_bytes()),
{
    let bytes = value.as_bytes();
    let n = bytes.len();
    if n == 0 || n > 256 {
        return false;
    }
    let mut i: usize = 0;
    while i < n
        invariant
            n == bytes@.len(),
            bytes@ == value.spec_bytes(),
            i <= n,
            forall|j: int| 0 <= j < i ==> is_id_byte(#[trigger] bytes@[j]),
        decreases n - i,
    {
        let b = bytes[i];
        let allowed = (48 <= b && b <= 57) || (65 <= b && b <= 90) || (97 <= b && b <= 122)
            || b == 46 || b == 95 || b == 45 || b == 58;
        if !allowed {
            return false;
        }
        i += 1;
    }
    true
}

/// Whether `value` is an opaque value of at most `max` bytes.
pub fn valid_bounded_opaque(value: &str, max: usize) -> (r: bool)
    ensures
        r == bounded_opaque(value@, max as int),
{
    if value.is_empty() || value.as_bytes().len() > max {
        return false;
    }
    let mut ok = true;
    for c in it: value.chars()
        invariant
            ok == (forall|i: int| 0 <= i < it.index() ==> !is_control(#[trigger] it.seq()[i])),
    {
        let u = c as u32;
        if u <= 0x1f || (0x7f <= u && u <= 0x9f) {
            ok = false;
        }
    }
    proof {
        assert(ok == (forall|i: int| 0 <= i < value@.len() ==> !is_control(#[trigger] value@[i])));
        // NUL is itself a control character.
        if ok {
            assert forall|i: int| 0 <= i < value@.len() implies #[trigger] value@[i] != '\0' by {
                assert(!is_control(value@[i]));
            }
        }
    }
    ok
}

/// Whether `value` is an opaque identifier of at most 512 bytes.
pub fn valid_opaque_id(value: &str) -> (r: bool)
    ensures
        r == bounded_opaque(value@, MAX_ID_BYTES as int),
{
    valid_bounded_opaque(value, MAX_ID_BYTES)
}

/// Whether `value` is free text of at most `max` bytes.
pub fn valid_text(value: &str, max: usize) -> (r: bool)
    ensures
        r == bounded_text(value@, max as int),
{
    if value.as_bytes().len() > max {
        return false;
    }
    let mut visible = false;
    let mut no_nul = true;
    for c in it: value.chars()
        invariant
            visible == (exists|i: int|
                0 <= i < it.index() && !is_white_space(#[trigger] it.seq()[i])),
            no_nul == (forall|i: int| 0 <= i < it.index() ==> #[trigger] it.seq()[i] != '\0'),
    {
        let u = c as u32;
        let space = (0x09 <= u && u <= 0x0d) || u == 0x20 || u == 0x85 || u == 0xa0 || u
            == 0x1680 || (0x2000 <= u && u <= 0x200a) || u == 0x2028 || u == 0x2029 || u
            == 0x202f || u == 0x205f || u == 0x3000;
        proof {
            assert(space == is_white_space(c));
        }
        if !space {
            visible = true;
        }
        if c == '\0' {
            no_nul = false;
        }
    }
    visible && no_nul
}

/// Whether an optional text field is absent or valid free text.
pub fn valid_optional_text(value: Option<&str>, max: usize) -> (r: bool)
    ensures
        r == match value {
            None => true,
            Some(s) => bounded_text(s@, max as int),
        },
{
    match value {
        None => true,
        Some(s) => valid_text(s, max),
    }
}

/// Whether `value` is an idempotency key.
pub fn valid_idempotency_key(value: &str) -> (r: bool)
    ensures
        r == idempotency_key_bytes(value.spec_bytes()),
{
    valid_id(value) && value.as_bytes().len() <= 200
}

/// Whether `value` is a secret reference.
pub fn valid_secret_reference(value: &str) -> (r: bool)
    ensures
        r == secret_reference_bytes(value.spec_bytes()),
{
    if valid_id(value) {
        return true;
    }
    let b = value.as_bytes();
    let n = b.len();
    if n == 0 || n > 256 || b[0] == 47 || b[n - 1] == 47 {
        return false;
    }
    let mut i: usize = 0;
    while i < n
        invariant
            n == b@.len(),
            b@ == value.spec_bytes(),
            !id_bytes(b@),
            0 < n <= 256,
            i <= n,
            forall|j: int| 0 <= j < i ==> is_path_byte(#[trigger] b@[j]),
            forall|j: int| 0 <= j < i && j < n - 1 ==> !(#[trigger] b@[j] == 47 && b@[j + 1] == 47),
            forall|j: int| j < i ==> !dot_segment_at(b@, j),
            forall|j: int| j < i ==> !dot_dot_segment_at(b@, j),
        decreases n - i,
    {
        let c = b[i];
        let allowed = (48 <= c && c <= 57) || (65 <= c && c <= 90) || (97 <= c && c <= 122)
            || c == 46 || c == 95 || c == 45 || c == 47;
        if !allowed {
            assert(!is_path_byte(b@[i as int]));
            return false;
        }
        if c == 47 && i + 1 < n && b[i + 1] == 47 {
            return false;
        }
        let starts = i == 0 || b[i - 1] == 47;
        if c == 46 && starts {
            if i + 1 == n || b[i + 1] == 47 {
                assert(dot_segment_at(b@, i as int));
                return false;
            }
            if b[i + 1] == 46 && (i + 2 == n || b[i + 2] == 47) {
                assert(dot_dot_segment_at(b@, i as int));
                return false;
            }
        }
        i += 1;
    }
    true
}

/// Whether `values` is a caller allowlist: 1 to 64 distinct exact identifiers.
pub open spec fn caller_list(values: Seq<String>) -> bool {
    &&& 0 < values.len() <= MAX_CALLERS
    &&& forall|i: int| 0 <= i < values.len() ==> id_bytes(encode_utf8(#[trigger] values[i]@))
    &&& forall|i: int, j: int|
        0 <= i < values.len() && 0 <= j < values.len() && i != j ==> #[trigger] values[i]@
            != #[trigger] values[j]@
}


/// Whether `values` is a caller allowlist.
pub fn valid_callers(values: &[String]) -> (r: bool)
    ensures
        r == caller_list(values@),
{
    let n = values.len();
    if n == 0 || n > MAX_CALLERS {
        return false;
    }
    let mut i: usize = 0;
    while i < n
        invariant
            n == values@.len(),
            0 < n <= MAX_CALLERS,
            i <= n,
            forall|k: int| 0 <= k < i ==> id_bytes(encode_utf8(#[trigger] values@[k]@)),
            forall|k: int, l: int|
                0 <= k < i && 0 <= l < i && k != l ==> #[trigger] values@[k]@
                    != #[trigger] values@[l]@,
        decreases n - i,
    {
        if !valid_id(values[i].as_str()) {
            return false;
        }
        let mut j: usize = 0;
        while j < i
            invariant
                n == values@.len(),
                i < n,
                j <= i,
                forall|l: int| 0 <= l < j ==> values@[l]@ != #[trigger] values@[i as int]@,
            decreases i - j,
        {
            if values[i] == values[j] {
                return false;
            }
            j += 1;
        }
        i += 1;
    }
    true
}

/// An ASCII decimal digit.
pub open spec fn is_digit(b: u8) -> bool {
    48 <= b && b <= 57
}

/// Every byte of `b` is a decimal digit.
pub open spec fn all_digits(b: Seq<u8>) -> bool {
    forall|i: int| 0 <= i < b.len() ==> is_digit(#[trigger] b[i])
}

/// The number that the decimal digits `b` denote.
pub open spec fn decimal_value(b: Seq<u8>) -> nat
    decreases b.len(),
{
    if b.len() == 0 {
        0
    } else {
        decimal_value(b.drop_last()) * 10 + (b.last() - 48) as nat
    }
}

/// The value of `b` as `i64::from_str` reads it: an optional `+` or `-`
/// followed by at least one ASCII digit, within the range of `i64`.
pub open spec fn i64_text_value(b: Seq<u8>) -> Option<int> {
    let negative = b.len() > 0 && b[0] == 45;
    let digits = if b.len() > 0 && (b[0] == 43 || b[0] == 45) {
        b.drop_first()
    } else {
        b
    };
    if digits.len() > 0 && all_digits(digits) {
        let v = if negative {
            -(decimal_value(digits) as int)
        } else {
            decimal_value(digits) as int
        };
        if i64::MIN <= v <= i64::MAX {
            Some(v)
        } else {
            None
        }
    } else {
        None
    }
}

/// A revision (or cursor) written as text: a positive `i64`.
pub open spec fn revision_value(b: Seq<u8>) -> Option<int> {
    match i64_text_value(b) {
        Some(v) => if v > 0 {
            Some(v)
        } else {
            None
        },
        None => None,
    }
}

proof fn lemma_decimal_step(b: Seq<u8>, lo: int, hi: int)
    requires
        0 <= lo <= hi < b.len(),
    ensures
        decimal_value(b.subrange(lo, hi + 1)) == decimal_value(b.subrange(lo, hi)) * 10 + (b[hi]
            - 48) as nat,
{
    assert(b.subrange(lo, hi + 1).drop_last() =~= b.subrange(lo, hi));
}

proof fn lemma_decimal_prefix_le(b: Seq<u8>, k: int)
    requires
        0 <= k <= b.len(),
        all_digits(b),
    ensures
        decimal_value(b.take(k)) <= decimal_value(b),
    decreases b.len(),
{
    if k < b.len() {
        assert(b.drop_last().take(k) =~= b.take(k));
        lemma_decimal_prefix_le(b.drop_last(), k);
    } else {
        assert(b.take(k) =~= b);
    }
}

/// Reads a positive revision written in decimal.
pub fn parse_revision(value: &str) -> (r: Option<i64>)
    ensures
        match revision_value(value.spec_bytes()) {
            Some(v) => r == Some(v as i64),
            None => r is None,
        },
{
    let b = value.as_bytes();
    let n = b.len();
    if n == 0 {
        return None;
    }
    if b[0] == 45 {
        return None;
    }
    let start: usize = if b[0] == 43 { 1 } else { 0 };
    if start == n {
        return None;
    }
    let ghost digits = b@.subrange(start as int, n as int);
    assert(digits =~= if b@[0] == 43 { b@.drop_first() } else { b@ });
    let mut i: usize = start;
    let mut digits_only = true;
    while i < n
        invariant
            n == b@.len(),
            digits == b@.subrange(start as int, n as int),
            start < n,
            start <= i <= n,
            digits_only == forall|j: int| start <= j < i ==> is_digit(#[trigger] b@[j]),
        decreases n - i,
    {
        if !(48 <= b[i] && b[i] <= 57) {
            digits_only = false;
        }
        i += 1;
    }
    if !digits_only {
        proof {
            let j = choose|j: int| start <= j < n && !is_digit(#[trigger] b@[j]);
            assert(!is_digit(digits[j - start]));
        }
        return None;
    }
    assert(all_digits(digits)) by {
        assert forall|j: int| 0 <= j < digits.len() implies is_digit(#[trigger] digits[j]) by {
            assert(digits[j] == b@[j + start]);
        }
    }
    let mut acc: i64 = 0;
    i = start;
    assert(b@.subrange(start as int, start as int) =~= Seq::<u8>::empty());
    while i < n
        invariant
            n == b@.len(),
            b@ == value.spec_bytes(),
            start <= i <= n,
            digits == b@.subrange(start as int, n as int),
            digits =~= if b@[0] == 43 { b@.drop_first() } else { b@ },
            b@[0] != 45,
            all_digits(digits),
            0 <= acc,
            acc == decimal_value(b@.subrange(start as int, i as int)),
        decreases n - i,
    {
        assert(is_digit(digits[i - start]));
        let d: i64 = (b[i] - 48) as i64;
        proof {
            lemma_decimal_step(b@, start as int, i as int);
        }
        if acc > (i64::MAX - d) / 10 {
            proof {
                assert(acc * 10 + d > i64::MAX) by (nonlinear_arith)
                    requires
                        acc > (i64::MAX - d) / 10,
                        0 <= d <= 9,
                ;
                assert(b@.subrange(start as int, i + 1) =~= digits.take(i + 1 - start));
                lemma_decimal_prefix_le(digits, i + 1 - start);
            }
            return None;
        }
        proof {
            assert(acc * 10 + d <= i64::MAX) by (nonlinear_arith)
                requires
                    acc <= (i64::MAX - d) / 10,
                    0 <= d <= 9,
            ;
        }
        acc = acc * 10 + d;
        i += 1;
    }
    if acc > 0 {
        Some(acc)
    } else {
        None
    }
}

/// Reads an optional pagination cursor; a present cursor must be a revision.
pub fn parse_cursor(value: Option<&str>) -> (r: Result<Option<i64>, ()>)
    ensures
        match value {
            None => r == Ok::<Option<i64>, ()>(None),
            Some(s) => match revision_value(s.spec_bytes()) {
                Some(v) => r == Ok::<Option<i64>, ()>(Some(v as i64)),
                None => r is Err,
            },
        },
{
    match value {
        None => Ok(None),
        Some(s) => match parse_revision(s) {
            Some(v) => Ok(Some(v)),
            None => Err(()),
        },
    }
}

/// Checks the fields shared by administrative mutations and reads the
/// expected revision.
pub fn valid_admin_mutation(key: &str, initiative_id: &str, revision: &str) -> (r: Option<i64>)
    ensures
        match revision_value(revision.spec_bytes()) {
            Some(v) => r == if idempotency_key_bytes(key.spec_bytes()) && bounded_opaque(
                initiative_id@,
                MAX_ID_BYTES as int,
            ) {
                Some(v as i64)
            } else {
                None
            },
            None => r is None,
        },
{
    if valid_idempotency_key(key) && valid_opaque_id(initiative_id) {
        parse_revision(revision)
    } else {
        None
    }
}


/// The character of decimal digit `d`.
pub open spec fn digit_char(d: nat) -> char {
    (d + 48) as char
}

/// The decimal digits of `n`, most significant first, without leading zeros.
pub open spec fn decimal_chars(n: nat) -> Seq<char>
    decreases n,
{
    if n < 10 {
        seq![digit_char(n)]
    } else {
        decimal_chars(n / 10).push(digit_char(n % 10))
    }
}

/// How an `i64` is written in decimal: a `-` before the digits of a negative value.
pub open spec fn i64_text(n: int) -> Seq<char> {
    if n < 0 {
        seq!['-'] + decimal_chars((-n) as nat)
    } else {
        decimal_chars(n as nat)
    }
}

fn digit_str(d: u8) -> (r: &'static str)
    requires
        d < 10,
    ensures
        r@ == seq![digit_char(d as nat)],
{
    proof {
        reveal_strlit("0");
        reveal_strlit("1");
        reveal_strlit("2");
        reveal_strlit("3");
        reveal_strlit("4");
        reveal_strlit("5");
        reveal_strlit("6");
        reveal_strlit("7");
        reveal_strlit("8");
        reveal_strlit("9");
    }
    match d {
        0 => "0",
        1 => "1",
        2 => "2",
        3 => "3",
        4 => "4",
        5 => "5",
        6 => "6",
        7 => "7",
        8 => "8",
        _ => "9",
    }
}

fn append_decimal(out: &mut String, n: u64)
    ensures
        final(out)@ == old(out)@ + decimal_chars(n as nat),
    decreases n,
{
    if n >= 10 {
        append_decimal(out, n / 10);
    }
    out.append(digit_str((n % 10) as u8));
}

/// Writes `n` in decimal, as revisions and cursors travel on the wire.
pub fn decimal_text(n: i64) -> (r: String)
    ensures
        r@ == i64_text(n as int),
{
    let mut out = String::new();
    if n < 0 {
        proof {
            reveal_strlit("-");
        }
        out.append("-");
        let magnitude: u64 = (-(n as i128)) as u64;
        append_decimal(&mut out, magnitude);
    } else {
        append_decimal(&mut out, n as u64);
    }
    out
}


proof fn lemma_decimal_chars_digits(n: nat)
    ensures
        decimal_chars(n).len() > 0,
        is_ascii_chars(decimal_chars(n)),
        forall|i: int|
            0 <= i < decimal_chars(n).len() ==> is_digit(#[trigger] decimal_chars(n)[i] as u8),
        decimal_value(Seq::new(decimal_chars(n).len(), |i: int| decimal_chars(n)[i] as u8)) == n,
    decreases n,
{
    let chars = decimal_chars(n);
    let bytes = Seq::new(chars.len(), |i: int| chars[i] as u8);
    if n < 10 {
        assert(bytes.drop_last() =~= Seq::<u8>::empty());
        assert(bytes.last() == n + 48);
        assert(decimal_value(bytes) == decimal_value(bytes.drop_last()) * 10 + n);
    } else {
        lemma_decimal_chars_digits(n / 10);
        let prev = decimal_chars(n / 10);
        let prev_bytes = Seq::new(prev.len(), |i: int| prev[i] as u8);
        assert(bytes.drop_last() =~= prev_bytes);
        assert(chars.last() == digit_char(n % 10));
        assert(bytes.last() == n % 10 + 48);
        assert(decimal_value(bytes) == decimal_value(prev_bytes) * 10 + (n % 10));
        assert(n == (n / 10) * 10 + n % 10);
    }
}

/// The bytes of the decimal text of a positive `n` read back as the revision `n`.
pub proof fn lemma_decimal_text_reads_back(n: int)
    requires
        0 < n <= i64::MAX,
    ensures
        revision_value(encode_utf8(i64_text(n))) == Some(n),
{
    let chars = decimal_chars(n as nat);
    lemma_decimal_chars_digits(n as nat);
    is_ascii_chars_encode_utf8(chars);
    let bytes = encode_utf8(chars);
    assert(bytes =~= Seq::new(chars.len(), |i: int| chars[i] as u8));
    assert(is_digit(bytes[0]));
    assert(all_digits(bytes));
}

/// Whether two byte strings are equal.
pub fn bytes_equal(a: &[u8], b: &[u8]) -> (r: bool)
    ensures
        r == (a@ == b@),
{
    if a.len() != b.len() {
        return false;
    }
    let mut i: usize = 0;
    while i < a.len()
        invariant
            a@.len() == b@.len(),
            i <= a@.len(),
            forall|j: int| 0 <= j < i ==> a@[j] == b@[j],
        decreases a@.len() - i,
    {
        if a[i] != b[i] {
            return false;
        }
        i += 1;
    }
    assert(a@ =~= b@);
    true
}

/// Whether two strings are equal.
pub fn text_equals(a: &str, b: &str) -> (r: bool)
    ensures
        r == (a@ == b@),
{
    let r = bytes_equal(a.as_bytes(), b.as_bytes());
    proof {
        encode_utf8_decode_utf8(a@);
        encode_utf8_decode_utf8(b@);
    }
    r
}

} // verus!
