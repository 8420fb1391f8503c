//! The payload grammar: one JSON object of scalar members.  Every parsing
//! and rendering step exists twice, as a specification function over
//! character sequences and as an executable mirror proved equal to it.

use vstd::prelude::*;

use crate::error::ResponseError;
use crate::text::char_from_u32;

verus! {

// ---------------------------------------------------------------------------
// Character classes of the payload grammar
// ---------------------------------------------------------------------------

/// Insignificant whitespace between payload tokens.
pub open spec fn is_ws(c: char) -> bool {
    c == ' ' || c == '\t' || c == '\n' || c == '\r'
}

pub open spec fn is_digit(c: char) -> bool {
    48 <= c as u32 && c as u32 <= 57
}

pub open spec fn digit_val(c: char) -> nat {
    (c as u32 - 48) as nat
}

/// Any character that can occur in a number token.
pub open spec fn is_numchar(c: char) -> bool {
    is_digit(c) || c == '-' || c == '+' || c == '.' || c == 'e' || c == 'E'
}

pub open spec fn is_hex_digit(c: char) -> bool {
    is_digit(c) || (97 <= c as u32 && c as u32 <= 102) || (65 <= c as u32 && c as u32 <= 70)
}

pub open spec fn hex_val(c: char) -> int {
    if is_digit(c) {
        c as u32 - 48
    } else if 97 <= c as u32 && c as u32 <= 102 {
        c as u32 - 87
    } else {
        c as u32 - 55
    }
}

/// The hexadecimal digit for a value below sixteen, in lower case.
pub open spec fn hex_char(v: nat) -> char {
    if v < 10 {
        ((v + 48) as u8) as char
    } else {
        ((v + 87) as u8) as char
    }
}

// ---------------------------------------------------------------------------
// Decimal digit strings
// ---------------------------------------------------------------------------

pub open spec fn all_digits(s: Seq<char>) -> bool {
    forall|k: int| 0 <= k < s.len() ==> is_digit(#[trigger] s[k])
}

/// The value of a string of decimal digits.
pub open spec fn dec_val(s: Seq<char>) -> nat
    decreases s.len(),
{
    if s.len() == 0 {
        0
    } else {
        dec_val(s.drop_last()) * 10 + digit_val(s.last())
    }
}

/// The canonical decimal rendering of a natural number.
pub open spec fn dec_of(n: nat) -> Seq<char>
    decreases n,
{
    if n < 10 {
        seq![hex_char(n)]
    } else {
        dec_of(n / 10) + seq![hex_char(n % 10)]
    }
}

// ---------------------------------------------------------------------------
// Number tokens
// ---------------------------------------------------------------------------

/// The length of the run of decimal digits starting at `i`.
pub open spec fn digits_run(s: Seq<char>, i: int) -> int
    decreases s.len() - i,
{
    if 0 <= i && i < s.len() && is_digit(s[i]) {
        1 + digits_run(s, i + 1)
    } else {
        0
    }
}

/// The length of the run of number characters starting at `i`.
pub open spec fn numchars_run(s: Seq<char>, i: int) -> int
    decreases s.len() - i,
{
    if 0 <= i && i < s.len() && is_numchar(s[i]) {
        1 + numchars_run(s, i + 1)
    } else {
        0
    }
}

/// Whether `s` is a complete JSON number token: an optional minus sign, an
/// integer part without a superfluous leading zero, an optional fraction,
/// and an optional exponent.
pub open spec fn is_number_token(s: Seq<char>) -> bool {
    let i0: int = if s.len() > 0 && s[0] == '-' {
        1
    } else {
        0
    };
    let di = digits_run(s, i0);
    let i1 = i0 + di;
    let int_ok = di > 0 && (s[i0] == '0' ==> di == 1);
    let i2: int = if i1 < s.len() && s[i1] == '.' {
        i1 + 1 + digits_run(s, i1 + 1)
    } else {
        i1
    };
    let frac_ok = i1 < s.len() && s[i1] == '.' ==> digits_run(s, i1 + 1) > 0;
    let i3: int = if i2 < s.len() && (s[i2] == 'e' || s[i2] == 'E') {
        let j: int = if i2 + 1 < s.len() && (s[i2 + 1] == '+' || s[i2 + 1] == '-') {
            i2 + 2
        } else {
            i2 + 1
        };
        j + digits_run(s, j)
    } else {
        i2
    };
    let exp_ok = i2 < s.len() && (s[i2] == 'e' || s[i2] == 'E') ==> {
        let j: int = if i2 + 1 < s.len() && (s[i2 + 1] == '+' || s[i2 + 1] == '-') {
            i2 + 2
        } else {
            i2 + 1
        };
        digits_run(s, j) > 0
    };
    int_ok && frac_ok && exp_ok && i3 == s.len()
}

// ---------------------------------------------------------------------------
// Scalars and members
// ---------------------------------------------------------------------------

/// A scalar payload value: the object members of a status response carry no
/// nested containers.
pub enum JsonScalar {
    Null,
    Bool(bool),
    Num(Vec<char>),
    Str(Vec<char>),
}

/// The mathematical model of a [`JsonScalar`].
#[verifier::ext_equal]
pub enum ScalarView {
    Null,
    Bool(bool),
    Num(Seq<char>),
    Str(Seq<char>),
}

impl View for JsonScalar {
    type V = ScalarView;

    open spec fn view(&self) -> ScalarView {
        match self {
            JsonScalar::Null => ScalarView::Null,
            JsonScalar::Bool(b) => ScalarView::Bool(*b),
            JsonScalar::Num(t) => ScalarView::Num(t@),
            JsonScalar::Str(t) => ScalarView::Str(t@),
        }
    }
}

/// One `"name": value` member of the payload object.
pub struct JsonMember {
    pub name: Vec<char>,
    pub value: JsonScalar,
}

/// The mathematical model of a [`JsonMember`].
#[verifier::ext_equal]
pub struct MemberView {
    pub name: Seq<char>,
    pub value: ScalarView,
}

impl View for JsonMember {
    type V = MemberView;

    open spec fn view(&self) -> MemberView {
        MemberView { name: self.name@, value: self.value@ }
    }
}

pub open spec fn view_members(v: Seq<JsonMember>) -> Seq<MemberView> {
    Seq::new(v.len(), |k: int| v[k]@)
}

// ---------------------------------------------------------------------------
// The specification-level parser
// ---------------------------------------------------------------------------

/// The first position at or after `i` holding no whitespace.
pub open spec fn spec_skip_ws(s: Seq<char>, i: int) -> int
    decreases s.len() - i,
{
    if 0 <= i && i < s.len() && is_ws(s[i]) {
        spec_skip_ws(s, i + 1)
    } else {
        i
    }
}

/// The character a single-character escape stands for, if the escape is
/// recognised.
pub open spec fn unescape_char(e: char) -> Option<char> {
    if e == '"' {
        Some('"')
    } else if e == '\\' {
        Some('\\')
    } else if e == '/' {
        Some('/')
    } else if e == 'b' {
        Some('\u{8}')
    } else if e == 'f' {
        Some('\u{c}')
    } else if e == 'n' {
        Some('\n')
    } else if e == 'r' {
        Some('\r')
    } else if e == 't' {
        Some('\t')
    } else {
        None
    }
}

/// Scans the interior of a string literal beginning at `i` (just past the
/// opening quote); yields the unescaped content and the position just past
/// the closing quote.
pub open spec fn spec_scan_string(s: Seq<char>, i: int) -> Option<(Seq<char>, int)>
    decreases s.len() - i,
{
    if i < 0 || i >= s.len() {
        None
    } else if s[i] == '"' {
        Some((Seq::<char>::empty(), i + 1))
    } else if s[i] == '\\' {
        if i + 1 < s.len() && s[i + 1] == 'u' {
            if i + 6 <= s.len() && is_hex_digit(s[i + 2]) && is_hex_digit(s[i + 3]) && is_hex_digit(
                s[i + 4],
            ) && is_hex_digit(s[i + 5]) {
                let v = hex_val(s[i + 2]) * 4096 + hex_val(s[i + 3]) * 256 + hex_val(s[i + 4]) * 16
                    + hex_val(s[i + 5]);
                if vstd::utf8::is_scalar(v as u32) {
                    match spec_scan_string(s, i + 6) {
                        Some((t, j)) => Some((seq![((v as u32) as char)] + t, j)),
                        None => None,
                    }
                } else {
                    None
                }
            } else {
                None
            }
        } else if i + 1 < s.len() {
            match unescape_char(s[i + 1]) {
                Some(c) => match spec_scan_string(s, i + 2) {
                    Some((t, j)) => Some((seq![c] + t, j)),
                    None => None,
                },
                None => None,
            }
        } else {
            None
        }
    } else if (s[i] as u32) < 32 {
        None
    } else {
        match spec_scan_string(s, i + 1) {
            Some((t, j)) => Some((seq![s[i]] + t, j)),
            None => None,
        }
    }
}

/// Scans a number token beginning at `i`: the maximal run of number
/// characters, which must form a valid token.
pub open spec fn spec_scan_number(s: Seq<char>, i: int) -> Option<(Seq<char>, int)> {
    let n = numchars_run(s, i);
    let t = s.subrange(i, i + n);
    if 0 <= i && i <= s.len() && is_number_token(t) {
        Some((t, i + n))
    } else {
        None
    }
}

/// Scans one scalar value beginning exactly at `i`.
pub open spec fn spec_parse_scalar(s: Seq<char>, i: int) -> Option<(ScalarView, int)> {
    if i < 0 || i >= s.len() {
        None
    } else if s[i] == '"' {
        match spec_scan_string(s, i + 1) {
            Some((t, j)) => Some((ScalarView::Str(t), j)),
            None => None,
        }
    } else if s[i] == '-' || is_digit(s[i]) {
        match spec_scan_number(s, i) {
            Some((t, j)) => Some((ScalarView::Num(t), j)),
            None => None,
        }
    } else if i + 4 <= s.len() && s[i] == 'n' && s[i + 1] == 'u' && s[i + 2] == 'l' && s[i + 3]
        == 'l' {
        Some((ScalarView::Null, i + 4))
    } else if i + 4 <= s.len() && s[i] == 't' && s[i + 1] == 'r' && s[i + 2] == 'u' && s[i + 3]
        == 'e' {
        Some((ScalarView::Bool(true), i + 4))
    } else if i + 5 <= s.len() && s[i] == 'f' && s[i + 1] == 'a' && s[i + 2] == 'l' && s[i + 3]
        == 's' && s[i + 4] == 'e' {
        Some((ScalarView::Bool(false), i + 5))
    } else {
        None
    }
}

/// Parses a non-empty member list beginning at `i` (just past a `{` or a
/// `,`) up to and including the closing `}`.
pub open spec fn spec_parse_members(s: Seq<char>, i: int) -> Option<(Seq<MemberView>, int)>
    decreases s.len() - i,
{
    let j = spec_skip_ws(s, i);
    if j < s.len() && s[j] == '"' {
        match spec_scan_string(s, j + 1) {
            Some((name, j2)) => {
                let j3 = spec_skip_ws(s, j2);
                if j3 < s.len() && s[j3] == ':' {
                    let j4 = spec_skip_ws(s, j3 + 1);
                    match spec_parse_scalar(s, j4) {
                        Some((v, j5)) => {
                            let j6 = spec_skip_ws(s, j5);
                            let m = MemberView { name, value: v };
                            if j6 < s.len() && s[j6] == ',' {
                                if i < j6 + 1 && j6 + 1 <= s.len() {
                                    match spec_parse_members(s, j6 + 1) {
                                        Some((ms, j7)) => Some((seq![m] + ms, j7)),
                                        None => None,
                                    }
                                } else {
                                    None
                                }
                            } else if j6 < s.len() && s[j6] == '}' {
                                Some((seq![m], j6 + 1))
                            } else {
                                None
                            }
                        },
                        None => None,
                    }
                } else {
                    None
                }
            },
            None => None,
        }
    } else {
        None
    }
}

/// Parses a whole payload text: one object of scalar members, with nothing
/// but whitespace around it.
pub open spec fn spec_parse_payload(s: Seq<char>) -> Option<Seq<MemberView>> {
    let i = spec_skip_ws(s, 0);
    if i < s.len() && s[i] == '{' {
        let j = spec_skip_ws(s, i + 1);
        if j < s.len() && s[j] == '}' {
            if spec_skip_ws(s, j + 1) == s.len() {
                Some(Seq::<MemberView>::empty())
            } else {
                None
            }
        } else {
            match spec_parse_members(s, i + 1) {
                Some((ms, k)) => {
                    if spec_skip_ws(s, k) == s.len() {
                        Some(ms)
                    } else {
                        None
                    }
                },
                None => None,
            }
        }
    } else {
        None
    }
}

// ---------------------------------------------------------------------------
// The specification-level renderer
// ---------------------------------------------------------------------------

/// The canonical escaping of one string character.
pub open spec fn escape_char(c: char) -> Seq<char> {
    if c == '"' {
        seq!['\\', '"']
    } else if c == '\\' {
        seq!['\\', '\\']
    } else if (c as u32) < 32 {
        seq!['\\', 'u', '0', '0', hex_char((c as u32 / 16) as nat), hex_char((c as u32 % 16) as nat)]
    } else {
        seq![c]
    }
}

/// The canonical escaping of a whole string body.
pub open spec fn escape_str(s: Seq<char>) -> Seq<char>
    decreases s.len(),
{
    if s.len() == 0 {
        Seq::<char>::empty()
    } else {
        escape_str(s.drop_last()) + escape_char(s.last())
    }
}

/// A quoted, escaped string literal.
pub open spec fn render_string(s: Seq<char>) -> Seq<char> {
    seq!['"'] + escape_str(s) + seq!['"']
}

pub open spec fn render_scalar(v: ScalarView) -> Seq<char> {
    match v {
        ScalarView::Null => seq!['n', 'u', 'l', 'l'],
        ScalarView::Bool(b) => if b {
            seq!['t', 'r', 'u', 'e']
        } else {
            seq!['f', 'a', 'l', 's', 'e']
        },
        ScalarView::Num(t) => t,
        ScalarView::Str(t) => render_string(t),
    }
}

pub open spec fn render_member(m: MemberView) -> Seq<char> {
    render_string(m.name) + seq![':'] + render_scalar(m.value)
}

pub open spec fn render_members(ms: Seq<MemberView>) -> Seq<char>
    decreases ms.len(),
{
    if ms.len() == 0 {
        Seq::<char>::empty()
    } else if ms.len() == 1 {
        render_member(ms[0])
    } else {
        render_members(ms.drop_last()) + seq![','] + render_member(ms.last())
    }
}

/// The canonical compact text of a payload object.
pub open spec fn render_payload(ms: Seq<MemberView>) -> Seq<char> {
    seq!['{'] + render_members(ms) + seq!['}']
}

// ---------------------------------------------------------------------------
// Executable character classification
// ---------------------------------------------------------------------------

pub fn is_ws_c(c: char) -> (r: bool)
    ensures
        r == is_ws(c),
{
    c == ' ' || c == '\t' || c == '\n' || c == '\r'
}

pub fn is_digit_c(c: char) -> (r: bool)
    ensures
        r == is_digit(c),
{
    let v = c as u32;
    48 <= v && v <= 57
}

pub fn is_numchar_c(c: char) -> (r: bool)
    ensures
        r == is_numchar(c),
{
    is_digit_c(c) || c == '-' || c == '+' || c == '.' || c == 'e' || c == 'E'
}

pub fn is_hex_digit_c(c: char) -> (r: bool)
    ensures
        r == is_hex_digit(c),
{
    let v = c as u32;
    is_digit_c(c) || (97 <= v && v <= 102) || (65 <= v && v <= 70)
}

pub fn hex_val_c(c: char) -> (v: u32)
    requires
        is_hex_digit(c),
    ensures
        v == hex_val(c),
        v < 16,
{
    let u = c as u32;
    if u <= 57 {
        u - 48
    } else if u >= 97 {
        u - 87
    } else {
        u - 55
    }
}

pub fn hex_char_c(v: u32) -> (c: char)
    requires
        v < 16,
    ensures
        c == hex_char(v as nat),
{
    if v < 10 {
        ((v + 48) as u8) as char
    } else {
        ((v + 87) as u8) as char
    }
}

// ---------------------------------------------------------------------------
// Runs of digits and number characters
// ---------------------------------------------------------------------------

/// A block of characters of one class, followed by the end or by another
/// class, is exactly the run the class predicate measures.
pub proof fn lemma_digits_run_block(s: Seq<char>, i: int, j: int)
    requires
        0 <= i <= j <= s.len(),
        forall|k: int| i <= k < j ==> is_digit(#[trigger] s[k]),
        j == s.len() || !is_digit(s[j]),
    ensures
        digits_run(s, i) == j - i,
    decreases j - i,
{
    if i < j {
        lemma_digits_run_block(s, i + 1, j);
    }
}

pub proof fn lemma_numchars_run_block(s: Seq<char>, i: int, j: int)
    requires
        0 <= i <= j <= s.len(),
        forall|k: int| i <= k < j ==> is_numchar(#[trigger] s[k]),
        j == s.len() || !is_numchar(s[j]),
    ensures
        numchars_run(s, i) == j - i,
    decreases j - i,
{
    if i < j {
        lemma_numchars_run_block(s, i + 1, j);
    }
}

fn digits_run_c(s: &Vec<char>, i: usize) -> (j: usize)
    requires
        i <= s@.len(),
    ensures
        i <= j <= s@.len(),
        digits_run(s@, i as int) == j - i,
{
    let mut j = i;
    while j < s.len() && is_digit_c(s[j])
        invariant
            i <= j <= s@.len(),
            forall|k: int| i <= k < j ==> is_digit(#[trigger] s@[k]),
        decreases s@.len() - j,
    {
        j += 1;
    }
    proof {
        lemma_digits_run_block(s@, i as int, j as int);
    }
    j
}

/// Checks a complete number token, mirroring [`is_number_token`].
pub fn check_number_token(t: &Vec<char>) -> (r: bool)
    ensures
        r == is_number_token(t@),
{
    let i0: usize = if t.len() > 0 && t[0] == '-' {
        1
    } else {
        0
    };
    let i1 = digits_run_c(t, i0);
    let di = i1 - i0;
    let int_ok = if di == 0 {
        false
    } else {
        !(t[i0] == '0') || di == 1
    };
    let mut i2 = i1;
    let mut frac_ok = true;
    if i1 < t.len() && t[i1] == '.' {
        let f_end = digits_run_c(t, i1 + 1);
        frac_ok = f_end - (i1 + 1) > 0;
        i2 = f_end;
    }
    let mut i3 = i2;
    let mut exp_ok = true;
    if i2 < t.len() && (t[i2] == 'e' || t[i2] == 'E') {
        let j: usize = if i2 + 1 < t.len() && (t[i2 + 1] == '+' || t[i2 + 1] == '-') {
            i2 + 2
        } else {
            i2 + 1
        };
        let e_end = digits_run_c(t, j);
        exp_ok = e_end - j > 0;
        i3 = e_end;
    }
    int_ok && frac_ok && exp_ok && i3 == t.len()
}

// ---------------------------------------------------------------------------
// Decimal values of digit strings
// ---------------------------------------------------------------------------

/// Extending a digit string can only increase its value.
pub proof fn lemma_dec_val_prefix(s: Seq<char>, i: int)
    requires
        0 <= i <= s.len(),
    ensures
        dec_val(s.subrange(0, i)) <= dec_val(s),
    decreases s.len() - i,
{
    if i < s.len() {
        lemma_dec_val_prefix(s, i + 1);
        assert(s.subrange(0, i + 1).drop_last() =~= s.subrange(0, i));
        assert(dec_val(s.subrange(0, i)) <= dec_val(s.subrange(0, i + 1)));
    } else {
        assert(s.subrange(0, i) =~= s);
    }
}

/// Reads the value of a pure digit string, reporting an overflow of the
/// 32-bit range instead of a value.
pub fn parse_u32_digits(t: &Vec<char>) -> (r: Option<u32>)
    requires
        all_digits(t@),
    ensures
        match r {
            Some(n) => dec_val(t@) == n as nat,
            None => dec_val(t@) > u32::MAX,
        },
{
    let mut acc: u64 = 0;
    let mut k: usize = 0;
    while k < t.len()
        invariant
            all_digits(t@),
            0 <= k <= t@.len(),
            acc == dec_val(t@.subrange(0, k as int)),
            acc <= u32::MAX,
        decreases t@.len() - k,
    {
        let d = (t[k] as u32) - 48;
        proof {
            assert(is_digit(t@[k as int]));
            assert(t@.subrange(0, k + 1).drop_last() =~= t@.subrange(0, k as int));
        }
        let next: u64 = acc * 10 + (d as u64);
        if next > 0xFFFF_FFFF {
            proof {
                lemma_dec_val_prefix(t@, k + 1);
            }
            return None;
        }
        acc = next;
        k += 1;
    }
    proof {
        assert(t@.subrange(0, t@.len() as int) =~= t@);
    }
    Some(acc as u32)
}

/// The canonical decimal digits of a number read back to the same number.
pub proof fn lemma_dec_of_val(n: nat)
    ensures
        dec_val(dec_of(n)) == n,
        all_digits(dec_of(n)),
        dec_of(n).len() > 0,
        n > 0 ==> dec_of(n)[0] != '0',
        n == 0 ==> dec_of(n) =~= seq!['0'],
    decreases n,
{
    if n < 10 {
        assert(dec_of(n) =~= seq![hex_char(n)]);
        assert(dec_of(n).drop_last() =~= Seq::<char>::empty());
        assert(dec_val(Seq::<char>::empty()) == 0);
        assert(dec_of(n).last() == hex_char(n));
        assert(digit_val(hex_char(n)) == n);
        assert(dec_val(dec_of(n)) == n);
    } else {
        lemma_dec_of_val(n / 10);
        assert(dec_of(n) == dec_of(n / 10) + seq![hex_char(n % 10)]);
        assert(dec_of(n).drop_last() =~= dec_of(n / 10));
        assert(dec_of(n).last() == hex_char(n % 10));
        assert(digit_val(hex_char(n % 10)) == n % 10);
        assert(dec_val(dec_of(n)) == (n / 10) * 10 + n % 10);
        assert((n / 10) * 10 + n % 10 == n) by (nonlinear_arith);
        assert(forall|k: int|
            0 <= k < dec_of(n).len() ==> is_digit(#[trigger] dec_of(n)[k]));
        assert(dec_of(n)[0] == dec_of(n / 10)[0]);
    }
}

/// The canonical decimal digits of a number form a valid number token.
pub proof fn lemma_dec_of_token(n: nat)
    ensures
        is_number_token(dec_of(n)),
        forall|k: int| 0 <= k < dec_of(n).len() ==> is_numchar(#[trigger] dec_of(n)[k]),
{
    lemma_dec_of_val(n);
    let t = dec_of(n);
    lemma_digits_run_block(t, 0, t.len() as int);
    assert(digits_run(t, 0) == t.len());
    if n == 0 {
        assert(t[0] == '0' && t.len() == 1);
    }
}

/// Writes the canonical decimal digits of `n`.
pub fn push_u32_dec(out: &mut Vec<char>, n: u32)
    ensures
        final(out)@ == old(out)@ + dec_of(n as nat),
    decreases n,
{
    if n < 10 {
        out.push(hex_char_c(n));
        proof {
            assert(out@ =~= old(out)@ + dec_of(n as nat));
        }
    } else {
        push_u32_dec(out, n / 10);
        out.push(hex_char_c(n % 10));
        proof {
            assert(out@ =~= old(out)@ + dec_of(n as nat));
        }
    }
}

// ---------------------------------------------------------------------------
// The executable parser
// ---------------------------------------------------------------------------

pub fn skip_ws_from(s: &Vec<char>, i: usize) -> (j: usize)
    requires
        i <= s@.len(),
    ensures
        j == spec_skip_ws(s@, i as int),
        i <= j <= s@.len(),
{
    let mut j = i;
    while j < s.len() && is_ws_c(s[j])
        invariant
            i <= j <= s@.len(),
            spec_skip_ws(s@, i as int) == spec_skip_ws(s@, j as int),
        decreases s@.len() - j,
    {
        j += 1;
    }
    j
}

fn unescape_char_c(e: char) -> (r: Option<char>)
    ensures
        r == unescape_char(e),
{
    if e == '"' {
        Some('"')
    } else if e == '\\' {
        Some('\\')
    } else if e == '/' {
        Some('/')
    } else if e == 'b' {
        Some('\u{8}')
    } else if e == 'f' {
        Some('\u{c}')
    } else if e == 'n' {
        Some('\n')
    } else if e == 'r' {
        Some('\r')
    } else if e == 't' {
        Some('\t')
    } else {
        None
    }
}

/// Scans the interior of a string literal, mirroring [`spec_scan_string`].
pub fn scan_string_at(s: &Vec<char>, i: usize) -> (r: Option<(Vec<char>, usize)>)
    ensures
        match r {
            Some(p) => spec_scan_string(s@, i as int) == Some((p.0@, p.1 as int)) && i < p.1
                <= s@.len(),
            None => spec_scan_string(s@, i as int) is None,
        },
    decreases s@.len() - i,
{
    if i >= s.len() {
        return None;
    }
    let c = s[i];
    if c == '"' {
        let t: Vec<char> = Vec::new();
        proof {
            assert(t@ =~= Seq::<char>::empty());
        }
        return Some((t, i + 1));
    }
    if c == '\\' {
        if i + 1 < s.len() && s[i + 1] == 'u' {
            if s.len() - i >= 6 && is_hex_digit_c(s[i + 2]) && is_hex_digit_c(s[i + 3])
                && is_hex_digit_c(s[i + 4]) && is_hex_digit_c(s[i + 5]) {
                let v: u32 = hex_val_c(s[i + 2]) * 4096 + hex_val_c(s[i + 3]) * 256 + hex_val_c(
                    s[i + 4],
                ) * 16 + hex_val_c(s[i + 5]);
                if v < 0xD800 || v >= 0xE000 {
                    match char_from_u32(v) {
                        Some(c2) => {
                            match scan_string_at(s, i + 6) {
                                Some(p) => {
                                    let mut t = p.0;
                                    t.insert(0, c2);
                                    proof {
                                        assert(t@ =~= seq![c2] + p.0@);
                                    }
                                    Some((t, p.1))
                                },
                                None => None,
                            }
                        },
                        None => {
                            proof {
                                assert(false);
                            }
                            None
                        },
                    }
                } else {
                    None
                }
            } else {
                None
            }
        } else if i + 1 < s.len() {
            match unescape_char_c(s[i + 1]) {
                Some(c2) => {
                    match scan_string_at(s, i + 2) {
                        Some(p) => {
                            let mut t = p.0;
                            t.insert(0, c2);
                            proof {
                                assert(t@ =~= seq![c2] + p.0@);
                            }
                            Some((t, p.1))
                        },
                        None => None,
                    }
                },
                None => None,
            }
        } else {
            None
        }
    } else if (c as u32) < 32 {
        None
    } else {
        match scan_string_at(s, i + 1) {
            Some(p) => {
                let mut t = p.0;
                t.insert(0, c);
                proof {
                    assert(t@ =~= seq![c] + p.0@);
                }
                Some((t, p.1))
            },
            None => None,
        }
    }
}

/// Scans a number token, mirroring [`spec_scan_number`].
pub fn scan_number_at(s: &Vec<char>, i: usize) -> (r: Option<(Vec<char>, usize)>)
    requires
        i <= s@.len(),
    ensures
        match r {
            Some(p) => spec_scan_number(s@, i as int) == Some((p.0@, p.1 as int)) && i <= p.1
                <= s@.len(),
            None => spec_scan_number(s@, i as int) is None,
        },
{
    let mut j = i;
    while j < s.len() && is_numchar_c(s[j])
        invariant
            i <= j <= s@.len(),
            forall|k: int| i <= k < j ==> is_numchar(#[trigger] s@[k]),
        decreases s@.len() - j,
    {
        j += 1;
    }
    proof {
        lemma_numchars_run_block(s@, i as int, j as int);
    }
    let mut t: Vec<char> = Vec::new();
    let mut k = i;
    while k < j
        invariant
            i <= k <= j <= s@.len(),
            t@ == s@.subrange(i as int, k as int),
        decreases j - k,
    {
        t.push(s[k]);
        proof {
            assert(t@ =~= s@.subrange(i as int, k + 1));
        }
        k += 1;
    }
    if check_number_token(&t) {
        Some((t, j))
    } else {
        None
    }
}

/// Scans one scalar value, mirroring [`spec_parse_scalar`].
pub fn parse_scalar_at(s: &Vec<char>, i: usize) -> (r: Option<(JsonScalar, usize)>)
    requires
        i <= s@.len(),
    ensures
        match r {
            Some(p) => spec_parse_scalar(s@, i as int) == Some((p.0@, p.1 as int)) && i < p.1
                <= s@.len(),
            None => spec_parse_scalar(s@, i as int) is None,
        },
{
    if i >= s.len() {
        return None;
    }
    let c = s[i];
    if c == '"' {
        match scan_string_at(s, i + 1) {
            Some(p) => Some((JsonScalar::Str(p.0), p.1)),
            None => None,
        }
    } else if c == '-' || is_digit_c(c) {
        match scan_number_at(s, i) {
            Some(p) => {
                proof {
                    assert(p.0@.len() > 0);
                }
                Some((JsonScalar::Num(p.0), p.1))
            },
            None => None,
        }
    } else if c == 'n' {
        if s.len() - i >= 4 && s[i + 1] == 'u' && s[i + 2] == 'l' && s[i + 3] == 'l' {
            Some((JsonScalar::Null, i + 4))
        } else {
            None
        }
    } else if c == 't' {
        if s.len() - i >= 4 && s[i + 1] == 'r' && s[i + 2] == 'u' && s[i + 3] == 'e' {
            Some((JsonScalar::Bool(true), i + 4))
        } else {
            None
        }
    } else if c == 'f' {
        if s.len() - i >= 5 && s[i + 1] == 'a' && s[i + 2] == 'l' && s[i + 3] == 's' && s[i + 4]
            == 'e' {
            Some((JsonScalar::Bool(false), i + 5))
        } else {
            None
        }
    } else {
        None
    }
}

/// Parses a non-empty member list up to its closing brace, mirroring
/// [`spec_parse_members`].
pub fn parse_members_at(s: &Vec<char>, i: usize) -> (r: Option<(Vec<JsonMember>, usize)>)
    requires
        i <= s@.len(),
    ensures
        match r {
            Some(p) => spec_parse_members(s@, i as int) == Some((view_members(p.0@), p.1 as int))
                && i < p.1 <= s@.len(),
            None => spec_parse_members(s@, i as int) is None,
        },
    decreases s@.len() - i,
{
    let j = skip_ws_from(s, i);
    if j >= s.len() || s[j] != '"' {
        return None;
    }
    let (name, j2) = match scan_string_at(s, j + 1) {
        Some(p) => p,
        None => {
            return None;
        },
    };
    let j3 = skip_ws_from(s, j2);
    if j3 >= s.len() || s[j3] != ':' {
        return None;
    }
    let j4 = skip_ws_from(s, j3 + 1);
    let (value, j5) = match parse_scalar_at(s, j4) {
        Some(p) => p,
        None => {
            return None;
        },
    };
    let j6 = skip_ws_from(s, j5);
    if j6 < s.len() && s[j6] == ',' {
        match parse_members_at(s, j6 + 1) {
            Some(p) => {
                let mut ms = p.0;
                let m = JsonMember { name, value };
                ms.insert(0, m);
                proof {
                    assert(view_members(ms@) =~= seq![m@] + view_members(p.0@));
                }
                Some((ms, p.1))
            },
            None => None,
        }
    } else if j6 < s.len() && s[j6] == '}' {
        let mut ms: Vec<JsonMember> = Vec::new();
        let m = JsonMember { name, value };
        ms.push(m);
        proof {
            assert(view_members(ms@) =~= seq![m@]);
        }
        Some((ms, j6 + 1))
    } else {
        None
    }
}

/// Parses a whole payload text into its member list, mirroring
/// [`spec_parse_payload`].
pub fn parse_payload_chars(s: &Vec<char>) -> (r: Result<Vec<JsonMember>, ResponseError>)
    ensures
        match r {
            Ok(ms) => spec_parse_payload(s@) == Some(view_members(ms@)),
            Err(e) => spec_parse_payload(s@) is None && e == ResponseError::MalformedPayload,
        },
{
    let i = skip_ws_from(s, 0);
    if i >= s.len() || s[i] != '{' {
        return Err(ResponseError::MalformedPayload);
    }
    let j = skip_ws_from(s, i + 1);
    if j < s.len() && s[j] == '}' {
        if skip_ws_from(s, j + 1) == s.len() {
            let ms: Vec<JsonMember> = Vec::new();
            proof {
                assert(view_members(ms@) =~= Seq::<MemberView>::empty());
            }
            return Ok(ms);
        } else {
            return Err(ResponseError::MalformedPayload);
        }
    }
    match parse_members_at(s, i + 1) {
        Some(p) => {
            if skip_ws_from(s, p.1) == s.len() {
                Ok(p.0)
            } else {
                Err(ResponseError::MalformedPayload)
            }
        },
        None => Err(ResponseError::MalformedPayload),
    }
}

// ---------------------------------------------------------------------------
// The executable renderer
// ---------------------------------------------------------------------------

fn push_escape(out: &mut Vec<char>, c: char)
    ensures
        final(out)@ == old(out)@ + escape_char(c),
{
    if c == '"' {
        out.push('\\');
        out.push('"');
        proof {
            assert(out@ =~= old(out)@ + escape_char(c));
        }
    } else if c == '\\' {
        out.push('\\');
        out.push('\\');
        proof {
            assert(out@ =~= old(out)@ + escape_char(c));
        }
    } else if (c as u32) < 32 {
        let u = c as u32;
        out.push('\\');
        out.push('u');
        out.push('0');
        out.push('0');
        out.push(hex_char_c(u / 16));
        out.push(hex_char_c(u % 16));
        proof {
            assert(out@ =~= old(out)@ + escape_char(c));
        }
    } else {
        out.push(c);
        proof {
            assert(out@ =~= old(out)@ + escape_char(c));
        }
    }
}

/// Writes the escaped body of a string field.
fn push_escaped_body(out: &mut Vec<char>, t: &Vec<char>)
    ensures
        final(out)@ == old(out)@ + escape_str(t@),
{
    let mut k: usize = 0;
    while k < t.len()
        invariant
            0 <= k <= t@.len(),
            out@ == old(out)@ + escape_str(t@.subrange(0, k as int)),
        decreases t@.len() - k,
    {
        push_escape(out, t[k]);
        proof {
            assert(t@.subrange(0, k + 1).drop_last() =~= t@.subrange(0, k as int));
            assert(t@.subrange(0, k + 1).last() == t@[k as int]);
        }
        k += 1;
    }
    proof {
        assert(t@.subrange(0, t@.len() as int) =~= t@);
    }
}

/// Writes a quoted, escaped string literal.
fn push_quoted(out: &mut Vec<char>, t: &Vec<char>)
    ensures
        final(out)@ == old(out)@ + render_string(t@),
{
    out.push('"');
    push_escaped_body(out, t);
    out.push('"');
    proof {
        assert(out@ =~= old(out)@ + render_string(t@));
    }
}

fn push_chars(out: &mut Vec<char>, t: &Vec<char>)
    ensures
        final(out)@ == old(out)@ + t@,
{
    let mut k: usize = 0;
    while k < t.len()
        invariant
            0 <= k <= t@.len(),
            out@ == old(out)@ + t@.subrange(0, k as int),
        decreases t@.len() - k,
    {
        out.push(t[k]);
        proof {
            assert(out@ =~= old(out)@ + t@.subrange(0, k + 1));
        }
        k += 1;
    }
    proof {
        assert(t@.subrange(0, t@.len() as int) =~= t@);
    }
}

fn push_scalar(out: &mut Vec<char>, v: &JsonScalar)
    ensures
        final(out)@ == old(out)@ + render_scalar(v@),
{
    match v {
        JsonScalar::Null => {
            out.push('n');
            out.push('u');
            out.push('l');
            out.push('l');
            proof {
                assert(out@ =~= old(out)@ + render_scalar(v@));
            }
        },
        JsonScalar::Bool(b) => {
            if *b {
                out.push('t');
                out.push('r');
                out.push('u');
                out.push('e');
            } else {
                out.push('f');
                out.push('a');
                out.push('l');
                out.push('s');
                out.push('e');
            }
            proof {
                assert(out@ =~= old(out)@ + render_scalar(v@));
            }
        },
        JsonScalar::Num(t) => {
            push_chars(out, t);
        },
        JsonScalar::Str(t) => {
            push_quoted(out, t);
        },
    }
}

/// Writes the canonical compact text of a payload object.
pub fn render_payload_chars(ms: &Vec<JsonMember>) -> (out: Vec<char>)
    ensures
        out@ == render_payload(view_members(ms@)),
{
    let ghost msv = view_members(ms@);
    let mut out: Vec<char> = Vec::new();
    out.push('{');
    let mut k: usize = 0;
    while k < ms.len()
        invariant
            0 <= k <= ms@.len(),
            msv == view_members(ms@),
            msv.len() == ms@.len(),
            out@ == seq!['{'] + render_members(msv.subrange(0, k as int)),
        decreases ms@.len() - k,
    {
        if k > 0 {
            out.push(',');
        }
        push_quoted(&mut out, &ms[k].name);
        out.push(':');
        push_scalar(&mut out, &ms[k].value);
        proof {
            let sub1 = msv.subrange(0, k + 1);
            assert(sub1.drop_last() =~= msv.subrange(0, k as int));
            assert(sub1.last() == msv[k as int]);
            assert(msv[k as int] == ms@[k as int]@);
            assert(render_member(msv[k as int]) == render_string(ms@[k as int].name@) + seq![':']
                + render_scalar(ms@[k as int].value@));
            if k == 0 {
                assert(render_members(sub1) == render_member(msv[0]));
                assert(out@ =~= seq!['{'] + render_members(sub1));
            } else {
                assert(render_members(sub1) == render_members(msv.subrange(0, k as int))
                    + seq![','] + render_member(msv[k as int]));
                assert(out@ =~= seq!['{'] + render_members(sub1));
            }
        }
        k += 1;
    }
    out.push('}');
    proof {
        assert(msv.subrange(0, msv.len() as int) =~= msv);
        assert(out@ =~= render_payload(view_members(ms@)));
    }
    out
}

} // verus!
