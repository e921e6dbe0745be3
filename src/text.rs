use vstd::prelude::*;

verus! {

/// `pat` occurs in `hay` as a contiguous run.
pub open spec fn seq_contains(hay: Seq<char>, pat: Seq<char>) -> bool {
    exists|i: int| 0 <= i <= hay.len() - pat.len() && #[trigger] hay.subrange(i, i + pat.len()) == pat
}

/// Whether `pat` occurs in `hay`.
pub fn contains(hay: &str, pat: &str) -> (r: bool)
    ensures
        r == seq_contains(hay@, pat@),
{
    let hn = hay.unicode_len();
    let pn = pat.unicode_len();
    if pn > hn {
        return false;
    }
    let mut i: usize = 0;
    while i <= hn - pn
        invariant
            hn == hay@.len(),
            pn == pat@.len(),
            pn <= hn,
            i <= hn - pn + 1,
            forall|k: int| 0 <= k < i ==> #[trigger] hay@.subrange(k, k + pn) != pat@,
        decreases hn - pn + 1 - i,
    {
        let mut j: usize = 0;
        let mut same = true;
        while j < pn
            invariant
                hn == hay@.len(),
                pn == pat@.len(),
                i + pn <= hn,
                j <= pn,
                same == (forall|t: int| 0 <= t < j ==> hay@[i + t] == pat@[t]),
            decreases pn - j,
        {
            if hay.get_char(i + j) != pat.get_char(j) {
                same = false;
            }
            j = j + 1;
        }
        if same {
            assert(hay@.subrange(i as int, i + pn) =~= pat@);
            return true;
        }
        assert(hay@.subrange(i as int, i + pn) != pat@) by {
            let t = choose|t: int| 0 <= t < pn && hay@[i + t] != pat@[t];
            assert(hay@.subrange(i as int, i + pn)[t] == hay@[i + t]);
        }
        i = i + 1;
    }
    false
}

/// Whether two strings hold the same characters.
pub fn same_text(a: &str, b: &str) -> (r: bool)
    ensures
        r == (a@ == b@),
{
    let n = a.unicode_len();
    if n != b.unicode_len() {
        return false;
    }
    let mut i: usize = 0;
    while i < n
        invariant
            n == a@.len(),
            n == b@.len(),
            i <= n,
            forall|k: int| 0 <= k < i ==> a@[k] == b@[k],
        decreases n - i,
    {
        if a.get_char(i) != b.get_char(i) {
            return false;
        }
        i = i + 1;
    }
    assert(a@ =~= b@);
    true
}

/// The character of a decimal digit.
pub open spec fn digit_char(d: nat) -> char {
    seq!['0', '1', '2', '3', '4', '5', '6', '7', '8', '9'][d as int]
}

/// The decimal representation of `n`, most significant digit first.
pub open spec fn decimal(n: nat) -> Seq<char>
    decreases n,
{
    if n < 10 {
        seq![digit_char(n)]
    } else {
        decimal(n / 10).push(digit_char(n % 10))
    }
}

pub open spec fn is_digit(c: char) -> bool {
    '0' <= c <= '9'
}

/// A non-empty run of decimal digits.
pub open spec fn all_digits(s: Seq<char>) -> bool {
    s.len() > 0 && forall|i: int| 0 <= i < s.len() ==> is_digit(#[trigger] s[i])
}

/// The value of a run of decimal digits.
pub open spec fn digits_value(s: Seq<char>) -> int
    decreases s.len(),
{
    if s.len() == 0 {
        0
    } else {
        digits_value(s.drop_last()) * 10 + (s.last() as int - '0' as int)
    }
}

/// The 32-bit signed integer that `s` spells: an optional sign then digits,
/// with a value in range; `None` for anything else.
pub open spec fn parsed_i32(s: Seq<char>) -> Option<i32> {
    if s.len() > 0 && s[0] == '-' {
        let v = digits_value(s.drop_first());
        if all_digits(s.drop_first()) && -v >= i32::MIN {
            Some((-v) as i32)
        } else {
            None
        }
    } else {
        let t = if s.len() > 0 && s[0] == '+' { s.drop_first() } else { s };
        let v = digits_value(t);
        if all_digits(t) && v <= i32::MAX {
            Some(v as i32)
        } else {
            None
        }
    }
}

/// What the standard library's lower-case mapping makes of a string.
pub uninterp spec fn lower_of(s: Seq<char>) -> Seq<char>;

/// Relies on `str::to_lowercase`: the result depends on the characters alone.
#[verifier::external_body]
pub(crate) fn lowercase(s: &str) -> (r: String)
    ensures
        r@ == lower_of(s@),
{
    s.to_lowercase()
}

/// Relies on `u32`'s `Display` (through `to_string`): plain decimal digits,
/// without sign or padding.
#[verifier::external_body]
pub(crate) fn u32_to_decimal(n: u32) -> (r: String)
    ensures
        r@ == decimal(n as nat),
{
    n.to_string()
}

/// Relies on `str::parse::<i32>`: an optional `+` or `-`, then one or more
/// ASCII digits whose value fits; anything else is an error.
#[verifier::external_body]
pub(crate) fn parse_i32(s: &str) -> (r: Option<i32>)
    ensures
        r == parsed_i32(s@),
{
    s.parse::<i32>().ok()
}

} // verus!
