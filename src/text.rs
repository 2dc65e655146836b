use vstd::prelude::*;

verus! {

/// The lower-case form of a string, as std's Unicode case mapping gives it.
pub uninterp spec fn lower_of(s: Seq<char>) -> Seq<char>;

/// `needle` occurs in `hay` as a run of consecutive characters.
pub open spec fn has_substring(hay: Seq<char>, needle: Seq<char>) -> bool {
    exists|i: int|
        0 <= i && i + needle.len() <= hay.len() && #[trigger] hay.subrange(i, i + needle.len())
            == needle
}

/// Equal text.
pub(crate) fn same_text(a: &str, b: &str) -> (r: bool)
    ensures
        r == (a@ == b@),
{
    String::from_str(a) == String::from_str(b)
}

/// `p` is how `s` begins.
pub open spec fn has_prefix(s: Seq<char>, p: Seq<char>) -> bool {
    p.len() <= s.len() && s.subrange(0, p.len() as int) == p
}

/// Relies on str::starts_with with a string pattern: true exactly when
/// `s` begins with `p`.
#[verifier::external_body]
pub(crate) fn starts_with(s: &str, p: &str) -> (r: bool)
    ensures
        r == has_prefix(s@, p@),
{
    s.starts_with(p)
}

/// Relies on str::to_lowercase: the result depends on the characters alone,
/// and the empty string stays empty.
#[verifier::external_body]
pub(crate) fn lowercase(s: &str) -> (r: String)
    ensures
        r@ == lower_of(s@),
        s@.len() == 0 ==> r@.len() == 0,
{
    s.to_lowercase()
}

/// Relies on str::contains with a string pattern: true exactly when `needle`
/// matches a sub-slice of `hay`.
#[verifier::external_body]
pub(crate) fn contains_str(hay: &str, needle: &str) -> (r: bool)
    ensures
        r == has_substring(hay@, needle@),
{
    hay.contains(needle)
}

/// The quoted, escaped form that `Debug` gives a string.
pub uninterp spec fn debug_of(s: Seq<char>) -> Seq<char>;

/// Relies on the `Debug` formatting of str: the result depends on the
/// characters alone.
#[verifier::external_body]
pub(crate) fn debug_text(s: &str) -> (r: String)
    ensures
        r@ == debug_of(s@),
{
    format!("{:?}", s)
}

/// The last component of a path, as std's path handling gives it; none for a
/// root, an empty path or one ending in `..`.
pub uninterp spec fn file_name_of(p: Seq<char>) -> Option<Seq<char>>;

/// Relies on std::path::Path::file_name: the result depends on the path alone.
#[verifier::external_body]
pub(crate) fn file_name(p: &str) -> (r: Option<String>)
    ensures
        match r {
            Some(n) => file_name_of(p@) == Some(n@),
            None => file_name_of(p@) is None,
        },
{
    match std::path::Path::new(p).file_name() {
        Some(n) => Some(n.to_string_lossy().into_owned()),
        None => None,
    }
}

/// `b` joined onto `a` as std's path handling does it.
pub uninterp spec fn joined(a: Seq<char>, b: Seq<char>) -> Seq<char>;

/// Relies on std::path::Path::join: the result depends on the two paths alone.
#[verifier::external_body]
pub(crate) fn join_path(a: &str, b: &str) -> (r: String)
    ensures
        r@ == joined(a@, b@),
{
    std::path::Path::new(a).join(b).to_string_lossy().into_owned()
}

/// `p` with its last component replaced by `name`, as std's path handling
/// does it.
pub uninterp spec fn renamed(p: Seq<char>, name: Seq<char>) -> Seq<char>;

/// Relies on std::path::Path::with_file_name: the result depends on the path
/// and the name alone.
#[verifier::external_body]
pub(crate) fn with_file_name(p: &str, name: &str) -> (r: String)
    ensures
        r@ == renamed(p@, name@),
{
    std::path::Path::new(p).with_file_name(name).to_string_lossy().into_owned()
}

/// The digit character for a value below 10.
pub open spec fn digit_char(d: nat) -> char {
    if d == 0 {
        '0'
    } else if d == 1 {
        '1'
    } else if d == 2 {
        '2'
    } else if d == 3 {
        '3'
    } else if d == 4 {
        '4'
    } else if d == 5 {
        '5'
    } else if d == 6 {
        '6'
    } else if d == 7 {
        '7'
    } else if d == 8 {
        '8'
    } else {
        '9'
    }
}

/// `n` written in base `b` (2 to 10), without leading zeros.
pub open spec fn digits_of(n: nat, b: nat) -> Seq<char>
    recommends
        2 <= b <= 10,
    decreases n
    via digits_of_decreases
{
    if n < b || b < 2 {
        seq![digit_char(n)]
    } else {
        digits_of(n / b, b).push(digit_char(n % b))
    }
}

#[via_fn]
proof fn digits_of_decreases(n: nat, b: nat) {
    if !(n < b || b < 2) {
        assert(n / b < n) by (nonlinear_arith)
            requires
                n >= b,
                b >= 2,
        ;
    }
}

fn digit_text(d: usize) -> (r: &'static str)
    requires
        d < 10,
    ensures
        r@ == seq![digit_char(d as nat)],
{
    proof {
        reveal_strlit("0");
        reveal_strlit("1");
        reveal_strlit("2");
        reveal_strlit("3");
        reveal_strlit("4");
        reveal_strlit("5");
        reveal_strlit("6");
        reveal_strlit("7");
        reveal_strlit("8");
        reveal_strlit("9");
    }
    let r = match d {
        0 => "0",
        1 => "1",
        2 => "2",
        3 => "3",
        4 => "4",
        5 => "5",
        6 => "6",
        7 => "7",
        8 => "8",
        _ => "9",
    };
    assert(r@ =~= seq![digit_char(d as nat)]);
    r
}

/// `n` written in base `b`.
pub fn in_base(n: usize, b: usize) -> (r: String)
    requires
        2 <= b <= 10,
    ensures
        r@ == digits_of(n as nat, b as nat),
    decreases n,
{
    if n < b {
        String::from_str(digit_text(n))
    } else {
        assert(n / b < n) by (nonlinear_arith)
            requires
                n >= b,
                b >= 2,
        ;
        let mut r = in_base(n / b, b);
        r.append(digit_text(n % b));
        r
    }
}

/// The value of a run of octal digits.
pub open spec fn octal_value(s: Seq<char>) -> int
    decreases s.len(),
{
    if s.len() == 0 {
        0
    } else {
        octal_value(s.drop_last()) * 8 + (s.last() as int - '0' as int)
    }
}

/// The digits of an octal number, after an optional `+`.
pub open spec fn octal_body(s: Seq<char>) -> Seq<char> {
    if s.len() > 0 && s[0] == '+' {
        s.drop_first()
    } else {
        s
    }
}

/// What reading `s` as an unsigned 32-bit octal number gives: an optional
/// `+`, then one or more digits 0 to 7 whose value fits.
pub open spec fn octal_of(s: Seq<char>) -> Option<u32> {
    let body = octal_body(s);
    if body.len() > 0 && (forall|i: int| 0 <= i < body.len() ==> '0' <= #[trigger] body[i] <= '7')
        && octal_value(body) <= u32::MAX {
        Some(octal_value(body) as u32)
    } else {
        None
    }
}

proof fn lemma_octal_value_nonneg(s: Seq<char>)
    requires
        forall|i: int| 0 <= i < s.len() ==> '0' <= #[trigger] s[i] <= '7',
    ensures
        octal_value(s) >= 0,
    decreases s.len(),
{
    if s.len() > 0 {
        lemma_octal_value_nonneg(s.drop_last());
    }
}

proof fn lemma_octal_value_grows(s: Seq<char>, t: Seq<char>)
    requires
        forall|i: int| 0 <= i < s.len() + t.len() ==> '0' <= #[trigger] (s + t)[i] <= '7',
    ensures
        octal_value(s + t) >= octal_value(s),
    decreases t.len(),
{
    if t.len() > 0 {
        assert((s + t).drop_last() =~= s + t.drop_last());
        lemma_octal_value_grows(s, t.drop_last());
        lemma_octal_value_nonneg(s + t.drop_last());
    }
}

/// Reads `s` as an unsigned 32-bit octal number.
pub fn parse_octal(s: &str) -> (r: Option<u32>)
    ensures
        r == octal_of(s@),
{
    let n = s.unicode_len();
    let mut i: usize = 0;
    if n > 0 && s.get_char(0) == '+' {
        i = 1;
    }
    let ghost start = i as int;
    assert(octal_body(s@) =~= s@.subrange(start, n as int));
    if i == n {
        return None;
    }
    let mut acc: u32 = 0;
    while i < n
        invariant
            0 <= start <= i <= n,
            n == s@.len(),
            octal_body(s@) == s@.subrange(start, n as int),
            forall|j: int| start <= j < i ==> '0' <= #[trigger] s@[j] <= '7',
            acc as int == octal_value(s@.subrange(start, i as int)),
        decreases n - i,
    {
        let c = s.get_char(i);
        let ghost done = s@.subrange(start, i as int);
        let ghost next = s@.subrange(start, i + 1);
        assert(next.drop_last() =~= done);
        if c < '0' || c > '7' {
            assert(octal_body(s@)[i - start] == c);
            return None;
        }
        let d = (c as u32) - ('0' as u32);
        if acc > (u32::MAX - d) / 8 {
            proof {
                assert(octal_value(next) > u32::MAX) by (nonlinear_arith)
                    requires
                        octal_value(next) == acc * 8 + d,
                        acc > (u32::MAX - d) / 8,
                        d <= 7,
                ;
                assert(s@.subrange(start, n as int) =~= next + s@.subrange(i + 1, n as int));
                if forall|j: int| 0 <= j < octal_body(s@).len() ==> '0' <= #[trigger] octal_body(s@)[j] <= '7' {
                    assert forall|j: int| 0 <= j < next.len() + s@.subrange(i + 1, n as int).len()
                        implies '0' <= #[trigger] (next + s@.subrange(i + 1, n as int))[j] <= '7' by {
                        assert((next + s@.subrange(i + 1, n as int))[j] == octal_body(s@)[j]);
                    }
                    lemma_octal_value_grows(next, s@.subrange(i + 1, n as int));
                }
            }
            return None;
        }
        acc = acc * 8 + d;
        i += 1;
    }
    assert(s@.subrange(start, i as int) =~= octal_body(s@));
    Some(acc)
}

} // verus!
