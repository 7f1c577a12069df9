use vstd::prelude::*;

verus! {

/// A decimal digit character.
pub open spec fn is_digit(c: char) -> bool {
    '0' <= c && c <= '9'
}

/// Numeric value of a digit character.
pub open spec fn digit_val(c: char) -> nat {
    (c as int - '0' as int) as nat
}

/// Every character of the sequence is a decimal digit.
pub open spec fn all_digits(s: Seq<char>) -> bool {
    forall|i: int| 0 <= i < s.len() ==> is_digit(#[trigger] s[i])
}

/// Numeric value of a digit string, most significant digit first.
pub open spec fn str_to_nat(s: Seq<char>) -> nat
    decreases s.len(),
{
    if s.len() == 0 {
        0
    } else {
        str_to_nat(s.drop_last()) * 10 + digit_val(s.last())
    }
}

/// Character for one digit value below ten.
pub open spec fn digit_char(d: nat) -> char {
    if d == 0 {
        '0'
    } else if d == 1 {
        '1'
    } else if d == 2 {
        '2'
    } else if d == 3 {
        '3'
    } else if d == 4 {
        '4'
    } else if d == 5 {
        '5'
    } else if d == 6 {
        '6'
    } else if d == 7 {
        '7'
    } else if d == 8 {
        '8'
    } else {
        '9'
    }
}

/// Canonical decimal form of a number: digits only, no leading zero
/// (except for the number zero itself).
pub open spec fn spec_u32_digits(n: nat) -> Seq<char>
    decreases n,
{
    if n < 10 {
        seq![digit_char(n)]
    } else {
        spec_u32_digits(n / 10).push(digit_char(n % 10))
    }
}

fn digit_str(d: u32) -> (s: &'static str)
    requires
        d < 10,
    ensures
        s@ == seq![digit_char(d as nat)],
{
    proof {
        reveal_strlit("0");
        reveal_strlit("1");
        reveal_strlit("2");
        reveal_strlit("3");
        reveal_strlit("4");
        reveal_strlit("5");
        reveal_strlit("6");
        reveal_strlit("7");
        reveal_strlit("8");
        reveal_strlit("9");
    }
    let s: &'static str = match d {
        0 => "0",
        1 => "1",
        2 => "2",
        3 => "3",
        4 => "4",
        5 => "5",
        6 => "6",
        7 => "7",
        8 => "8",
        _ => "9",
    };
    proof {
        assert(s@ =~= seq![digit_char(d as nat)]);
    }
    s
}

/// Render a number in its canonical decimal form.
pub fn u32_to_string(n: u32) -> (s: String)
    ensures
        s@ == spec_u32_digits(n as nat),
    decreases n,
{
    if n < 10 {
        String::from_str(digit_str(n))
    } else {
        let mut s = u32_to_string(n / 10);
        s.append(digit_str(n % 10));
        proof {
            assert(s@ =~= spec_u32_digits(n as nat));
        }
        s
    }
}

proof fn lemma_str_to_nat_step(s: Seq<char>, j: int)
    requires
        0 <= j < s.len(),
    ensures
        str_to_nat(s.take(j + 1)) == str_to_nat(s.take(j)) * 10 + digit_val(s[j]),
{
    assert(s.take(j + 1).drop_last() =~= s.take(j));
    assert(s.take(j + 1).last() == s[j]);
}

proof fn lemma_str_to_nat_take_le(s: Seq<char>, j1: int, j2: int)
    requires
        0 <= j1 <= j2 <= s.len(),
    ensures
        str_to_nat(s.take(j1)) <= str_to_nat(s.take(j2)),
    decreases j2 - j1,
{
    if j1 < j2 {
        lemma_str_to_nat_take_le(s, j1, j2 - 1);
        lemma_str_to_nat_step(s, j2 - 1);
    }
}

/// Parse a decimal digit string into a number. Returns the value exactly
/// when the whole string is one or more digits and the value fits in `u32`.
pub fn parse_u32(s: &str) -> (r: Option<u32>)
    ensures
        match r {
            Some(n) => s@.len() > 0 && all_digits(s@) && str_to_nat(s@) == n as nat,
            None => s@.len() == 0 || !all_digits(s@) || str_to_nat(s@) > u32::MAX,
        },
{
    let len = s.unicode_len();
    if len == 0 {
        return None;
    }
    let mut i: usize = 0;
    let mut acc: u32 = 0;
    while i < len
        invariant
            0 <= i <= len,
            len == s@.len(),
            all_digits(s@.take(i as int)),
            acc as nat == str_to_nat(s@.take(i as int)),
        decreases len - i,
    {
        let c = s.get_char(i);
        if !('0' <= c && c <= '9') {
            assert(!is_digit(s@[i as int]));
            return None;
        }
        let d: u32 = (c as u32) - ('0' as u32);
        if acc > (u32::MAX - d) / 10 {
            proof {
                lemma_str_to_nat_step(s@, i as int);
                lemma_str_to_nat_take_le(s@, i as int + 1, s@.len() as int);
                assert(s@.take(s@.len() as int) =~= s@);
            }
            return None;
        }
        proof {
            lemma_str_to_nat_step(s@, i as int);
            assert(s@.take(i as int + 1).drop_last() =~= s@.take(i as int));
        }
        acc = acc * 10 + d;
        i = i + 1;
    }
    proof {
        assert(s@.take(len as int) =~= s@);
    }
    Some(acc)
}

/// The canonical decimal form of a number parses back to that number.
pub proof fn lemma_digits_round_trip(n: nat)
    ensures
        all_digits(spec_u32_digits(n)),
        spec_u32_digits(n).len() > 0,
        str_to_nat(spec_u32_digits(n)) == n,
    decreases n,
{
    if n < 10 {
        let s = spec_u32_digits(n);
        assert(s.drop_last() =~= Seq::<char>::empty());
        assert(str_to_nat(Seq::<char>::empty()) == 0);
        assert(str_to_nat(s) == digit_val(digit_char(n)));
        assert(digit_val(digit_char(n)) == n);
    } else {
        lemma_digits_round_trip(n / 10);
        let s = spec_u32_digits(n);
        assert(s.drop_last() =~= spec_u32_digits(n / 10));
        assert(s.last() == digit_char(n % 10));
        assert(digit_val(digit_char(n % 10)) == n % 10);
        assert(str_to_nat(s) == (n / 10) * 10 + n % 10);
        assert(forall|i: int| 0 <= i < s.len() ==> is_digit(#[trigger] s[i])) by {
            assert(forall|i: int|
                0 <= i < s.len() - 1 ==> s[i] == #[trigger] spec_u32_digits(n / 10)[i]);
        };
    }
}

/// Character-wise equality of two strings.
pub fn str_eq(a: &str, b: &str) -> (r: bool)
    ensures
        r == (a@ == b@),
{
    let alen = a.unicode_len();
    let blen = b.unicode_len();
    if alen != blen {
        return false;
    }
    let mut i: usize = 0;
    while i < alen
        invariant
            0 <= i <= alen,
            alen == a@.len(),
            alen == b@.len(),
            forall|j: int| 0 <= j < i ==> a@[j] == b@[j],
        decreases alen - i,
    {
        if a.get_char(i) != b.get_char(i) {
            return false;
        }
        i = i + 1;
    }
    proof {
        assert(a@ =~= b@);
    }
    true
}

/// An ASCII whitespace character, as found around attribute file contents.
pub open spec fn is_space(c: char) -> bool {
    c == ' ' || c == '\n' || c == '\t' || c == '\r'
}

pub open spec fn spec_trim_front(s: Seq<char>) -> Seq<char>
    decreases s.len(),
{
    if s.len() > 0 && is_space(s[0]) {
        spec_trim_front(s.drop_first())
    } else {
        s
    }
}

pub open spec fn spec_trim_back(s: Seq<char>) -> Seq<char>
    decreases s.len(),
{
    if s.len() > 0 && is_space(s.last()) {
        spec_trim_back(s.drop_last())
    } else {
        s
    }
}

/// The string with leading and trailing ASCII whitespace removed.
pub open spec fn spec_trimmed(s: Seq<char>) -> Seq<char> {
    spec_trim_back(spec_trim_front(s))
}

fn is_space_char(c: char) -> (r: bool)
    ensures
        r == is_space(c),
{
    c == ' ' || c == '\n' || c == '\t' || c == '\r'
}

/// Strip leading and trailing ASCII whitespace.
pub fn trimmed<'a>(s: &'a str) -> (r: &'a str)
    ensures
        r@ == spec_trimmed(s@),
{
    let len = s.unicode_len();
    let mut lo: usize = 0;
    proof {
        assert(s@.subrange(0, len as int) =~= s@);
    }
    while lo < len && is_space_char(s.get_char(lo))
        invariant
            0 <= lo <= len,
            len == s@.len(),
            spec_trim_front(s@) == spec_trim_front(s@.subrange(lo as int, len as int)),
        decreases len - lo,
    {
        proof {
            assert(s@.subrange(lo as int, len as int).drop_first() =~= s@.subrange(
                lo as int + 1,
                len as int,
            ));
        }
        lo = lo + 1;
    }
    proof {
        assert(spec_trim_front(s@) == s@.subrange(lo as int, len as int));
    }
    let mut hi: usize = len;
    while hi > lo && is_space_char(s.get_char(hi - 1))
        invariant
            lo <= hi <= len,
            len == s@.len(),
            spec_trim_back(s@.subrange(lo as int, len as int)) == spec_trim_back(
                s@.subrange(lo as int, hi as int),
            ),
        decreases hi,
    {
        proof {
            assert(s@.subrange(lo as int, hi as int).drop_last() =~= s@.subrange(
                lo as int,
                hi as int - 1,
            ));
        }
        hi = hi - 1;
    }
    proof {
        assert(spec_trim_back(s@.subrange(lo as int, hi as int)) == s@.subrange(
            lo as int,
            hi as int,
        ));
    }
    s.substring_char(lo, hi)
}

/// Index of the first `=` character, if any.
pub open spec fn find_eq(s: Seq<char>) -> Option<int>
    decreases s.len(),
{
    if s.len() == 0 {
        None
    } else if s[0] == '=' {
        Some(0int)
    } else {
        match find_eq(s.drop_first()) {
            Some(i) => Some(i + 1),
            None => None,
        }
    }
}

/// `find_eq` returns the first `=`, and `None` only when there is none.
pub proof fn lemma_find_eq(s: Seq<char>)
    ensures
        match find_eq(s) {
            Some(i) => 0 <= i < s.len() && s[i] == '=' && forall|j: int|
                0 <= j < i ==> s[j] != '=',
            None => forall|j: int| 0 <= j < s.len() ==> s[j] != '=',
        },
    decreases s.len(),
{
    if s.len() > 0 && s[0] != '=' {
        lemma_find_eq(s.drop_first());
        match find_eq(s.drop_first()) {
            Some(i) => {
                assert(s[i + 1] == s.drop_first()[i]);
                assert forall|j: int| 0 <= j < i + 1 implies s[j] != '=' by {
                    if j > 0 {
                        assert(s.drop_first()[j - 1] != '=');
                    }
                }
            },
            None => {
                assert forall|j: int| 0 <= j < s.len() implies s[j] != '=' by {
                    if j > 0 {
                        assert(s.drop_first()[j - 1] != '=');
                    }
                }
            },
        }
    }
}

/// A position known to hold the first `=` determines `find_eq`.
pub proof fn lemma_find_eq_at(s: Seq<char>, i: int)
    requires
        0 <= i < s.len(),
        s[i] == '=',
        forall|j: int| 0 <= j < i ==> s[j] != '=',
    ensures
        find_eq(s) == Some(i),
    decreases i,
{
    if i > 0 {
        assert(forall|j: int| 0 <= j < i - 1 ==> s.drop_first()[j] == s[j + 1]);
        lemma_find_eq_at(s.drop_first(), i - 1);
    }
}

/// Split a string at its first `=` character.
pub fn split_eq<'a>(s: &'a str) -> (r: Option<(&'a str, &'a str)>)
    ensures
        match r {
            Some(parts) => {
                let i = parts.0@.len() as int;
                &&& find_eq(s@) == Some(i)
                &&& parts.0@ == s@.take(i)
                &&& parts.1@ == s@.subrange(i + 1, s@.len() as int)
            },
            None => find_eq(s@) is None,
        },
{
    let len = s.unicode_len();
    let mut i: usize = 0;
    while i < len
        invariant
            0 <= i <= len,
            len == s@.len(),
            forall|j: int| 0 <= j < i ==> s@[j] != '=',
        decreases len - i,
    {
        if s.get_char(i) == '=' {
            proof {
                lemma_find_eq_at(s@, i as int);
            }
            let pre = s.substring_char(0, i);
            let post = s.substring_char(i + 1, len);
            proof {
                assert(pre@ =~= s@.take(i as int));
            }
            return Some((pre, post));
        }
        i = i + 1;
    }
    proof {
        lemma_find_eq(s@);
        if find_eq(s@) is Some {
            let k = find_eq(s@)->Some_0;
            assert(s@[k] != '=');
        }
    }
    None
}

/// Digits followed by a newline trim back to exactly the digits; this is
/// how a value written to an attribute file reads back.
pub proof fn lemma_trim_digits_newline(d: Seq<char>)
    requires
        d.len() > 0,
        all_digits(d),
    ensures
        spec_trimmed(d + seq!['\n']) == d,
{
    let s = d + seq!['\n'];
    assert(is_digit(d[0]));
    assert(s[0] == d[0]);
    assert(!is_space(s[0]));
    assert(spec_trim_front(s) == s);
    assert(s.last() == '\n');
    assert(s.drop_last() =~= d);
    assert(spec_trim_back(s) == spec_trim_back(d));
    assert(is_digit(d.last()));
    assert(!is_space(d.last()));
    assert(spec_trim_back(d) == d);
}

/// The sequence with every underscore replaced by a hyphen.
pub open spec fn spec_hyphenated(s: Seq<char>) -> Seq<char> {
    s.map_values(|c: char| if c == '_' { '-' } else { c })
}

/// Replace every underscore with a hyphen, as done when a setting
/// identifier is turned into a service unit name.
pub fn hyphenate(s: &str) -> (r: String)
    ensures
        r@ == spec_hyphenated(s@),
{
    let len = s.unicode_len();
    let mut r = String::new();
    let mut i: usize = 0;
    proof {
        reveal_strlit("-");
    }
    while i < len
        invariant
            0 <= i <= len,
            len == s@.len(),
            r@ == spec_hyphenated(s@.take(i as int)),
            "-"@.len() == 1 && "-"@[0] == '-',
        decreases len - i,
    {
        let c = s.get_char(i);
        if c == '_' {
            r.append("-");
        } else {
            let piece = s.substring_char(i, i + 1);
            r.append(piece);
        }
        proof {
            assert(r@ =~= spec_hyphenated(s@.take(i as int + 1)));
        }
        i = i + 1;
    }
    proof {
        assert(s@.take(len as int) =~= s@);
    }
    r
}

} // verus!
