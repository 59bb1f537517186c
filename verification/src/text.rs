//! Text helpers over `Seq<char>`: comparison, substring search and decimal numerals.
use vstd::prelude::*;
use vstd::string::*;

verus! {

/// The text held by an optional string.
pub open spec fn opt_text(o: Option<String>) -> Option<Seq<char>> {
    match o {
        Some(s) => Some(s@),
        None => None,
    }
}

/// `needle` stands in `hay`, starting at position `at`.
pub open spec fn occurs_at(hay: Seq<char>, needle: Seq<char>, at: int) -> bool {
    &&& 0 <= at <= hay.len() - needle.len()
    &&& hay.subrange(at, at + needle.len()) == needle
}

/// `needle` stands somewhere in `hay`.
pub open spec fn occurs_in(hay: Seq<char>, needle: Seq<char>) -> bool {
    exists|at: int| occurs_at(hay, needle, at)
}

/// An ASCII decimal digit.
pub open spec fn is_digit(c: char) -> bool {
    '0' <= c && c <= '9'
}

/// The number that a run of decimal digits writes down.
pub open spec fn numeral(digits: Seq<char>) -> nat
    decreases digits.len(),
{
    if digits.len() == 0 {
        0
    } else {
        numeral(digits.drop_last()) * 10 + (digits.last() as nat - '0' as nat) as nat
    }
}

/// The digits of a numeral that may carry one leading plus sign.
pub open spec fn unsigned_digits(s: Seq<char>) -> Seq<char> {
    if s.len() > 0 && s[0] == '+' {
        s.skip(1)
    } else {
        s
    }
}

/// The `u64` that `s` writes down: an optional plus sign and at least one decimal digit, nothing
/// else, and no more than `u64` holds.
pub open spec fn parsed_u64(s: Seq<char>) -> Option<u64> {
    let digits = unsigned_digits(s);
    if digits.len() > 0 && (forall|i: int| 0 <= i < digits.len() ==> is_digit(#[trigger] digits[i]))
        && numeral(digits) <= u64::MAX {
        Some(numeral(digits) as u64)
    } else {
        None
    }
}

/// The decimal digit for `d`.
pub open spec fn digit_char(d: nat) -> char {
    ('0' as nat + d) as char
}

/// `n` in decimal, without leading zeros.
pub open spec fn decimal(n: nat) -> Seq<char>
    decreases n,
{
    if n < 10 {
        seq![digit_char(n)]
    } else {
        decimal(n / 10).push(digit_char(n % 10))
    }
}

/// A string's characters.
pub fn chars_of(s: &str) -> (v: Vec<char>)
    ensures
        v@ == s@,
{
    let mut v: Vec<char> = Vec::new();
    for c in it: s.chars()
        invariant
            it.seq() == s@,
            v@ == s@.take(it.index() as int),
    {
        v.push(c);
    }
    v
}

/// Do two strings hold the same text?
pub fn same_text(a: &str, b: &str) -> (r: bool)
    ensures
        r == (a@ == b@),
{
    let x: String = a.to_owned();
    let y: String = b.to_owned();
    x == y
}

/// Does `c` stand in `s`?
pub fn has_char(s: &str, c: char) -> (r: bool)
    ensures
        r == s@.contains(c),
{
    let chars = chars_of(s);
    let mut i: usize = 0;
    while i < chars.len()
        invariant
            i <= chars@.len(),
            chars@ == s@,
            forall|j: int| 0 <= j < i ==> s@[j] != c,
        decreases chars@.len() - i,
    {
        if chars[i] == c {
            assert(s@[i as int] == c);
            return true;
        }
        i = i + 1;
    }
    false
}

/// Does `needle` stand in `hay` at position `at`?
fn matches_at(hay: &Vec<char>, needle: &Vec<char>, at: usize) -> (r: bool)
    requires
        at + needle@.len() <= hay@.len(),
    ensures
        r == occurs_at(hay@, needle@, at as int),
{
    let mut i: usize = 0;
    while i < needle.len()
        invariant
            i <= needle@.len(),
            at + needle@.len() <= hay.len(),
            forall|j: int| 0 <= j < i ==> hay@[at + j] == needle@[j],
        decreases needle@.len() - i,
    {
        if hay[at + i] != needle[i] {
            assert(hay@.subrange(at as int, at + needle@.len())[i as int] != needle@[i as int]);
            return false;
        }
        i = i + 1;
    }
    assert(hay@.subrange(at as int, at + needle@.len()) =~= needle@);
    true
}

/// Does `s` end with `suffix`?
pub fn has_suffix(s: &str, suffix: &str) -> (r: bool)
    ensures
        r == suffix@.is_suffix_of(s@),
{
    let hay = chars_of(s);
    let needle = chars_of(suffix);
    if needle.len() > hay.len() {
        return false;
    }
    matches_at(&hay, &needle, hay.len() - needle.len())
}

/// Does `needle` stand anywhere in `s`?
pub fn has_substring(s: &str, needle: &str) -> (r: bool)
    ensures
        r == occurs_in(s@, needle@),
{
    let hay = chars_of(s);
    let wanted = chars_of(needle);
    if wanted.len() > hay.len() {
        return false;
    }
    let last: usize = hay.len() - wanted.len();
    let mut at: usize = 0;
    while at < last
        invariant
            at <= last,
            last + wanted@.len() == hay@.len(),
            hay@ == s@,
            wanted@ == needle@,
            forall|j: int| 0 <= j < at ==> !occurs_at(hay@, wanted@, j),
        decreases last - at,
    {
        if matches_at(&hay, &wanted, at) {
            return true;
        }
        at = at + 1;
    }
    matches_at(&hay, &wanted, last)
}

/// The first digits of a numeral write down no larger number.
proof fn numeral_prefix_bound(digits: Seq<char>, i: int)
    requires
        0 <= i <= digits.len(),
    ensures
        numeral(digits.take(i)) <= numeral(digits),
    decreases digits.len() - i,
{
    if i == digits.len() {
        assert(digits.take(i) =~= digits);
    } else {
        numeral_prefix_bound(digits, i + 1);
        assert(digits.take(i + 1).drop_last() =~= digits.take(i));
    }
}

/// Reads an unsigned decimal number.
pub fn parse_u64(s: &str) -> (r: Option<u64>)
    ensures
        r == parsed_u64(s@),
{
    let chars = chars_of(s);
    let start: usize = if chars.len() > 0 && chars[0] == '+' { 1 } else { 0 };
    let ghost digits = unsigned_digits(s@);
    assert(digits =~= chars@.skip(start as int));
    if start == chars.len() {
        return None;
    }
    let mut n: u64 = 0;
    let mut i: usize = start;
    assert(digits.take(0) =~= Seq::<char>::empty());
    while i < chars.len()
        invariant
            start <= i <= chars@.len(),
            start <= 1,
            digits == chars@.skip(start as int),
            digits == unsigned_digits(s@),
            n == numeral(digits.take(i - start)),
            forall|j: int| 0 <= j < i - start ==> is_digit(#[trigger] digits[j]),
        decreases chars@.len() - i,
    {
        let c: char = chars[i];
        assert(digits[i - start] == c);
        if !('0' <= c && c <= '9') {
            return None;
        }
        let d: u64 = c as u64 - '0' as u64;
        proof {
            assert(digits.take(i - start + 1).drop_last() =~= digits.take(i - start));
            numeral_prefix_bound(digits, i - start + 1);
        }
        match n.checked_mul(10) {
            Some(tens) => match tens.checked_add(d) {
                Some(m) => {
                    n = m;
                },
                None => {
                    return None;
                },
            },
            None => {
                return None;
            },
        }
        i = i + 1;
    }
    assert(digits.take(i - start) =~= digits);
    Some(n)
}

/// One decimal digit as text.
fn digit_text(d: u64) -> (r: &'static str)
    requires
        d < 10,
    ensures
        r@ == seq![digit_char(d as nat)],
{
    proof {
        reveal_strlit("0");
        reveal_strlit("1");
        reveal_strlit("2");
        reveal_strlit("3");
        reveal_strlit("4");
        reveal_strlit("5");
        reveal_strlit("6");
        reveal_strlit("7");
        reveal_strlit("8");
        reveal_strlit("9");
    }
    if d == 0 {
        "0"
    } else if d == 1 {
        "1"
    } else if d == 2 {
        "2"
    } else if d == 3 {
        "3"
    } else if d == 4 {
        "4"
    } else if d == 5 {
        "5"
    } else if d == 6 {
        "6"
    } else if d == 7 {
        "7"
    } else if d == 8 {
        "8"
    } else {
        "9"
    }
}

/// Writes `n` in decimal.
pub fn decimal_text(n: u64) -> (r: String)
    ensures
        r@ == decimal(n as nat),
    decreases n,
{
    if n < 10 {
        digit_text(n).to_owned()
    } else {
        let mut s: String = decimal_text(n / 10);
        s.append(digit_text(n % 10));
        assert(s@ =~= decimal(n as nat));
        s
    }
}

/// Reading a number back from its decimal text gives that number.
pub proof fn decimal_reads_back(n: u64)
    ensures
        parsed_u64(decimal(n as nat)) == Some(n),
{
    decimal_numeral(n as nat);
    let s = decimal(n as nat);
    assert(is_digit(s[0]));
}

proof fn decimal_numeral(n: nat)
    ensures
        decimal(n).len() > 0,
        numeral(decimal(n)) == n,
        forall|i: int| 0 <= i < decimal(n).len() ==> is_digit(#[trigger] decimal(n)[i]),
    decreases n,
{
    if n >= 10 {
        decimal_numeral(n / 10);
        let s = decimal(n);
        assert(s.drop_last() =~= decimal(n / 10));
        assert(is_digit(s.last()));
        assert forall|i: int| 0 <= i < s.len() implies is_digit(#[trigger] s[i]) by {
            if i < s.len() - 1 {
                assert(s[i] == decimal(n / 10)[i]);
            }
        }
    } else {
        let s = decimal(n);
        assert(s.drop_last() =~= Seq::<char>::empty());
        reveal_with_fuel(numeral, 2);
    }
}

/// The text of an optional string is that of the string in it.
pub proof fn an_optional_string_has_its_text(s: String)
    ensures
        opt_text(Some(s)) == Some(s@),
        opt_text(None) is None,
{
}

/// A text occurs in another exactly when that one is made of it and what stands before and behind.
pub proof fn a_text_occurs_between_two_others(hay: Seq<char>, needle: Seq<char>)
    ensures
        occurs_in(hay, needle) <==> exists|before: Seq<char>, behind: Seq<char>|
            hay == #[trigger] (before + needle + behind),
{
    if occurs_in(hay, needle) {
        let at = choose|at: int| occurs_at(hay, needle, at);
        let before = hay.take(at);
        let behind = hay.skip(at + needle.len());
        assert(hay =~= before + hay.subrange(at, at + needle.len()) + behind);
        assert(hay == before + needle + behind);
    }
    if exists|before: Seq<char>, behind: Seq<char>| hay == #[trigger] (before + needle + behind) {
        let (before, behind) = choose|before: Seq<char>, behind: Seq<char>|
            hay == #[trigger] (before + needle + behind);
        let at = before.len() as int;
        assert(hay.subrange(at, at + needle.len()) =~= needle);
        assert(occurs_at(hay, needle, at));
    }
}

/// The value of a row of digits is ten times that of the row before its last digit, and that digit.
pub proof fn a_numeral_grows_by_its_last_digit(digits: Seq<char>, c: char)
    requires
        '0' <= c && c <= '9',
    ensures
        numeral(Seq::empty()) == 0,
        numeral(digits.push(c)) == 10 * numeral(digits) + (c as int - '0' as int),
{
    assert(digits.push(c).drop_last() =~= digits);
}

/// A text reads as a number exactly when it is a row of digits, or a plus sign and such a row, whose
/// value is that number.
pub proof fn a_number_reads_from_its_digits(s: Seq<char>, n: u64)
    ensures
        parsed_u64(s) == Some(n) <==> exists|digits: Seq<char>|
            {
                &&& s == digits || s == seq!['+'] + digits
                &&& digits.len() > 0
                &&& forall|i: int| 0 <= i < digits.len() ==> '0' <= digits[i] && digits[i] <= '9'
                &&& #[trigger] numeral(digits) == n
            },
{
    if parsed_u64(s) == Some(n) {
        let digits = unsigned_digits(s);
        if s != digits {
            assert(s =~= seq!['+'] + digits);
        }
        assert forall|i: int| 0 <= i < digits.len() implies '0' <= digits[i] && digits[i] <= '9' by {
            assert(is_digit(digits[i]));
        }
        assert(numeral(digits) == n);
    }
    if exists|digits: Seq<char>|
        {
            &&& s == digits || s == seq!['+'] + digits
            &&& digits.len() > 0
            &&& forall|i: int| 0 <= i < digits.len() ==> '0' <= digits[i] && digits[i] <= '9'
            &&& #[trigger] numeral(digits) == n
        } {
        let digits = choose|digits: Seq<char>|
            {
                &&& s == digits || s == seq!['+'] + digits
                &&& digits.len() > 0
                &&& forall|i: int| 0 <= i < digits.len() ==> '0' <= digits[i] && digits[i] <= '9'
                &&& #[trigger] numeral(digits) == n
            };
        assert('0' <= digits[0] && digits[0] <= '9');
        if s == digits {
            assert(unsigned_digits(s) == digits);
        } else {
            assert(s[0] == '+');
            assert(unsigned_digits(s) =~= digits);
        }
    }
}

/// A number is written in digits alone, at least one, with its own value, and without a zero in
/// front unless it is zero.
pub proof fn a_number_is_written_in_digits(n: nat)
    ensures
        decimal(n).len() > 0,
        forall|i: int| 0 <= i < decimal(n).len() ==> '0' <= decimal(n)[i] && decimal(n)[i] <= '9',
        numeral(decimal(n)) == n,
        n > 0 ==> decimal(n)[0] != '0',
    decreases n,
{
    decimal_numeral(n);
    assert forall|i: int| 0 <= i < decimal(n).len() implies '0' <= decimal(n)[i] && decimal(n)[i]
        <= '9' by {
        assert(is_digit(decimal(n)[i]));
    }
    if n >= 10 {
        a_number_is_written_in_digits(n / 10);
        assert(decimal(n)[0] == decimal(n / 10)[0]);
    }
}

} // verus!
