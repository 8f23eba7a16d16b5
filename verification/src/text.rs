//! Small pieces of text: comparison, prefixes, whole numbers in decimal.

use vstd::prelude::*;
use vstd::string::StringExecFns;

verus! {

/// The characters of an optional string.
pub open spec fn text(o: Option<String>) -> Option<Seq<char>> {
    match o {
        Some(s) => Some(s@),
        None => None,
    }
}

/// The characters of each string.
pub open spec fn texts(v: Seq<String>) -> Seq<Seq<char>> {
    v.map_values(|s: String| s@)
}

/// Do the two hold the same characters?
pub fn same_text(a: &str, b: &str) -> (r: bool)
    ensures
        r == (a@ == b@),
{
    let a = a.to_owned();
    let b = b.to_owned();
    a == b
}

/// Does `s` begin with `prefix`?
pub fn has_prefix(s: &str, prefix: &str) -> (r: bool)
    ensures
        r == prefix@.is_prefix_of(s@),
{
    let n: usize = prefix.unicode_len();
    if s.unicode_len() < n {
        return false;
    }
    let mut i: usize = 0;
    while i < n
        invariant
            n == prefix@.len(),
            n <= s@.len(),
            i <= n,
            forall|k: int| 0 <= k < i ==> prefix@[k] == s@[k],
        decreases n - i,
    {
        if s.get_char(i) != prefix.get_char(i) {
            return false;
        }
        i += 1;
    }
    proof {
        assert(prefix@ =~= s@.subrange(0, n as int));
    }
    true
}

/// The services whose name begins with `prefix`, in the order of the list.
pub open spec fn with_prefix(names: Seq<Seq<char>>, prefix: Seq<char>) -> Seq<Seq<char>> {
    names.filter(|n: Seq<char>| prefix.is_prefix_of(n))
}

/// Pick the names that begin with `prefix`, keeping their order.
pub fn select_prefix(names: &Vec<String>, prefix: &str) -> (r: Vec<String>)
    ensures
        texts(r@) == with_prefix(texts(names@), prefix@),
{
    let mut r: Vec<String> = Vec::new();
    let ghost keep = |n: Seq<char>| prefix@.is_prefix_of(n);
    let mut i: usize = 0;
    proof {
        reveal(Seq::filter);
        assert(texts(names@).take(0) =~= Seq::<Seq<char>>::empty());
        assert(texts(r@) =~= Seq::<Seq<char>>::empty());
    }
    while i < names.len()
        invariant
            i <= names.len(),
            keep == (|n: Seq<char>| prefix@.is_prefix_of(n)),
            texts(r@) == texts(names@).take(i as int).filter(keep),
        decreases names.len() - i,
    {
        proof {
            reveal(Seq::filter);
            let next = texts(names@).take(i + 1);
            assert(next.drop_last() =~= texts(names@).take(i as int));
            assert(next.last() == names@[i as int]@);
        }
        let ghost before = r@;
        if has_prefix(names[i].as_str(), prefix) {
            r.push(names[i].clone());
            proof {
                assert(texts(r@) =~= texts(before).push(names@[i as int]@));
            }
        }
        i += 1;
    }
    proof {
        assert(texts(names@).take(names.len() as int) =~= texts(names@));
    }
    r
}

/// The character of one decimal digit.
pub open spec fn digit(d: nat) -> Seq<char> {
    seq![('0' as u32 + d) as char]
}

/// The decimal numeral of `n`, without leading zeros.
pub open spec fn decimal(n: nat) -> Seq<char>
    decreases n,
{
    if n < 10 {
        digit(n)
    } else {
        decimal(n / 10) + digit(n % 10)
    }
}

fn digit_text(d: u64) -> (r: &'static str)
    requires
        d < 10,
    ensures
        r@ == digit(d as nat),
{
    proof {
        reveal_strlit("0");
        reveal_strlit("1");
        reveal_strlit("2");
        reveal_strlit("3");
        reveal_strlit("4");
        reveal_strlit("5");
        reveal_strlit("6");
        reveal_strlit("7");
        reveal_strlit("8");
        reveal_strlit("9");
        assert("0"@ =~= digit(0));
        assert("1"@ =~= digit(1));
        assert("2"@ =~= digit(2));
        assert("3"@ =~= digit(3));
        assert("4"@ =~= digit(4));
        assert("5"@ =~= digit(5));
        assert("6"@ =~= digit(6));
        assert("7"@ =~= digit(7));
        assert("8"@ =~= digit(8));
        assert("9"@ =~= digit(9));
    }
    match d {
        0 => "0",
        1 => "1",
        2 => "2",
        3 => "3",
        4 => "4",
        5 => "5",
        6 => "6",
        7 => "7",
        8 => "8",
        _ => "9",
    }
}

/// Write `n` in decimal.
pub fn decimal_text(n: u64) -> (r: String)
    ensures
        r@ == decimal(n as nat),
    decreases n,
{
    if n < 10 {
        digit_text(n).to_owned()
    } else {
        let mut r = decimal_text(n / 10);
        r.append(digit_text(n % 10));
        r
    }
}

/// Is this one of the ten decimal digits?
pub open spec fn is_digit(c: char) -> bool {
    '0' <= c && c <= '9'
}

/// What one decimal digit stands for.
pub open spec fn digit_value(c: char) -> nat {
    (c as int - '0' as int) as nat
}

/// Is this at least one digit, and nothing else?
pub open spec fn is_numeral(s: Seq<char>) -> bool {
    s.len() > 0 && forall|i: int| 0 <= i < s.len() ==> is_digit(#[trigger] s[i])
}

/// The number that a row of digits stands for, the most significant one first.
pub open spec fn value_of(s: Seq<char>) -> nat
    decreases s.len(),
{
    if s.len() == 0 {
        0
    } else {
        10 * value_of(s.drop_last()) + digit_value(s.last())
    }
}

/// The digits of a whole number, which a plus sign may precede.
pub open spec fn unsigned(s: Seq<char>) -> Seq<char> {
    if s.len() > 0 && s[0] == '+' {
        s.skip(1)
    } else {
        s
    }
}

/// The whole number that a text stands for: digits, leading zeros among them, of a value
/// that fits.
pub open spec fn count_named(s: Seq<char>) -> Option<u64> {
    if is_numeral(unsigned(s)) && value_of(unsigned(s)) <= u64::MAX {
        Some(value_of(unsigned(s)) as u64)
    } else {
        None
    }
}

/// Read a whole number.
pub fn parse_count(s: &str) -> (r: Option<u64>)
    ensures
        r == count_named(s@),
{
    let n: usize = s.unicode_len();
    let start: usize = if n > 0 && s.get_char(0) == '+' {
        1
    } else {
        0
    };
    if start == n {
        return None;
    }
    let ghost digits = unsigned(s@);
    let mut value: u64 = 0;
    let mut fits = true;
    let mut i: usize = start;
    proof {
        assert(digits.take(0) =~= Seq::<char>::empty());
        assert(digits =~= s@.skip(start as int));
    }
    while i < n
        invariant
            start <= i <= n,
            n == s@.len(),
            digits == unsigned(s@),
            digits == s@.skip(start as int),
            forall|k: int| 0 <= k < i - start ==> is_digit(#[trigger] digits[k]),
            fits ==> value == value_of(digits.take(i - start)),
            !fits ==> value_of(digits.take(i - start)) > u64::MAX,
        decreases n - i,
    {
        let c = s.get_char(i);
        proof {
            let next = digits.take(i - start + 1);
            assert(next.drop_last() =~= digits.take(i - start));
            assert(next.last() == c);
            assert(digits[i - start] == c);
        }
        if c < '0' || c > '9' {
            return None;
        }
        let d: u64 = c as u64 - '0' as u64;
        if fits && value <= (u64::MAX - d) / 10 {
            value = 10 * value + d;
        } else {
            fits = false;
        }
        i += 1;
    }
    proof {
        assert(digits.take(n - start) =~= digits);
    }
    if fits {
        Some(value)
    } else {
        None
    }
}

/// That many zeros in a row.
pub open spec fn zeros(n: nat) -> Seq<char> {
    Seq::new(n, |i: int| '0')
}

/// A numeral is the decimal numeral of its value, behind any number of zeros.
pub proof fn numeral_is_the_decimal_behind_zeros(s: Seq<char>)
    requires
        is_numeral(s),
    ensures
        decimal(value_of(s)).len() <= s.len(),
        s == zeros((s.len() - decimal(value_of(s)).len()) as nat) + decimal(value_of(s)),
    decreases s.len(),
{
    let rest = s.drop_last();
    let d = digit_value(s.last());
    assert(is_digit(s[s.len() - 1]));
    assert(digit(d) =~= seq![s.last()]);
    if rest.len() == 0 {
        assert(value_of(rest) == 0);
        assert(s =~= zeros(0) + digit(d));
    } else {
        assert forall|i: int| 0 <= i < rest.len() implies is_digit(#[trigger] rest[i]) by {
            assert(is_digit(s[i]));
        }
        numeral_is_the_decimal_behind_zeros(rest);
        let v = value_of(rest);
        assert(value_of(s) / 10 == v && value_of(s) % 10 == d);
        if v == 0 {
            assert(rest =~= zeros(rest.len()));
            assert(s =~= zeros(rest.len()) + digit(d));
        } else {
            assert(s =~= rest + digit(d));
            assert(s =~= zeros((rest.len() - decimal(v).len()) as nat) + decimal(value_of(s)));
        }
    }
}

/// Reading undoes writing: the decimal numeral of a number is read as that number.
pub proof fn reading_undoes_writing(n: u64)
    ensures
        count_named(decimal(n as nat)) == Some(n),
{
    decimal_is_a_numeral(n as nat);
    assert(is_digit(decimal(n as nat)[0]));
}

proof fn decimal_is_a_numeral(n: nat)
    ensures
        is_numeral(decimal(n)),
        value_of(decimal(n)) == n,
    decreases n,
{
    let s = decimal(n);
    let d = (n % 10) as nat;
    assert(is_digit(digit(d)[0]) && digit_value(digit(d)[0]) == d);
    assert(s.last() == digit(d)[0]);
    if n < 10 {
        assert(s.drop_last() =~= Seq::<char>::empty());
        assert(value_of(s.drop_last()) == 0);
    } else {
        decimal_is_a_numeral(n / 10);
        assert(s.drop_last() =~= decimal(n / 10));
    }
}

/// The two pieces one after the other.
pub fn join2(a: &str, b: &str) -> (r: String)
    ensures
        r@ == a@ + b@,
{
    let mut r = a.to_owned();
    r.append(b);
    r
}

/// The three pieces one after the other.
pub fn join3(a: &str, b: &str, c: &str) -> (r: String)
    ensures
        r@ == a@ + b@ + c@,
{
    let mut r = a.to_owned();
    r.append(b);
    r.append(c);
    r
}

} // verus!
