//! Text helpers shared by the data model: joining words and writing numbers.

use vstd::prelude::*;

verus! {

/// The characters of each string of `v`.
pub open spec fn texts(v: Seq<String>) -> Seq<Seq<char>> {
    v.map_values(|s: String| s@)
}

/// The words joined with one space between neighbours.
pub open spec fn joined(words: Seq<Seq<char>>) -> Seq<char>
    decreases words.len(),
{
    if words.len() == 0 {
        Seq::empty()
    } else if words.len() == 1 {
        words[0]
    } else {
        joined(words.drop_last()) + seq![' '] + words.last()
    }
}

/// The digit characters, lowest first, of bases up to sixteen.
pub open spec fn digit_chars() -> Seq<char> {
    seq!['0', '1', '2', '3', '4', '5', '6', '7', '8', '9', 'a', 'b', 'c', 'd', 'e', 'f']
}

/// The digit of value `d`.
pub open spec fn digit(d: nat) -> Seq<char> {
    seq![digit_chars()[d as int]]
}

/// `n` in decimal, without leading zeros.
pub open spec fn decimal_digits(n: nat) -> Seq<char>
    decreases n,
{
    if n < 10 {
        digit(n)
    } else {
        decimal_digits(n / 10) + digit(n % 10)
    }
}

/// `n` in lower-case hexadecimal, without leading zeros.
pub open spec fn hex_digits(n: nat) -> Seq<char>
    decreases n,
{
    if n < 16 {
        digit(n)
    } else {
        hex_digits(n / 16) + digit(n % 16)
    }
}

/// The digit characters are distinct, and none is a minus sign.
pub proof fn lemma_digit_chars()
    ensures
        digit_chars().len() == 16,
        forall|i: int| 0 <= i < 16 ==> digit_chars()[i] != '-',
        forall|i: int, j: int|
            0 <= i < 16 && 0 <= j < 16 && i != j ==> digit_chars()[i] != digit_chars()[j],
{
    let d = digit_chars();
    assert(d[0] == '0' && d[1] == '1' && d[2] == '2' && d[3] == '3');
    assert(d[4] == '4' && d[5] == '5' && d[6] == '6' && d[7] == '7');
    assert(d[8] == '8' && d[9] == '9' && d[10] == 'a' && d[11] == 'b');
    assert(d[12] == 'c' && d[13] == 'd' && d[14] == 'e' && d[15] == 'f');
}

/// A decimal number has at least one character and no minus sign; from ten on,
/// at least two.
pub proof fn lemma_decimal_shape(n: nat)
    ensures
        decimal_digits(n).len() >= 1,
        n >= 10 ==> decimal_digits(n).len() >= 2,
        forall|i: int| 0 <= i < decimal_digits(n).len() ==> decimal_digits(n)[i] != '-',
    decreases n,
{
    lemma_digit_chars();
    if n >= 10 {
        lemma_decimal_shape(n / 10);
        let head = decimal_digits(n / 10);
        assert forall|i: int| 0 <= i < decimal_digits(n).len() implies decimal_digits(n)[i]
            != '-' by {
            if i < head.len() {
                assert(decimal_digits(n)[i] == head[i]);
            }
        }
    }
}

/// Different numbers are written differently in decimal.
pub proof fn lemma_decimal_injective(a: nat, b: nat)
    requires
        decimal_digits(a) == decimal_digits(b),
    ensures
        a == b,
    decreases a,
{
    lemma_digit_chars();
    lemma_decimal_shape(a);
    lemma_decimal_shape(b);
    if a < 10 && b < 10 {
        assert(decimal_digits(a)[0] == digit_chars()[a as int]);
        assert(decimal_digits(b)[0] == digit_chars()[b as int]);
    } else if a >= 10 && b >= 10 {
        let (da, db) = (decimal_digits(a), decimal_digits(b));
        let (ha, hb) = (decimal_digits(a / 10), decimal_digits(b / 10));
        assert(ha =~= da.drop_last());
        assert(hb =~= db.drop_last());
        assert(da.last() == digit_chars()[(a % 10) as int]);
        assert(db.last() == digit_chars()[(b % 10) as int]);
        lemma_decimal_injective(a / 10, b / 10);
    }
}

/// `b + "-" + d` splits back into `b` and `d` when `d` is a decimal number.
pub proof fn lemma_dash_split(b1: Seq<char>, n1: nat, b2: Seq<char>, n2: nat)
    requires
        b1 + seq!['-'] + decimal_digits(n1) == b2 + seq!['-'] + decimal_digits(n2),
    ensures
        b1 == b2,
        n1 == n2,
{
    let (d1, d2) = (decimal_digits(n1), decimal_digits(n2));
    let m = b1 + seq!['-'] + d1;
    let m2 = b2 + seq!['-'] + d2;
    lemma_decimal_shape(n1);
    lemma_decimal_shape(n2);
    assert(m.len() == b1.len() + 1 + d1.len());
    assert(m2.len() == b2.len() + 1 + d2.len());
    if d1.len() < d2.len() {
        let at = b1.len() as int;
        assert(m[at] == '-');
        assert(m2[at] == d2[at - b2.len() - 1]);
    } else if d2.len() < d1.len() {
        let at = b2.len() as int;
        assert(m2[at] == '-');
        assert(m[at] == d1[at - b1.len() - 1]);
    }
    assert(d1 =~= m.subrange(b1.len() as int + 1, m.len() as int));
    assert(d2 =~= m2.subrange(b2.len() as int + 1, m2.len() as int));
    assert(b1 =~= m.subrange(0, b1.len() as int));
    assert(b2 =~= m2.subrange(0, b2.len() as int));
    lemma_decimal_injective(n1, n2);
}

/// `words` joined with one space between neighbours.
pub fn join_words(words: &Vec<String>) -> (r: String)
    ensures
        r@ == joined(texts(words@)),
{
    let mut r = String::new();
    let n = words.len();
    if n == 0 {
        return r;
    }
    r.append(words[0].as_str());
    proof {
        reveal_strlit(" ");
        assert(texts(words@).take(1).drop_last() =~= Seq::<Seq<char>>::empty());
    }
    let mut i: usize = 1;
    while i < n
        invariant
            1 <= i <= n,
            n == words@.len(),
            r@ == joined(texts(words@).take(i as int)),
        decreases n - i,
    {
        r.append(" ");
        r.append(words[i].as_str());
        proof {
            reveal_strlit(" ");
            let t = texts(words@);
            assert(t.take(i + 1).drop_last() =~= t.take(i as int));
        }
        i = i + 1;
    }
    proof {
        assert(texts(words@).take(n as int) =~= texts(words@));
    }
    r
}

/// The one-character string of digit `d`.
fn digit_text(d: u64) -> (r: String)
    requires
        d < 16,
    ensures
        r@ == digit(d as nat),
{
    let all = "0123456789abcdef";
    proof {
        reveal_strlit("0123456789abcdef");
        assert(all@ =~= digit_chars());
    }
    let s = all.substring_char(d as usize, d as usize + 1);
    let r = String::from_str(s);
    assert(r@ =~= digit(d as nat));
    r
}

/// `n` in decimal.
pub fn decimal(n: u128) -> (r: String)
    ensures
        r@ == decimal_digits(n as nat),
    decreases n,
{
    if n < 10 {
        digit_text(n as u64)
    } else {
        let mut r = decimal(n / 10);
        let last = digit_text((n % 10) as u64);
        r.append(last.as_str());
        r
    }
}

/// `n` in lower-case hexadecimal.
pub fn hex(n: u64) -> (r: String)
    ensures
        r@ == hex_digits(n as nat),
    decreases n,
{
    if n < 16 {
        digit_text(n)
    } else {
        let mut r = hex(n / 16);
        let last = digit_text(n % 16);
        r.append(last.as_str());
        r
    }
}

/// The hundredths `c` written as a number with two decimals (`1234` gives `12.34`).
pub open spec fn centi_text(c: nat) -> Seq<char> {
    decimal_digits(c / 100) + seq!['.'] + digit((c % 100) / 10) + digit(c % 10)
}

/// The hundredths `c` written with two decimals.
pub fn write_centi(c: u128) -> (r: String)
    ensures
        r@ == centi_text(c as nat),
{
    let mut r = decimal(c / 100);
    r.append(".");
    let tenths = digit_text(((c % 100) / 10) as u64);
    let hundredths = digit_text((c % 10) as u64);
    r.append(tenths.as_str());
    r.append(hundredths.as_str());
    proof {
        reveal_strlit(".");
    }
    r
}

/// A copy of each string of `v`.
pub fn copy_strings(v: &Vec<String>) -> (r: Vec<String>)
    ensures
        r@ == v@,
{
    let mut r: Vec<String> = Vec::new();
    let mut i: usize = 0;
    while i < v.len()
        invariant
            i <= v@.len(),
            r@ == v@.take(i as int),
        decreases v@.len() - i,
    {
        r.push(v[i].clone());
        assert(v@.take(i + 1) =~= v@.take(i as int).push(v@[i as int]));
        i = i + 1;
    }
    assert(v@.take(v@.len() as int) =~= v@);
    r
}

} // verus!
