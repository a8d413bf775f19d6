//! Text helpers shared by the other modules: comparing string slices and
//! rendering indices and counts in decimal.

use vstd::prelude::*;
use vstd::string::*;
use vstd::utf8::*;

verus! {

/// Whether two string slices hold the same characters.
pub fn str_eq(a: &str, b: &str) -> (same: bool)
    ensures
        same == (a@ == b@),
{
    let x = a.as_bytes();
    let y = b.as_bytes();
    proof {
        encode_utf8_decode_utf8(a@);
        encode_utf8_decode_utf8(b@);
    }
    if x.len() != y.len() {
        return false;
    }
    let mut i: usize = 0;
    while i < x.len()
        invariant
            i <= x.len(),
            x.len() == y.len(),
            x@ == encode_utf8(a@),
            y@ == encode_utf8(b@),
            forall|k: int| 0 <= k < i ==> x@[k] == y@[k],
        decreases x.len() - i,
    {
        if x[i] != y[i] {
            return false;
        }
        i += 1;
    }
    assert(x@ =~= y@);
    true
}

/// The texts of a list of strings.
pub open spec fn texts_of(lines: Seq<String>) -> Seq<Seq<char>> {
    Seq::new(lines.len(), |i: int| lines[i]@)
}

/// The character that stands for a decimal digit.
pub open spec fn digit_char(d: nat) -> char {
    if d == 0 {
        '0'
    } else if d == 1 {
        '1'
    } else if d == 2 {
        '2'
    } else if d == 3 {
        '3'
    } else if d == 4 {
        '4'
    } else if d == 5 {
        '5'
    } else if d == 6 {
        '6'
    } else if d == 7 {
        '7'
    } else if d == 8 {
        '8'
    } else {
        '9'
    }
}

/// The decimal numeral of `n`: no sign, no leading zero, `"0"` for zero.
pub open spec fn decimal(n: nat) -> Seq<char>
    decreases n,
{
    if n < 10 {
        seq![digit_char(n)]
    } else {
        decimal(n / 10).push(digit_char(n % 10))
    }
}

/// A numeral is never empty.
pub proof fn lemma_decimal_len(n: nat)
    ensures
        decimal(n).len() >= 1,
    decreases n,
{
    if n >= 10 {
        lemma_decimal_len(n / 10);
    }
}

fn digit_str(d: u8) -> (s: &'static str)
    requires
        d < 10,
    ensures
        s@ == seq![digit_char(d as nat)],
{
    proof {
        reveal_strlit("0");
        reveal_strlit("1");
        reveal_strlit("2");
        reveal_strlit("3");
        reveal_strlit("4");
        reveal_strlit("5");
        reveal_strlit("6");
        reveal_strlit("7");
        reveal_strlit("8");
        reveal_strlit("9");
    }
    let s = match d {
        0 => "0",
        1 => "1",
        2 => "2",
        3 => "3",
        4 => "4",
        5 => "5",
        6 => "6",
        7 => "7",
        8 => "8",
        _ => "9",
    };
    assert(s@ =~= seq![digit_char(d as nat)]);
    s
}

/// The digits of `n` from the least significant one up.
spec fn digits_rev(n: nat) -> Seq<u8>
    decreases n,
{
    if n < 10 {
        seq![n as u8]
    } else {
        seq![(n % 10) as u8] + digits_rev(n / 10)
    }
}

/// The numeral spelled by the first `k` entries of a least-significant-first
/// digit list, read from the back.
spec fn spell(digits: Seq<u8>, k: int) -> Seq<char>
    decreases k,
{
    if k <= 0 {
        Seq::<char>::empty()
    } else {
        seq![digit_char(digits[k - 1] as nat)] + spell(digits, k - 1)
    }
}

proof fn lemma_spell_snoc(d: Seq<u8>, k: int)
    requires
        1 <= k <= d.len(),
    ensures
        spell(d, k) == spell(d.subrange(1, d.len() as int), k - 1).push(digit_char(d[0] as nat)),
    decreases k,
{
    let tail = d.subrange(1, d.len() as int);
    if k == 1 {
        assert(spell(d, 0) =~= Seq::<char>::empty());
        assert(spell(tail, 0) =~= Seq::<char>::empty());
        assert(spell(d, 1) =~= seq![digit_char(d[0] as nat)]);
        assert(spell(tail, 0).push(digit_char(d[0] as nat)) =~= seq![digit_char(d[0] as nat)]);
    } else {
        lemma_spell_snoc(d, k - 1);
        assert(tail[k - 2] == d[k - 1]);
        assert(spell(d, k) =~= seq![digit_char(d[k - 1] as nat)] + spell(d, k - 1));
        assert(spell(tail, k - 1) =~= seq![digit_char(tail[k - 2] as nat)] + spell(tail, k - 2));
        assert(spell(d, k) =~= spell(tail, k - 1).push(digit_char(d[0] as nat)));
    }
}

proof fn lemma_digits_spell(n: nat)
    ensures
        digits_rev(n).len() >= 1,
        forall|i: int| 0 <= i < digits_rev(n).len() ==> #[trigger] digits_rev(n)[i] < 10,
        spell(digits_rev(n), digits_rev(n).len() as int) == decimal(n),
    decreases n,
{
    let d = digits_rev(n);
    if n < 10 {
        assert(spell(d, 0) =~= Seq::<char>::empty());
        assert(spell(d, 1) =~= seq![digit_char(n)]);
    } else {
        lemma_digits_spell(n / 10);
        let rest = digits_rev(n / 10);
        assert(d.subrange(1, d.len() as int) =~= rest);
        lemma_spell_snoc(d, d.len() as int);
    }
}

/// Appends the decimal numeral of `n` to `out`.
pub fn push_decimal(out: &mut String, n: usize)
    ensures
        final(out)@ == old(out)@ + decimal(n as nat),
{
    let mut digits: Vec<u8> = Vec::new();
    let mut rest: usize = n;
    proof {
        lemma_digits_spell(n as nat);
    }
    while rest >= 10
        invariant
            digits@ + digits_rev(rest as nat) == digits_rev(n as nat),
        decreases rest,
    {
        let d: u8 = (rest % 10) as u8;
        proof {
            assert(digits_rev(rest as nat) =~= seq![d] + digits_rev((rest / 10) as nat));
            assert(digits@.push(d) + digits_rev((rest / 10) as nat) =~= digits@ + digits_rev(
                rest as nat,
            ));
        }
        digits.push(d);
        rest = rest / 10;
    }
    proof {
        assert(digits_rev(rest as nat) =~= seq![rest as u8]);
        assert(digits@.push(rest as u8) =~= digits@ + digits_rev(rest as nat));
    }
    digits.push(rest as u8);
    assert(digits@ == digits_rev(n as nat));
    let mut k: usize = digits.len();
    let ghost total = digits@.len() as int;
    while k > 0
        invariant
            k <= digits@.len(),
            total == digits@.len(),
            forall|i: int| 0 <= i < digits@.len() ==> #[trigger] digits@[i] < 10,
            out@ + spell(digits@, k as int) == old(out)@ + spell(digits@, total),
        decreases k,
    {
        k -= 1;
        let piece = digit_str(digits[k]);
        proof {
            assert(spell(digits@, k + 1) =~= seq![digit_char(digits@[k as int] as nat)] + spell(
                digits@,
                k as int,
            ));
            assert((out@ + piece@) + spell(digits@, k as int) =~= out@ + spell(digits@, k + 1));
        }
        out.append(piece);
    }
    proof {
        assert(spell(digits@, 0) =~= Seq::<char>::empty());
        assert(out@ + spell(digits@, 0) =~= out@);
    }
}

/// The decimal numeral of `n` as a fresh string.
pub fn decimal_string(n: usize) -> (s: String)
    ensures
        s@ == decimal(n as nat),
{
    let mut s = String::new();
    push_decimal(&mut s, n);
    assert(Seq::<char>::empty() + decimal(n as nat) =~= decimal(n as nat));
    s
}

} // verus!
