use vstd::prelude::*;

verus! {

/// The character of a decimal digit.
pub open spec fn digit_char(d: nat) -> char {
    if d == 0 {
        '0'
    } else if d == 1 {
        '1'
    } else if d == 2 {
        '2'
    } else if d == 3 {
        '3'
    } else if d == 4 {
        '4'
    } else if d == 5 {
        '5'
    } else if d == 6 {
        '6'
    } else if d == 7 {
        '7'
    } else if d == 8 {
        '8'
    } else {
        '9'
    }
}

/// The decimal notation of `n`, without sign or leading zeros.
pub open spec fn decimal(n: nat) -> Seq<char>
    decreases n,
{
    if n < 10 {
        seq![digit_char(n)]
    } else {
        decimal(n / 10).push(digit_char(n % 10))
    }
}

/// The upper-case form of an ASCII letter; every other character is kept.
pub open spec fn ascii_upper(c: char) -> char {
    if 'a' <= c && c <= 'z' {
        ((c as int) - 32) as char
    } else {
        c
    }
}

/// A text with each ASCII letter made upper case.
pub open spec fn upper(s: Seq<char>) -> Seq<char> {
    s.map_values(|c: char| ascii_upper(c))
}

/// A text as written, or its upper-case form.
pub open spec fn cased(s: Seq<char>, up: bool) -> Seq<char> {
    if up {
        upper(s)
    } else {
        s
    }
}

/// Whether no character of the text is a lower-case ASCII letter.
pub open spec fn has_no_lower(s: Seq<char>) -> bool {
    forall|i: int| 0 <= i < s.len() ==> !('a' <= #[trigger] s[i] && s[i] <= 'z')
}

/// Upper-casing distributes over concatenation.
pub proof fn lemma_upper_concat(a: Seq<char>, b: Seq<char>)
    ensures
        upper(a + b) == upper(a) + upper(b),
{
    assert(upper(a + b) =~= upper(a) + upper(b));
}

/// A text with no lower-case letter is its own upper-case form.
pub proof fn lemma_upper_id(s: Seq<char>)
    requires
        has_no_lower(s),
    ensures
        upper(s) == s,
{
    assert(upper(s) =~= s);
}

/// Decimal notation holds digits only.
pub proof fn lemma_decimal_no_lower(n: nat)
    ensures
        has_no_lower(decimal(n)),
    decreases n,
{
    if n >= 10 {
        lemma_decimal_no_lower(n / 10);
    }
}

/// Upper-casing a letter followed by a number upper-cases the letter alone.
pub proof fn lemma_upper_letter_decimal(c: char, n: nat)
    ensures
        upper(seq![c] + decimal(n)) == seq![ascii_upper(c)] + decimal(n),
{
    lemma_upper_concat(seq![c], decimal(n));
    lemma_decimal_no_lower(n);
    lemma_upper_id(decimal(n));
    assert(upper(seq![c]) =~= seq![ascii_upper(c)]);
}

/// Casing distributes over concatenation.
pub proof fn lemma_cased_concat(a: Seq<char>, b: Seq<char>, up: bool)
    ensures
        cased(a + b, up) == cased(a, up) + cased(b, up),
{
    lemma_upper_concat(a, b);
}

/// Casing leaves decimal notation unchanged.
pub proof fn lemma_cased_decimal(n: nat, up: bool)
    ensures
        cased(decimal(n), up) == decimal(n),
{
    lemma_decimal_no_lower(n);
    lemma_upper_id(decimal(n));
}

/// Whether a character is a decimal digit.
pub open spec fn is_digit(c: char) -> bool {
    '0' <= c && c <= '9'
}

/// Decimal notation is made of digits only, and is never empty.
pub proof fn lemma_decimal_digits(n: nat)
    ensures
        decimal(n).len() >= 1,
        n >= 10 ==> decimal(n).len() >= 2,
        forall|i: int| 0 <= i < decimal(n).len() ==> is_digit(#[trigger] decimal(n)[i]),
    decreases n,
{
    if n >= 10 {
        lemma_decimal_digits(n / 10);
    }
}

/// Distinct numbers have distinct decimal notations.
pub proof fn lemma_decimal_injective(m: nat, n: nat)
    requires
        decimal(m) == decimal(n),
    ensures
        m == n,
    decreases m,
{
    lemma_decimal_digits(m);
    lemma_decimal_digits(n);
    if m >= 10 && n >= 10 {
        let dm = decimal(m);
        let dn = decimal(n);
        assert(dm.last() == digit_char(m % 10));
        assert(dn.last() == digit_char(n % 10));
        assert(m % 10 == n % 10);
        assert(dm.drop_last() =~= decimal(m / 10));
        assert(dn.drop_last() =~= decimal(n / 10));
        lemma_decimal_injective(m / 10, n / 10);
    } else if m < 10 && n < 10 {
        assert(decimal(m)[0] == digit_char(m));
        assert(decimal(n)[0] == digit_char(n));
    } else {
        assert(decimal(m).len() != decimal(n).len());
    }
}

/// Two texts that each join a part free of `sep`, the separator `sep`, and
/// a rest, are equal only when the parts and the rests are equal.
pub proof fn lemma_split_at_separator(a: Seq<char>, d1: Seq<char>, b: Seq<char>, d2: Seq<char>, sep: char)
    requires
        a + seq![sep] + d1 == b + seq![sep] + d2,
        forall|i: int| 0 <= i < a.len() ==> a[i] != sep,
        forall|i: int| 0 <= i < b.len() ==> b[i] != sep,
    ensures
        a == b,
        d1 == d2,
{
    let s = a + seq![sep] + d1;
    let t = b + seq![sep] + d2;
    if a.len() < b.len() {
        assert(s[a.len() as int] == sep);
        assert(t[a.len() as int] == b[a.len() as int]);
    } else if b.len() < a.len() {
        assert(t[b.len() as int] == sep);
        assert(s[b.len() as int] == a[b.len() as int]);
    }
    assert(a =~= s.subrange(0, a.len() as int));
    assert(b =~= t.subrange(0, b.len() as int));
    assert(d1 =~= s.subrange(a.len() as int + 1, s.len() as int));
    assert(d2 =~= t.subrange(b.len() as int + 1, t.len() as int));
}

/// A text between a fixed prefix and a fixed suffix is fixed by the whole.
pub proof fn lemma_strip_affixes(p: Seq<char>, d1: Seq<char>, d2: Seq<char>, q: Seq<char>)
    requires
        p + d1 + q == p + d2 + q,
    ensures
        d1 == d2,
{
    let s = p + d1 + q;
    let t = p + d2 + q;
    assert(s.len() == t.len());
    assert(d1 =~= s.subrange(p.len() as int, p.len() as int + d1.len()));
    assert(d2 =~= t.subrange(p.len() as int, p.len() as int + d2.len()));
}

/// Append the decimal notation of `n` to `s`.
pub fn push_decimal(s: &mut String, n: u64)
    ensures
        final(s)@ == old(s)@ + decimal(n as nat),
    decreases n,
{
    if n >= 10 {
        push_decimal(s, n / 10);
    }
    let d = n % 10;
    if d == 0 {
        proof { reveal_strlit("0"); }
        s.append("0");
    } else if d == 1 {
        proof { reveal_strlit("1"); }
        s.append("1");
    } else if d == 2 {
        proof { reveal_strlit("2"); }
        s.append("2");
    } else if d == 3 {
        proof { reveal_strlit("3"); }
        s.append("3");
    } else if d == 4 {
        proof { reveal_strlit("4"); }
        s.append("4");
    } else if d == 5 {
        proof { reveal_strlit("5"); }
        s.append("5");
    } else if d == 6 {
        proof { reveal_strlit("6"); }
        s.append("6");
    } else if d == 7 {
        proof { reveal_strlit("7"); }
        s.append("7");
    } else if d == 8 {
        proof { reveal_strlit("8"); }
        s.append("8");
    } else {
        proof { reveal_strlit("9"); }
        s.append("9");
    }
    assert(s@ =~= old(s)@ + decimal(n as nat));
}

} // verus!
