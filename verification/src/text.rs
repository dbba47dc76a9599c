//! Character-level text helpers: decimal rendering of integers, substring
//! search and replacement. Every function here is specified over `Seq<char>`.
use vstd::prelude::*;

verus! {

/// `String::push` appends one character at the end of the string.
pub assume_specification[ String::push ](s: &mut String, ch: char)
    ensures
        final(s)@ == old(s)@.push(ch),
;

/// The character of a decimal digit `d < 10`.
pub open spec fn digit_char(d: nat) -> char {
    if d == 0 {
        '0'
    } else if d == 1 {
        '1'
    } else if d == 2 {
        '2'
    } else if d == 3 {
        '3'
    } else if d == 4 {
        '4'
    } else if d == 5 {
        '5'
    } else if d == 6 {
        '6'
    } else if d == 7 {
        '7'
    } else if d == 8 {
        '8'
    } else {
        '9'
    }
}

/// Decimal representation of a natural number, without leading zeros.
pub open spec fn dec_nat(n: nat) -> Seq<char>
    decreases n,
{
    if n < 10 {
        seq![digit_char(n)]
    } else {
        dec_nat(n / 10).push(digit_char(n % 10))
    }
}

/// Decimal representation of an integer, with a leading `-` when negative.
pub open spec fn dec_int(n: int) -> Seq<char> {
    if n < 0 {
        seq!['-'] + dec_nat((-n) as nat)
    } else {
        dec_nat(n as nat)
    }
}

fn digit(d: u64) -> (c: char)
    requires
        d < 10,
    ensures
        c == digit_char(d as nat),
{
    if d == 0 {
        '0'
    } else if d == 1 {
        '1'
    } else if d == 2 {
        '2'
    } else if d == 3 {
        '3'
    } else if d == 4 {
        '4'
    } else if d == 5 {
        '5'
    } else if d == 6 {
        '6'
    } else if d == 7 {
        '7'
    } else if d == 8 {
        '8'
    } else {
        '9'
    }
}

/// Appends the decimal digits of `n` to `s`.
pub fn push_dec(s: &mut String, n: u64)
    ensures
        final(s)@ == old(s)@ + dec_nat(n as nat),
    decreases n,
{
    if n >= 10 {
        push_dec(s, n / 10);
    }
    s.push(digit(n % 10));
    proof {
        if n >= 10 {
            assert(dec_nat(n as nat) == dec_nat((n / 10) as nat).push(digit_char((n % 10) as nat)));
        }
    }
}

/// Appends the decimal representation of a signed integer to `s`.
pub fn push_dec_signed(s: &mut String, n: i64)
    ensures
        final(s)@ == old(s)@ + dec_int(n as int),
{
    if n < 0 {
        s.push('-');
        let magnitude: u64 = (-(n as i128)) as u64;
        push_dec(s, magnitude);
    } else {
        push_dec(s, n as u64);
    }
}

/// The decimal representation of an unsigned integer, as `to_string` gives it.
pub fn u64_to_text(n: u64) -> (r: String)
    ensures
        r@ == dec_nat(n as nat),
{
    let mut s = String::new();
    push_dec(&mut s, n);
    s
}

/// The decimal representation of a signed integer, as `to_string` gives it.
pub fn i64_to_text(n: i64) -> (r: String)
    ensures
        r@ == dec_int(n as int),
{
    let mut s = String::new();
    push_dec_signed(&mut s, n);
    s
}

/// Appends every character of `t` to `s`.
pub fn push_str(s: &mut String, t: &str)
    ensures
        final(s)@ == old(s)@ + t@,
{
    s.append(t);
}


/// The characters of `s`, one per element.
pub fn chars_of(s: &str) -> (v: Vec<char>)
    ensures
        v@ == s@,
        s@.len() <= usize::MAX,
{
    let n = s.unicode_len();
    let mut v: Vec<char> = Vec::new();
    let mut i: usize = 0;
    while i < n
        invariant
            n == s@.len(),
            i <= n,
            v@ == s@.take(i as int),
        decreases n - i,
    {
        v.push(s.get_char(i));
        i = i + 1;
        assert(v@ =~= s@.take(i as int));
    }
    assert(v@ =~= s@);
    v
}

/// Whether `pat` occurs in `s` starting at position `i`.
pub open spec fn occurs_at(s: Seq<char>, pat: Seq<char>, i: int) -> bool {
    0 <= i && i + pat.len() <= s.len() && s.subrange(i, i + pat.len()) == pat
}

/// Whether `pat` occurs anywhere in `s` (the empty pattern occurs everywhere).
pub open spec fn contains_text(s: Seq<char>, pat: Seq<char>) -> bool {
    exists|i: int| occurs_at(s, pat, i)
}

/// The position of the first occurrence of `pat` in `s`, if any; what it is
/// on given texts follows from `lemma_first_occurrence_at` and
/// `lemma_first_occurrence_minimal`.
pub closed spec fn first_occurrence(s: Seq<char>, pat: Seq<char>) -> Option<int> {
    if contains_text(s, pat) {
        Some(choose|i: int| occurs_at(s, pat, i) && forall|j: int| 0 <= j < i ==> !occurs_at(s, pat, j))
    } else {
        None
    }
}

/// Every occurrence of `pat` in `s`, scanned from left to right without
/// overlap, replaced by `rep`. Defined for a non-empty pattern.
pub open spec fn replace_all(s: Seq<char>, pat: Seq<char>, rep: Seq<char>) -> Seq<char>
    decreases s.len(),
{
    if s.len() == 0 || pat.len() == 0 {
        s
    } else if occurs_at(s, pat, 0) {
        rep + replace_all(s.skip(pat.len() as int), pat, rep)
    } else {
        seq![s[0]] + replace_all(s.skip(1), pat, rep)
    }
}

fn matches_at(s: &Vec<char>, pat: &Vec<char>, i: usize) -> (b: bool)
    ensures
        b == occurs_at(s@, pat@, i as int),
{
    let slen = s.len();
    let plen = pat.len();
    if i > slen || plen > slen - i {
        return false;
    }
    let mut j: usize = 0;
    while j < plen
        invariant
            slen == s@.len(),
            plen == pat@.len(),
            i + plen <= slen,
            j <= pat@.len(),
            forall|k: int| 0 <= k < j ==> s@[i + k] == pat@[k],
        decreases pat@.len() - j,
    {
        if s[i + j] != pat[j] {
            assert(s@.subrange(i as int, i + pat@.len())[j as int] != pat@[j as int]);
            return false;
        }
        j = j + 1;
    }
    assert(s@.subrange(i as int, i + pat@.len()) =~= pat@);
    true
}

/// An occurrence with none before it is the first occurrence.
pub proof fn lemma_first_occurrence_at(s: Seq<char>, pat: Seq<char>, i: int)
    requires
        occurs_at(s, pat, i),
        forall|j: int| 0 <= j < i ==> !occurs_at(s, pat, j),
    ensures
        first_occurrence(s, pat) == Some(i),
{
    assert(contains_text(s, pat));
    let c = choose|k: int| occurs_at(s, pat, k) && forall|j: int| 0 <= j < k ==> !occurs_at(s, pat, j);
    assert(occurs_at(s, pat, c));
    if c < i {
        assert(!occurs_at(s, pat, c));
    }
    if c > i {
        assert(!occurs_at(s, pat, i));
    }
}

/// The first occurrence is an occurrence with none before it; where there is
/// none, the pattern occurs nowhere.
pub proof fn lemma_first_occurrence_minimal(s: Seq<char>, pat: Seq<char>)
    ensures
        match first_occurrence(s, pat) {
            Some(i) => occurs_at(s, pat, i) && forall|j: int| 0 <= j < i ==> !occurs_at(s, pat, j),
            None => forall|k: int| !occurs_at(s, pat, k),
        },
{
    if contains_text(s, pat) {
        let w = choose|k: int| occurs_at(s, pat, k);
        lemma_earliest_exists(s, pat, w);
    }
}

/// From any occurrence at `w` there is an earliest one.
proof fn lemma_earliest_exists(s: Seq<char>, pat: Seq<char>, w: int)
    requires
        occurs_at(s, pat, w),
    ensures
        exists|i: int| occurs_at(s, pat, i) && forall|j: int| 0 <= j < i ==> !occurs_at(s, pat, j),
    decreases w,
{
    if exists|j: int| 0 <= j < w && occurs_at(s, pat, j) {
        let j = choose|j: int| 0 <= j < w && occurs_at(s, pat, j);
        lemma_earliest_exists(s, pat, j);
    } else {
        assert(occurs_at(s, pat, w) && forall|j: int| 0 <= j < w ==> !occurs_at(s, pat, j));
    }
}

proof fn lemma_no_occurrence(s: Seq<char>, pat: Seq<char>)
    requires
        forall|j: int| 0 <= j <= s.len() ==> !occurs_at(s, pat, j),
    ensures
        first_occurrence(s, pat) is None,
{
    assert forall|k: int| !occurs_at(s, pat, k) by {
        if 0 <= k <= s.len() {
            assert(!occurs_at(s, pat, k));
        }
    }
}

/// The character position of the first occurrence of `pat` in `s`.
pub fn find_text(s: &str, pat: &str) -> (r: Option<usize>)
    ensures
        r matches Some(i) ==> first_occurrence(s@, pat@) == Some(i as int),
        r matches Some(i) ==> occurs_at(s@, pat@, i as int),
        s@.len() <= usize::MAX,
        r is None <==> first_occurrence(s@, pat@) is None,
{
    let sv = chars_of(s);
    let pv = chars_of(pat);
    let mut i: usize = 0;
    let n = sv.len();
    loop
        invariant
            sv@ == s@,
            pv@ == pat@,
            n == sv@.len(),
            i <= n,
            forall|j: int| 0 <= j < i ==> !occurs_at(s@, pat@, j),
        decreases n - i,
    {
        if matches_at(&sv, &pv, i) {
            proof {
                lemma_first_occurrence_at(s@, pat@, i as int);
            }
            return Some(i);
        }
        if i == n {
            proof {
                lemma_no_occurrence(s@, pat@);
            }
            return None;
        }
        i = i + 1;
    }
}

/// Whether `pat` occurs in `s`, as `str::contains` answers it.
pub fn contains_str(s: &str, pat: &str) -> (b: bool)
    ensures
        b == contains_text(s@, pat@),
{
    match find_text(s, pat) {
        Some(_) => true,
        None => false,
    }
}

/// `s` with every non-overlapping occurrence of `pat`, from the left,
/// replaced by `rep`, as `str::replace` does it.
pub fn replace_text(s: &str, pat: &str, rep: &str) -> (r: String)
    requires
        pat@.len() > 0,
    ensures
        r@ == replace_all(s@, pat@, rep@),
{
    let sv = chars_of(s);
    let pv = chars_of(pat);
    let mut out = String::new();
    let mut i: usize = 0;
    assert(s@.skip(0) =~= s@);
    while i < sv.len()
        invariant
            sv@ == s@,
            pv@ == pat@,
            pat@.len() > 0,
            i <= sv@.len(),
            replace_all(s@, pat@, rep@) == out@ + replace_all(s@.skip(i as int), pat@, rep@),
        decreases sv@.len() - i,
    {
        let ghost rest = s@.skip(i as int);
        if matches_at(&sv, &pv, i) {
            assert(rest.subrange(0, pat@.len() as int) =~= s@.subrange(i as int, i + pat@.len()));
            assert(rest.skip(pat@.len() as int) =~= s@.skip(i + pat@.len()));
            push_str(&mut out, rep);
            i = i + pv.len();
        } else {
            assert(!occurs_at(rest, pat@, 0)) by {
                if occurs_at(rest, pat@, 0) {
                    assert(rest.subrange(0, pat@.len() as int) =~= s@.subrange(i as int, i + pat@.len()));
                }
            }
            assert(rest.skip(1) =~= s@.skip(i + 1));
            out.push(sv[i]);
            assert(seq![rest[0]] =~= seq![s@[i as int]]);
            i = i + 1;
        }
        assert(replace_all(s@, pat@, rep@) =~= out@ + replace_all(s@.skip(i as int), pat@, rep@));
    }
    assert(s@.skip(i as int) =~= Seq::<char>::empty());
    assert(out@ =~= out@ + replace_all(s@.skip(i as int), pat@, rep@));
    out
}

/// The characters of `s` from position `start` on.
pub fn suffix_from(s: &str, start: usize) -> (r: String)
    requires
        start <= s@.len(),
    ensures
        r@ == s@.skip(start as int),
{
    let v = chars_of(s);
    let mut out = String::new();
    let mut i: usize = start;
    while i < v.len()
        invariant
            v@ == s@,
            start <= i <= v@.len(),
            out@ == s@.subrange(start as int, i as int),
        decreases v@.len() - i,
    {
        out.push(v[i]);
        i = i + 1;
        assert(out@ =~= s@.subrange(start as int, i as int));
    }
    assert(out@ =~= s@.skip(start as int));
    out
}

/// Whether two texts hold the same characters.
pub fn same_text(a: &str, b: &str) -> (r: bool)
    ensures
        r == (a@ == b@),
{
    let av = chars_of(a);
    let bv = chars_of(b);
    if av.len() != bv.len() {
        return false;
    }
    let mut i: usize = 0;
    while i < av.len()
        invariant
            av@ == a@,
            bv@ == b@,
            av@.len() == bv@.len(),
            i <= av@.len(),
            forall|k: int| 0 <= k < i ==> av@[k] == bv@[k],
        decreases av@.len() - i,
    {
        if av[i] != bv[i] {
            return false;
        }
        i = i + 1;
    }
    assert(av@ =~= bv@);
    true
}

/// Replacing in `a + b` only touches `b` when no occurrence of the pattern
/// starts inside `a`.
pub proof fn lemma_replace_all_untouched_prefix(a: Seq<char>, b: Seq<char>, pat: Seq<char>, rep: Seq<char>)
    requires
        pat.len() > 0,
        forall|i: int| 0 <= i < a.len() ==> !occurs_at(a + b, pat, i),
    ensures
        replace_all(a + b, pat, rep) == a + replace_all(b, pat, rep),
    decreases a.len(),
{
    if a.len() == 0 {
        assert(a + b =~= b);
        assert(a + replace_all(b, pat, rep) =~= replace_all(b, pat, rep));
    } else {
        assert(!occurs_at(a + b, pat, 0));
        let t = a.skip(1);
        assert((a + b).skip(1) =~= t + b);
        assert forall|i: int| 0 <= i < t.len() implies !occurs_at(t + b, pat, i) by {
            assert(!occurs_at(a + b, pat, i + 1));
            if occurs_at(t + b, pat, i) {
                assert((a + b).subrange(i + 1, i + 1 + pat.len()) =~= (t + b).subrange(i, i + pat.len()));
            }
        }
        lemma_replace_all_untouched_prefix(t, b, pat, rep);
        assert(seq![(a + b)[0]] + (t + replace_all(b, pat, rep)) =~= a + replace_all(b, pat, rep));
    }
}

/// The pattern itself is replaced by the replacement.
pub proof fn lemma_replace_all_pattern(pat: Seq<char>, rep: Seq<char>)
    requires
        pat.len() > 0,
    ensures
        replace_all(pat, pat, rep) == rep,
{
    assert(pat.subrange(0, pat.len() as int) =~= pat);
    assert(occurs_at(pat, pat, 0));
    assert(pat.skip(pat.len() as int) =~= Seq::<char>::empty());
    assert(replace_all(Seq::<char>::empty(), pat, rep) == Seq::<char>::empty());
    assert(rep + Seq::<char>::empty() =~= rep);
}

/// Decimal digits are digits: no brace among them.
pub proof fn lemma_dec_nat_no_brace(n: nat)
    ensures
        forall|k: int| 0 <= k < dec_nat(n).len() ==> #[trigger] dec_nat(n)[k] != '{' && dec_nat(n)[k] != '}',
    decreases n,
{
    if n >= 10 {
        lemma_dec_nat_no_brace(n / 10);
        let s = dec_nat(n);
        assert(s == dec_nat(n / 10).push(digit_char(n % 10)));
        assert forall|k: int| 0 <= k < s.len() implies #[trigger] s[k] != '{' && s[k] != '}' by {
            if k < s.len() - 1 {
                assert(s[k] == dec_nat(n / 10)[k]);
            }
        }
    }
}

/// Signed decimal numbers hold no brace either.
pub proof fn lemma_dec_int_no_brace(n: int)
    ensures
        forall|k: int| 0 <= k < dec_int(n).len() ==> #[trigger] dec_int(n)[k] != '{' && dec_int(n)[k] != '}',
{
    if n < 0 {
        lemma_dec_nat_no_brace((-n) as nat);
        let s = dec_int(n);
        assert forall|k: int| 0 <= k < s.len() implies #[trigger] s[k] != '{' && s[k] != '}' by {
            if k > 0 {
                assert(s[k] == dec_nat((-n) as nat)[k - 1]);
            }
        }
    } else {
        lemma_dec_nat_no_brace(n as nat);
    }
}

} // verus!
