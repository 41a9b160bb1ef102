//! Character-level text helpers: decimal rendering and the like.
use vstd::prelude::*;

verus! {

/// `String::push` appends one character at the end of the string
/// (std documentation: "Appends the given char to the end of this String").
pub assume_specification[ String::push ](string: &mut String, ch: char)
    ensures
        final(string)@ == old(string)@.push(ch),
;

/// A string with the characters of `s`.
pub fn owned(s: &str) -> (r: String)
    ensures
        r@ == s@,
{
    s.to_owned()
}

/// A copy of an optional string.
pub fn clone_opt_text(o: &Option<String>) -> (res: Option<String>)
    ensures
        res == *o,
{
    match o {
        Some(s) => Some(s.clone()),
        None => None,
    }
}

/// A copy of a list of strings.
pub fn clone_texts(v: &Vec<String>) -> (res: Vec<String>)
    ensures
        res@ == v@,
{
    let mut res: Vec<String> = Vec::new();
    let n = v.len();
    for i in 0..n
        invariant
            n == v@.len(),
            res@ == v@.take(i as int),
    {
        res.push(v[i].clone());
        assert(v@.take(i + 1) =~= v@.take(i as int).push(v@[i as int]));
    }
    assert(v@.take(n as int) =~= v@);
    res
}

/// The character of a decimal digit `d` (`d < 10`).
pub open spec fn digit_char(d: nat) -> char {
    (48 + d) as char
}

/// The decimal rendering of a natural number, most significant digit first, no leading zeros.
pub open spec fn decimal(n: nat) -> Seq<char>
    decreases n,
{
    if n < 10 {
        seq![digit_char(n)]
    } else {
        decimal(n / 10).push(digit_char(n % 10))
    }
}

fn digit(d: u64) -> (c: char)
    requires
        d < 10,
    ensures
        c == digit_char(d as nat),
{
    let b: u8 = 48 + d as u8;
    b as char
}

/// Appends the decimal rendering of `n` to `out`.
pub fn push_decimal(out: &mut String, n: u64)
    ensures
        final(out)@ == old(out)@ + decimal(n as nat),
    decreases n,
{
    if n >= 10 {
        push_decimal(out, n / 10);
    }
    out.push(digit(n % 10));
    assert(old(out)@ + decimal(n as nat) =~= final(out)@) by {
        if n >= 10 {
            assert(decimal(n as nat) == decimal((n / 10) as nat).push(digit_char((n % 10) as nat)));
        }
    };
}


/// The characters of `s`, in order.
pub fn chars_of(s: &str) -> (v: Vec<char>)
    ensures
        v@ == s@,
{
    let mut v: Vec<char> = Vec::new();
    for c in it: s.chars()
        invariant
            v@ == it.seq().take(it.index() as int),
            it.seq() == s@,
    {
        v.push(c);
    }
    v
}


/// `parts` joined with `sep` between consecutive parts.
pub open spec fn join(parts: Seq<Seq<char>>, sep: Seq<char>) -> Seq<char>
    decreases parts.len(),
{
    if parts.len() == 0 {
        Seq::empty()
    } else if parts.len() == 1 {
        parts[0]
    } else {
        join(parts.drop_last(), sep) + sep + parts.last()
    }
}

/// The decimal rendering of an integer: a `-` before the digits of a negative one.
pub open spec fn decimal_signed(n: int) -> Seq<char> {
    if n < 0 {
        seq!['-'] + decimal((-n) as nat)
    } else {
        decimal(n as nat)
    }
}

/// Appends the decimal rendering of `n` to `out`.
pub fn push_decimal_i64(out: &mut String, n: i64)
    ensures
        final(out)@ == old(out)@ + decimal_signed(n as int),
{
    if n < 0 {
        out.push('-');
        let magnitude: u64 = (-(n as i128)) as u64;
        push_decimal(out, magnitude);
        assert(final(out)@ =~= old(out)@ + decimal_signed(n as int));
    } else {
        push_decimal(out, n as u64);
    }
}


/// `s` with every occurrence of `pat` replaced by `rep`, matches taken left to right
/// without overlap (as `str::replace` does for a non-empty pattern).
pub open spec fn replace_all(s: Seq<char>, pat: Seq<char>, rep: Seq<char>) -> Seq<char>
    decreases s.len(),
{
    if s.len() == 0 {
        Seq::empty()
    } else if 0 < pat.len() <= s.len() && s.take(pat.len() as int) == pat {
        rep + replace_all(s.skip(pat.len() as int), pat, rep)
    } else {
        seq![s[0]] + replace_all(s.skip(1), pat, rep)
    }
}

/// Whether `pat` occurs in `s` (the empty pattern occurs everywhere).
pub open spec fn occurs_in(s: Seq<char>, pat: Seq<char>) -> bool {
    exists|i: int| 0 <= i <= s.len() - pat.len() && #[trigger] s.subrange(i, i + pat.len()) == pat
}

/// Whether `pat` occurs in `s` at index `at`.
fn matches_at(s: &Vec<char>, at: usize, pat: &Vec<char>) -> (r: bool)
    requires
        at + pat@.len() <= s@.len(),
    ensures
        r == (s@.subrange(at as int, at + pat@.len()) == pat@),
{
    let m = pat.len();
    let n = s.len();
    let mut k: usize = 0;
    while k < m
        invariant
            m == pat@.len(),
            n == s@.len(),
            at + m <= n,
            k <= m,
            forall|j: int| 0 <= j < k ==> s@[at + j] == pat@[j],
        decreases m - k,
    {
        if s[at + k] != pat[k] {
            assert(s@.subrange(at as int, at + m)[k as int] != pat@[k as int]);
            return false;
        }
        k = k + 1;
    }
    assert(s@.subrange(at as int, at + m) =~= pat@);
    true
}

/// The string made of the given characters.
pub fn string_of(chars: &Vec<char>) -> (s: String)
    ensures
        s@ == chars@,
{
    let mut s = String::new();
    let n = chars.len();
    for i in 0..n
        invariant
            n == chars@.len(),
            s@ == chars@.take(i as int),
    {
        s.push(chars[i]);
        assert(chars@.take(i + 1) =~= chars@.take(i as int).push(chars@[i as int]));
    }
    assert(chars@.take(n as int) =~= chars@);
    s
}

/// `s` with every occurrence of the non-empty `pat` replaced by `rep`.
pub fn replace(s: &str, pat: &str, rep: &str) -> (res: String)
    requires
        pat@.len() > 0,
    ensures
        res@ == replace_all(s@, pat@, rep@),
{
    let sv = chars_of(s);
    let pv = chars_of(pat);
    let n = sv.len();
    let m = pv.len();
    let mut out = String::new();
    let mut i: usize = 0;
    assert(sv@.skip(0) =~= sv@);
    while i < n
        invariant
            n == sv@.len(),
            m == pv@.len(),
            m > 0,
            sv@ == s@,
            pv@ == pat@,
            i <= n,
            out@ + replace_all(sv@.skip(i as int), pv@, rep@) == replace_all(s@, pat@, rep@),
        decreases n - i,
    {
        let ghost rest = sv@.skip(i as int);
        if m <= n - i && matches_at(&sv, i, &pv) {
            assert(rest.take(m as int) =~= sv@.subrange(i as int, i + m));
            assert(rest.skip(m as int) =~= sv@.skip(i + m));
            out.append(rep);
            i = i + m;
        } else {
            if m <= n - i {
                assert(rest.take(m as int) =~= sv@.subrange(i as int, i + m));
            }
            assert(rest.skip(1) =~= sv@.skip(i + 1));
            assert(rest[0] == sv@[i as int]);
            out.push(sv[i]);
            i = i + 1;
        }
    }
    assert(sv@.skip(n as int) =~= Seq::<char>::empty());
    out
}

/// Whether `pat` occurs in `s`.
pub fn contains(s: &str, pat: &str) -> (r: bool)
    ensures
        r == occurs_in(s@, pat@),
{
    let sv = chars_of(s);
    let pv = chars_of(pat);
    let n = sv.len();
    let m = pv.len();
    if m > n {
        return false;
    }
    let mut i: usize = 0;
    loop
        invariant
            n == sv@.len(),
            m == pv@.len(),
            m <= n,
            sv@ == s@,
            pv@ == pat@,
            i <= n - m,
            forall|j: int| 0 <= j < i ==> #[trigger] sv@.subrange(j, j + m) != pv@,
        decreases n - m - i,
    {
        if matches_at(&sv, i, &pv) {
            return true;
        }
        if i == n - m {
            return false;
        }
        i = i + 1;
    }
}

/// Whether two strings have the same characters.
pub fn same_text(a: &str, b: &str) -> (r: bool)
    ensures
        r == (a@ == b@),
{
    let av = chars_of(a);
    let bv = chars_of(b);
    if av.len() != bv.len() {
        return false;
    }
    let r = matches_at(&av, 0, &bv);
    assert(av@.subrange(0, av@.len() as int) =~= av@);
    r
}

/// The decimal rendering of `n`.
pub fn decimal_text(n: u64) -> (s: String)
    ensures
        s@ == decimal(n as nat),
{
    let mut s = String::new();
    push_decimal(&mut s, n);
    s
}


/// The strings of `parts` joined with `sep` between consecutive ones.
pub fn join_texts(parts: &Vec<String>, sep: &str) -> (res: String)
    ensures
        res@ == join(parts@.map_values(|p: String| p@), sep@),
{
    let ghost pv = parts@.map_values(|p: String| p@);
    let mut res = String::new();
    let n = parts.len();
    for i in 0..n
        invariant
            n == parts@.len(),
            pv == parts@.map_values(|p: String| p@),
            res@ == join(pv.take(i as int), sep@),
    {
        if i > 0 {
            res.append(sep);
        }
        res.append(parts[i].as_str());
        assert(pv.take(i + 1).drop_last() =~= pv.take(i as int));
        if i == 0 {
            assert(pv.take(1) =~= seq![pv[0]]);
        }
    }
    assert(pv.take(n as int) =~= pv);
    res
}

} // verus!
verus! {

/// Replacing a pattern that does not occur leaves the text as it is: a template without
/// placeholders is sent as written.
pub proof fn law_replace_without_match(s: Seq<char>, pat: Seq<char>, rep: Seq<char>)
    requires
        pat.len() > 0,
        !occurs_in(s, pat),
    ensures
        replace_all(s, pat, rep) == s,
    decreases s.len(),
{
    if s.len() > 0 {
        let rest = s.skip(1);
        if pat.len() <= s.len() {
            assert(s.subrange(0int, 0int + pat.len()) != pat);
            assert(s.take(pat.len() as int) =~= s.subrange(0int, 0int + pat.len()));
        }
        assert(!occurs_in(rest, pat)) by {
            if occurs_in(rest, pat) {
                let i = choose|i: int| 0 <= i <= rest.len() - pat.len() && #[trigger] rest.subrange(i, i + pat.len()) == pat;
                assert(s.subrange(i + 1, i + 1 + pat.len()) =~= rest.subrange(i, i + pat.len()));
            }
        }
        law_replace_without_match(rest, pat, rep);
        assert(seq![s[0]] + rest =~= s);
    } else {
        assert(s =~= Seq::<char>::empty());
    }
}


/// Whether `s` holds no `{`.
pub open spec fn no_brace(s: Seq<char>) -> bool {
    forall|i: int| 0 <= i < s.len() ==> #[trigger] s[i] != '{'
}

/// Whether `w` is a placeholder: `{`, a name holding neither brace, then `}`.
pub open spec fn is_placeholder(w: Seq<char>) -> bool {
    &&& w.len() >= 2
    &&& w[0] == '{'
    &&& w[w.len() - 1] == '}'
    &&& forall|i: int| 0 < i < w.len() - 1 ==> #[trigger] w[i] != '{' && w[i] != '}'
}

/// Replacing a pattern that starts with `{` leaves a text without `{` as it is.
pub proof fn lemma_replace_in_brace_free(s: Seq<char>, pat: Seq<char>, rep: Seq<char>)
    requires
        pat.len() > 0,
        pat[0] == '{',
        no_brace(s),
    ensures
        replace_all(s, pat, rep) == s,
{
    assert(!occurs_in(s, pat)) by {
        if occurs_in(s, pat) {
            let i = choose|i: int| 0 <= i <= s.len() - pat.len() && #[trigger] s.subrange(i, i + pat.len()) == pat;
            assert(s.subrange(i, i + pat.len())[0] == s[i]);
        }
    }
    law_replace_without_match(s, pat, rep);
}

/// Replacing a pattern that starts with `{` passes over a leading text without `{`.
pub proof fn lemma_replace_after_brace_free(a: Seq<char>, b: Seq<char>, pat: Seq<char>, rep: Seq<char>)
    requires
        pat.len() > 0,
        pat[0] == '{',
        no_brace(a),
    ensures
        replace_all(a + b, pat, rep) == a + replace_all(b, pat, rep),
    decreases a.len(),
{
    if a.len() > 0 {
        let s = a + b;
        assert(s[0] == a[0]);
        if pat.len() <= s.len() {
            assert(s.take(pat.len() as int)[0] == a[0]);
        }
        let rest = a.skip(1);
        assert(s.skip(1) =~= rest + b);
        lemma_replace_after_brace_free(rest, b, pat, rep);
        assert(seq![a[0]] + rest =~= a);
        assert(seq![a[0]] + (rest + replace_all(b, pat, rep)) =~= a + replace_all(b, pat, rep));
    } else {
        assert(a + b =~= b);
        assert(a + replace_all(b, pat, rep) =~= replace_all(b, pat, rep));
    }
}

/// Replacing placeholder `pat` in `p`, placeholder `w`, `q` (neither `p` nor `q` holding
/// `{`): the placeholder becomes `rep` where it is `pat`, and stays otherwise.
pub proof fn lemma_replace_placeholder(p: Seq<char>, w: Seq<char>, q: Seq<char>, pat: Seq<char>, rep: Seq<char>)
    requires
        no_brace(p),
        no_brace(q),
        is_placeholder(w),
        is_placeholder(pat),
    ensures
        replace_all(p + w + q, pat, rep) == if pat == w {
            p + rep + q
        } else {
            p + w + q
        },
{
    let s = w + q;
    assert(p + w + q =~= p + s);
    lemma_replace_after_brace_free(p, s, pat, rep);
    let tail = s.skip(1);
    assert(no_brace(tail)) by {
        assert forall|i: int| 0 <= i < tail.len() implies #[trigger] tail[i] != '{' by {
            assert(tail[i] == s[i + 1]);
            if i + 1 < w.len() {
                assert(s[i + 1] == w[i + 1]);
            } else {
                assert(s[i + 1] == q[i + 1 - w.len()]);
            }
        }
    }
    if pat == w {
        assert(s.take(pat.len() as int) =~= w);
        assert(s.skip(pat.len() as int) =~= q);
        lemma_replace_in_brace_free(q, pat, rep);
        assert(p + (rep + q) =~= p + rep + q);
    } else {
        if pat.len() <= s.len() {
            assert(s.take(pat.len() as int) != pat) by {
                if s.take(pat.len() as int) == pat {
                    if pat.len() <= w.len() {
                        let k = pat.len() - 1;
                        assert(s[k] == pat[k]);
                        assert(s[k] == w[k]);
                        if pat.len() < w.len() {
                            assert(w[k] != '}');
                        } else {
                            assert(pat =~= w);
                        }
                    } else {
                        let k = w.len() - 1;
                        assert(s[k] == w[k]);
                        assert(s.take(pat.len() as int)[k] == pat[k]);
                    }
                }
            }
        }
        lemma_replace_in_brace_free(tail, pat, rep);
        assert(seq![s[0]] + tail =~= s);
        assert(p + s =~= p + w + q);
    }
}


/// A decimal rendering holds no `{`.
pub proof fn lemma_decimal_brace_free(n: nat)
    ensures
        no_brace(decimal(n)),
    decreases n,
{
    if n >= 10 {
        lemma_decimal_brace_free(n / 10);
    }
}

} // verus!
