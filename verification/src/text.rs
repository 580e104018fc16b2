//! Character-level string helpers with exact contracts.
use vstd::prelude::*;
use vstd::std_specs::iter::IteratorSpec;

verus! {

broadcast use vstd::string::group_string_axioms;

/// `p` is a prefix of `s`.
pub open spec fn starts_with(s: Seq<char>, p: Seq<char>) -> bool {
    p.len() <= s.len() && s.subrange(0, p.len() as int) == p
}

/// `p` is a suffix of `s`.
pub open spec fn ends_with(s: Seq<char>, p: Seq<char>) -> bool {
    p.len() <= s.len() && s.subrange(s.len() - p.len(), s.len() as int) == p
}

/// The characters of `s`, in order.
pub fn chars_of(s: &str) -> (v: Vec<char>)
    ensures
        v@ == s@,
{
    let mut v: Vec<char> = Vec::new();
    for c in it: s.chars()
        invariant
            it.seq() == s@,
            v@ == it.seq().take(it.index() as int),
    {
        v.push(c);
    }
    v
}

/// Whether the first `p.len()` characters of `s` are `p`.
fn seq_has_prefix(s: &Vec<char>, p: &Vec<char>) -> (r: bool)
    ensures
        r == starts_with(s@, p@),
{
    if p.len() > s.len() {
        return false;
    }
    let mut i: usize = 0;
    while i < p.len()
        invariant
            p.len() <= s.len(),
            i <= p.len(),
            forall|j: int| 0 <= j < i ==> s@[j] == p@[j],
        decreases p.len() - i,
    {
        if s[i] != p[i] {
            assert(s@.subrange(0, p@.len() as int)[i as int] != p@[i as int]);
            return false;
        }
        i = i + 1;
    }
    assert(s@.subrange(0, p@.len() as int) =~= p@);
    true
}

/// `s` starts with `p`, as `str::starts_with` on a string pattern.
pub fn has_prefix(s: &str, p: &str) -> (r: bool)
    ensures
        r == starts_with(s@, p@),
{
    let sv = chars_of(s);
    let pv = chars_of(p);
    seq_has_prefix(&sv, &pv)
}

/// `s` ends with `p`, as `str::ends_with` on a string pattern.
pub fn has_suffix(s: &str, p: &str) -> (r: bool)
    ensures
        r == ends_with(s@, p@),
{
    let sv = chars_of(s);
    let pv = chars_of(p);
    if pv.len() > sv.len() {
        return false;
    }
    let off: usize = sv.len() - pv.len();
    let mut i: usize = 0;
    while i < pv.len()
        invariant
            sv@ == s@,
            pv@ == p@,
            pv.len() <= sv.len(),
            off == sv.len() - pv.len(),
            i <= pv.len(),
            forall|j: int| 0 <= j < i ==> sv@[off + j] == pv@[j],
        decreases pv.len() - i,
    {
        if sv[off + i] != pv[i] {
            let ghost tail = sv@.subrange(off as int, sv@.len() as int);
            assert(tail[i as int] != pv@[i as int]);
            assert(tail != pv@);
            return false;
        }
        i = i + 1;
    }
    assert(sv@.subrange(off as int, sv@.len() as int) =~= pv@);
    true
}

/// Character-wise equality of two strings.
pub fn same_text(a: &str, b: &str) -> (r: bool)
    ensures
        r == (a@ == b@),
{
    let av = chars_of(a);
    let bv = chars_of(b);
    if av.len() != bv.len() {
        return false;
    }
    assert(av@ =~= av@.subrange(0, bv@.len() as int));
    seq_has_prefix(&av, &bv)
}

/// `a` followed by `b`.
pub fn join_text(a: &str, b: &str) -> (r: String)
    ensures
        r@ == a@ + b@,
{
    let mut r = a.to_owned();
    r.append(b);
    r
}

/// The characters of `s` from position `k` on.
pub fn suffix_from(s: &str, k: usize) -> (r: String)
    requires
        k <= s@.len(),
    ensures
        r@ == s@.skip(k as int),
{
    let n = s.unicode_len();
    let t = s.substring_char(k, n);
    assert(s@.subrange(k as int, n as int) =~= s@.skip(k as int));
    t.to_owned()
}

/// What `str::trim_start_matches` leaves of `s` for a string pattern `p`:
/// every leading copy of `p` is removed.
pub open spec fn trim_start_matches(s: Seq<char>, p: Seq<char>) -> Seq<char>
    decreases s.len(),
{
    if p.len() > 0 && starts_with(s, p) {
        trim_start_matches(s.skip(p.len() as int), p)
    } else {
        s
    }
}

/// Trimming leaves no leading copy of a non-empty pattern, and trimming again
/// changes nothing.
pub proof fn lemma_trim_start_matches_complete(s: Seq<char>, p: Seq<char>)
    requires
        p.len() > 0,
    ensures
        !starts_with(trim_start_matches(s, p), p),
        trim_start_matches(trim_start_matches(s, p), p) == trim_start_matches(s, p),
    decreases s.len(),
{
    if starts_with(s, p) {
        lemma_trim_start_matches_complete(s.skip(p.len() as int), p);
    }
}

/// What `str::strip_prefix` gives for a string pattern `p`.
pub open spec fn strip_prefix(s: Seq<char>, p: Seq<char>) -> Option<Seq<char>> {
    if starts_with(s, p) {
        Some(s.skip(p.len() as int))
    } else {
        None
    }
}

/// Removes every leading copy of `p` from `s`.
pub fn trim_leading(s: &str, p: &str) -> (r: String)
    ensures
        r@ == trim_start_matches(s@, p@),
{
    let sv = chars_of(s);
    let pv = chars_of(p);
    let mut k: usize = 0;
    assert(s@.skip(0) =~= s@);
    if pv.len() > 0 {
        let mut stop = false;
        while !stop && pv.len() <= sv.len() - k
            invariant
                sv@ == s@,
                pv@ == p@,
                pv.len() > 0,
                k <= sv.len(),
                trim_start_matches(s@, p@) == trim_start_matches(s@.skip(k as int), p@),
                stop ==> !starts_with(s@.skip(k as int), p@),
            decreases sv.len() - k, if stop { 0int } else { 1int },
        {
            let mut i: usize = 0;
            let mut same = true;
            while i < pv.len()
                invariant
                    k + pv.len() <= sv.len(),
                    i <= pv.len(),
                    same == (forall|j: int| 0 <= j < i ==> sv@[k + j] == pv@[j]),
                decreases pv.len() - i,
            {
                if sv[k + i] != pv[i] {
                    same = false;
                }
                i = i + 1;
            }
            let ghost rest = s@.skip(k as int);
            if same {
                assert(rest.subrange(0, p@.len() as int) =~= p@);
                assert(rest.skip(p@.len() as int) =~= s@.skip(k + pv.len()));
                k = k + pv.len();
            } else {
                let ghost j = choose|j: int| 0 <= j < pv.len() && sv@[k + j] != pv@[j];
                assert(rest.subrange(0, p@.len() as int)[j] != p@[j]);
                stop = true;
            }
        }
        assert(!starts_with(s@.skip(k as int), p@));
    }
    suffix_from(s, k)
}

/// `s` without its leading `p`, when it starts with `p`.
pub fn strip_leading(s: &str, p: &str) -> (r: Option<String>)
    ensures
        r matches Some(t) ==> strip_prefix(s@, p@) == Some(t@),
        r is None ==> strip_prefix(s@, p@) is None,
{
    if has_prefix(s, p) {
        Some(suffix_from(s, p.unicode_len()))
    } else {
        None
    }
}

/// The decimal digit character for `d` (0 to 9).
pub open spec fn digit_char(d: int) -> char {
    "0123456789"@[d]
}

/// The decimal representation of `n`, most significant digit first, with no
/// leading zeros.
pub open spec fn decimal(n: nat) -> Seq<char>
    decreases n,
{
    if n < 10 {
        seq![digit_char(n as int)]
    } else {
        decimal(n / 10).push(digit_char((n % 10) as int))
    }
}

/// A decimal text is non-empty, made of ASCII digits only, and starts with a
/// zero only when the number is zero.
pub proof fn lemma_decimal_digits(n: nat)
    ensures
        decimal(n).len() >= 1,
        forall|i: int| 0 <= i < decimal(n).len() ==> '0' <= #[trigger] decimal(n)[i] <= '9',
        decimal(n)[0] == '0' <==> n == 0,
    decreases n,
{
    reveal_strlit("0123456789");
    if n >= 10 {
        lemma_decimal_digits(n / 10);
        assert(decimal(n)[0] == decimal(n / 10)[0]);
    }
}

/// The one-character text of digit `d`.
fn digit_text(d: u64) -> (r: &'static str)
    requires
        d < 10,
    ensures
        r@ == seq![digit_char(d as int)],
{
    let digits = "0123456789";
    proof {
        reveal_strlit("0123456789");
    }
    let r = digits.substring_char(d as usize, (d + 1) as usize);
    assert(r@ =~= seq![digit_char(d as int)]);
    r
}

/// The decimal text of `n`, as `u64::to_string` writes it.
pub fn decimal_text(n: u64) -> (r: String)
    ensures
        r@ == decimal(n as nat),
    decreases n,
{
    if n < 10 {
        digit_text(n).to_owned()
    } else {
        let mut r = decimal_text(n / 10);
        r.append(digit_text(n % 10));
        assert(r@ =~= decimal(n as nat));
        r
    }
}

} // verus!
