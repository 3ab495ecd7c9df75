//! Text helpers over `char` sequences, each proved against a spec function.
use vstd::prelude::*;

verus! {

/// `pat` occurs in `s` starting at position `i`.
pub open spec fn occurs_at(s: Seq<char>, pat: Seq<char>, i: int) -> bool {
    &&& 0 <= i
    &&& i + pat.len() <= s.len()
    &&& s.subrange(i, i + pat.len()) == pat
}

/// `s` with every occurrence of `pat` replaced by `rep`, scanning from the
/// left and resuming after each replaced occurrence.
pub open spec fn replace_all(s: Seq<char>, pat: Seq<char>, rep: Seq<char>) -> Seq<char>
    decreases s.len(),
{
    if pat.len() == 0 || s.len() < pat.len() {
        s
    } else if s.subrange(0, pat.len() as int) == pat {
        rep + replace_all(s.subrange(pat.len() as int, s.len() as int), pat, rep)
    } else {
        seq![s[0]] + replace_all(s.subrange(1, s.len() as int), pat, rep)
    }
}

/// `s` ends with `suffix`.
pub open spec fn has_suffix(s: Seq<char>, suffix: Seq<char>) -> bool {
    suffix.len() <= s.len() && s.subrange(s.len() - suffix.len(), s.len() as int) == suffix
}

/// `s` starts with `prefix`.
pub open spec fn has_prefix(s: Seq<char>, prefix: Seq<char>) -> bool {
    prefix.len() <= s.len() && s.subrange(0, prefix.len() as int) == prefix
}

/// The position of the last `c` in `s`, or `-1` where there is none.
pub open spec fn last_index_of(s: Seq<char>, c: char) -> int
    decreases s.len(),
{
    if s.len() == 0 {
        -1
    } else if s.last() == c {
        s.len() - 1
    } else {
        last_index_of(s.drop_last(), c)
    }
}

/// `s` split around its last `c`: what stands before it and what follows.
pub open spec fn split_at_last(s: Seq<char>, c: char) -> Option<(Seq<char>, Seq<char>)> {
    let i = last_index_of(s, c);
    if i < 0 {
        None
    } else {
        Some((s.subrange(0, i), s.subrange(i + 1, s.len() as int)))
    }
}

/// `rel` resolved against the directory `base`: an absolute `rel` stands
/// alone, otherwise one `/` separates the two.
pub open spec fn join_path(base: Seq<char>, rel: Seq<char>) -> Seq<char> {
    if rel.len() > 0 && rel[0] == '/' {
        rel
    } else if base.len() == 0 {
        rel
    } else if base.last() == '/' {
        base + rel
    } else {
        base + seq!['/'] + rel
    }
}

/// The text of an optional string slice.
pub open spec fn opt_str_view(s: Option<&str>) -> Option<Seq<char>> {
    match s {
        Some(t) => Some(t@),
        None => None,
    }
}

proof fn lemma_replace_all_step(s: Seq<char>, pat: Seq<char>, rep: Seq<char>, i: int)
    requires
        pat.len() > 0,
        0 <= i <= s.len(),
    ensures
        i + pat.len() > s.len() ==> replace_all(s.subrange(i, s.len() as int), pat, rep)
            == s.subrange(i, s.len() as int),
        occurs_at(s, pat, i) ==> replace_all(s.subrange(i, s.len() as int), pat, rep) == rep
            + replace_all(s.subrange(i + pat.len(), s.len() as int), pat, rep),
        i + pat.len() <= s.len() && !occurs_at(s, pat, i) ==> replace_all(
            s.subrange(i, s.len() as int),
            pat,
            rep,
        ) == seq![s[i]] + replace_all(s.subrange(i + 1, s.len() as int), pat, rep),
{
    let t = s.subrange(i, s.len() as int);
    if i + pat.len() <= s.len() {
        assert(t.subrange(0, pat.len() as int) =~= s.subrange(i, i + pat.len()));
        assert(t.subrange(pat.len() as int, t.len() as int) =~= s.subrange(
            i + pat.len(),
            s.len() as int,
        ));
        assert(t.subrange(1, t.len() as int) =~= s.subrange(i + 1, s.len() as int));
    }
}

/// The characters of `s`, in order.
pub fn chars_of(s: &str) -> (r: Vec<char>)
    ensures
        r@ == s@,
{
    broadcast use vstd::string::group_string_axioms;

    let mut v: Vec<char> = Vec::new();
    for c in it: s.chars()
        invariant
            v@ == it.seq().subrange(0, it.index() as int),
    {
        v.push(c);
    }
    v
}

/// The two texts are the same.
pub fn same_text(a: &str, b: &str) -> (r: bool)
    ensures
        r == (a@ == b@),
{
    String::from_str(a) == String::from_str(b)
}

/// A fresh `String` holding `a` followed by `b`.
pub fn concat_str(a: &str, b: &str) -> (r: String)
    ensures
        r@ == a@ + b@,
{
    let mut r = String::from_str(a);
    r.append(b);
    r
}

/// `p` occurs in `v` at position `i`.
fn occurs_in(v: &Vec<char>, p: &Vec<char>, i: usize) -> (r: bool)
    ensures
        r == occurs_at(v@, p@, i as int),
{
    if i > v.len() || p.len() > v.len() - i {
        return false;
    }
    let mut k: usize = 0;
    while k < p.len()
        invariant
            i + p.len() <= v.len(),
            k <= p.len(),
            forall|j: int| 0 <= j < k ==> v@[i + j] == p@[j],
        decreases p.len() - k,
    {
        if v[i + k] != p[k] {
            assert(v@.subrange(i as int, i + p.len())[k as int] != p@[k as int]);
            return false;
        }
        k = k + 1;
    }
    assert(v@.subrange(i as int, i + p.len()) =~= p@);
    true
}

/// `s` ends with `suffix`.
pub fn ends_with_text(s: &str, suffix: &str) -> (r: bool)
    ensures
        r == has_suffix(s@, suffix@),
{
    let v = chars_of(s);
    let p = chars_of(suffix);
    if p.len() > v.len() {
        return false;
    }
    let r = occurs_in(&v, &p, v.len() - p.len());
    r
}

/// `s` starts with `prefix`.
pub fn starts_with_text(s: &str, prefix: &str) -> (r: bool)
    ensures
        r == has_prefix(s@, prefix@),
{
    let v = chars_of(s);
    let p = chars_of(prefix);
    occurs_in(&v, &p, 0)
}

/// `s` with every occurrence of the non-empty `pat` replaced by `rep`.
pub fn replace_text(s: &str, pat: &str, rep: &str) -> (r: String)
    requires
        pat@.len() > 0,
    ensures
        r@ == replace_all(s@, pat@, rep@),
{
    let v = chars_of(s);
    let p = chars_of(pat);
    let n = v.len();
    let m = p.len();
    let mut out = String::new();
    let mut seg: usize = 0;
    let mut i: usize = 0;
    proof {
        assert(s@.subrange(0, s@.len() as int) =~= s@);
    }
    while m <= n - i
        invariant
            v@ == s@,
            p@ == pat@,
            n == v.len(),
            m == p.len(),
            m > 0,
            seg <= i <= n,
            out@ + s@.subrange(seg as int, i as int) + replace_all(
                s@.subrange(i as int, n as int),
                pat@,
                rep@,
            ) == replace_all(s@, pat@, rep@),
        decreases n - i,
    {
        proof {
            lemma_replace_all_step(s@, pat@, rep@, i as int);
        }
        if occurs_in(&v, &p, i) {
            let piece = s.substring_char(seg, i);
            out.append(piece);
            out.append(rep);
            proof {
                assert(out@ + s@.subrange(i + m, i + m) =~= out@);
            }
            i = i + m;
            seg = i;
        } else {
            proof {
                assert(s@.subrange(seg as int, i as int) + seq![s@[i as int]] =~= s@.subrange(
                    seg as int,
                    i + 1,
                ));
            }
            i = i + 1;
        }
    }
    proof {
        lemma_replace_all_step(s@, pat@, rep@, i as int);
        assert(s@.subrange(seg as int, i as int) + s@.subrange(i as int, n as int)
            =~= s@.subrange(seg as int, n as int));
    }
    let rest = s.substring_char(seg, n);
    out.append(rest);
    out
}

/// `s` split around its last `c`, or `None` where `c` does not occur.
pub fn split_last(s: &str, c: char) -> (r: Option<(String, String)>)
    ensures
        match (r, split_at_last(s@, c)) {
            (Some(p), Some(q)) => p.0@ == q.0 && p.1@ == q.1,
            (None, None) => true,
            _ => false,
        },
{
    let v = chars_of(s);
    let n = v.len();
    let mut i: usize = n;
    assert(s@.subrange(0, n as int) =~= s@);
    while i > 0
        invariant
            v@ == s@,
            n == v.len(),
            i <= n,
            last_index_of(s@, c) == last_index_of(s@.subrange(0, i as int), c),
        decreases i,
    {
        assert(s@.subrange(0, i as int).drop_last() =~= s@.subrange(0, i - 1));
        if v[i - 1] == c {
            assert(s@.subrange(0, i as int).last() == c);
            let before = s.substring_char(0, i - 1);
            let after = s.substring_char(i, n);
            return Some((String::from_str(before), String::from_str(after)));
        }
        i = i - 1;
    }
    None
}

/// `rel` resolved against the directory `base`.
pub fn join(base: &str, rel: &str) -> (r: String)
    ensures
        r@ == join_path(base@, rel@),
{
    proof {
        reveal_strlit("/");
    }
    let sep = "/";
    assert(sep@ == seq!['/']);
    let absolute = starts_with_text(rel, sep);
    assert(absolute == (rel@.len() > 0 && rel@[0] == '/')) by {
        if rel@.len() > 0 {
            assert(rel@.subrange(0, 1)[0] == rel@[0]);
            if rel@[0] == '/' {
                assert(rel@.subrange(0, 1) =~= seq!['/']);
            }
        }
    }
    if absolute {
        return String::from_str(rel);
    }
    if base.unicode_len() == 0 {
        return String::from_str(rel);
    }
    let trailing = ends_with_text(base, sep);
    assert(trailing == (base@.last() == '/')) by {
        let k = base@.len() - 1;
        assert(base@.subrange(k, base@.len() as int)[0] == base@.last());
        if base@.last() == '/' {
            assert(base@.subrange(k, base@.len() as int) =~= seq!['/']);
        }
    }
    let mut r = String::from_str(base);
    if !trailing {
        r.append(sep);
    }
    r.append(rel);
    r
}

} // verus!
