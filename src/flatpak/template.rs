//! Manifest templates as literal text interleaved with placeholders, and
//! what rendering does to them.
use vstd::prelude::*;
use crate::flatpak::render_manifest;
use crate::text::{occurs_at, replace_all};

verus! {

/// A placeholder of a manifest template.
pub enum Slot {
    AppId,
    RuntimeId,
    RuntimeVersion,
}

/// The text of a placeholder.
pub open spec fn token(k: Slot) -> Seq<char> {
    match k {
        Slot::AppId => "%FLATPAK_OCI_APPID%"@,
        Slot::RuntimeId => "%FLATPAK_OCI_RUNTIMEID%"@,
        Slot::RuntimeVersion => "%FLATPAK_OCI_RUNTIMEVER%"@,
    }
}

/// The text that stands for each placeholder.
pub open spec fn fill(k: Slot, app_id: Seq<char>, runtime: Seq<char>, version: Seq<char>) -> Seq<
    char,
> {
    match k {
        Slot::AppId => app_id,
        Slot::RuntimeId => runtime,
        Slot::RuntimeVersion => version,
    }
}

/// `texts[0]`, the text for `slots[0]`, `texts[1]`, ..., the text for the
/// last slot, the last text.
pub open spec fn assemble(texts: Seq<Seq<char>>, slots: Seq<Slot>, f: spec_fn(Slot) -> Seq<char>) -> Seq<
    char,
>
    decreases slots.len(),
{
    if texts.len() == 0 {
        seq![]
    } else if slots.len() == 0 {
        texts[0]
    } else {
        texts[0] + f(slots[0]) + assemble(texts.drop_first(), slots.drop_first(), f)
    }
}

/// The template text: the literal texts with the placeholders between them.
pub open spec fn template_of(texts: Seq<Seq<char>>, slots: Seq<Slot>) -> Seq<char> {
    assemble(texts, slots, |k: Slot| token(k))
}

/// The literal texts with the given values between them.
pub open spec fn filled_of(
    texts: Seq<Seq<char>>,
    slots: Seq<Slot>,
    app_id: Seq<char>,
    runtime: Seq<char>,
    version: Seq<char>,
) -> Seq<char> {
    assemble(texts, slots, |k: Slot| fill(k, app_id, runtime, version))
}

/// `s` holds no `%`.
pub open spec fn no_percent(s: Seq<char>) -> bool {
    forall|i: int| 0 <= i < s.len() ==> s[i] != '%'
}

/// `s` is empty or does not begin with `F`.
pub open spec fn no_leading_f(s: Seq<char>) -> bool {
    s.len() == 0 || s[0] != 'F'
}

/// A text that can stand for a placeholder without forming one with what
/// surrounds it.
pub open spec fn plain_value(s: Seq<char>) -> bool {
    no_percent(s) && no_leading_f(s)
}

/// The literal texts of a template around its placeholders: none holds a
/// `%`, and none after a placeholder begins with `F`.
pub open spec fn plain_texts(texts: Seq<Seq<char>>) -> bool {
    &&& forall|i: int| 0 <= i < texts.len() ==> no_percent(#[trigger] texts[i])
    &&& forall|i: int| 1 <= i < texts.len() ==> no_leading_f(#[trigger] texts[i])
}

/// Each placeholder stands for itself or for a plain value.
pub open spec fn valid_fill(f: spec_fn(Slot) -> Seq<char>) -> bool {
    forall|k: Slot| #[trigger] f(k) == token(k) || plain_value(f(k))
}

proof fn lemma_token_facts()
    ensures
        forall|k: Slot|
            #![trigger token(k)]
            {
                &&& token(k).len() >= 19
                &&& token(k)[0] == '%'
                &&& token(k)[1] == 'F'
                &&& token(k).last() == '%'
                &&& forall|i: int| 0 < i < token(k).len() - 1 ==> token(k)[i] != '%'
            },
        token(Slot::AppId)[13] != token(Slot::RuntimeId)[13],
        token(Slot::AppId)[13] != token(Slot::RuntimeVersion)[13],
        token(Slot::RuntimeId)[20] != token(Slot::RuntimeVersion)[20],
        token(Slot::RuntimeId).len() >= 21,
        token(Slot::RuntimeVersion).len() >= 21,
{
    reveal_strlit("%FLATPAK_OCI_APPID%");
    reveal_strlit("%FLATPAK_OCI_RUNTIMEID%");
    reveal_strlit("%FLATPAK_OCI_RUNTIMEVER%");
    let a = token(Slot::AppId);
    let b = token(Slot::RuntimeId);
    let c = token(Slot::RuntimeVersion);
    assert(a =~= seq![
        '%', 'F', 'L', 'A', 'T', 'P', 'A', 'K', '_', 'O', 'C', 'I', '_', 'A', 'P', 'P', 'I', 'D', '%',
    ]);
    assert(b =~= seq![
        '%', 'F', 'L', 'A', 'T', 'P', 'A', 'K', '_', 'O', 'C', 'I', '_', 'R', 'U', 'N', 'T', 'I', 'M',
        'E', 'I', 'D', '%',
    ]);
    assert(c =~= seq![
        '%', 'F', 'L', 'A', 'T', 'P', 'A', 'K', '_', 'O', 'C', 'I', '_', 'R', 'U', 'N', 'T', 'I', 'M',
        'E', 'V', 'E', 'R', '%',
    ]);
    assert forall|k: Slot|
        #![trigger token(k)]
        forall|i: int| 0 < i < token(k).len() - 1 ==> token(k)[i] != '%' by {
        assert forall|i: int| 0 < i < token(k).len() - 1 implies token(k)[i] != '%' by {
            match k {
                Slot::AppId => {
                    assert(a[i] != '%');
                },
                Slot::RuntimeId => {
                    assert(b[i] != '%');
                },
                Slot::RuntimeVersion => {
                    assert(c[i] != '%');
                },
            }
        }
    }
}

proof fn lemma_occurs_shift(a: Seq<char>, t: Seq<char>, k: int, i: int)
    requires
        0 <= k <= a.len(),
        0 <= i,
    ensures
        occurs_at(a.subrange(k, a.len() as int), t, i) == occurs_at(a, t, i + k),
{
    if i + t.len() <= a.len() - k {
        assert(a.subrange(k, a.len() as int).subrange(i, i + t.len()) =~= a.subrange(
            i + k,
            i + k + t.len(),
        ));
    }
}

proof fn lemma_occurs_char(a: Seq<char>, t: Seq<char>, i: int, d: int)
    requires
        occurs_at(a, t, i),
        0 <= d < t.len(),
    ensures
        a[i + d] == t[d],
{
    assert(a.subrange(i, i + t.len())[d] == a[i + d]);
}

/// Where `t` occurs nowhere in `s`, replacing it changes nothing.
proof fn lemma_no_occurrence_identity(s: Seq<char>, t: Seq<char>, v: Seq<char>)
    requires
        t.len() > 0,
        forall|i: int| !occurs_at(s, t, i),
    ensures
        replace_all(s, t, v) == s,
    decreases s.len(),
{
    if s.len() >= t.len() {
        assert(!occurs_at(s, t, 0));
        let rest = s.subrange(1, s.len() as int);
        assert forall|i: int| !occurs_at(rest, t, i) by {
            if i >= 0 {
                lemma_occurs_shift(s, t, 1, i);
            }
        }
        lemma_no_occurrence_identity(rest, t, v);
        assert(seq![s[0]] + rest =~= s);
    }
}

proof fn lemma_no_percent_identity(s: Seq<char>, t: Seq<char>, v: Seq<char>)
    requires
        t.len() > 0,
        t[0] == '%',
        no_percent(s),
    ensures
        replace_all(s, t, v) == s,
{
    assert forall|i: int| !occurs_at(s, t, i) by {
        if occurs_at(s, t, i) {
            lemma_occurs_char(s, t, i, 0);
        }
    }
    lemma_no_occurrence_identity(s, t, v);
}

/// Replacing in `x + y` replaces in each part where no occurrence that
/// starts in `x` runs into `y`.
proof fn lemma_replace_split(x: Seq<char>, y: Seq<char>, t: Seq<char>, v: Seq<char>)
    requires
        t.len() > 0,
        forall|i: int|
            0 <= i < x.len() && #[trigger] occurs_at(x + y, t, i) ==> i + t.len() <= x.len(),
    ensures
        replace_all(x + y, t, v) == replace_all(x, t, v) + replace_all(y, t, v),
    decreases x.len(),
{
    let s = x + y;
    if x.len() == 0 {
        assert(s =~= y);
    } else if s.len() < t.len() {
    } else if s.subrange(0, t.len() as int) == t {
        assert(occurs_at(s, t, 0));
        assert(x.subrange(0, t.len() as int) =~= s.subrange(0, t.len() as int));
        let x2 = x.subrange(t.len() as int, x.len() as int);
        assert(s.subrange(t.len() as int, s.len() as int) =~= x2 + y);
        assert forall|i: int|
            0 <= i < x2.len() && #[trigger] occurs_at(x2 + y, t, i) implies i + t.len()
            <= x2.len() by {
            lemma_occurs_shift(s, t, t.len() as int, i);
            assert(occurs_at(s, t, i + t.len()));
        }
        lemma_replace_split(x2, y, t, v);
    } else {
        let x2 = x.subrange(1, x.len() as int);
        assert(s.subrange(1, s.len() as int) =~= x2 + y);
        assert forall|i: int|
            0 <= i < x2.len() && #[trigger] occurs_at(x2 + y, t, i) implies i + t.len()
            <= x2.len() by {
            lemma_occurs_shift(s, t, 1, i);
            assert(occurs_at(s, t, i + 1));
        }
        lemma_replace_split(x2, y, t, v);
        if x.len() >= t.len() {
            assert(x.subrange(0, t.len() as int) =~= s.subrange(0, t.len() as int));
        } else {
            lemma_no_occurrence_short(x2, t, v);
            assert(seq![x[0]] + x2 =~= x);
        }
    }
}

proof fn lemma_no_occurrence_short(s: Seq<char>, t: Seq<char>, v: Seq<char>)
    requires
        s.len() < t.len(),
    ensures
        replace_all(s, t, v) == s,
{
}

/// What replacing one placeholder does to a placeholder or a plain value.
proof fn lemma_replace_in_piece(b: Seq<char>, k: Slot, big_k: Slot, v: Seq<char>)
    requires
        b == token(k) || plain_value(b),
    ensures
        replace_all(b, token(big_k), v) == if b == token(k) && k == big_k {
            v
        } else {
            b
        },
{
    lemma_token_facts();
    let t = token(big_k);
    assert(token(k) == token(k));
    assert(t == token(big_k));
    if b == token(k) && k == big_k {
        assert(b.subrange(0, t.len() as int) =~= t);
        assert(b.subrange(t.len() as int, b.len() as int) =~= seq![]);
        assert(replace_all(seq![], t, v) == Seq::<char>::empty());
        assert(v + Seq::<char>::empty() =~= v);
    } else if b == token(k) {
        assert forall|i: int| !occurs_at(b, t, i) by {
            if occurs_at(b, t, i) {
                lemma_occurs_char(b, t, i, 0);
                if i == 0 {
                    if k == Slot::AppId || big_k == Slot::AppId {
                        lemma_occurs_char(b, t, 0, 13);
                    } else {
                        lemma_occurs_char(b, t, 0, 20);
                    }
                }
            }
        }
        lemma_no_occurrence_identity(b, t, v);
    } else {
        lemma_no_percent_identity(b, t, v);
    }
}

/// No occurrence of a placeholder that starts in the piece `b` runs past
/// it into `c`.
proof fn lemma_piece_boundary(b: Seq<char>, c: Seq<char>, k: Slot, big_k: Slot)
    requires
        b == token(k) || plain_value(b),
        no_leading_f(c),
    ensures
        forall|i: int|
            0 <= i < b.len() && #[trigger] occurs_at(b + c, token(big_k), i) ==> i
                + token(big_k).len() <= b.len(),
{
    lemma_token_facts();
    let t = token(big_k);
    assert(token(k) == token(k));
    assert(t == token(big_k));
    assert forall|i: int|
        0 <= i < b.len() && #[trigger] occurs_at(b + c, t, i) implies i + t.len() <= b.len() by {
        lemma_occurs_char(b + c, t, i, 0);
        assert((b + c)[i] == b[i]);
        if b == token(k) {
            if i == 0 {
                if k != big_k {
                    if k == Slot::AppId || big_k == Slot::AppId {
                        lemma_occurs_char(b + c, t, 0, 13);
                        assert((b + c)[13] == b[13]);
                    } else {
                        lemma_occurs_char(b + c, t, 0, 20);
                        assert((b + c)[20] == b[20]);
                    }
                }
            } else {
                assert(i == b.len() - 1);
                lemma_occurs_char(b + c, t, i, 1);
                assert((b + c)[i + 1] == c[0]);
            }
        }
    }
}

/// An assembled template whose texts do not begin with `F` does not begin
/// with `F`.
proof fn lemma_assemble_leading(texts: Seq<Seq<char>>, slots: Seq<Slot>, f: spec_fn(Slot) -> Seq<char>)
    requires
        texts.len() == slots.len() + 1,
        forall|i: int| 0 <= i < texts.len() ==> no_leading_f(#[trigger] texts[i]),
        valid_fill(f),
    ensures
        no_leading_f(assemble(texts, slots, f)),
    decreases slots.len(),
{
    lemma_token_facts();
    assert(no_leading_f(texts[0]));
    if slots.len() > 0 {
        let b = f(slots[0]);
        assert(b == token(slots[0]) || plain_value(b));
        assert(token(slots[0]) == token(slots[0]));
        let texts2 = texts.drop_first();
        assert forall|i: int| 0 <= i < texts2.len() implies no_leading_f(#[trigger] texts2[i]) by {
            assert(texts2[i] == texts[i + 1]);
        }
        lemma_assemble_leading(texts2, slots.drop_first(), f);
        let rest = assemble(texts2, slots.drop_first(), f);
        if texts[0].len() > 0 {
            assert((texts[0] + b + rest)[0] == texts[0][0]);
        } else if b.len() > 0 {
            assert((texts[0] + b + rest)[0] == b[0]);
        } else {
            assert(texts[0] + b + rest =~= rest);
        }
    }
}

/// One placeholder `big_k`, so far standing for itself, replaced by the
/// plain value `v` throughout the assembled template.
proof fn lemma_replace_slot(
    texts: Seq<Seq<char>>,
    slots: Seq<Slot>,
    f: spec_fn(Slot) -> Seq<char>,
    big_k: Slot,
    v: Seq<char>,
)
    requires
        texts.len() == slots.len() + 1,
        plain_texts(texts),
        valid_fill(f),
        f(big_k) == token(big_k),
        plain_value(v),
    ensures
        replace_all(assemble(texts, slots, f), token(big_k), v) == assemble(
            texts,
            slots,
            |k: Slot|
                if k == big_k {
                    v
                } else {
                    f(k)
                },
        ),
    decreases slots.len(),
{
    lemma_token_facts();
    let t = token(big_k);
    let g = |k: Slot|
        if k == big_k {
            v
        } else {
            f(k)
        };
    assert(t == token(big_k));
    assert(no_percent(texts[0]));
    if slots.len() == 0 {
        lemma_no_percent_identity(texts[0], t, v);
    } else {
        let a = texts[0];
        let k0 = slots[0];
        let b = f(k0);
        assert(b == token(k0) || plain_value(b));
        let texts2 = texts.drop_first();
        let slots2 = slots.drop_first();
        let c = assemble(texts2, slots2, f);
        assert(plain_texts(texts2)) by {
            assert forall|i: int| 0 <= i < texts2.len() implies no_percent(#[trigger] texts2[i]) by {
                assert(texts2[i] == texts[i + 1]);
            }
            assert forall|i: int| 1 <= i < texts2.len() implies no_leading_f(
                #[trigger] texts2[i],
            ) by {
                assert(texts2[i] == texts[i + 1]);
            }
        }
        assert forall|i: int| 0 <= i < texts2.len() implies no_leading_f(#[trigger] texts2[i]) by {
            assert(texts2[i] == texts[i + 1]);
        }
        lemma_assemble_leading(texts2, slots2, f);
        assert(a + b + c =~= a + (b + c));
        assert forall|i: int|
            0 <= i < a.len() && #[trigger] occurs_at(a + (b + c), t, i) implies i + t.len()
            <= a.len() by {
            lemma_occurs_char(a + (b + c), t, i, 0);
            assert((a + (b + c))[i] == a[i]);
        }
        lemma_replace_split(a, b + c, t, v);
        lemma_no_percent_identity(a, t, v);
        lemma_piece_boundary(b, c, k0, big_k);
        lemma_replace_split(b, c, t, v);
        lemma_replace_in_piece(b, k0, big_k, v);
        lemma_replace_slot(texts2, slots2, f, big_k, v);
        assert(replace_all(b, t, v) == g(k0));
        assert(a + g(k0) + assemble(texts2, slots2, g) =~= a + (g(k0) + assemble(
            texts2,
            slots2,
            g,
        )));
    }
}

proof fn lemma_assemble_same_fill(
    texts: Seq<Seq<char>>,
    slots: Seq<Slot>,
    f: spec_fn(Slot) -> Seq<char>,
    g: spec_fn(Slot) -> Seq<char>,
)
    requires
        forall|k: Slot| #[trigger] f(k) == g(k),
    ensures
        assemble(texts, slots, f) == assemble(texts, slots, g),
    decreases slots.len(),
{
    if texts.len() > 0 && slots.len() > 0 {
        assert(f(slots[0]) == g(slots[0]));
        lemma_assemble_same_fill(texts.drop_first(), slots.drop_first(), f, g);
    }
}

proof fn lemma_assemble_no_percent(texts: Seq<Seq<char>>, slots: Seq<Slot>, f: spec_fn(Slot) -> Seq<char>)
    requires
        forall|i: int| 0 <= i < texts.len() ==> no_percent(#[trigger] texts[i]),
        forall|k: Slot| no_percent(#[trigger] f(k)),
    ensures
        no_percent(assemble(texts, slots, f)),
    decreases slots.len(),
{
    if texts.len() > 0 && slots.len() > 0 {
        let texts2 = texts.drop_first();
        assert forall|i: int| 0 <= i < texts2.len() implies no_percent(#[trigger] texts2[i]) by {
            assert(texts2[i] == texts[i + 1]);
        }
        lemma_assemble_no_percent(texts2, slots.drop_first(), f);
        let a = texts[0];
        let b = f(slots[0]);
        let c = assemble(texts2, slots.drop_first(), f);
        assert(no_percent(a));
        assert(no_percent(b));
        assert forall|i: int| 0 <= i < (a + b + c).len() implies (a + b + c)[i] != '%' by {
            if i < a.len() {
                assert((a + b + c)[i] == a[i]);
            } else if i < a.len() + b.len() {
                assert((a + b + c)[i] == b[i - a.len()]);
            } else {
                assert((a + b + c)[i] == c[i - a.len() - b.len()]);
            }
        }
    }
}

/// Rendering a template made of plain literal texts and placeholders, with
/// plain values, puts each value exactly where its placeholder stood, and
/// leaves no placeholder behind.
pub proof fn lemma_render_fills_placeholders(
    texts: Seq<Seq<char>>,
    slots: Seq<Slot>,
    app_id: Seq<char>,
    runtime: Seq<char>,
    version: Seq<char>,
)
    requires
        texts.len() == slots.len() + 1,
        plain_texts(texts),
        plain_value(app_id),
        plain_value(runtime),
        plain_value(version),
    ensures
        render_manifest(template_of(texts, slots), app_id, runtime, version) == filled_of(
            texts,
            slots,
            app_id,
            runtime,
            version,
        ),
        forall|k: Slot, i: int|
            !#[trigger] occurs_at(
                render_manifest(template_of(texts, slots), app_id, runtime, version),
                token(k),
                i,
            ),
{
    lemma_token_facts();
    let f0 = |k: Slot| token(k);
    let f1 = |k: Slot|
        if k == Slot::AppId {
            app_id
        } else {
            f0(k)
        };
    let f2 = |k: Slot|
        if k == Slot::RuntimeId {
            runtime
        } else {
            f1(k)
        };
    let f3 = |k: Slot|
        if k == Slot::RuntimeVersion {
            version
        } else {
            f2(k)
        };
    let g = |k: Slot| fill(k, app_id, runtime, version);
    assert(valid_fill(f0));
    lemma_replace_slot(texts, slots, f0, Slot::AppId, app_id);
    assert(valid_fill(f1));
    lemma_replace_slot(texts, slots, f1, Slot::RuntimeId, runtime);
    assert(valid_fill(f2));
    lemma_replace_slot(texts, slots, f2, Slot::RuntimeVersion, version);
    assert forall|k: Slot| #[trigger] f3(k) == g(k) by {
        match k {
            Slot::AppId => {},
            Slot::RuntimeId => {},
            Slot::RuntimeVersion => {},
        }
    }
    lemma_assemble_same_fill(texts, slots, f3, g);
    assert(render_manifest(assemble(texts, slots, f0), app_id, runtime, version) == assemble(
        texts,
        slots,
        g,
    ));
    assert forall|k: Slot| no_percent(#[trigger] g(k)) by {
        match k {
            Slot::AppId => {},
            Slot::RuntimeId => {},
            Slot::RuntimeVersion => {},
        }
    }
    lemma_assemble_no_percent(texts, slots, g);
    let out = assemble(texts, slots, g);
    assert forall|k: Slot, i: int| !#[trigger] occurs_at(out, token(k), i) by {
        if occurs_at(out, token(k), i) {
            lemma_occurs_char(out, token(k), i, 0);
        }
    }
}

} // verus!
