//! Normal form of request paths.
//!
//! A path is lowered, and its characters are taken over one by one: a `_`,
//! `/` or `.` that would repeat the character taken last is left out, and
//! so is a dot that would follow a slash. Slashes at both ends are
//! stripped, and the empty result is written `/`. A normal form holds no
//! `//`, `..`, `__` or `/.`, and normalizing it again changes nothing.

use vstd::prelude::*;
use crate::text::{chars_of, string_of, tail_of};

verus! {

/// The characters of which a run is squeezed to one.
pub open spec fn is_special(c: char) -> bool {
    c == '_' || c == '/' || c == '.'
}

/// The last character of `q`, the NUL character where `q` is empty.
pub open spec fn last_or_nul(q: Seq<char>) -> char {
    if q.len() == 0 {
        '\0'
    } else {
        q.last()
    }
}

/// Whether `c` is left out after `p`: it would repeat a special character,
/// or it is a dot and `p` a slash.
pub open spec fn left_out(p: char, c: char) -> bool {
    (is_special(c) && c == p) || (p == '/' && c == '.')
}

/// The characters of `s` that are taken over, in order: each character
/// but those that are left out after the character taken last.
pub open spec fn squeezed(s: Seq<char>) -> Seq<char>
    decreases s.len(),
{
    if s.len() == 0 {
        s
    } else {
        let q = squeezed(s.drop_last());
        if left_out(last_or_nul(q), s.last()) {
            q
        } else {
            q.push(s.last())
        }
    }
}

/// `s` without the slashes at its end.
pub open spec fn without_trailing(s: Seq<char>) -> Seq<char>
    decreases s.len(),
{
    if s.len() > 0 && s.last() == '/' {
        without_trailing(s.drop_last())
    } else {
        s
    }
}

/// `s` without the slashes at its beginning.
pub open spec fn without_leading(s: Seq<char>) -> Seq<char>
    decreases s.len(),
{
    if s.len() > 0 && s[0] == '/' {
        without_leading(s.skip(1))
    } else {
        s
    }
}

/// The normal form of an already lowered path.
pub open spec fn normalized(s: Seq<char>) -> Seq<char> {
    let t = without_leading(without_trailing(squeezed(s)));
    if t.len() == 0 {
        seq!['/']
    } else {
        t
    }
}

/// The lowercase equivalent of a text, as the standard library gives it.
pub uninterp spec fn lowercase_of(s: Seq<char>) -> Seq<char>;

/// The normal form of a path as it arrives.
pub open spec fn normalize_path_spec(path: Seq<char>) -> Seq<char> {
    normalized(lowercase_of(path))
}

/// `str::to_lowercase`: the lowercase equivalent of `s` as a new string.
#[verifier::external_body]
fn to_lowercase(s: &str) -> (r: String)
    ensures
        r@ == lowercase_of(s@),
{
    s.to_lowercase()
}

/// No character of `s` would be left out after the one before it: `s`
/// holds no `//`, `..`, `__` and no `/.`.
pub open spec fn tidy(s: Seq<char>) -> bool {
    forall|i: int| 0 < i < s.len() ==> !left_out(s[i - 1], #[trigger] s[i])
}

/// `s` is in normal form: it is not empty, none of its characters would
/// be left out after the one before it, and unless it is the single slash
/// it neither begins nor ends with a slash.
pub open spec fn is_normal(s: Seq<char>) -> bool {
    &&& s.len() >= 1
    &&& tidy(s)
    &&& (s == seq!['/'] || (s[0] != '/' && s.last() != '/'))
}

proof fn lemma_tidy_prefix(s: Seq<char>)
    requires
        tidy(s),
        s.len() > 0,
    ensures
        tidy(s.drop_last()),
{
    let r = s.drop_last();
    assert forall|i: int| 0 < i < r.len() implies !left_out(r[i - 1], #[trigger] r[i]) by {
        assert(r[i] == s[i]);
        assert(r[i - 1] == s[i - 1]);
    }
}

proof fn lemma_squeezed(s: Seq<char>)
    ensures
        squeezed(s).len() <= s.len(),
        tidy(squeezed(s)),
        s.len() > 0 ==> squeezed(s).len() > 0,
    decreases s.len(),
{
    if s.len() > 0 {
        let q = squeezed(s.drop_last());
        lemma_squeezed(s.drop_last());
        if !left_out(last_or_nul(q), s.last()) {
            let t = q.push(s.last());
            assert forall|i: int| 0 < i < t.len() implies !left_out(t[i - 1], #[trigger] t[i]) by {
                if i < q.len() {
                    assert(t[i] == q[i]);
                    assert(t[i - 1] == q[i - 1]);
                } else {
                    assert(t[i - 1] == q.last());
                }
            }
        } else {
            assert(q.len() > 0);
        }
    }
}

proof fn lemma_squeezed_fixed(s: Seq<char>)
    requires
        tidy(s),
    ensures
        squeezed(s) == s,
    decreases s.len(),
{
    if s.len() > 0 {
        let r = s.drop_last();
        lemma_tidy_prefix(s);
        lemma_squeezed_fixed(r);
        if r.len() > 0 {
            assert(!left_out(s[s.len() - 2], s[s.len() - 1]));
            assert(r.last() == s[s.len() - 2]);
        }
        assert(r.push(s.last()) =~= s);
    }
}

proof fn lemma_without_trailing(s: Seq<char>)
    ensures
        without_trailing(s).len() <= s.len(),
        without_trailing(s) == s.take(without_trailing(s).len() as int),
        without_trailing(s).len() > 0 ==> without_trailing(s).last() != '/',
    decreases s.len(),
{
    if s.len() > 0 && s.last() == '/' {
        lemma_without_trailing(s.drop_last());
        let k = without_trailing(s).len() as int;
        assert(s.drop_last().take(k) =~= s.take(k));
    } else {
        assert(s.take(s.len() as int) =~= s);
    }
}

proof fn lemma_without_leading(s: Seq<char>)
    ensures
        without_leading(s).len() <= s.len(),
        without_leading(s) == s.skip(s.len() - without_leading(s).len()),
        without_leading(s).len() > 0 ==> without_leading(s)[0] != '/',
    decreases s.len(),
{
    if s.len() > 0 && s[0] == '/' {
        lemma_without_leading(s.skip(1));
        let k = s.len() - without_leading(s).len();
        assert(s.skip(1).skip(k - 1) =~= s.skip(k));
    } else {
        assert(s.skip(0) =~= s);
    }
}

/// What is left of a tidy text once the slashes at its ends are stripped:
/// a piece of it, tidy too, that neither begins nor ends with a slash.
proof fn lemma_trimmed(q: Seq<char>)
    requires
        tidy(q),
    ensures
        ({
            let t = without_leading(without_trailing(q));
            &&& t.len() <= q.len()
            &&& tidy(t)
            &&& (t.len() > 0 ==> t[0] != '/' && t.last() != '/')
        }),
{
    let m = without_trailing(q);
    let t = without_leading(m);
    lemma_without_trailing(q);
    lemma_without_leading(m);
    let k = m.len() - t.len();
    assert forall|i: int| 0 <= i < t.len() implies t[i] == q[i + k] by {
        assert(t[i] == m[i + k]);
    }
    assert forall|i: int| 0 < i < t.len() implies !left_out(t[i - 1], #[trigger] t[i]) by {
        assert(t[i] == q[i + k]);
        assert(t[i - 1] == q[i + k - 1]);
    }
    if t.len() > 0 {
        assert(t.last() == m.last());
    }
}

/// The normal form of any text is in normal form: it is not empty, it
/// holds no `//`, `..`, `__` and no `/.`, and unless it is the single
/// slash it neither begins nor ends with a slash.
pub proof fn lemma_normalized_shape(s: Seq<char>)
    ensures
        is_normal(normalized(s)),
{
    lemma_squeezed(s);
    lemma_trimmed(squeezed(s));
    let t = without_leading(without_trailing(squeezed(s)));
    if t.len() == 0 {
        assert(tidy(seq!['/']));
    }
}

/// Two neighbours in a normal form are never two slashes, two dots, two
/// underscores, or a slash and a dot.
pub proof fn lemma_normalized_neighbours(s: Seq<char>, i: int)
    requires
        0 < i < normalized(s).len(),
    ensures
        !(normalized(s)[i - 1] == '/' && normalized(s)[i] == '/'),
        !(normalized(s)[i - 1] == '.' && normalized(s)[i] == '.'),
        !(normalized(s)[i - 1] == '_' && normalized(s)[i] == '_'),
        !(normalized(s)[i - 1] == '/' && normalized(s)[i] == '.'),
{
    lemma_normalized_shape(s);
    let t = normalized(s);
    assert(!left_out(t[i - 1], t[i]));
}

/// What is in normal form is its own normal form.
pub proof fn lemma_normal_fixed(o: Seq<char>)
    requires
        is_normal(o),
    ensures
        normalized(o) == o,
{
    lemma_squeezed_fixed(o);
    if o == seq!['/'] {
        let e = Seq::<char>::empty();
        assert(o.drop_last() =~= e);
        assert(without_trailing(e) == e);
        assert(without_trailing(o) == e);
        assert(without_leading(e) == e);
    } else {
        assert(without_trailing(o) == o);
        assert(without_leading(o) == o);
    }
}

/// Normalizing twice gives what normalizing once gives.
pub proof fn lemma_normalized_idempotent(s: Seq<char>)
    ensures
        normalized(normalized(s)) == normalized(s),
{
    lemma_normalized_shape(s);
    lemma_normal_fixed(normalized(s));
}

/// Normalizing the normal form of a path as it arrives gives that normal
/// form again, where lowering the normal form leaves it as it is.
///
/// The premise speaks of what the standard library's lowering gives. Its
/// documentation does not say that lowering a lowered text changes
/// nothing, and nothing outside this module calls the lowering, so no
/// caller can establish the premise: the law is stated for the sake of
/// what it would take. Without a premise the law holds one step further
/// in, of `normalize_lowered`: see `lemma_normalized_idempotent`.
pub proof fn lemma_normalize_path_idempotent(path: Seq<char>)
    requires
        lowercase_of(normalize_path_spec(path)) == normalize_path_spec(path),
    ensures
        normalize_path_spec(normalize_path_spec(path)) == normalize_path_spec(path),
{
    lemma_normalized_idempotent(lowercase_of(path));
}

/// The normal form of a path that is already lowered. It is in normal
/// form, and so its own normal form: normalizing twice gives what
/// normalizing once gives.
pub fn normalize_lowered(lowered: &str) -> (out: String)
    ensures
        out@ == normalized(lowered@),
        is_normal(out@),
        normalized(out@) == out@,
{
    proof {
        lemma_normalized_shape(lowered@);
        lemma_normalized_idempotent(lowered@);
    }
    let cs = chars_of(lowered);
    let mut result: Vec<char> = Vec::new();
    let mut last: char = '\0';
    let mut i: usize = 0;
    proof {
        assert(cs@.take(0) =~= Seq::<char>::empty());
    }
    while i < cs.len()
        invariant
            i <= cs.len(),
            result@ == squeezed(cs@.take(i as int)),
            last == last_or_nul(result@),
        decreases cs.len() - i,
    {
        let b = cs[i];
        let is_special_char = b == '_' || b == '/' || b == '.';
        proof {
            let s1 = cs@.take(i + 1);
            assert(s1.drop_last() =~= cs@.take(i as int));
            assert(s1.last() == b);
        }
        if (is_special_char && b == last) || (last == '/' && b == '.') {
        } else {
            result.push(b);
            last = b;
        }
        i += 1;
    }
    assert(cs@.take(cs.len() as int) =~= cs@);
    let ghost q = result@;
    while result.len() > 0 && result[result.len() - 1] == '/'
        invariant
            without_trailing(result@) == without_trailing(q),
        decreases result.len(),
    {
        result.pop();
    }
    let ghost m = result@;
    let mut start: usize = 0;
    proof {
        assert(m.skip(0) =~= m);
    }
    while start < result.len() && result[start] == '/'
        invariant
            start <= result.len(),
            result@ == m,
            without_leading(m.skip(start as int)) == without_leading(m),
        decreases result.len() - start,
    {
        proof {
            assert(m.skip(start as int).skip(1) =~= m.skip(start + 1));
        }
        start += 1;
    }
    let mut trimmed = tail_of(&result, start);
    if trimmed.len() == 0 {
        trimmed.push('/');
        assert(trimmed@ =~= seq!['/']);
    }
    string_of(&trimmed)
}

/// The normal form of a request path: lowered, with no `_`, `/` or `.`
/// repeated, no dot after a slash, and the slashes at both ends stripped;
/// `/` where nothing is left. The result is in normal form.
pub fn normalize_path(path: String) -> (out: String)
    ensures
        out@ == normalize_path_spec(path@),
        is_normal(out@),
        normalized(out@) == out@,
{
    let lowered = to_lowercase(path.as_str());
    normalize_lowered(lowered.as_str())
}

} // verus!
