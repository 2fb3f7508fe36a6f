//! Text building: quoting with `Debug`, joining, and the order in which keys are listed.
use vstd::prelude::*;

verus! {

/// What `Debug` writes for a string: the string in double quotes, with escapes.
pub uninterp spec fn debug_text(s: Seq<char>) -> Seq<char>;

/// Quotes a string with `format!("{:?}", ..)`.
/// Trusted: the text is the one that `debug_text` names.
#[verifier::external_body]
pub fn debug_string(s: &str) -> (r: String)
    ensures
        r@ == debug_text(s@),
{
    format!("{s:?}")
}

/// The texts of `parts`, with `sep` between each two of them.
pub open spec fn join_texts(parts: Seq<Seq<char>>, sep: Seq<char>) -> Seq<char>
    decreases parts.len(),
{
    if parts.len() == 0 {
        Seq::empty()
    } else if parts.len() == 1 {
        parts[0]
    } else {
        join_texts(parts.drop_last(), sep) + sep + parts.last()
    }
}

/// Joins strings with a separator.
pub fn join_strings(parts: &Vec<String>, sep: &str) -> (r: String)
    ensures
        r@ == join_texts(parts@.map_values(|p: String| p@), sep@),
{
    let ghost views = parts@.map_values(|p: String| p@);
    let mut r = String::new();
    let mut i: usize = 0;
    while i < parts.len()
        invariant
            i <= parts@.len(),
            views == parts@.map_values(|p: String| p@),
            r@ == join_texts(views.take(i as int), sep@),
        decreases parts@.len() - i,
    {
        assert(views.take(i + 1).drop_last() =~= views.take(i as int));
        if i != 0 {
            r.append(sep);
        }
        r.append(parts[i].as_str());
        i = i + 1;
    }
    assert(views.take(parts@.len() as int) =~= views);
    r
}

/// The order in which keys are listed: lexicographic on the characters' code points, which
/// is the byte order of their UTF-8 encodings, as `String`'s `Ord` compares them.
pub open spec fn key_lt(a: Seq<char>, b: Seq<char>) -> bool {
    key_lt_from(a, b, 0)
}

/// `key_lt` on what follows the first `i` characters of both texts.
pub open spec fn key_lt_from(a: Seq<char>, b: Seq<char>, i: int) -> bool
    decreases a.len() - i,
{
    if i < 0 || i >= a.len() {
        0 <= i < b.len()
    } else if i >= b.len() {
        false
    } else if (a[i] as int) < (b[i] as int) {
        true
    } else if a[i] == b[i] {
        key_lt_from(a, b, i + 1)
    } else {
        false
    }
}

/// Compares two texts in the order of `key_lt`.
pub fn key_less(a: &str, b: &str) -> (r: bool)
    ensures
        r == key_lt(a@, b@),
        r == lexicographically_before(a@, b@),
{
    proof {
        lemma_key_order_is_lexicographic(a@, b@);
    }
    let la = a.unicode_len();
    let lb = b.unicode_len();
    let mut i: usize = 0;
    while i < la && i < lb
        invariant
            la == a@.len(),
            lb == b@.len(),
            i <= la,
            i <= lb,
            key_lt(a@, b@) == key_lt_from(a@, b@, i as int),
            key_lt(a@, b@) == lexicographically_before(a@, b@),
        decreases la - i,
    {
        let ca = a.get_char(i);
        let cb = b.get_char(i);
        if (ca as u32) < (cb as u32) {
            return true;
        }
        if ca != cb {
            return false;
        }
        i = i + 1;
    }
    i == la && i < lb
}

} // verus!

verus! {

proof fn lemma_key_lt_irreflexive(a: Seq<char>, i: int)
    requires
        0 <= i,
    ensures
        !key_lt_from(a, a, i),
    decreases a.len() - i,
{
    if i < a.len() {
        lemma_key_lt_irreflexive(a, i + 1);
    }
}

proof fn lemma_key_lt_asymmetric(a: Seq<char>, b: Seq<char>, i: int)
    requires
        0 <= i,
        key_lt_from(a, b, i),
    ensures
        !key_lt_from(b, a, i),
    decreases a.len() - i,
{
    if i < a.len() && i < b.len() && a[i] == b[i] {
        lemma_key_lt_asymmetric(a, b, i + 1);
    }
}

proof fn lemma_key_lt_transitive(a: Seq<char>, b: Seq<char>, c: Seq<char>, i: int)
    requires
        0 <= i,
        key_lt_from(a, b, i),
        key_lt_from(b, c, i),
    ensures
        key_lt_from(a, c, i),
    decreases a.len() - i,
{
    if i < a.len() && i < b.len() && i < c.len() && a[i] == b[i] && b[i] == c[i] {
        lemma_key_lt_transitive(a, b, c, i + 1);
    }
}

proof fn lemma_key_lt_total(a: Seq<char>, b: Seq<char>, i: int)
    requires
        0 <= i <= a.len(),
        0 <= i <= b.len(),
        a.skip(i) != b.skip(i),
    ensures
        key_lt_from(a, b, i) || key_lt_from(b, a, i),
    decreases a.len() - i,
{
    if i < a.len() && i < b.len() && a[i] == b[i] {
        if a.skip(i + 1) == b.skip(i + 1) {
            assert(a.skip(i) =~= seq![a[i]] + a.skip(i + 1));
            assert(b.skip(i) =~= seq![b[i]] + b.skip(i + 1));
        }
        lemma_key_lt_total(a, b, i + 1);
    } else if i >= a.len() && i >= b.len() {
        assert(a.skip(i) =~= b.skip(i));
    } else if i < a.len() && i < b.len() {
        let x = a[i];
        let y = b[i];
        assert(x != y);
        assert((x as int) != (y as int));
    }
}

/// `key_lt` is a strict total order: irreflexive, asymmetric, transitive, and it orders any
/// two different texts.
pub proof fn lemma_key_order(a: Seq<char>, b: Seq<char>, c: Seq<char>)
    ensures
        !key_lt(a, a),
        key_lt(a, b) ==> !key_lt(b, a),
        key_lt(a, b) && key_lt(b, c) ==> key_lt(a, c),
        a != b ==> key_lt(a, b) || key_lt(b, a),
{
    lemma_key_lt_irreflexive(a, 0);
    if key_lt(a, b) {
        lemma_key_lt_asymmetric(a, b, 0);
    }
    if key_lt(a, b) && key_lt(b, c) {
        lemma_key_lt_transitive(a, b, c, 0);
    }
    if a != b {
        assert(a.skip(0) =~= a);
        assert(b.skip(0) =~= b);
        lemma_key_lt_total(a, b, 0);
    }
}

} // verus!

verus! {

/// Whether `s` begins with `prefix`.
pub fn has_prefix(s: &str, prefix: &str) -> (r: bool)
    ensures
        r == prefix@.is_prefix_of(s@),
{
    let ls = s.unicode_len();
    let lp = prefix.unicode_len();
    if lp > ls {
        return false;
    }
    let mut i: usize = 0;
    while i < lp
        invariant
            ls == s@.len(),
            lp == prefix@.len(),
            lp <= ls,
            i <= lp,
            forall|j: int| 0 <= j < i ==> prefix@[j] == s@[j],
        decreases lp - i,
    {
        if prefix.get_char(i) != s.get_char(i) {
            assert(prefix@[i as int] != s@.subrange(0, lp as int)[i as int]);
            return false;
        }
        i = i + 1;
    }
    assert(prefix@ =~= s@.subrange(0, lp as int));
    true
}

} // verus!

verus! {

/// `a` comes before `b` in dictionary order of code points: `a` is a proper prefix of `b`, or
/// at the first position where they differ, `a`'s character has the smaller code point.
pub open spec fn lexicographically_before(a: Seq<char>, b: Seq<char>) -> bool {
    ||| a.len() < b.len() && a == b.take(a.len() as int)
    ||| exists|k: int|
        0 <= k < a.len() && k < b.len() && #[trigger] a.take(k) == b.take(k) && (a[k] as int) < (
        b[k] as int)
}

proof fn lemma_key_lt_from_lexicographic(a: Seq<char>, b: Seq<char>, i: int)
    requires
        0 <= i <= a.len(),
        i <= b.len(),
        a.take(i) == b.take(i),
    ensures
        key_lt_from(a, b, i) <==> lexicographically_before(a, b),
    decreases a.len() - i,
{
    if exists|k: int|
        0 <= k < a.len() && k < b.len() && #[trigger] a.take(k) == b.take(k) && (a[k] as int) < (
        b[k] as int) {
        let k = choose|k: int|
            0 <= k < a.len() && k < b.len() && #[trigger] a.take(k) == b.take(k) && (a[k] as int)
                < (b[k] as int);
        if k < i {
            assert(a.take(i)[k] == b.take(i)[k]);
        }
    }
    if i == a.len() {
        assert(a.take(i) =~= a);
        if i == b.len() {
            assert(b.take(i) =~= b);
            assert(!key_lt_from(a, b, i));
            assert(!lexicographically_before(a, b));
        } else {
            assert(key_lt_from(a, b, i));
            assert(a.len() < b.len() && a == b.take(a.len() as int));
        }
    } else if i == b.len() {
        assert(b.take(i) =~= b);
        assert(!key_lt_from(a, b, i));
        assert(!lexicographically_before(a, b));
    } else {
        if a[i] == b[i] {
            assert(a.take(i + 1) =~= a.take(i).push(a[i]));
            assert(b.take(i + 1) =~= b.take(i).push(b[i]));
            lemma_key_lt_from_lexicographic(a, b, i + 1);
            assert(key_lt_from(a, b, i) == key_lt_from(a, b, i + 1));
        } else if (a[i] as int) < (b[i] as int) {
            assert(a.take(i) == b.take(i));
            assert(key_lt_from(a, b, i));
            assert(lexicographically_before(a, b));
        } else {
            assert(!key_lt_from(a, b, i));
            if exists|k: int|
                0 <= k < a.len() && k < b.len() && #[trigger] a.take(k) == b.take(k) && (a[k] as int)
                    < (b[k] as int) {
                let k = choose|k: int|
                    0 <= k < a.len() && k < b.len() && #[trigger] a.take(k) == b.take(k) && (
                    a[k] as int) < (b[k] as int);
                assert(0 <= k < a.len() && k < b.len() && a.take(k) == b.take(k) && (a[k] as int) < (b[k] as int));
                if k > i {
                    assert(a.take(k)[i] == a[i]);
                    assert(b.take(k)[i] == b[i]);
                    assert(false);
                } else if k < i {
                    assert(a.take(i)[k] == a[k]);
                    assert(b.take(i)[k] == b[k]);
                    assert(false);
                } else {
                    assert(false);
                }
            }
            if a.len() < b.len() && a == b.take(a.len() as int) {
                assert(b.take(a.len() as int)[i] == b[i]);
            }
            assert(!lexicographically_before(a, b));
        }
    }
}

/// The order in which keys are listed is dictionary order of code points: a proper prefix
/// comes first, and otherwise the first differing character decides, whatever the lengths.
pub proof fn lemma_key_order_is_lexicographic(a: Seq<char>, b: Seq<char>)
    ensures
        key_lt(a, b) <==> lexicographically_before(a, b),
{
    assert(a.take(0) =~= b.take(0));
    lemma_key_lt_from_lexicographic(a, b, 0);
}

} // verus!
