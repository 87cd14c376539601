//! Texts in order.

use vstd::prelude::*;

use crate::text::chars_of;

verus! {

broadcast use vstd::string::group_string_axioms;

/// Whether a text is not after another, character by character.
pub open spec fn text_le(a: Seq<char>, b: Seq<char>) -> bool
    decreases a.len(),
{
    if a.len() == 0 {
        true
    } else if b.len() == 0 {
        false
    } else if a[0] != b[0] {
        (a[0] as u32) < (b[0] as u32)
    } else {
        text_le(a.skip(1), b.skip(1))
    }
}

/// Whether texts are in order.
pub open spec fn in_order(texts: Seq<String>) -> bool {
    forall|i: int, j: int|
        0 <= i <= j < texts.len() ==> text_le((#[trigger] texts[i])@, (#[trigger] texts[j])@)
}

proof fn lemma_le_reflexive(a: Seq<char>)
    ensures
        text_le(a, a),
    decreases a.len(),
{
    if a.len() > 0 {
        lemma_le_reflexive(a.skip(1));
    }
}

proof fn lemma_le_transitive(a: Seq<char>, b: Seq<char>, c: Seq<char>)
    requires
        text_le(a, b),
        text_le(b, c),
    ensures
        text_le(a, c),
    decreases a.len(),
{
    if a.len() > 0 && b.len() > 0 && c.len() > 0 && a[0] == b[0] && b[0] == c[0] {
        lemma_le_transitive(a.skip(1), b.skip(1), c.skip(1));
    }
}

proof fn lemma_le_total(a: Seq<char>, b: Seq<char>)
    ensures
        text_le(a, b) || text_le(b, a),
    decreases a.len(),
{
    if a.len() > 0 && b.len() > 0 {
        if a[0] == b[0] {
            lemma_le_total(a.skip(1), b.skip(1));
        } else {
            vstd::utf8::char_u32_cast(a[0], a[0] as u32);
            vstd::utf8::char_u32_cast(b[0], b[0] as u32);
            assert(a[0] as u32 != b[0] as u32);
        }
    }
}

fn not_after(a: &str, b: &str) -> (r: bool)
    ensures
        r == text_le(a@, b@),
{
    let x = chars_of(a);
    let y = chars_of(b);
    let mut i: usize = 0;
    assert(x@.skip(0) =~= a@);
    assert(y@.skip(0) =~= b@);
    while i < x.len() && i < y.len()
        invariant
            i <= x@.len(),
            i <= y@.len(),
            text_le(a@, b@) == text_le(x@.skip(i as int), y@.skip(i as int)),
        decreases x@.len() - i,
    {
        let ghost p = x@.skip(i as int);
        let ghost q = y@.skip(i as int);
        assert(p[0] == x@[i as int] && q[0] == y@[i as int]);
        assert(p.skip(1) =~= x@.skip(i + 1));
        assert(q.skip(1) =~= y@.skip(i + 1));
        if x[i] != y[i] {
            return (x[i] as u32) < (y[i] as u32);
        }
        i += 1;
    }
    i == x.len()
}

/// Where a text belongs in texts that are in order: all before it are not after it.
fn place_of(texts: &Vec<String>, text: &str) -> (r: usize)
    requires
        in_order(texts@),
    ensures
        r <= texts@.len(),
        forall|k: int| 0 <= k < r ==> text_le((#[trigger] texts@[k])@, text@),
        forall|k: int| r <= k < texts@.len() ==> text_le(text@, (#[trigger] texts@[k])@),
{
    let mut i: usize = 0;
    while i < texts.len()
        invariant
            i <= texts@.len(),
            in_order(texts@),
            forall|k: int| 0 <= k < i ==> text_le((#[trigger] texts@[k])@, text@),
        decreases texts@.len() - i,
    {
        if !not_after(texts[i].as_str(), text) {
            proof {
                lemma_le_total(text@, texts@[i as int]@);
                assert forall|k: int| i <= k < texts@.len() implies text_le(
                    text@,
                    (#[trigger] texts@[k])@,
                ) by {
                    lemma_le_transitive(text@, texts@[i as int]@, texts@[k]@);
                }
            }
            return i;
        }
        i += 1;
    }
    i
}

/// The texts in order.
pub fn sort_texts(texts: &Vec<String>) -> (r: Vec<String>)
    ensures
        in_order(r@),
        r@.to_multiset() == texts@.to_multiset(),
{
    let mut out: Vec<String> = Vec::new();
    let mut i: usize = 0;
    assert(texts@.take(0) =~= seq![]);
    assert(out@ =~= texts@.take(0));
    while i < texts.len()
        invariant
            i <= texts@.len(),
            in_order(out@),
            out@.to_multiset() == texts@.take(i as int).to_multiset(),
        decreases texts@.len() - i,
    {
        let at: usize = place_of(&out, texts[i].as_str());
        let text = texts[i].clone();
        let ghost before = out@;
        out.insert(at, text);
        proof {
            let next = texts@.take(i as int + 1);
            assert(next =~= texts@.take(i as int).push(text));
            vstd::seq_lib::to_multiset_insert(before, at as int, text);
            texts@.take(i as int).to_multiset_ensures();
            assert forall|a: int, b: int| 0 <= a <= b < out@.len() implies text_le(
                (#[trigger] out@[a])@,
                (#[trigger] out@[b])@,
            ) by {
                lemma_le_reflexive(text@);
                let a0 = if a <= at {
                    a
                } else {
                    a - 1
                };
                let b0 = if b <= at {
                    b
                } else {
                    b - 1
                };
                if a != at {
                    assert(out@[a] == before[a0]);
                }
                if b != at {
                    assert(out@[b] == before[b0]);
                }
            }
        }
        i += 1;
    }
    assert(texts@.take(texts@.len() as int) =~= texts@);
    out
}

/// The first place where two texts differ decides which comes first: the one with the
/// smaller character. Where one ends there, it is the shorter.
pub proof fn law_first_difference_decides(a: Seq<char>, b: Seq<char>, i: int)
    requires
        0 <= i <= a.len(),
        i <= b.len(),
        a.take(i) == b.take(i),
        i < a.len() && i < b.len() ==> a[i] != b[i],
    ensures
        text_le(a, b) <==> i == a.len() || (i < b.len() && (a[i] as u32) < (b[i] as u32)),
    decreases a.len(),
{
    if i > 0 {
        assert(a[0] == a.take(i)[0]);
        assert(b[0] == b.take(i)[0]);
        assert(a.skip(1).take(i - 1) =~= a.take(i).skip(1));
        assert(b.skip(1).take(i - 1) =~= b.take(i).skip(1));
        law_first_difference_decides(a.skip(1), b.skip(1), i - 1);
    }
}

/// The order is one: every text comes first or the other does, and only equal texts come
/// both before and after each other.
pub proof fn law_texts_are_ordered(a: Seq<char>, b: Seq<char>)
    ensures
        text_le(a, b) || text_le(b, a),
        text_le(a, b) && text_le(b, a) <==> a == b,
    decreases a.len(),
{
    if a.len() > 0 && b.len() > 0 && a[0] == b[0] {
        law_texts_are_ordered(a.skip(1), b.skip(1));
        if a.skip(1) == b.skip(1) {
            assert(a =~= seq![a[0]] + a.skip(1));
            assert(b =~= seq![b[0]] + b.skip(1));
        }
    }
    if a.len() == 0 && b.len() == 0 {
        assert(a =~= b);
    }
    lemma_le_total(a, b);
}

} // verus!
