//! Character-level helpers shared by the alias table and the resolver.

use vstd::prelude::*;

verus! {

/// Whether `c` separates the components of a path: a slash or a backslash.
pub open spec fn is_separator(c: char) -> bool {
    c == '/' || c == '\\'
}

/// Ordinal order on names: `a` comes no later than `b` when the two are
/// compared character by character, by code point, a proper prefix first.
pub open spec fn precedes(a: Seq<char>, b: Seq<char>) -> bool
    decreases a.len(),
{
    if a.len() == 0 {
        true
    } else if b.len() == 0 {
        false
    } else if a[0] != b[0] {
        a[0] < b[0]
    } else {
        precedes(a.drop_first(), b.drop_first())
    }
}

/// Every name comes no later than itself.
pub proof fn lemma_precedes_reflexive(a: Seq<char>)
    ensures
        precedes(a, a),
    decreases a.len(),
{
    if a.len() > 0 {
        lemma_precedes_reflexive(a.drop_first());
    }
}

/// Of two names, one comes no later than the other.
pub proof fn lemma_precedes_total(a: Seq<char>, b: Seq<char>)
    ensures
        precedes(a, b) || precedes(b, a),
    decreases a.len(),
{
    if a.len() > 0 && b.len() > 0 && a[0] == b[0] {
        lemma_precedes_total(a.drop_first(), b.drop_first());
    }
}

/// The order carries over a name in the middle.
pub proof fn lemma_precedes_transitive(a: Seq<char>, b: Seq<char>, c: Seq<char>)
    requires
        precedes(a, b),
        precedes(b, c),
    ensures
        precedes(a, c),
    decreases a.len(),
{
    if a.len() > 0 && b.len() > 0 && c.len() > 0 && a[0] == b[0] && b[0] == c[0] {
        lemma_precedes_transitive(a.drop_first(), b.drop_first(), c.drop_first());
    }
}

/// Two names that each come no later than the other are the same name.
pub proof fn lemma_precedes_antisymmetric(a: Seq<char>, b: Seq<char>)
    requires
        precedes(a, b),
        precedes(b, a),
    ensures
        a == b,
    decreases a.len(),
{
    if a.len() > 0 && b.len() > 0 {
        lemma_precedes_antisymmetric(a.drop_first(), b.drop_first());
        assert(a =~= seq![a[0]] + a.drop_first());
        assert(b =~= seq![b[0]] + b.drop_first());
    } else {
        assert(a =~= b);
    }
}

/// A name comes no later than every name that it begins.
pub proof fn lemma_prefix_precedes(a: Seq<char>, b: Seq<char>)
    requires
        a.len() <= b.len(),
        b.subrange(0, a.len() as int) == a,
    ensures
        precedes(a, b),
    decreases a.len(),
{
    if a.len() > 0 {
        assert(b.drop_first().subrange(0, a.len() - 1) =~= a.drop_first());
        lemma_prefix_precedes(a.drop_first(), b.drop_first());
    }
}

/// The characters of `s`, in order.
pub fn to_chars(s: &str) -> (chars: Vec<char>)
    ensures
        chars@ == s@,
{
    let mut chars: Vec<char> = Vec::new();
    for c in it: s.chars()
        invariant
            chars@ == it.seq().take(it.index() as int),
            it.seq() == s@,
    {
        chars.push(c);
    }
    chars
}

/// Decides the ordinal order of two names given by their characters.
pub fn chars_precede(a: &Vec<char>, b: &Vec<char>) -> (ordered: bool)
    ensures
        ordered == precedes(a@, b@),
{
    let mut i: usize = 0;
    assert(a@.skip(0) =~= a@ && b@.skip(0) =~= b@);
    while i < a.len() && i < b.len()
        invariant
            i <= a.len(),
            i <= b.len(),
            precedes(a@, b@) == precedes(a@.skip(i as int), b@.skip(i as int)),
        decreases a.len() - i,
    {
        let ghost ra = a@.skip(i as int);
        let ghost rb = b@.skip(i as int);
        if a[i] != b[i] {
            return a[i] < b[i];
        }
        assert(ra.drop_first() =~= a@.skip(i + 1));
        assert(rb.drop_first() =~= b@.skip(i + 1));
        i += 1;
    }
    i == a.len()
}

/// Decides the ordinal order of two names.
pub fn name_precedes(a: &str, b: &str) -> (ordered: bool)
    ensures
        ordered == precedes(a@, b@),
{
    let left = to_chars(a);
    let right = to_chars(b);
    chars_precede(&left, &right)
}

} // verus!
