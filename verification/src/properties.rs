//! Strings for the C interface, and the layout of key/value properties for the
//! native constructors, which take them as one flat list
//! `key0, value0, key1, value1, ...`.
use vstd::prelude::*;
use vstd::string::StrSliceExecFns;

verus! {

/// Whether a string can go to the C interface: it holds no NUL character
/// (in UTF-8 the NUL byte only ever encodes that character).
pub open spec fn is_c_compatible(s: &str) -> bool {
    !s@.contains('\0')
}

/// Whether every key and value of a property list can go to the C interface.
pub open spec fn properties_c_compatible(properties: Seq<(&str, &str)>) -> bool {
    forall|i: int| 0 <= i < properties.len() ==> is_c_compatible(#[trigger] properties[i].0)
        && is_c_compatible(properties[i].1)
}

/// Whether `s` can go to the C interface (it holds no NUL character).
pub fn is_c_string(s: &str) -> (b: bool)
    ensures
        b == is_c_compatible(s),
        b <==> (forall|i: int| 0 <= i < s@.len() ==> s@[i] != '\0'),
{
    let n = s.unicode_len();
    let mut i: usize = 0;
    while i < n
        invariant
            n == s@.len(),
            i <= n,
            forall|j: int| 0 <= j < i ==> s@[j] != '\0',
        decreases n - i,
    {
        if s.get_char(i) == '\0' {
            assert(s@[i as int] == '\0');
            return false;
        }
        i = i + 1;
    }
    proof {
        if s@.contains('\0') {
            let j = choose|j: int| 0 <= j < s@.len() && s@[j] == '\0';
            assert(s@[j] != '\0');
        }
    }
    true
}

/// Whether every key and value of `properties` can go to the C interface.
pub fn are_c_strings(properties: &[(&str, &str)]) -> (b: bool)
    ensures
        b == properties_c_compatible(properties@),
        b <==> (forall|i: int| 0 <= i < properties@.len() ==> !(#[trigger] properties@[i]).0@.contains('\0')
            && !properties@[i].1@.contains('\0')),
{
    let n = properties.len();
    for i in 0..n
        invariant
            n == properties@.len(),
            properties_c_compatible(properties@.take(i as int)),
    {
        let (k, v) = properties[i];
        if !is_c_string(k) || !is_c_string(v) {
            assert(!(is_c_compatible(properties@[i as int].0) && is_c_compatible(properties@[i as int].1)));
            return false;
        }
        assert(properties_c_compatible(properties@.take(i as int + 1))) by {
            assert forall|j: int| 0 <= j < i + 1 implies is_c_compatible(#[trigger] properties@.take(i as int + 1)[j].0)
                && is_c_compatible(properties@.take(i as int + 1)[j].1) by {
                if j < i {
                    assert(properties@.take(i as int + 1)[j] == properties@.take(i as int)[j]);
                }
            }
        }
    }
    assert(properties@.take(n as int) =~= properties@);
    true
}

/// The flat list `k0, v0, k1, v1, ...` of a sequence of pairs.
pub open spec fn flattened<A>(pairs: Seq<(A, A)>) -> Seq<A> {
    Seq::new(
        2 * pairs.len(),
        |i: int| if i % 2 == 0 { pairs[i / 2].0 } else { pairs[i / 2].1 },
    )
}

/// The pairs `(s[0], s[1]), (s[2], s[3]), ...` of a flat list (a trailing
/// unpaired entry is dropped).
pub open spec fn paired<A>(flat: Seq<A>) -> Seq<(A, A)> {
    Seq::new(flat.len() / 2, |i: int| (flat[2 * i], flat[2 * i + 1]))
}

/// Lays out properties as the flat list `key0, value0, key1, value1, ...`.
///
/// Each entry must be able to go to the C interface: a key or value holding a
/// NUL character cannot be passed on.
pub fn flatten_properties<'a>(properties: &[(&'a str, &'a str)]) -> (flat: Vec<&'a str>)
    requires
        properties_c_compatible(properties@),
    ensures
        flat@ == flattened(properties@),
{
    let mut flat: Vec<&'a str> = Vec::new();
    let n = properties.len();
    for i in 0..n
        invariant
            n == properties@.len(),
            flat@ == flattened(properties@.take(i as int)),
    {
        let (k, v) = properties[i];
        proof {
            assert(properties@.take(i as int + 1) == properties@.take(i as int).push(properties@[i as int]));
        }
        flat.push(k);
        flat.push(v);
        assert(flat@ =~= flattened(properties@.take(i as int + 1)));
    }
    assert(properties@.take(n as int) =~= properties@);
    flat
}

/// Flattening loses nothing: pairing the flat list gives the pairs back.
pub proof fn lemma_flatten_roundtrip<A>(pairs: Seq<(A, A)>)
    ensures
        paired(flattened(pairs)) == pairs,
        flattened(pairs).len() == 2 * pairs.len(),
{
    assert(paired(flattened(pairs)) =~= pairs);
}

/// Appending a pair appends its key and then its value to the flat list.
pub proof fn lemma_flatten_push<A>(pairs: Seq<(A, A)>, p: (A, A))
    ensures
        flattened(pairs.push(p)) == flattened(pairs).push(p.0).push(p.1),
{
    assert(flattened(pairs.push(p)) =~= flattened(pairs).push(p.0).push(p.1));
}

/// A string can go to the C interface exactly when none of its characters is
/// NUL; any other character (a space, a slash, ...) is fine.
pub proof fn lemma_c_compatible_means_no_nul(s: &str)
    ensures
        is_c_compatible(s) <==> (forall|i: int| 0 <= i < s@.len() ==> s@[i] != '\0'),
{
    if !(forall|i: int| 0 <= i < s@.len() ==> s@[i] != '\0') {
        let i = choose|i: int| 0 <= i < s@.len() && s@[i] == '\0';
        assert(s@.contains('\0'));
    }
}

/// A property list can go to the C interface exactly when no key and no value
/// holds a NUL character.
pub proof fn lemma_properties_c_compatible_means_no_nul(properties: Seq<(&str, &str)>)
    ensures
        properties_c_compatible(properties) <==> (forall|i: int| 0 <= i < properties.len() ==>
            !(#[trigger] properties[i]).0@.contains('\0') && !properties[i].1@.contains('\0')),
{
}

/// The flat list holds, for the `i`-th property, its key at `2 * i` and its
/// value at `2 * i + 1`, and nothing else.
pub proof fn lemma_flatten_layout<A>(pairs: Seq<(A, A)>)
    ensures
        flattened(pairs).len() == 2 * pairs.len(),
        forall|i: int| 0 <= i < pairs.len() ==> flattened(pairs)[2 * i] == (#[trigger] pairs[i]).0
            && flattened(pairs)[2 * i + 1] == pairs[i].1,
{
    assert forall|i: int| 0 <= i < pairs.len() implies flattened(pairs)[2 * i] == (#[trigger] pairs[i]).0
        && flattened(pairs)[2 * i + 1] == pairs[i].1 by {
        assert((2 * i) % 2 == 0 && (2 * i) / 2 == i);
        assert((2 * i + 1) % 2 == 1 && (2 * i + 1) / 2 == i);
    }
}

} // verus!
