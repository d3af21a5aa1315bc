//! Attribute lists as the platforms read them: a name, then its value, pair after pair. What a
//! list asks of an attribute is the value of the first pair that names it.
use vstd::prelude::*;

verus! {

/// The value a list of name and value pairs gives the attribute `name`: that of the first pair
/// naming it, `None` when no pair does. A lone last element is no pair.
#[verifier::opaque]
pub open spec fn attribute_value<T>(l: Seq<T>, name: T) -> Option<T>
    decreases l.len(),
{
    if l.len() < 2 {
        None
    } else if l[0] == name {
        Some(l[1])
    } else {
        attribute_value(l.subrange(2, l.len() as int), name)
    }
}

/// A list shorter than a pair gives no attribute a value.
pub proof fn lemma_attribute_value_short<T>(l: Seq<T>, name: T)
    requires
        l.len() < 2,
    ensures
        attribute_value(l, name) is None,
{
    reveal(attribute_value);
}

/// In two lists of pairs one after the other, the first list's pairs come first.
pub proof fn lemma_attribute_value_concat<T>(a: Seq<T>, b: Seq<T>, name: T)
    requires
        a.len() % 2 == 0,
    ensures
        attribute_value(a + b, name) == (match attribute_value(a, name) {
            Some(v) => Some(v),
            None => attribute_value(b, name),
        }),
    decreases a.len(),
{
    reveal(attribute_value);
    if a.len() == 0 {
        assert(a + b =~= b);
    } else {
        let rest = a.subrange(2, a.len() as int);
        assert((a + b).subrange(2, (a + b).len() as int) =~= rest + b);
        lemma_attribute_value_concat(rest, b, name);
    }
}

/// One pair gives its value to the attribute it names and to no other.
pub proof fn lemma_attribute_value_pair<T>(n: T, v: T, name: T)
    ensures
        attribute_value(seq![n, v], name) == (if n == name {
            Some(v)
        } else {
            None
        }),
{
    reveal(attribute_value);
    let l = seq![n, v];
    assert(l.subrange(2, 2) =~= Seq::<T>::empty());
    assert(attribute_value(Seq::<T>::empty(), name) is None);
}

/// A list with no pair naming `name` gives it no value.
pub proof fn lemma_attribute_value_absent<T>(l: Seq<T>, name: T)
    requires
        forall|i: int| 0 <= i < l.len() - 1 && i % 2 == 0 ==> l[i] != name,
    ensures
        attribute_value(l, name) is None,
    decreases l.len(),
{
    reveal(attribute_value);
    if l.len() >= 2 {
        let rest = l.subrange(2, l.len() as int);
        assert forall|i: int| 0 <= i < rest.len() - 1 && i % 2 == 0 implies rest[i] != name by {
            assert(rest[i] == l[i + 2]);
        }
        lemma_attribute_value_absent(rest, name);
    }
}

/// A pair that is there only when `present`.
pub open spec fn optional_pair<T>(present: bool, name: T, value: T) -> Seq<T> {
    if present {
        seq![name, value]
    } else {
        seq![]
    }
}

/// An optional pair gives its value to its name when it is there, and nothing otherwise.
pub proof fn lemma_optional_pair<T>(present: bool, name: T, value: T, k: T)
    ensures
        optional_pair(present, name, value).len() % 2 == 0,
        attribute_value(optional_pair(present, name, value), k) == (if present && name == k {
            Some(value)
        } else {
            None
        }),
{
    if present {
        lemma_attribute_value_pair(name, value, k);
    } else {
        lemma_attribute_value_short(Seq::<T>::empty(), k);
    }
}

} // verus!
