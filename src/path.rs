//! Paths held as the bytes of their platform encoding.
use vstd::prelude::*;

verus! {

/// The byte that separates the components of a path.
pub const SEPARATOR: u8 = 0x2f;

/// `child` appended to `base` as a further component: a separator comes
/// between them unless `base` is empty or already ends in one.
pub open spec fn joined(base: Seq<u8>, child: Seq<u8>) -> Seq<u8> {
    if base.len() == 0 || base.last() == SEPARATOR {
        base + child
    } else {
        base.push(SEPARATOR) + child
    }
}

/// Appends `child` to `base` as a further path component.
pub fn join(base: &Vec<u8>, child: &Vec<u8>) -> (r: Vec<u8>)
    ensures
        r@ == joined(base@, child@),
{
    let mut r: Vec<u8> = Vec::new();
    let mut i: usize = 0;
    while i < base.len()
        invariant
            i <= base@.len(),
            r@ == base@.subrange(0, i as int),
        decreases base@.len() - i,
    {
        r.push(base[i]);
        i = i + 1;
    }
    assert(r@ == base@);
    if base.len() > 0 && base[base.len() - 1] != SEPARATOR {
        r.push(SEPARATOR);
    }
    let ghost head = r@;
    let mut j: usize = 0;
    while j < child.len()
        invariant
            j <= child@.len(),
            r@ == head + child@.subrange(0, j as int),
        decreases child@.len() - j,
    {
        r.push(child[j]);
        j = j + 1;
    }
    assert(child@.subrange(0, child@.len() as int) == child@);
    r
}

} // verus!
