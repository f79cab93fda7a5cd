//! Small verified helpers on byte vectors.

use vstd::prelude::*;

verus! {

/// Byte-wise equality of two vectors.
pub fn bytes_equal(a: &Vec<u8>, b: &Vec<u8>) -> (r: bool)
    ensures
        r == (a@ == b@),
{
    if a.len() != b.len() {
        return false;
    }
    let mut i: usize = 0;
    while i < a.len()
        invariant
            a@.len() == b@.len(),
            i <= a@.len(),
            forall|j: int| 0 <= j < i ==> a@[j] == b@[j],
        decreases a@.len() - i,
    {
        if a[i] != b[i] {
            return false;
        }
        i += 1;
    }
    proof {
        assert(a@ =~= b@);
    }
    true
}

/// An equal copy of a byte vector.
pub fn clone_bytes(v: &Vec<u8>) -> (r: Vec<u8>)
    ensures
        r@ == v@,
{
    let mut r: Vec<u8> = Vec::new();
    push_slice(&mut r, v.as_slice());
    proof {
        assert(r@ =~= v@);
    }
    r
}

/// Whether `s` is the view of some element of `l`.
pub open spec fn in_list(l: Seq<Vec<u8>>, s: Seq<u8>) -> bool {
    exists|i: int| 0 <= i < l.len() && l[i]@ == s
}

/// Membership after a push: the old members plus the pushed value.
pub proof fn lemma_in_list_push(l: Seq<Vec<u8>>, v: Vec<u8>, s: Seq<u8>)
    ensures
        in_list(l.push(v), s) == (in_list(l, s) || v@ == s),
{
    if in_list(l, s) {
        let i = choose|i: int| 0 <= i < l.len() && l[i]@ == s;
        assert(l.push(v)[i]@ == s);
    }
    if v@ == s {
        assert(l.push(v)[l.len() as int]@ == s);
    }
    if in_list(l.push(v), s) {
        let i = choose|i: int| 0 <= i < l.push(v).len() && l.push(v)[i]@ == s;
        if i < l.len() {
            assert(l[i]@ == s);
        } else {
            assert(l.push(v)[i] == v);
        }
    }
}

/// Whether some element of `list` equals `v` byte for byte.
pub fn any_equal(list: &Vec<Vec<u8>>, v: &Vec<u8>) -> (r: bool)
    ensures
        r == in_list(list@, v@),
{
    let mut i: usize = 0;
    while i < list.len()
        invariant
            i <= list@.len(),
            forall|j: int| 0 <= j < i ==> list@[j]@ != v@,
        decreases list@.len() - i,
    {
        if bytes_equal(&list[i], v) {
            return true;
        }
        i += 1;
    }
    false
}

/// An equal copy of a derivation path.
pub fn clone_path(v: &Vec<u32>) -> (r: Vec<u32>)
    ensures
        r@ == v@,
{
    let mut r: Vec<u32> = Vec::new();
    let mut i: usize = 0;
    while i < v.len()
        invariant
            i <= v@.len(),
            r@ == v@.subrange(0, i as int),
        decreases v@.len() - i,
    {
        r.push(v[i]);
        proof {
            assert(v@.subrange(0, i + 1) =~= v@.subrange(0, i as int).push(v@[i as int]));
        }
        i += 1;
    }
    proof {
        assert(r@ =~= v@);
    }
    r
}

/// Appends all of `b` to `out`.
pub fn push_slice(out: &mut Vec<u8>, b: &[u8])
    ensures
        final (out)@ == old(out)@ + b@,
{
    let mut i: usize = 0;
    while i < b.len()
        invariant
            i <= b@.len(),
            out@ == old(out)@ + b@.subrange(0, i as int),
        decreases b@.len() - i,
    {
        out.push(b[i]);
        proof {
            assert(old(out)@ + b@.subrange(0, i + 1) =~= (old(out)@ + b@.subrange(0, i as int)).push(
                b@[i as int],
            ));
        }
        i += 1;
    }
    proof {
        assert(b@.subrange(0, b@.len() as int) =~= b@);
    }
}

} // verus!
