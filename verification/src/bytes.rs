//! Byte strings.
use vstd::prelude::*;

verus! {

/// The contents of each byte string in a list.
pub open spec fn views(list: Seq<Vec<u8>>) -> Seq<Seq<u8>> {
    Seq::new(list.len(), |i: int| list[i]@)
}

/// Whether two byte strings are the same.
pub fn same_bytes(a: &[u8], b: &[u8]) -> (same: bool)
    ensures
        same == (a@ == b@),
{
    if a.len() != b.len() {
        return false;
    }
    let len: usize = a.len();
    let mut i: usize = 0;
    while i < len
        invariant
            i <= len,
            len == a@.len(),
            len == b@.len(),
            forall|j: int| 0 <= j < i ==> a@[j] == b@[j],
        decreases len - i,
    {
        if a[i] != b[i] {
            return false;
        }
        i = i + 1;
    }
    assert(a@ =~= b@);
    true
}

/// A fresh copy of `data[from..to]`.
pub fn copy_range(data: &[u8], from: usize, to: usize) -> (copy: Vec<u8>)
    requires
        from <= to <= data@.len(),
    ensures
        copy@ == data@.subrange(from as int, to as int),
{
    let total: usize = data.len();
    let mut copy: Vec<u8> = Vec::new();
    let mut i: usize = from;
    while i < to
        invariant
            from <= i <= to <= total,
            total == data@.len(),
            copy@ == data@.subrange(from as int, i as int),
        decreases to - i,
    {
        copy.push(data[i]);
        i = i + 1;
        assert(copy@ =~= data@.subrange(from as int, i as int));
    }
    copy
}

/// Appends `data` to `buf`.
pub fn push_bytes(buf: &mut Vec<u8>, data: &[u8])
    ensures
        final(buf)@ == old(buf)@ + data@,
{
    let total: usize = data.len();
    let mut i: usize = 0;
    while i < total
        invariant
            i <= total,
            total == data@.len(),
            buf@ == old(buf)@ + data@.take(i as int),
        decreases total - i,
    {
        buf.push(data[i]);
        i = i + 1;
        assert(buf@ =~= old(buf)@ + data@.take(i as int));
    }
    assert(data@.take(total as int) =~= data@);
}

/// The first `N` bytes of `data` from `from` on, as an array.
pub fn read_array<const N: usize>(data: &[u8], from: usize) -> (array: [u8; N])
    requires
        from + N <= data@.len(),
    ensures
        array@ == data@.subrange(from as int, from + N),
{
    let total: usize = data.len();
    let mut array: [u8; N] = [0u8; N];
    let mut i: usize = 0;
    while i < N
        invariant
            i <= N,
            from + N <= total,
            total == data@.len(),
            forall|j: int| 0 <= j < i ==> array@[j] == data@[from + j],
        decreases N - i,
    {
        array[i] = data[from + i];
        i = i + 1;
    }
    assert(array@ =~= data@.subrange(from as int, from + N));
    array
}

/// The contents of a list of byte strings are those of each string, in its place.
pub proof fn views_keep_places(list: Seq<Vec<u8>>, i: int)
    requires
        0 <= i < list.len(),
    ensures
        views(list).len() == list.len(),
        views(list)[i] == list[i]@,
{
}

} // verus!
