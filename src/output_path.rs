use vstd::prelude::*;

verus! {

/// The byte of the path separator.
pub const SEPARATOR: u8 = 47;

/// The part of a key that names its file below the output root: the key
/// without its single leading separator.
pub open spec fn relative_spec(key: Seq<u8>) -> Seq<u8> {
    if key.len() > 0 && key[0] == SEPARATOR {
        key.drop_first()
    } else {
        key
    }
}

/// `rel` placed below `root`, with one separator between them.
pub open spec fn join_spec(root: Seq<u8>, rel: Seq<u8>) -> Seq<u8> {
    if root.len() == 0 {
        rel
    } else if root.last() == SEPARATOR {
        root + rel
    } else {
        root.push(SEPARATOR) + rel
    }
}

/// The file into which the value of `key` is written.
pub open spec fn output_path_spec(root: Seq<u8>, key: Seq<u8>) -> Seq<u8> {
    join_spec(root, relative_spec(key))
}

/// Every key that the store lists starts with a separator.
pub open spec fn is_store_key(key: Seq<u8>) -> bool {
    key.len() > 0 && key[0] == SEPARATOR
}

pub(crate) fn append_from(out: &mut Vec<u8>, src: &Vec<u8>, start: usize)
    requires
        start <= src@.len(),
    ensures
        final(out)@ == old(out)@ + src@.subrange(start as int, src@.len() as int),
{
    let mut i: usize = start;
    while i < src.len()
        invariant
            start <= i <= src@.len(),
            out@ == old(out)@ + src@.subrange(start as int, i as int),
        decreases src@.len() - i,
    {
        out.push(src[i]);
        i = i + 1;
    }
}

/// The key without its single leading separator.
pub fn relative_path(key: &Vec<u8>) -> (r: Vec<u8>)
    ensures
        r@ == relative_spec(key@),
{
    let mut r: Vec<u8> = Vec::new();
    if key.len() > 0 && key[0] == SEPARATOR {
        append_from(&mut r, key, 1);
        assert(r@ =~= key@.drop_first());
    } else {
        append_from(&mut r, key, 0);
        assert(r@ =~= key@);
    }
    r
}

/// The path of the file that receives the value of `key` below `root`.
pub fn output_path(root: &Vec<u8>, key: &Vec<u8>) -> (r: Vec<u8>)
    ensures
        r@ == output_path_spec(root@, key@),
{
    let rel = relative_path(key);
    let mut r: Vec<u8> = Vec::new();
    if root.len() == 0 {
        append_from(&mut r, &rel, 0);
        assert(r@ =~= rel@);
    } else {
        append_from(&mut r, root, 0);
        assert(r@ =~= root@);
        if root[root.len() - 1] != SEPARATOR {
            r.push(SEPARATOR);
        }
        append_from(&mut r, &rel, 0);
        assert(rel@.subrange(0, rel@.len() as int) =~= rel@);
    }
    r
}

/// Distinct store keys never share an output file, so each listed key gets a
/// file of its own.
pub proof fn lemma_output_paths_distinct(root: Seq<u8>, k1: Seq<u8>, k2: Seq<u8>)
    requires
        is_store_key(k1),
        is_store_key(k2),
        k1 != k2,
    ensures
        output_path_spec(root, k1) != output_path_spec(root, k2),
{
    let r1 = relative_spec(k1);
    let r2 = relative_spec(k2);
    if r1 == r2 {
        assert(k1 =~= seq![SEPARATOR] + r1);
        assert(k2 =~= seq![SEPARATOR] + r2);
    }
    let p1 = output_path_spec(root, k1);
    let p2 = output_path_spec(root, k2);
    let pre = if root.len() == 0 {
        root
    } else if root.last() == SEPARATOR {
        root
    } else {
        root.push(SEPARATOR)
    };
    assert(p1 == pre + r1);
    assert(p2 == pre + r2);
    if p1 == p2 {
        assert(r1 =~= p1.subrange(pre.len() as int, p1.len() as int));
        assert(r2 =~= p2.subrange(pre.len() as int, p2.len() as int));
    }
}

} // verus!
