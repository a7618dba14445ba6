use vstd::prelude::*;

use crate::InstallError;

verus! {

/// The path separator inside archive entry names.
pub const SEPARATOR: u8 = 47;

/// The destination path of an entry under strip-root extraction: everything
/// after the entry name's first separator. An entry with no separator is the
/// wrapping top-level name itself and has no destination.
pub open spec fn strip_root_spec(p: Seq<u8>) -> Option<Seq<u8>> {
    match p.index_of_first(SEPARATOR) {
        Some(i) => Some(p.subrange(i + 1, p.len() as int)),
        None => None,
    }
}

/// The index of the first separator in an entry's name, if any.
fn find_separator(entry: &Vec<u8>) -> (r: Option<usize>)
    ensures
        r matches Some(i) ==> i < entry@.len() && entry@[i as int] == SEPARATOR && (forall|j: int|
            0 <= j < i ==> entry@[j] != SEPARATOR),
        r is None ==> forall|j: int| 0 <= j < entry@.len() ==> entry@[j] != SEPARATOR,
{
    let mut i: usize = 0;
    while i < entry.len()
        invariant
            i <= entry@.len(),
            forall|j: int| 0 <= j < i ==> entry@[j] != SEPARATOR,
        decreases entry@.len() - i,
    {
        if entry[i] == SEPARATOR {
            return Some(i);
        }
        i = i + 1;
    }
    None
}

/// Strip-root: removes exactly the first path component from one entry's
/// name, or reports that the name consists of a bare top-level component.
pub fn strip_root(entry: &Vec<u8>) -> (r: Option<Vec<u8>>)
    ensures
        r is Some <==> strip_root_spec(entry@) is Some,
        r matches Some(v) ==> strip_root_spec(entry@) == Some(v@),
{
    proof {
        entry@.index_of_first_ensures(SEPARATOR);
    }
    match find_separator(entry) {
        None => None,
        Some(i) => {
            let n = entry.len();
            proof {
                assert(i < n);
                assert(entry@.contains(SEPARATOR)) by {
                    assert(entry@[i as int] == SEPARATOR);
                }
                assert(entry@.index_of_first(SEPARATOR) == Some(i as int));
            }
            let mut out: Vec<u8> = Vec::new();
            let mut j: usize = i + 1;
            while j < entry.len()
                invariant
                    i + 1 <= j <= entry@.len(),
                    out@ == entry@.subrange(i + 1, j as int),
                decreases entry@.len() - j,
            {
                proof {
                    assert(entry@.subrange(i + 1, j + 1) =~= entry@.subrange(
                        i + 1,
                        j as int,
                    ).push(entry@[j as int]));
                }
                out.push(entry[j]);
                j = j + 1;
            }
            Some(out)
        },
    }
}

/// Applies strip-root to every entry of an archive's listing: the stripped
/// path of each entry, in order, or `None` where some entry is a bare
/// top-level name with nothing below it.
pub fn strip_all(entries: &Vec<Vec<u8>>) -> (r: Option<Vec<Vec<u8>>>)
    ensures
        r is Some <==> (forall|k: int|
            0 <= k < entries@.len() ==> strip_root_spec(entries@[k]@) is Some),
        r matches Some(v) ==> v@.len() == entries@.len() && (forall|k: int|
            0 <= k < entries@.len() ==> strip_root_spec(entries@[k]@) == Some(v@[k]@)),
{
    let mut out: Vec<Vec<u8>> = Vec::new();
    let mut k: usize = 0;
    while k < entries.len()
        invariant
            k <= entries@.len(),
            out@.len() == k,
            forall|m: int| 0 <= m < k ==> strip_root_spec(entries@[m]@) == Some(out@[m]@),
        decreases entries@.len() - k,
    {
        match strip_root(&entries[k]) {
            Some(v) => {
                out.push(v);
            },
            None => {
                return None;
            },
        }
        k = k + 1;
    }
    Some(out)
}

/// Law: strip-root removes exactly one path component. An entry named
/// `root`, a separator, then `rest`, with a separator-free `root`, maps to
/// exactly `rest`; so an archive wrapped in a single top-level folder has
/// that folder's contents extracted directly into the destination.
pub proof fn lemma_strip_wrapped_entry(root: Seq<u8>, rest: Seq<u8>)
    requires
        forall|j: int| 0 <= j < root.len() ==> root[j] != SEPARATOR,
    ensures
        strip_root_spec(root + seq![SEPARATOR] + rest) == Some(rest),
{
    let p = root + seq![SEPARATOR] + rest;
    p.index_of_first_ensures(SEPARATOR);
    assert(p[root.len() as int] == SEPARATOR);
    assert(p.contains(SEPARATOR));
    let i = p.index_of_first(SEPARATOR).unwrap();
    assert(i == root.len()) by {
        assert(p[i] == SEPARATOR);
        if i < root.len() {
            assert(p[i] == root[i]);
        }
    }
    assert(p.subrange(i + 1, p.len() as int) =~= rest);
}

/// Law: the converse decomposition. Whenever strip-root rewrites an entry,
/// the original name is exactly the removed separator-free component, one
/// separator, and the result.
pub proof fn lemma_strip_decomposition(p: Seq<u8>)
    requires
        strip_root_spec(p) is Some,
    ensures
        ({
            let i = p.index_of_first(SEPARATOR).unwrap();
            &&& 0 <= i < p.len()
            &&& p =~= p.subrange(0, i) + seq![SEPARATOR] + strip_root_spec(p).unwrap()
            &&& forall|j: int| 0 <= j < i ==> p.subrange(0, i)[j] != SEPARATOR
        }),
{
    p.index_of_first_ensures(SEPARATOR);
    let i = p.index_of_first(SEPARATOR).unwrap();
    assert(p =~= p.subrange(0, i) + seq![SEPARATOR] + p.subrange(i + 1, p.len() as int));
}

/// The decoded content of a gzip member, as a function of the compressed
/// bytes alone.
pub uninterp spec fn gunzip_of(b: Seq<u8>) -> Seq<u8>;

/// Whether the decoder accepts `b` as a well-formed gzip member, again as a
/// function of the compressed bytes alone.
pub uninterp spec fn gunzip_ok(b: Seq<u8>) -> bool;

/// Relies on flate2's bufread::GzDecoder, read to the end of the member:
/// whether the bytes decode, and to what, are pure functions of the
/// compressed bytes; malformed input is reported as an error, never a panic.
#[verifier::external_body]
fn gunzip(b: &Vec<u8>) -> (r: Option<Vec<u8>>)
    ensures
        r is Some <==> gunzip_ok(b@),
        r matches Some(v) ==> v@ == gunzip_of(b@),
{
    let mut decoder = flate2::bufread::GzDecoder::new(b.as_slice());
    let mut out = Vec::new();
    match std::io::Read::read_to_end(&mut decoder, &mut out) {
        Ok(_) => Some(out),
        Err(_) => None,
    }
}

/// Decodes a gzip-compressed archive held in memory: the decoded bytes for
/// exactly the inputs the decoder accepts, a format error for the rest.
pub fn unpack_gzip(bytes: &Vec<u8>) -> (r: Result<Vec<u8>, InstallError>)
    ensures
        r is Ok <==> gunzip_ok(bytes@),
        r matches Ok(v) ==> v@ == gunzip_of(bytes@),
        r matches Err(e) ==> e == InstallError::BadArchive,
{
    match gunzip(bytes) {
        Some(v) => Ok(v),
        None => Err(InstallError::BadArchive),
    }
}

} // verus!
