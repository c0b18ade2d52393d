//! The artifact store: paths of cached artifacts under the cache root, and a
//! model of the store's state.
//!
//! Every cached artifact lives as a flat file `<fingerprint>.png` directly
//! under a fixed cache root directory. The file name is a pure function of
//! the source's content fingerprint — never of its path, name or time — so
//! byte-identical sources share one cache entry. The store's effect on disk
//! is modelled here as a map from file paths to file contents, and the
//! put/get protocol is proved against that model.

use crate::fingerprint::fingerprint;
use crate::fingerprint::fingerprint_of;
use vstd::prelude::*;

verus! {

/// The fixed cache root directory, as a sequence of characters.
pub open spec fn cache_root_spec() -> Seq<char> {
    "./.hash_cache"@
}

/// The fixed file extension of every cached artifact.
pub open spec fn artifact_ext_spec() -> Seq<char> {
    "png"@
}

/// The cache root directory that holds every cached artifact.
pub fn cache_root() -> (r: &'static str)
    ensures
        r@ == cache_root_spec(),
{
    "./.hash_cache"
}

/// The file extension of every cached artifact.
pub fn artifact_ext() -> (r: &'static str)
    ensures
        r@ == artifact_ext_spec(),
{
    "png"
}

/// The file name of the artifact cached under a fingerprint:
/// `<fingerprint>.<extension>`.
pub open spec fn artifact_name_spec(fp: Seq<char>) -> Seq<char> {
    fp + "."@ + artifact_ext_spec()
}

/// The full path of the artifact cached under a fingerprint:
/// `<root>/<fingerprint>.<extension>`.
pub open spec fn artifact_path_spec(fp: Seq<char>) -> Seq<char> {
    cache_root_spec() + "/"@ + artifact_name_spec(fp)
}

/// The path of the artifact cached for a source with the given byte content:
/// the path derived from the source's content fingerprint.
pub open spec fn source_artifact_path(source: Seq<u8>) -> Seq<char> {
    artifact_path_spec(fingerprint_of(source))
}

/// Build the file name of the artifact cached under a fingerprint.
pub fn artifact_name(fp: &str) -> (r: String)
    ensures
        r@ == artifact_name_spec(fp@),
{
    let mut s = String::from_str(fp);
    s.append(".");
    s.append(artifact_ext());
    proof {
        assert(s@ =~= artifact_name_spec(fp@));
    }
    s
}

/// Build the full path of the artifact cached under a fingerprint.
pub fn artifact_path(fp: &str) -> (r: String)
    ensures
        r@ == artifact_path_spec(fp@),
{
    let mut s = String::from_str(cache_root());
    s.append("/");
    let name = artifact_name(fp);
    s.append(name.as_str());
    proof {
        assert(s@ =~= artifact_path_spec(fp@));
    }
    s
}

/// Compute the cache path for a source with the given byte content: its
/// content fingerprint embedded in the artifact naming convention. Both the
/// insert and the lookup path of the cache key their file operation on this
/// one derivation.
pub fn artifact_path_for_source(bytes: &[u8]) -> (r: String)
    ensures
        r@ == source_artifact_path(bytes@),
{
    let fp = fingerprint(bytes);
    artifact_path(fp.as_str())
}

/// The cache directory modelled as a flat map from file paths to file
/// contents (the encoded artifact bytes).
pub type StoreModel = Map<Seq<char>, Seq<u8>>;

/// The store's state after inserting an artifact for a source with the given
/// byte content: the artifact's bytes stand at the derived path, replacing
/// whatever stood there before.
pub open spec fn put_model(fs: StoreModel, source: Seq<u8>, artifact: Seq<u8>) -> StoreModel {
    fs.insert(source_artifact_path(source), artifact)
}

/// The result of a lookup for a source with the given byte content: the
/// bytes at the derived path if an entry exists there, absence otherwise.
pub open spec fn get_model(fs: StoreModel, source: Seq<u8>) -> Option<Seq<u8>> {
    if fs.contains_key(source_artifact_path(source)) {
        Some(fs[source_artifact_path(source)])
    } else {
        None
    }
}

/// Round trip: inserting an artifact for a source and then looking that
/// source up returns exactly the stored artifact bytes. (Over the store
/// model; that the artifact survives its encoding to and decoding from the
/// lossless on-disk image format is the codec's work, outside this crate.)
pub proof fn lemma_put_then_get(fs: StoreModel, source: Seq<u8>, artifact: Seq<u8>)
    ensures
        get_model(put_model(fs, source, artifact), source) == Some(artifact),
{
}

/// Miss on an unknown source: a lookup for a source whose derived path holds
/// no entry returns absence.
pub proof fn lemma_get_miss(fs: StoreModel, source: Seq<u8>)
    requires
        !fs.contains_key(source_artifact_path(source)),
    ensures
        get_model(fs, source) is None,
{
}

/// Overwrite semantics: inserting twice for the same source keeps only the
/// second artifact — one entry per fingerprint, last write wins.
pub proof fn lemma_put_overwrites(fs: StoreModel, source: Seq<u8>, a1: Seq<u8>, a2: Seq<u8>)
    ensures
        get_model(put_model(put_model(fs, source, a1), source, a2), source) == Some(a2),
        put_model(put_model(fs, source, a1), source, a2) == put_model(fs, source, a2),
{
    assert(put_model(put_model(fs, source, a1), source, a2) =~= put_model(fs, source, a2));
}

/// Sources with equal byte content share one cache entry: their derived
/// paths coincide, so a put for one is seen by a get for the other.
pub proof fn lemma_shared_entry(fs: StoreModel, s1: Seq<u8>, s2: Seq<u8>, artifact: Seq<u8>)
    requires
        s1 == s2,
    ensures
        get_model(put_model(fs, s1, artifact), s2) == Some(artifact),
{
}

/// The set of directories on disk, after the cache root has been ensured:
/// preparing the root adds it to whatever directories already exist.
pub open spec fn prepare_model(dirs: Set<Seq<char>>) -> Set<Seq<char>> {
    dirs.insert(cache_root_spec())
}

/// Idempotent root preparation: ensuring the cache root twice in a row
/// leaves the same directory state as ensuring it once.
pub proof fn lemma_prepare_idempotent(dirs: Set<Seq<char>>)
    ensures
        prepare_model(prepare_model(dirs)) == prepare_model(dirs),
{
    assert(prepare_model(prepare_model(dirs)) =~= prepare_model(dirs));
}

} // verus!
