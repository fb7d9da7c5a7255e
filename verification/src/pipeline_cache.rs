//! The renderer's pipeline-cache file: a stage byte (1 for the area-only
//! pipeline set, 2 for the full set) followed by the cache data. Files
//! without a stage byte are read as untagged caches. Reading and writing
//! the file, and the GPU pipeline cache itself, are left to the caller.

use vstd::prelude::*;
use vstd::slice::{slice_subrange, slice_to_vec};
use vstd::string::StringExecFns;

verus! {

/// The cache file path inside `data_dir`.
pub open spec fn cache_path_in(data_dir: Seq<char>) -> Seq<char> {
    data_dir + "/vello_v1.cache"@
}

/// The pipeline cache file path inside `data_dir`.
pub fn pipeline_cache_path(data_dir: &str) -> (r: String)
    ensures
        r@ == cache_path_in(data_dir@),
{
    let mut s = String::new();
    s.append(data_dir);
    s.append("/vello_v1.cache");
    s
}

/// What a cache file's contents give: the stage and the cache data.
/// Contents of one byte or none are empty; a first byte of 1 or 2 is the
/// stage, and the rest is the data; any other first byte means an untagged
/// cache, all of whose bytes are data.
pub open spec fn read_cache_file(file: Seq<u8>) -> (Option<u8>, Option<Seq<u8>>) {
    if file.len() > 1 {
        if file[0] == 1 || file[0] == 2 {
            (Some(file[0]), Some(file.drop_first()))
        } else {
            (None, Some(file))
        }
    } else {
        (None, None)
    }
}

/// The stage and cache data in a cache file's contents.
pub fn split_cache_file(file: &[u8]) -> (r: (Option<u8>, Option<Vec<u8>>))
    ensures
        r.0 == read_cache_file(file@).0,
        match r.1 {
            Some(d) => read_cache_file(file@).1 == Some(d@),
            None => read_cache_file(file@).1 is None,
        },
{
    if file.len() > 1 {
        let stage = file[0];
        if stage == 1 || stage == 2 {
            let rest = slice_to_vec(slice_subrange(file, 1, file.len()));
            assert(rest@ =~= file@.drop_first());
            (Some(stage), Some(rest))
        } else {
            (None, Some(slice_to_vec(file)))
        }
    } else {
        (None, None)
    }
}

/// The contents to save: the stage byte and the data when the stage is 1
/// or 2, the bare data otherwise.
pub open spec fn cache_file_contents(data: Seq<u8>, stage: Option<u8>) -> Seq<u8> {
    match stage {
        Some(s) => if s == 1 || s == 2 {
            seq![s] + data
        } else {
            data
        },
        None => data,
    }
}

/// The file contents for saving `data` as a cache of `stage`.
pub fn cache_file_for_save(data: &[u8], stage: Option<u8>) -> (r: Vec<u8>)
    ensures
        r@ == cache_file_contents(data@, stage),
{
    let tagged = match stage {
        Some(s) => s == 1 || s == 2,
        None => false,
    };
    if tagged {
        let s = stage.unwrap();
        let mut out: Vec<u8> = Vec::with_capacity(1);
        out.push(s);
        let mut i: usize = 0;
        while i < data.len()
            invariant
                0 <= i <= data@.len(),
                out@ == seq![s] + data@.subrange(0, i as int),
            decreases data@.len() - i,
        {
            out.push(data[i]);
            i = i + 1;
            assert(out@ =~= seq![s] + data@.subrange(0, i as int));
        }
        assert(data@.subrange(0, i as int) =~= data@);
        out
    } else {
        slice_to_vec(data)
    }
}

/// A tagged save reads back as the same stage and data, as long as there is
/// data. An untagged save reads back as an untagged cache unless its first
/// byte happens to be 1 or 2, in which case it reads as tagged.
pub proof fn lemma_cache_file_round_trip(data: Seq<u8>, stage: Option<u8>)
    ensures
        stage matches Some(s) && (s == 1 || s == 2) && data.len() > 0 ==> read_cache_file(
            cache_file_contents(data, stage),
        ) == (stage, Some(data)),
        !(stage matches Some(s) && (s == 1 || s == 2)) && data.len() > 1 && data[0] != 1 && data[0]
            != 2 ==> read_cache_file(cache_file_contents(data, stage)) == (None::<u8>, Some(data)),
{
    if stage matches Some(s) && (s == 1 || s == 2) && data.len() > 0 {
        let f = cache_file_contents(data, stage);
        assert(f.drop_first() =~= data);
    }
}

} // verus!
