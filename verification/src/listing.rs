//! Enumeration of images: given the entries of a directory as the
//! caller read them, keep the regular files with a supported image
//! extension whose bytes decode, and report a read-only snapshot of
//! each.  A corrupt or unrecognized file is skipped, never an error:
//! the batch must not fail wholesale because one file is bad.

use vstd::prelude::*;

use crate::errors::ImgError;
use crate::names::{base_name_of, file_name_of, is_supported_image_name, supported_image_name};
use crate::raster::{decode_image, decoded_dims};

verus! {

/// A read-only snapshot of one enumerated image; never mutated after
/// construction.
#[derive(Debug)]
pub struct ImageInfo {
    pub path: String,
    pub name: String,
    pub width: u32,
    pub height: u32,
    pub size: u64,
}

/// The view of an [`ImageInfo`]: its strings as character sequences
/// beside the numeric fields.
pub open spec fn info_view(i: ImageInfo) -> (Seq<char>, Seq<char>, u32, u32, u64) {
    (i.path@, i.name@, i.width, i.height, i.size)
}

/// One directory entry as the caller read it: path, file name, byte
/// size on disk, whether it is a regular file, and its raw bytes.
pub struct FileEntry {
    pub path: String,
    pub name: String,
    pub size: u64,
    pub is_file: bool,
    pub data: Vec<u8>,
}

/// An entry the enumeration lists: a regular file with a supported
/// image extension whose bytes decode.
pub open spec fn entry_listed(e: FileEntry) -> bool {
    e.is_file && supported_image_name(e.name@) && decoded_dims(e.data@) is Some
}

/// The snapshot a listed entry appears as.
pub open spec fn entry_info(e: FileEntry) -> (Seq<char>, Seq<char>, u32, u32, u64)
    recommends
        decoded_dims(e.data@) is Some,
{
    (e.path@, e.name@, (decoded_dims(e.data@)->0).0, (decoded_dims(e.data@)->0).1, e.size)
}

/// The snapshots of exactly the listed entries, in directory order.
pub open spec fn listed_infos(s: Seq<FileEntry>) -> Seq<(Seq<char>, Seq<char>, u32, u32, u64)>
    decreases s.len(),
{
    if s.len() == 0 {
        Seq::empty()
    } else {
        listed_infos(s.drop_last()) + (if entry_listed(s.last()) {
            seq![entry_info(s.last())]
        } else {
            Seq::empty()
        })
    }
}

/// Enumerate the images among `entries`: exactly the regular files
/// whose extension is supported and whose bytes decode are returned,
/// in order; every other entry is skipped, and nothing fails.
pub fn list_images(entries: &Vec<FileEntry>) -> (r: Vec<ImageInfo>)
    ensures
        r@.map_values(|x: ImageInfo| info_view(x)) == listed_infos(entries@),
{
    let mut out: Vec<ImageInfo> = Vec::new();
    let n = entries.len();
    let mut i: usize = 0;
    while i < n
        invariant
            i <= n,
            n == entries@.len(),
            out@.map_values(|x: ImageInfo| info_view(x)) == listed_infos(entries@.take(i as int)),
        decreases n - i,
    {
        let e = &entries[i];
        if e.is_file && is_supported_image_name(e.name.as_str()) {
            match decode_image(&e.data) {
                Ok(h) => {
                    let (w, ht) = h.dimensions();
                    let info = ImageInfo {
                        path: e.path.clone(),
                        name: e.name.clone(),
                        width: w,
                        height: ht,
                        size: e.size,
                    };
                    out.push(info);
                },
                Err(_) => {},
            }
        }
        proof {
            let s = entries@;
            assert(s.take(i + 1).drop_last() =~= s.take(i as int));
            assert(s.take(i + 1).last() == s[i as int]);
            assert(out@.map_values(|x: ImageInfo| info_view(x)) =~= listed_infos(s.take(i + 1)));
        }
        i = i + 1;
    }
    proof {
        assert(entries@.take(n as int) =~= entries@);
    }
    out
}

/// Build the info snapshot for one file from its path, its byte size
/// on disk, and its raw bytes; the name is the file-name part of the
/// path.
pub fn image_info_from_bytes(path: String, size: u64, data: &Vec<u8>) -> (r: Result<
    ImageInfo,
    ImgError,
>)
    ensures
        r is Ok <==> decoded_dims(data@) is Some,
        r matches Ok(info) ==> info_view(info) == (
            path@,
            base_name_of(path@),
            (decoded_dims(data@)->0).0,
            (decoded_dims(data@)->0).1,
            size,
        ),
        r matches Err(e) ==> e is Decode,
{
    let h = match decode_image(data) {
        Ok(h) => h,
        Err(e) => return Err(e),
    };
    let (w, ht) = h.dimensions();
    let name = file_name_of(path.as_str()).to_owned();
    Ok(ImageInfo { path, name, width: w, height: ht, size })
}

} // verus!
