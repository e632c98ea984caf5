//! Files that are made up when they are asked for.
use crate::text::{concat, copy, opt_text, sort, sorted, texts};
use crate::types::vfs::{bytes_out, file_of, VfsError, VfsErrorView, FsMetadata};
use vstd::prelude::*;
use vstd::slice::slice_to_vec;
use vstd::string::*;
use vstd::utf8::encode_utf8;

verus! {

/// The text that was found, or that there is nothing at `path`.
pub open spec fn found(path: Seq<char>, value: Option<Seq<char>>) -> Result<Seq<u8>, VfsErrorView> {
    match value {
        Some(text) => Ok(encode_utf8(text)),
        None => Err(VfsErrorView::NotFound(path)),
    }
}

/// The text that was found, or that there is nothing at `path`.
pub fn found_text(path: &str, value: Option<String>) -> (r: Result<Vec<u8>, VfsError>)
    ensures
        bytes_out(r) == found(path@, opt_text(value)),
{
    match value {
        Some(text) => Ok(slice_to_vec(text.as_str().as_bytes())),
        None => Err(VfsError::NotFound(copy(path))),
    }
}

/// The metadata of a file, from what reading it gives.
pub open spec fn sized(bytes: Result<Seq<u8>, VfsErrorView>) -> Result<FsMetadata, VfsErrorView> {
    match bytes {
        Ok(data) => Ok(file_of(data.len())),
        Err(e) => Err(e),
    }
}

/// The same texts in ascending order.
pub open spec fn is_sorted_copy(names: Seq<Seq<char>>, out: Result<Seq<Seq<char>>, VfsErrorView>) -> bool {
    &&& out is Ok
    &&& sorted(out->Ok_0)
    &&& out->Ok_0.to_multiset() == names.to_multiset()
}

/// What a change under a read-only directory is denied with.
pub open spec fn is_read_only(path: Seq<char>) -> VfsErrorView {
    VfsErrorView::PermissionDenied(path + " is read-only"@)
}

/// What a change under a read-only directory is denied with.
pub fn read_only_error(path: &str) -> (r: VfsError)
    ensures
        r@ == is_read_only(path@),
{
    VfsError::PermissionDenied(concat(path, " is read-only"))
}

/// A listing in ascending order.
pub fn sorted_listing(names: Vec<String>) -> (r: Result<Vec<String>, VfsError>)
    ensures
        r is Ok,
        is_sorted_copy(texts(names@), Ok(texts(r->Ok_0@))),
{
    Ok(sort(names))
}

} // verus!
