//! What the hourly clean-up has to remove from disk.

use vstd::prelude::*;
use crate::handlers::stored_file;
use crate::models::{FileType, Filebox};

verus! {

/// The files of the file boxes among `deleted`, in their order, each as the
/// path under `upload_path` where it is stored.
pub open spec fn spec_files_to_remove(
    deleted: Seq<Filebox>,
    upload_path: Seq<char>,
) -> Seq<Seq<char>>
    decreases deleted.len(),
{
    if deleted.len() == 0 {
        Seq::empty()
    } else {
        let earlier = spec_files_to_remove(deleted.drop_last(), upload_path);
        if deleted.last().file_type == FileType::File {
            earlier.push(upload_path + "/"@ + deleted.last().file_path@)
        } else {
            earlier
        }
    }
}

/// The files to remove once the boxes `deleted` have left the table. Text
/// boxes have no file.
pub fn start_clean_expired_filebox(
    deleted: &Vec<Filebox>,
    upload_path: &str,
) -> (paths: Vec<String>)
    ensures
        paths.deep_view() == spec_files_to_remove(deleted@, upload_path@),
{
    let mut paths: Vec<String> = Vec::new();
    let mut i: usize = 0;
    while i < deleted.len()
        invariant
            i <= deleted@.len(),
            paths.deep_view() == spec_files_to_remove(deleted@.take(i as int), upload_path@),
        decreases deleted@.len() - i,
    {
        assert(deleted@.take(i + 1).drop_last() =~= deleted@.take(i as int));
        if deleted[i].file_type == FileType::File {
            let path: String = stored_file(upload_path, deleted[i].file_path.as_str());
            paths.push(path);
        }
        i += 1;
    }
    assert(deleted@.take(deleted@.len() as int) =~= deleted@);
    paths
}

} // verus!
