//! Material to inject into an image or container: either a host file,
//! named by its path, or literal bytes.

use vstd::prelude::*;
use crate::path::RsPath;

verus! {

/// Exactly one of a host path or a byte payload.
#[derive(Clone, Debug, PartialEq, Eq)]
pub enum RsCopyDataSource {
    File { path: RsPath },
    Data { bytes: Vec<u8> },
}

pub fn rs_copy_data_source_file(path: RsPath) -> (r: RsCopyDataSource)
    ensures
        r == (RsCopyDataSource::File { path }),
{
    RsCopyDataSource::File { path }
}

pub fn rs_copy_data_source_data(data: Vec<u8>) -> (r: RsCopyDataSource)
    ensures
        r == (RsCopyDataSource::Data { bytes: data }),
{
    RsCopyDataSource::Data { bytes: data }
}

pub fn rs_copy_data_source_destroy(source: RsCopyDataSource) {
    let _ = source;
}

} // verus!
