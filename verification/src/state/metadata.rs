//! The key/value metadata attached to a file.

use vstd::prelude::*;

use crate::state::pubkey::Pubkey;

verus! {

/// One key/value metadata entry.
#[derive(Clone, Debug, PartialEq)]
pub struct Metadata {
    pub key: String,
    pub value: String,
}

/// The fields a caller supplies to replace a file's metadata.
#[derive(Clone, Debug, PartialEq)]
pub struct MetadataData {
    pub metadata: Vec<Metadata>,
}

/// The metadata record of one file.
#[derive(Clone, Debug, PartialEq)]
pub struct FileMetadata {
    pub file_id: Pubkey,
    pub metadata: Vec<Metadata>,
    pub bump: u8,
}

/// A change notification for external cache consumers.
#[derive(Clone, Copy, Debug, PartialEq, Eq, Structural)]
pub struct MetadataUpdated {
    pub time: i64,
    pub file_id: Pubkey,
    pub authority: Pubkey,
}

/// Copies a metadata list, entry for entry.
pub fn clone_metadata(list: &Vec<Metadata>) -> (r: Vec<Metadata>)
    ensures
        r@ == list@,
{
    let mut out: Vec<Metadata> = Vec::new();
    let n = list.len();
    let mut i: usize = 0;
    while i < n
        invariant
            n == list@.len(),
            0 <= i <= n,
            out@ == list@.subrange(0, i as int),
        decreases n - i,
    {
        let entry = &list[i];
        out.push(Metadata { key: entry.key.clone(), value: entry.value.clone() });
        i = i + 1;
        proof {
            assert(out@ =~= list@.subrange(0, i as int));
        }
    }
    proof {
        assert(list@.subrange(0, n as int) =~= list@);
    }
    out
}

} // verus!
