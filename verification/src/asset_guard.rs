use vstd::prelude::*;
use vstd::string::StringSliceAdditionalSpecFns;

verus! {

/// The first line of every Git LFS pointer file.
pub const GIT_LFS_POINTER_PREFIX: &'static str = "version https://git-lfs.github.com/spec/v1";

/// The bytes that every Git LFS pointer file starts with.
pub open spec fn git_lfs_pointer_prefix() -> Seq<u8> {
    GIT_LFS_POINTER_PREFIX.spec_bytes()
}

pub fn is_git_lfs_pointer(bytes: &[u8]) -> (r: bool)
    ensures
        r == git_lfs_pointer_prefix().is_prefix_of(bytes@),
{
    let prefix = GIT_LFS_POINTER_PREFIX.as_bytes();
    if bytes.len() < prefix.len() {
        return false;
    }
    let mut i: usize = 0;
    while i < prefix.len()
        invariant
            prefix@ == git_lfs_pointer_prefix(),
            prefix@.len() <= bytes@.len(),
            i <= prefix@.len(),
            forall|j: int| 0 <= j < i ==> prefix@[j] == bytes@[j],
        decreases prefix@.len() - i,
    {
        if prefix[i] != bytes[i] {
            return false;
        }
        i = i + 1;
    }
    assert(prefix@ =~= bytes@.subrange(0, prefix@.len() as int));
    true
}

/// Where reading the first bytes of an asset stands after one read.
#[derive(Clone, Copy, Debug, Eq, PartialEq, Structural)]
pub enum PrefixRead {
    /// `filled` bytes are in; read on.
    Continue { filled: usize },
    /// Reading is over with `filled` bytes: the prefix is full, or the asset
    /// ended.
    Done { filled: usize },
}

/// Accounts for a read of `bytes_read` bytes into a prefix buffer of
/// `wanted` bytes that held `filled`. A read of nothing means the asset
/// ended.
pub fn advance_prefix_read(filled: usize, wanted: usize, bytes_read: usize) -> (r: PrefixRead)
    requires
        filled < wanted,
        bytes_read <= wanted - filled,
    ensures
        bytes_read == 0 ==> r == (PrefixRead::Done { filled }),
        bytes_read > 0 && filled + bytes_read < wanted ==> r == (PrefixRead::Continue {
            filled: (filled + bytes_read) as usize,
        }),
        bytes_read > 0 && filled + bytes_read == wanted ==> r == (PrefixRead::Done {
            filled: wanted,
        }),
{
    if bytes_read == 0 {
        return PrefixRead::Done { filled };
    }
    let filled = filled + bytes_read;
    if filled < wanted {
        PrefixRead::Continue { filled }
    } else {
        PrefixRead::Done { filled }
    }
}

} // verus!
