//! Block copies: the chunk size they use.
use vstd::prelude::*;

use crate::error::{Error, Fault, Result, fault};

verus! {

/// The chunk size of block copies when a plan names none: 4 MiB.
pub const DEFAULT_BLOCK_SIZE: usize = 4194304;

/// A block copy needs a chunk size greater than zero.
pub fn check_block_size(block_size: usize) -> (r: Result<()>)
    ensures
        block_size > 0 <==> r is Ok,
        r matches Err(e) ==> fault(e) == (Fault::InvalidArgument {
            message: "block_size must be greater than zero"@,
        }),
{
    if block_size == 0 {
        return Err(
            Error::InvalidArgument {
                message: String::from_str("block_size must be greater than zero"),
            },
        );
    }
    Ok(())
}

/// The chunk size a plan asks for, or the default.
pub fn effective_block_size(block_size: Option<usize>) -> (r: usize)
    ensures
        r == match block_size {
            Some(b) => b,
            None => DEFAULT_BLOCK_SIZE,
        },
{
    match block_size {
        Some(b) => b,
        None => DEFAULT_BLOCK_SIZE,
    }
}


/// What a block copy does after a read.
#[derive(Debug, PartialEq, Eq, Structural)]
pub enum CopyStep {
    /// Write the `len` bytes just read.
    Write { len: usize },
    /// The source is exhausted: `total` bytes were copied.
    Finish { total: u64 },
}

/// A block copy in progress: its chunk size and the bytes copied so far.
#[derive(Debug)]
pub struct BlockCopy {
    block_size: usize,
    total: u64,
}

impl BlockCopy {
    #[verifier::type_invariant]
    spec fn well_formed(self) -> bool {
        self.block_size > 0
    }

    /// The chunk size.
    pub closed spec fn chunk(&self) -> usize {
        self.block_size
    }

    /// The bytes copied so far.
    pub closed spec fn copied(&self) -> u64 {
        self.total
    }

    /// Start a copy in chunks of `block_size`, which must not be zero.
    pub fn start(block_size: usize) -> (r: Result<BlockCopy>)
        ensures
            block_size > 0 <==> r is Ok,
            r matches Ok(c) ==> (c.chunk() == block_size && c.copied() == 0),
            r matches Err(e) ==> fault(e) == (Fault::InvalidArgument {
                message: "block_size must be greater than zero"@,
            }),
    {
        check_block_size(block_size)?;
        Ok(BlockCopy { block_size, total: 0 })
    }

    pub fn block_size(&self) -> (r: usize)
        ensures
            r == self.chunk(),
            r > 0,
    {
        proof {
            use_type_invariant(self);
        }
        self.block_size
    }

    pub fn total(&self) -> (r: u64)
        ensures
            r == self.copied(),
    {
        self.total
    }

    /// The step after a read of `bytes_read` bytes: at the end of the source the copy
    /// finishes with its total; otherwise the bytes are written and counted.
    pub fn after_read(&mut self, bytes_read: usize) -> (r: CopyStep)
        requires
            bytes_read <= old(self).chunk(),
            old(self).copied() + bytes_read <= u64::MAX,
        ensures
            final(self).chunk() == old(self).chunk(),
            bytes_read == 0 ==> (r == (CopyStep::Finish { total: old(self).copied() })
                && final(self).copied() == old(self).copied()),
            bytes_read > 0 ==> (r == (CopyStep::Write { len: bytes_read }) && final(self).copied()
                == old(self).copied() + bytes_read),
    {
        if bytes_read == 0 {
            return CopyStep::Finish { total: self.total };
        }
        self.total = self.total + bytes_read as u64;
        CopyStep::Write { len: bytes_read }
    }
}

} // verus!
