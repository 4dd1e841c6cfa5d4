//! The decisions behind a pool of shared memory that holds one buffer.
//!
//! The memory itself is the caller's business: it creates the region, maps
//! it and registers the buffer. What is decided here is how large the
//! region has to be, and what to do when creating it fails.

use vstd::prelude::*;

verus! {

/// The bytes that a pool of `height` rows of `stride` bytes needs, where
/// that is a size that the platform can take.
pub open spec fn size_of(stride: i32, height: i32) -> Option<i32> {
    if 0 <= stride * height <= i32::MAX {
        Some((stride * height) as i32)
    } else {
        None
    }
}

/// The size of a pool of `height` rows of `stride` bytes, or `None`
/// where it is negative or does not fit the platform's 32-bit sizes.
pub fn pool_size(stride: i32, height: i32) -> (size: Option<i32>)
    ensures
        size == size_of(stride, height),
{
    let wide: i64 = stride as i64;
    let tall: i64 = height as i64;
    assert(-0x8000_0000 * 0x8000_0000 <= wide * tall <= 0x8000_0000 * 0x8000_0000)
        by (nonlinear_arith)
        requires
            -0x8000_0000 <= wide <= 0x7fff_ffff,
            -0x8000_0000 <= tall <= 0x7fff_ffff,
    ;
    let size: i64 = wide * tall;
    if 0 <= size && size <= 0x7fff_ffff {
        Some(size as i32)
    } else {
        None
    }
}

/// A way to get an anonymous region of shared memory.
#[derive(Clone, Copy, Debug, PartialEq, Eq, Structural)]
pub enum ShmSource {
    /// A memory file that never had a name.
    Memfd,
    /// A named region that is unlinked as soon as it is open.
    Named,
}

/// Why an attempt to create a region failed.
#[derive(Clone, Copy, Debug, PartialEq, Eq, Structural)]
pub enum ShmFailure {
    /// A signal arrived in the middle of the call.
    Interrupted,
    /// The system does not offer this way at all.
    NotSupported,
    /// A region of the chosen name exists already.
    Exists,
    /// Anything else.
    Other,
}

/// What to do after a failed attempt.
#[derive(Clone, Copy, Debug, PartialEq, Eq, Structural)]
pub enum ShmRetry {
    /// Make the same attempt again.
    Again,
    /// Make the attempt again under a new name.
    Rename,
    /// Go over to a named region.
    Fallback,
    /// Give up and report the failure.
    GiveUp,
}

/// What follows a failure of an attempt on `source`.
pub open spec fn retry_of(source: ShmSource, failure: ShmFailure) -> ShmRetry {
    match (source, failure) {
        (_, ShmFailure::Interrupted) => ShmRetry::Again,
        (ShmSource::Memfd, ShmFailure::NotSupported) => ShmRetry::Fallback,
        (ShmSource::Named, ShmFailure::Exists) => ShmRetry::Rename,
        _ => ShmRetry::GiveUp,
    }
}

/// Decides what to do after an attempt to create a region failed: an
/// interrupted call is made again; a memory file that the system does not
/// offer gives way to a named region; a name that is taken is replaced;
/// anything else is reported.
pub fn after_failure(source: ShmSource, failure: ShmFailure) -> (retry: ShmRetry)
    ensures
        retry == retry_of(source, failure),
{
    match failure {
        ShmFailure::Interrupted => ShmRetry::Again,
        ShmFailure::NotSupported => match source {
            ShmSource::Memfd => ShmRetry::Fallback,
            ShmSource::Named => ShmRetry::GiveUp,
        },
        ShmFailure::Exists => match source {
            ShmSource::Memfd => ShmRetry::GiveUp,
            ShmSource::Named => ShmRetry::Rename,
        },
        ShmFailure::Other => ShmRetry::GiveUp,
    }
}

} // verus!
