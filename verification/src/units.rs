use vstd::prelude::*;

verus! {

/// `x` kibibytes in bytes.
pub fn kilobytes(x: u64) -> (bytes: u64)
    requires
        x * 1024 <= u64::MAX,
    ensures
        bytes == x * 1024,
{
    x * 1024
}

/// `x` mebibytes in bytes: `kilobytes(x) * 1024`.
pub fn megabytes(x: u64) -> (bytes: u64)
    requires
        x * 1024 * 1024 <= u64::MAX,
    ensures
        bytes == x * 1024 * 1024,
{
    kilobytes(x) * 1024
}

/// `x` gibibytes in bytes: `megabytes(x) * 1024`.
pub fn gigabytes(x: u64) -> (bytes: u64)
    requires
        x * 1024 * 1024 * 1024 <= u64::MAX,
    ensures
        bytes == x * 1024 * 1024 * 1024,
{
    megabytes(x) * 1024
}

/// `x` tebibytes in bytes: `gigabytes(x) * 1024`.
pub fn terabytes(x: u64) -> (bytes: u64)
    requires
        x * 1024 * 1024 * 1024 * 1024 <= u64::MAX,
    ensures
        bytes == x * 1024 * 1024 * 1024 * 1024,
{
    gigabytes(x) * 1024
}

} // verus!
