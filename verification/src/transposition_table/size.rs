use vstd::prelude::*;

verus! {

/// The size of the transposition table.
#[derive(Copy, Clone, Debug, PartialEq, Eq, Hash, Structural)]
pub enum Size {
    /// The size in bytes.
    B(u64),
    /// The size in kilobytes (1000 bytes).
    KB(u64),
    /// The size in megabytes (10^6 bytes).
    MB(u64),
    /// The size in gigabytes (10^9 bytes).
    GB(u64),
    /// The size in kibibytes (1024 bytes).
    KiB(u64),
    /// The size in mebibytes (2^20 bytes).
    MiB(u64),
    /// The size in gibibytes (2^30 bytes).
    GiB(u64),
}

impl Size {
    /// The number of bytes this size stands for.
    pub open spec fn bytes(self) -> int {
        match self {
            Size::B(size) => size as int,
            Size::KB(size) => size * 1000,
            Size::MB(size) => size * 1000 * 1000,
            Size::GB(size) => size * 1000 * 1000 * 1000,
            Size::KiB(size) => size * 1024,
            Size::MiB(size) => size * 1024 * 1024,
            Size::GiB(size) => size * 1024 * 1024 * 1024,
        }
    }

    /// The number of bytes this size stands for.
    pub fn in_bytes(self) -> (bytes: usize)
        requires
            self.bytes() <= usize::MAX,
        ensures
            bytes == self.bytes(),
    {
        match self {
            Size::B(size) => size as usize,
            Size::KB(size) => size as usize * 1000,
            Size::MB(size) => size as usize * 1000 * 1000,
            Size::GB(size) => size as usize * 1000 * 1000 * 1000,
            Size::KiB(size) => size as usize * 1024,
            Size::MiB(size) => size as usize * 1024 * 1024,
            Size::GiB(size) => size as usize * 1024 * 1024 * 1024,
        }
    }
}

} // verus!
