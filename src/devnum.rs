use vstd::prelude::*;

verus! {

/// The device number that encodes a (major, minor) pair.
pub open spec fn dev_number(major: u64, minor: u64) -> u64 {
    ((major & 0xffff_f000u64) << 32u64) | ((major & 0x0000_0fffu64) << 8u64) | ((minor
        & 0xffff_ff00u64) << 12u64) | (minor & 0x0000_00ffu64)
}

/// The major number held in a device number.
pub open spec fn dev_major(dev: u64) -> u64 {
    ((dev >> 32u64) & 0xffff_f000u64) | ((dev >> 8u64) & 0x0000_0fffu64)
}

/// The minor number held in a device number.
pub open spec fn dev_minor(dev: u64) -> u64 {
    ((dev >> 12u64) & 0xffff_ff00u64) | (dev & 0x0000_00ffu64)
}

/// Relies on nix::sys::stat::makedev: Linux's encoding of a (major, minor)
/// pair into one device number.
#[verifier::external_body]
pub(crate) fn make_dev(major: u64, minor: u64) -> (r: u64)
    ensures
        r == dev_number(major, minor),
{
    nix::sys::stat::makedev(major, minor)
}

/// A device number keeps its pair: major and minor numbers of 32 bits come
/// back unchanged.
pub proof fn lemma_dev_number_pair(major: u64, minor: u64)
    requires
        major <= 0xffff_ffffu64,
        minor <= 0xffff_ffffu64,
    ensures
        dev_major(dev_number(major, minor)) == major,
        dev_minor(dev_number(major, minor)) == minor,
{
    assert(dev_major(dev_number(major, minor)) == major) by (bit_vector)
        requires
            major <= 0xffff_ffffu64,
            minor <= 0xffff_ffffu64,
    ;
    assert(dev_minor(dev_number(major, minor)) == minor) by (bit_vector)
        requires
            major <= 0xffff_ffffu64,
            minor <= 0xffff_ffffu64,
    ;
}

} // verus!
