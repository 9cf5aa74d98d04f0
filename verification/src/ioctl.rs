//! FreeBSD ioctl requests.
//!
//! A request number holds, from the top, direction bits, thirteen bits of
//! parameter length, a group letter and a number within the group.

use vstd::prelude::*;

verus! {

/// The parameter lengths that a request number can carry.
pub const IOCPARM_MASK: u64 = 0x1fff;

/// Direction bits of a request without a parameter to copy.
pub const IOC_VOID: u64 = 0x2000_0000;

/// Direction bits of a request that hands a parameter in.
pub const IOC_IN: u64 = 0x8000_0000;

/// Direction bits of a request that hands a parameter in and back.
pub const IOC_INOUT: u64 = 0xC000_0000;

/// A request number: direction bits, then thirteen bits of parameter length,
/// the group letter and the number within the group.
pub open spec fn request_word(inout: u64, group: u8, num: u8, len: usize) -> u64 {
    inout | (((len as u64) & IOCPARM_MASK) << 16) | ((group as u64) << 8) | (num as u64)
}

/// Encodes a request number.
pub fn ioc(inout: u64, group: u8, num: u8, len: usize) -> (request: u64)
    ensures
        request == request_word(inout, group, num, len),
{
    inout | (((len as u64) & IOCPARM_MASK) << 16) | ((group as u64) << 8) | (num as u64)
}

/// Encodes a request without a parameter.
pub fn io(group: u8, num: u8) -> (request: u64)
    ensures
        request == request_word(IOC_VOID, group, num, 0),
{
    ioc(IOC_VOID, group, num, 0)
}

/// Encodes a request that hands in a value of type `T`.
pub fn iow<T>(group: u8, num: u8) -> (request: u64)
    ensures
        request == request_word(IOC_IN, group, num, vstd::layout::size_of::<T>() as usize),
{
    ioc(IOC_IN, group, num, std::mem::size_of::<T>())
}

/// Encodes a request that is sized as an int, whose argument is passed by value.
pub fn iowint(group: u8, num: u8) -> (request: u64)
    ensures
        request == request_word(IOC_VOID, group, num, 4),
{
    broadcast use vstd::layout::layout_of_primitives;

    ioc(IOC_VOID, group, num, std::mem::size_of::<libc::c_int>())
}

/// Encodes a request that hands an int in and back.
pub fn iowr_int(group: u8, num: u8) -> (request: u64)
    ensures
        request == request_word(IOC_INOUT, group, num, 4),
{
    broadcast use vstd::layout::layout_of_primitives;

    ioc(IOC_INOUT, group, num, std::mem::size_of::<libc::c_int>())
}

/// The parts of a request number stand side by side: read as a number, it is
/// the direction bits, plus the length, the group letter and the number, each
/// at its place.
pub proof fn law_request_parts_do_not_overlap(inout: u64, group: u8, num: u8, len: usize)
    requires
        inout % 0x2000_0000 == 0,
        len <= IOCPARM_MASK,
    ensures
        request_word(inout, group, num, len) == inout + len * 0x1_0000 + group * 0x100 + num,
{
    let wide = len as u64;
    assert(inout | ((wide & 0x1fff) << 16) | ((group as u64) << 8) | (num as u64) == inout + wide
        * 0x1_0000 + group * 0x100 + num) by (bit_vector)
        requires
            inout % 0x2000_0000 == 0,
            wide <= 0x1fff,
    ;
}

/// Whether a request was granted, by what the system answered.
pub fn granted(answer: i32) -> (granted: bool)
    ensures
        granted == (answer >= 0),
{
    answer >= 0
}

/// A parameter length that a request number cannot carry is cut off: only its low
/// thirteen bits count.
pub proof fn law_long_parameters_are_cut_off(inout: u64, group: u8, num: u8, len: usize)
    requires
        inout % 0x2000_0000 == 0,
    ensures
        request_word(inout, group, num, len) == inout + (len % 0x2000) * 0x1_0000 + group * 0x100
            + num,
{
    let wide = len as u64;
    assert(wide & 0x1fff == wide % 0x2000) by (bit_vector);
    assert((wide % 0x2000) & 0x1fff == wide % 0x2000) by (bit_vector);
    law_request_parts_do_not_overlap(inout, group, num, (len % 0x2000) as usize);
}

} // verus!
