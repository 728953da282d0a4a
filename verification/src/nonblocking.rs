//! The file status flags that put a descriptor in or out of non-blocking mode.

use vstd::prelude::*;

verus! {

/// The file status flags `flags` with the non-blocking flag `o_nonblock`
/// (`O_NONBLOCK` of the platform) switched on or off, every other flag left
/// as it is.
pub fn nonblocking_flags(flags: i32, o_nonblock: i32, nonblocking: bool) -> (r: i32)
    ensures
        r == (if nonblocking {
            flags | o_nonblock
        } else {
            flags & !o_nonblock
        }),
        r & o_nonblock == (if nonblocking {
            o_nonblock
        } else {
            0
        }),
        r & !o_nonblock == flags & !o_nonblock,
{
    if nonblocking {
        let r = flags | o_nonblock;
        assert((flags | o_nonblock) & o_nonblock == o_nonblock) by (bit_vector);
        assert((flags | o_nonblock) & !o_nonblock == flags & !o_nonblock) by (bit_vector);
        r
    } else {
        let r = flags & !o_nonblock;
        assert((flags & !o_nonblock) & o_nonblock == 0) by (bit_vector);
        assert((flags & !o_nonblock) & !o_nonblock == flags & !o_nonblock) by (bit_vector);
        r
    }
}

/// Switching non-blocking mode on and then off gives back the flags with
/// the mode off; switching it twice the same way is switching it once.
pub proof fn lemma_nonblocking_round_trip(flags: i32, o_nonblock: i32)
    ensures
        (flags | o_nonblock) & !o_nonblock == flags & !o_nonblock,
        (flags & !o_nonblock) | o_nonblock == flags | o_nonblock,
        (flags | o_nonblock) | o_nonblock == flags | o_nonblock,
        (flags & !o_nonblock) & !o_nonblock == flags & !o_nonblock,
{
    assert((flags | o_nonblock) & !o_nonblock == flags & !o_nonblock) by (bit_vector);
    assert((flags & !o_nonblock) | o_nonblock == flags | o_nonblock) by (bit_vector);
    assert((flags | o_nonblock) | o_nonblock == flags | o_nonblock) by (bit_vector);
    assert((flags & !o_nonblock) & !o_nonblock == flags & !o_nonblock) by (bit_vector);
}

/// Switching non-blocking mode on a descriptor that was not in it, then
/// off, gives back the flags it had.
pub proof fn lemma_nonblocking_restores(flags: i32, o_nonblock: i32)
    requires
        flags & o_nonblock == 0,
    ensures
        (flags | o_nonblock) & !o_nonblock == flags,
{
    assert(flags & o_nonblock == 0 ==> (flags | o_nonblock) & !o_nonblock == flags) by (bit_vector);
}

} // verus!
