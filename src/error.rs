use vstd::prelude::*;

verus! {

/// The system error number of an invalid argument.
pub const EINVAL: u32 = 22;

/// The ways a call across the ring boundary can fail.
#[derive(Clone, Copy, Debug, PartialEq, Eq, Structural)]
pub enum RingError {
    /// The capacity, or the combination of setup flags, is not supported.
    Config,
    /// The kernel refused to set up the ring; carries the system error number.
    Resource { errno: u32 },
    /// A submit or wait call failed; carries the system error number.
    Io { errno: u32 },
}

/// The system error number that a negative status stands for.
pub open spec fn errno_of(status: i32) -> u32 {
    (-(status as int)) as u32
}

/// Reads the status of a submit or wait call: a count when it is not negative, else
/// the negated system error number.
pub fn resultify(x: i32) -> (r: Result<u32, RingError>)
    ensures
        x >= 0 ==> r == Ok::<u32, RingError>(x as u32),
        x < 0 ==> r == Err::<u32, RingError>(RingError::Io { errno: errno_of(x) }),
{
    if x >= 0 {
        Ok(x as u32)
    } else {
        let errno: i64 = 0i64 - (x as i64);
        Err(RingError::Io { errno: errno as u32 })
    }
}

/// Reads the status of the ring-creation call: an invalid argument is a configuration
/// the kernel does not support, any other failure a refused resource.
pub fn setup_result(status: i32) -> (r: Result<(), RingError>)
    ensures
        status >= 0 ==> r == Ok::<(), RingError>(()),
        status < 0 && errno_of(status) == EINVAL ==> r == Err::<(), RingError>(RingError::Config),
        status < 0 && errno_of(status) != EINVAL ==> r == Err::<(), RingError>(
            RingError::Resource { errno: errno_of(status) },
        ),
{
    if status >= 0 {
        Ok(())
    } else {
        let errno: u32 = (0i64 - (status as i64)) as u32;
        if errno == EINVAL {
            Err(RingError::Config)
        } else {
            Err(RingError::Resource { errno })
        }
    }
}

} // verus!
