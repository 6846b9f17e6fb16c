//! Anonymous shared-memory provisioning.
//!
//! The allocator first tries an anonymous sealed memory file; where that
//! facility is unavailable it falls back to a named, filesystem-visible
//! object whose name is derived from the clock and unlinked right after
//! creation.  Interruptions and name collisions are retried; every other
//! failure is surfaced.  The decision taken after each system call is a
//! verified function of the call's outcome alone, so the retry rules are
//! checked for every outcome the system could report.

use vstd::prelude::*;

use crate::error::ShmErrno;
use nix::errno::Errno;
use nix::fcntl::{FcntlArg, OFlag, SealFlag};
use nix::sys::memfd::MemFdCreateFlag;
use nix::sys::stat::Mode;

verus! {

/// The number of times a non-fatal outcome (an interruption or a name
/// collision) is retried before the allocator gives up.  Large enough that
/// exhausting it means the system is persistently refusing the call.
pub const SHM_RETRY_LIMIT: u64 = 0xffff_ffff;

/// What the allocator does after one attempt to create the anonymous
/// sealed memory file.
#[derive(Clone, Copy, Debug, PartialEq, Eq, Structural)]
pub enum MemfdStep {
    /// The attempt returned this descriptor: seal it and use it.
    UseFd(i32),
    /// The attempt was interrupted: try again.
    Retry,
    /// The facility does not exist here: fall back to a named object.
    UseFallback,
    /// Any other failure ends the allocation.
    FailWith(ShmErrno),
}

/// What the allocator does after one attempt to create the named object.
#[derive(Clone, Copy, Debug, PartialEq, Eq, Structural)]
pub enum NamedStep {
    /// The attempt returned this descriptor: unlink the name and use it.
    UnlinkAndUse(i32),
    /// The attempt was interrupted: try again under the same name.
    RetrySameName,
    /// The name is taken: derive a fresh name and try again.
    RetryNewName,
    /// Any other failure ends the allocation.
    FailWith(ShmErrno),
}

/// The decision taken after one anonymous-memory-file attempt.
pub open spec fn spec_memfd_step(r: Result<i32, ShmErrno>) -> MemfdStep {
    match r {
        Ok(fd) => MemfdStep::UseFd(fd),
        Err(ShmErrno::Interrupted) => MemfdStep::Retry,
        Err(ShmErrno::Unavailable) => MemfdStep::UseFallback,
        Err(e) => MemfdStep::FailWith(e),
    }
}

/// The decision taken after one named-object attempt.
pub open spec fn spec_named_step(r: Result<i32, ShmErrno>) -> NamedStep {
    match r {
        Ok(fd) => NamedStep::UnlinkAndUse(fd),
        Err(ShmErrno::Interrupted) => NamedStep::RetrySameName,
        Err(ShmErrno::AlreadyExists) => NamedStep::RetryNewName,
        Err(e) => NamedStep::FailWith(e),
    }
}

/// Classifies the outcome of one anonymous-memory-file attempt.
pub fn memfd_step(r: Result<i32, ShmErrno>) -> (s: MemfdStep)
    ensures
        s == spec_memfd_step(r),
{
    match r {
        Ok(fd) => MemfdStep::UseFd(fd),
        Err(ShmErrno::Interrupted) => MemfdStep::Retry,
        Err(ShmErrno::Unavailable) => MemfdStep::UseFallback,
        Err(e) => MemfdStep::FailWith(e),
    }
}

/// Classifies the outcome of one named-object attempt.
pub fn named_step(r: Result<i32, ShmErrno>) -> (s: NamedStep)
    ensures
        s == spec_named_step(r),
{
    match r {
        Ok(fd) => NamedStep::UnlinkAndUse(fd),
        Err(ShmErrno::Interrupted) => NamedStep::RetrySameName,
        Err(ShmErrno::AlreadyExists) => NamedStep::RetryNewName,
        Err(e) => NamedStep::FailWith(e),
    }
}

/// The decision the named-object retry loop reaches on a whole sequence of
/// attempt outcomes: the first decision that is not a retry, or a retry
/// when every outcome asks for one.
pub open spec fn named_drive(outcomes: Seq<Result<i32, ShmErrno>>) -> NamedStep
    decreases outcomes.len(),
{
    if outcomes.len() == 0 {
        NamedStep::RetrySameName
    } else {
        match spec_named_step(outcomes[0]) {
            NamedStep::RetrySameName => named_drive(outcomes.drop_first()),
            NamedStep::RetryNewName => named_drive(outcomes.drop_first()),
            s => s,
        }
    }
}

/// Name collisions are absorbed by the retry loop: when every attempt but
/// the last reports that the name already exists, and the last attempt
/// returns a descriptor, the loop settles on that descriptor and surfaces
/// no error.
pub proof fn lemma_collision_retry_succeeds(outcomes: Seq<Result<i32, ShmErrno>>, fd: i32)
    requires
        outcomes.len() > 0,
        forall|i: int|
            0 <= i < outcomes.len() - 1 ==> outcomes[i] == Result::<i32, ShmErrno>::Err(
                ShmErrno::AlreadyExists,
            ),
        outcomes.last() == Result::<i32, ShmErrno>::Ok(fd),
    ensures
        named_drive(outcomes) == NamedStep::UnlinkAndUse(fd),
    decreases outcomes.len(),
{
    if outcomes.len() > 1 {
        lemma_collision_retry_succeeds(outcomes.drop_first(), fd);
    }
}

/// The decimal digits of `n`, most significant first, as ASCII bytes.
pub open spec fn dec_digits(n: nat) -> Seq<u8>
    decreases n,
{
    if n < 10 {
        seq![(48 + n) as u8]
    } else {
        dec_digits(n / 10).push((48 + n % 10) as u8)
    }
}

/// The name under which the fallback object is created: a slash, a fixed
/// prefix, and the decimal rendering of the clock's nanosecond field.
pub open spec fn spec_shm_name(n: u32) -> Seq<u8> {
    seq![47u8, 119u8, 97u8, 121u8, 115u8, 104u8, 111u8, 116u8, 45u8] + dec_digits(n as nat)
}

/// Appends the decimal digits of `n` to `v`.
fn push_decimal(v: &mut Vec<u8>, n: u32)
    ensures
        final(v)@ == old(v)@ + dec_digits(n as nat),
    decreases n,
{
    if n < 10 {
        let d: u8 = 48 + (n as u8);
        v.push(d);
        proof {
            assert(old(v)@.push(d) =~= old(v)@ + dec_digits(n as nat));
        }
    } else {
        push_decimal(v, n / 10);
        let d: u8 = 48 + ((n % 10) as u8);
        v.push(d);
        proof {
            assert((old(v)@ + dec_digits((n / 10) as nat)).push(d) =~= old(v)@ + dec_digits(
                n as nat,
            ));
        }
    }
}

/// Builds the shared-memory object name for nanosecond value `n`:
/// "/wayshot-" followed by `n` in decimal.
pub fn shm_name(n: u32) -> (v: Vec<u8>)
    ensures
        v@ == spec_shm_name(n),
{
    let mut v: Vec<u8> = Vec::new();
    v.push(47);
    v.push(119);
    v.push(97);
    v.push(121);
    v.push(115);
    v.push(104);
    v.push(111);
    v.push(116);
    v.push(45);
    proof {
        assert(v@ =~= seq![47u8, 119u8, 97u8, 121u8, 115u8, 104u8, 111u8, 116u8, 45u8]);
    }
    push_decimal(&mut v, n);
    v
}

/// Relies on nix's `memfd_create`: on success it returns the descriptor of
/// a fresh anonymous memory file (descriptors are never negative); on
/// failure the error number classifies the cause.
#[verifier::external_body]
fn sys_memfd_create() -> (r: Result<i32, ShmErrno>)
    ensures
        r matches Ok(fd) ==> fd >= 0,
{
    let name = core::ffi::CStr::from_bytes_with_nul(b"wayshot\0").unwrap();
    let flags = MemFdCreateFlag::MFD_CLOEXEC | MemFdCreateFlag::MFD_ALLOW_SEALING;
    match nix::sys::memfd::memfd_create(name, flags) {
        Ok(fd) => Ok(fd),
        Err(Errno::EINTR) => Err(ShmErrno::Interrupted),
        Err(Errno::ENOSYS) => Err(ShmErrno::Unavailable),
        Err(Errno::EEXIST) => Err(ShmErrno::AlreadyExists),
        Err(e) => Err(ShmErrno::Other(e as i32)),
    }
}

/// Relies on nix's `fcntl` with `F_ADD_SEALS`: seals the memory file
/// against shrinking.  Sealing is an optimization, so a failure here is
/// deliberately ignored, as nothing depends on the seal being present.
#[verifier::external_body]
fn sys_seal_shrink(fd: i32) {
    let seals = SealFlag::F_SEAL_SHRINK | SealFlag::F_SEAL_SEAL;
    let _ = nix::fcntl::fcntl(fd, FcntlArg::F_ADD_SEALS(seals));
}

/// Relies on nix's `shm_open` with `O_CREAT | O_EXCL`: creates a named
/// shared memory object, reporting `EEXIST` when the name is taken; on
/// success it returns the object's descriptor (never negative).
#[verifier::external_body]
fn sys_shm_open_excl(name: &Vec<u8>) -> (r: Result<i32, ShmErrno>)
    ensures
        r matches Ok(fd) ==> fd >= 0,
{
    let flag = OFlag::O_CREAT | OFlag::O_EXCL | OFlag::O_RDWR | OFlag::O_CLOEXEC;
    let mode = Mode::S_IRUSR | Mode::S_IWUSR;
    match nix::sys::mman::shm_open(name.as_slice(), flag, mode) {
        Ok(fd) => Ok(fd),
        Err(Errno::EINTR) => Err(ShmErrno::Interrupted),
        Err(Errno::ENOSYS) => Err(ShmErrno::Unavailable),
        Err(Errno::EEXIST) => Err(ShmErrno::AlreadyExists),
        Err(e) => Err(ShmErrno::Other(e as i32)),
    }
}

/// Relies on nix's `shm_unlink`: removes the name of a shared memory
/// object, so the object lives on only through its open descriptors.
#[verifier::external_body]
fn sys_shm_unlink(name: &Vec<u8>) -> (r: Result<(), ShmErrno>) {
    match nix::sys::mman::shm_unlink(name.as_slice()) {
        Ok(()) => Ok(()),
        Err(Errno::EINTR) => Err(ShmErrno::Interrupted),
        Err(Errno::ENOSYS) => Err(ShmErrno::Unavailable),
        Err(Errno::EEXIST) => Err(ShmErrno::AlreadyExists),
        Err(e) => Err(ShmErrno::Other(e as i32)),
    }
}

/// Relies on nix's `close`: releases a file descriptor.
#[verifier::external_body]
fn sys_close(fd: i32) -> (r: Result<(), ShmErrno>) {
    match nix::unistd::close(fd) {
        Ok(()) => Ok(()),
        Err(Errno::EINTR) => Err(ShmErrno::Interrupted),
        Err(e) => Err(ShmErrno::Other(e as i32)),
    }
}

/// Relies on nix's `ftruncate`: sets the length of the object behind the
/// descriptor to exactly `len` bytes.
#[verifier::external_body]
fn sys_ftruncate(fd: i32, len: u64) -> (r: Result<(), ShmErrno>)
    requires
        len <= 0x7fff_ffff_ffff_ffff,
{
    match nix::unistd::ftruncate(fd, len as i64) {
        Ok(()) => Ok(()),
        Err(Errno::EINTR) => Err(ShmErrno::Interrupted),
        Err(e) => Err(ShmErrno::Other(e as i32)),
    }
}

/// Relies on nix's `clock_gettime` on the realtime clock: the nanosecond
/// field of the result is always below one billion.
#[verifier::external_body]
fn sys_now_subsec_nanos() -> (r: Result<u32, ShmErrno>)
    ensures
        r matches Ok(n) ==> n < 1000000000,
{
    match nix::time::clock_gettime(nix::time::ClockId::CLOCK_REALTIME) {
        Ok(ts) => Ok(ts.tv_nsec() as u32),
        Err(Errno::EINTR) => Err(ShmErrno::Interrupted),
        Err(e) => Err(ShmErrno::Other(e as i32)),
    }
}

/// The nanosecond field of the clock, or zero when the clock cannot be
/// read; only the name of the fallback object depends on it.
fn fresh_name_nanos() -> (r: u32)
    ensures
        r < 1000000000,
{
    match sys_now_subsec_nanos() {
        Ok(n) => n,
        Err(_) => 0,
    }
}

/// Obtains a file descriptor backing an anonymous shared-memory object.
///
/// First tries the anonymous sealed memory file, retrying interruptions;
/// where the facility is unavailable, falls back to a named object under a
/// clock-derived name, retrying interruptions under the same name and name
/// collisions under a fresh name, and unlinking the name on success.  A
/// descriptor is returned only when the underlying call handed one out, and
/// only after the named object, if one was used, was unlinked; if unlinking
/// fails, the descriptor is closed and the unlink error is returned.
pub fn create_shm_fd() -> (r: Result<i32, ShmErrno>)
    ensures
        r matches Ok(fd) ==> fd >= 0,
{
    let mut tries: u64 = 0;
    while tries < SHM_RETRY_LIMIT
        decreases SHM_RETRY_LIMIT - tries,
    {
        match memfd_step(sys_memfd_create()) {
            MemfdStep::UseFd(fd) => {
                sys_seal_shrink(fd);
                return Ok(fd);
            },
            MemfdStep::Retry => {
                tries = tries + 1;
            },
            MemfdStep::UseFallback => {
                return create_named_fd();
            },
            MemfdStep::FailWith(e) => {
                return Err(e);
            },
        }
    }
    Err(ShmErrno::Interrupted)
}

/// The named-object fallback of `create_shm_fd`.
fn create_named_fd() -> (r: Result<i32, ShmErrno>)
    ensures
        r matches Ok(fd) ==> fd >= 0,
{
    let mut name = shm_name(fresh_name_nanos());
    let mut tries: u64 = 0;
    while tries < SHM_RETRY_LIMIT
        decreases SHM_RETRY_LIMIT - tries,
    {
        match named_step(sys_shm_open_excl(&name)) {
            NamedStep::UnlinkAndUse(fd) => {
                match sys_shm_unlink(&name) {
                    Ok(_) => {
                        return Ok(fd);
                    },
                    Err(e) => {
                        return match sys_close(fd) {
                            Ok(_) => Err(e),
                            Err(close_err) => Err(close_err),
                        };
                    },
                }
            },
            NamedStep::RetrySameName => {
                tries = tries + 1;
            },
            NamedStep::RetryNewName => {
                name = shm_name(fresh_name_nanos());
                tries = tries + 1;
            },
            NamedStep::FailWith(e) => {
                return Err(e);
            },
        }
    }
    Err(ShmErrno::Interrupted)
}

/// Obtains an anonymous shared-memory descriptor and sizes the region to
/// exactly `len` bytes: the allocator is asked for precisely the byte
/// length the caller computed.
pub fn allocate_shm(len: u64) -> (r: Result<i32, ShmErrno>)
    requires
        len <= 0x7fff_ffff_ffff_ffff,
    ensures
        r matches Ok(fd) ==> fd >= 0,
{
    let fd = match create_shm_fd() {
        Ok(fd) => fd,
        Err(e) => {
            return Err(e);
        },
    };
    match sys_ftruncate(fd, len) {
        Ok(_) => Ok(fd),
        Err(e) => {
            let _ = sys_close(fd);
            Err(e)
        },
    }
}

} // verus!
