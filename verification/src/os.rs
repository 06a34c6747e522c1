//! Numbers of the operating system interface.

use vstd::prelude::*;

verus! {

/// `libc::EPERM`: on Linux this error code is 1.
#[verifier::external_body]
pub(crate) fn eperm() -> (code: i32)
    ensures
        code == 1,
{
    libc::EPERM
}

/// `libc::EACCES`: on Linux this error code is 13.
#[verifier::external_body]
pub(crate) fn eacces() -> (code: i32)
    ensures
        code == 13,
{
    libc::EACCES
}

/// `libc::ENOSYS`: on Linux for x86_64 and aarch64 this error code is 38.
#[verifier::external_body]
pub(crate) fn enosys() -> (code: i32)
    ensures
        code == 38,
{
    libc::ENOSYS
}

/// `libc::EOPNOTSUPP`: on Linux for x86_64 and aarch64 this error code is 95.
#[verifier::external_body]
pub(crate) fn eopnotsupp() -> (code: i32)
    ensures
        code == 95,
{
    libc::EOPNOTSUPP
}

/// `libc::SIGSEGV`: on Linux this signal number is 11.
#[verifier::external_body]
pub(crate) fn sigsegv() -> (signal: i32)
    ensures
        signal == 11,
{
    libc::SIGSEGV
}

/// `libc::SIGPROF`: on Linux for x86_64 and aarch64 this signal number is 27.
#[verifier::external_body]
pub(crate) fn sigprof() -> (signal: i32)
    ensures
        signal == 27,
{
    libc::SIGPROF
}

/// `libc::SA_SIGINFO`: on Linux for x86_64 and aarch64 this flag is 4.
#[verifier::external_body]
pub(crate) fn sa_siginfo() -> (flag: i32)
    ensures
        flag == 4,
{
    libc::SA_SIGINFO
}

/// `libc::SA_RESTART`: on Linux for x86_64 and aarch64 this flag is 0x10000000.
#[verifier::external_body]
pub(crate) fn sa_restart() -> (flag: i32)
    ensures
        flag == 0x1000_0000,
{
    libc::SA_RESTART
}

/// `libc::SA_NODEFER`: on Linux for x86_64 and aarch64 this flag is 0x40000000.
#[verifier::external_body]
pub(crate) fn sa_nodefer() -> (flag: i32)
    ensures
        flag == 0x4000_0000,
{
    libc::SA_NODEFER
}

/// `libc::SIG_DFL`: the handler value 0 asks for the default action.
#[verifier::external_body]
pub(crate) fn sig_dfl() -> (handler: usize)
    ensures
        handler == 0,
{
    libc::SIG_DFL
}

/// `libc::SIG_IGN`: the handler value 1 asks for the signal to be ignored.
#[verifier::external_body]
pub(crate) fn sig_ign() -> (handler: usize)
    ensures
        handler == 1,
{
    libc::SIG_IGN
}

/// `libc::CLOCK_THREAD_CPUTIME_ID`: on Linux this clock number is 3.
#[verifier::external_body]
pub(crate) fn clock_thread_cputime_id() -> (clock: i32)
    ensures
        clock == 3,
{
    libc::CLOCK_THREAD_CPUTIME_ID
}

} // verus!
