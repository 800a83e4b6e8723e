//! The error conditions that POSIX names, and the macOS error of each.

use vstd::prelude::*;
use vstd::std_specs::cmp::PartialEqSpec;
use crate::error::Error;
use crate::table::symbol;
use crate::table::{
    E2BIG, EACCES, EADDRINUSE, EADDRNOTAVAIL, EAFNOSUPPORT, EAGAIN, EALREADY, EBADF, EBADMSG,
    EBUSY, ECANCELED, ECHILD, ECONNABORTED, ECONNREFUSED, ECONNRESET, EDEADLK, EDESTADDRREQ,
    EDOM, EDQUOT, EEXIST, EFAULT, EFBIG, EHOSTUNREACH, EIDRM, EILSEQ, EINPROGRESS, EINTR,
    EINVAL, EIO, EISCONN, EISDIR, ELOOP, EMFILE, EMLINK, EMSGSIZE, EMULTIHOP, ENAMETOOLONG,
    ENETDOWN, ENETRESET, ENETUNREACH, ENFILE, ENOBUFS, ENODATA, ENODEV, ENOENT, ENOEXEC,
    ENOLCK, ENOLINK, ENOMEM, ENOMSG, ENOPROTOOPT, ENOSPC, ENOSR, ENOSTR, ENOSYS, ENOTCONN,
    ENOTDIR, ENOTEMPTY, ENOTRECOVERABLE, ENOTSOCK, ENOTSUP, ENOTTY, ENXIO, EOPNOTSUPP,
    EOVERFLOW, EOWNERDEAD, EPERM, EPIPE, EPROTO, EPROTONOSUPPORT, EPROTOTYPE, ERANGE, EROFS,
    ESPIPE, ESRCH, ESTALE, ETIME, ETIMEDOUT, ETXTBSY, EWOULDBLOCK, EXDEV,
};

verus! {

/// An error condition by its POSIX name, whatever number a system gives it.
#[derive(Clone, Copy, Debug, PartialEq, Eq, Structural, Hash, PartialOrd, Ord)]
pub enum PosixError {
    /// Argument list too long.
    E2BIG,
    /// Permission denied.
    EACCES,
    /// Address in use.
    EADDRINUSE,
    /// Address not available.
    EADDRNOTAVAIL,
    /// Address family not supported.
    EAFNOSUPPORT,
    /// Resource unavailable, try again.
    EAGAIN,
    /// Connection already in progress.
    EALREADY,
    /// Bad file descriptor.
    EBADF,
    /// Bad message.
    EBADMSG,
    /// Device or resource busy.
    EBUSY,
    /// Operation canceled.
    ECANCELED,
    /// No child processes.
    ECHILD,
    /// Connection aborted.
    ECONNABORTED,
    /// Connection refused.
    ECONNREFUSED,
    /// Connection reset.
    ECONNRESET,
    /// Resource deadlock would occur.
    EDEADLK,
    /// Destination address required.
    EDESTADDRREQ,
    /// Mathematics argument out of domain of function.
    EDOM,
    /// Reserved.
    EDQUOT,
    /// File exists.
    EEXIST,
    /// Bad address.
    EFAULT,
    /// File too large.
    EFBIG,
    /// Host is unreachable.
    EHOSTUNREACH,
    /// Identifier removed.
    EIDRM,
    /// Illegal byte sequence.
    EILSEQ,
    /// Operation in progress.
    EINPROGRESS,
    /// Interrupted function.
    EINTR,
    /// Invalid argument.
    EINVAL,
    /// I/O error.
    EIO,
    /// Socket is connected.
    EISCONN,
    /// Is a directory.
    EISDIR,
    /// Too many levels of symbolic links.
    ELOOP,
    /// File descriptor value too large.
    EMFILE,
    /// Too many links.
    EMLINK,
    /// Message too large.
    EMSGSIZE,
    /// Reserved.
    EMULTIHOP,
    /// Filename too long.
    ENAMETOOLONG,
    /// Network is down.
    ENETDOWN,
    /// Connection aborted by network.
    ENETRESET,
    /// Network unreachable.
    ENETUNREACH,
    /// Too many files open in system.
    ENFILE,
    /// No buffer space available.
    ENOBUFS,
    /// No message is available on the STREAM head read queue.
    ENODATA,
    /// No such device.
    ENODEV,
    /// No such file or directory.
    ENOENT,
    /// Executable file format error.
    ENOEXEC,
    /// No locks available.
    ENOLCK,
    /// Reserved.
    ENOLINK,
    /// Not enough space.
    ENOMEM,
    /// No message of the desired type.
    ENOMSG,
    /// Protocol not available.
    ENOPROTOOPT,
    /// No space left on device.
    ENOSPC,
    /// No STREAM resources.
    ENOSR,
    /// Not a STREAM.
    ENOSTR,
    /// Functionality not supported.
    ENOSYS,
    /// The socket is not connected.
    ENOTCONN,
    /// Not a directory or a symbolic link to a directory.
    ENOTDIR,
    /// Directory not empty.
    ENOTEMPTY,
    /// State not recoverable.
    ENOTRECOVERABLE,
    /// Not a socket.
    ENOTSOCK,
    /// Not supported.
    ENOTSUP,
    /// Inappropriate I/O control operation.
    ENOTTY,
    /// No such device or address.
    ENXIO,
    /// Operation not supported on socket.
    EOPNOTSUPP,
    /// Value too large to be stored in data type.
    EOVERFLOW,
    /// Previous owner died.
    EOWNERDEAD,
    /// Operation not permitted.
    EPERM,
    /// Broken pipe.
    EPIPE,
    /// Protocol error.
    EPROTO,
    /// Protocol not supported.
    EPROTONOSUPPORT,
    /// Protocol wrong type for socket.
    EPROTOTYPE,
    /// Result too large.
    ERANGE,
    /// Read-only file system.
    EROFS,
    /// Invalid seek.
    ESPIPE,
    /// No such process.
    ESRCH,
    /// Reserved.
    ESTALE,
    /// Stream ioctl() timeout.
    ETIME,
    /// Connection timed out.
    ETIMEDOUT,
    /// Text file busy.
    ETXTBSY,
    /// Operation would block.
    EWOULDBLOCK,
    /// Cross-device link.
    EXDEV,
    /// A condition that this list does not name.
    Unlisted,
}

/// The macOS error number of a POSIX error condition, or `None` where macOS
/// has no error for it.
pub open spec fn posix_number(err: PosixError) -> Option<int> {
    match err {
        PosixError::E2BIG => Some(7),
        PosixError::EACCES => Some(13),
        PosixError::EADDRINUSE => Some(48),
        PosixError::EADDRNOTAVAIL => Some(49),
        PosixError::EAFNOSUPPORT => Some(47),
        PosixError::EAGAIN => Some(35),
        PosixError::EALREADY => Some(37),
        PosixError::EBADF => Some(9),
        PosixError::EBADMSG => Some(94),
        PosixError::EBUSY => Some(16),
        PosixError::ECANCELED => Some(89),
        PosixError::ECHILD => Some(10),
        PosixError::ECONNABORTED => Some(53),
        PosixError::ECONNREFUSED => Some(61),
        PosixError::ECONNRESET => Some(54),
        PosixError::EDEADLK => Some(11),
        PosixError::EDESTADDRREQ => Some(39),
        PosixError::EDOM => Some(33),
        PosixError::EDQUOT => Some(69),
        PosixError::EEXIST => Some(17),
        PosixError::EFAULT => Some(14),
        PosixError::EFBIG => Some(27),
        PosixError::EHOSTUNREACH => Some(65),
        PosixError::EIDRM => Some(90),
        PosixError::EILSEQ => Some(92),
        PosixError::EINPROGRESS => Some(36),
        PosixError::EINTR => Some(4),
        PosixError::EINVAL => Some(22),
        PosixError::EIO => Some(5),
        PosixError::EISCONN => Some(56),
        PosixError::EISDIR => Some(21),
        PosixError::ELOOP => Some(62),
        PosixError::EMFILE => Some(24),
        PosixError::EMLINK => Some(31),
        PosixError::EMSGSIZE => Some(40),
        PosixError::EMULTIHOP => Some(95),
        PosixError::ENAMETOOLONG => Some(63),
        PosixError::ENETDOWN => Some(50),
        PosixError::ENETRESET => Some(52),
        PosixError::ENETUNREACH => Some(51),
        PosixError::ENFILE => Some(23),
        PosixError::ENOBUFS => Some(55),
        PosixError::ENODATA => Some(96),
        PosixError::ENODEV => Some(19),
        PosixError::ENOENT => Some(2),
        PosixError::ENOEXEC => Some(8),
        PosixError::ENOLCK => Some(77),
        PosixError::ENOLINK => Some(97),
        PosixError::ENOMEM => Some(12),
        PosixError::ENOMSG => Some(91),
        PosixError::ENOPROTOOPT => Some(42),
        PosixError::ENOSPC => Some(28),
        PosixError::ENOSR => Some(98),
        PosixError::ENOSTR => Some(99),
        PosixError::ENOSYS => Some(78),
        PosixError::ENOTCONN => Some(57),
        PosixError::ENOTDIR => Some(20),
        PosixError::ENOTEMPTY => Some(66),
        PosixError::ENOTRECOVERABLE => Some(104),
        PosixError::ENOTSOCK => Some(38),
        PosixError::ENOTSUP => Some(45),
        PosixError::ENOTTY => Some(25),
        PosixError::ENXIO => Some(6),
        PosixError::EOPNOTSUPP => Some(102),
        PosixError::EOVERFLOW => Some(84),
        PosixError::EOWNERDEAD => Some(105),
        PosixError::EPERM => Some(1),
        PosixError::EPIPE => Some(32),
        PosixError::EPROTO => Some(100),
        PosixError::EPROTONOSUPPORT => Some(43),
        PosixError::EPROTOTYPE => Some(41),
        PosixError::ERANGE => Some(34),
        PosixError::EROFS => Some(30),
        PosixError::ESPIPE => Some(29),
        PosixError::ESRCH => Some(3),
        PosixError::ESTALE => Some(70),
        PosixError::ETIME => Some(101),
        PosixError::ETIMEDOUT => Some(60),
        PosixError::ETXTBSY => Some(26),
        PosixError::EWOULDBLOCK => Some(35),
        PosixError::EXDEV => Some(18),
        PosixError::Unlisted => None,
    }
}

/// The POSIX name of an error condition, or `None` where it has none.
pub open spec fn posix_symbol(err: PosixError) -> Option<&'static str> {
    match err {
        PosixError::E2BIG => Some("E2BIG"),
        PosixError::EACCES => Some("EACCES"),
        PosixError::EADDRINUSE => Some("EADDRINUSE"),
        PosixError::EADDRNOTAVAIL => Some("EADDRNOTAVAIL"),
        PosixError::EAFNOSUPPORT => Some("EAFNOSUPPORT"),
        PosixError::EAGAIN => Some("EAGAIN"),
        PosixError::EALREADY => Some("EALREADY"),
        PosixError::EBADF => Some("EBADF"),
        PosixError::EBADMSG => Some("EBADMSG"),
        PosixError::EBUSY => Some("EBUSY"),
        PosixError::ECANCELED => Some("ECANCELED"),
        PosixError::ECHILD => Some("ECHILD"),
        PosixError::ECONNABORTED => Some("ECONNABORTED"),
        PosixError::ECONNREFUSED => Some("ECONNREFUSED"),
        PosixError::ECONNRESET => Some("ECONNRESET"),
        PosixError::EDEADLK => Some("EDEADLK"),
        PosixError::EDESTADDRREQ => Some("EDESTADDRREQ"),
        PosixError::EDOM => Some("EDOM"),
        PosixError::EDQUOT => Some("EDQUOT"),
        PosixError::EEXIST => Some("EEXIST"),
        PosixError::EFAULT => Some("EFAULT"),
        PosixError::EFBIG => Some("EFBIG"),
        PosixError::EHOSTUNREACH => Some("EHOSTUNREACH"),
        PosixError::EIDRM => Some("EIDRM"),
        PosixError::EILSEQ => Some("EILSEQ"),
        PosixError::EINPROGRESS => Some("EINPROGRESS"),
        PosixError::EINTR => Some("EINTR"),
        PosixError::EINVAL => Some("EINVAL"),
        PosixError::EIO => Some("EIO"),
        PosixError::EISCONN => Some("EISCONN"),
        PosixError::EISDIR => Some("EISDIR"),
        PosixError::ELOOP => Some("ELOOP"),
        PosixError::EMFILE => Some("EMFILE"),
        PosixError::EMLINK => Some("EMLINK"),
        PosixError::EMSGSIZE => Some("EMSGSIZE"),
        PosixError::EMULTIHOP => Some("EMULTIHOP"),
        PosixError::ENAMETOOLONG => Some("ENAMETOOLONG"),
        PosixError::ENETDOWN => Some("ENETDOWN"),
        PosixError::ENETRESET => Some("ENETRESET"),
        PosixError::ENETUNREACH => Some("ENETUNREACH"),
        PosixError::ENFILE => Some("ENFILE"),
        PosixError::ENOBUFS => Some("ENOBUFS"),
        PosixError::ENODATA => Some("ENODATA"),
        PosixError::ENODEV => Some("ENODEV"),
        PosixError::ENOENT => Some("ENOENT"),
        PosixError::ENOEXEC => Some("ENOEXEC"),
        PosixError::ENOLCK => Some("ENOLCK"),
        PosixError::ENOLINK => Some("ENOLINK"),
        PosixError::ENOMEM => Some("ENOMEM"),
        PosixError::ENOMSG => Some("ENOMSG"),
        PosixError::ENOPROTOOPT => Some("ENOPROTOOPT"),
        PosixError::ENOSPC => Some("ENOSPC"),
        PosixError::ENOSR => Some("ENOSR"),
        PosixError::ENOSTR => Some("ENOSTR"),
        PosixError::ENOSYS => Some("ENOSYS"),
        PosixError::ENOTCONN => Some("ENOTCONN"),
        PosixError::ENOTDIR => Some("ENOTDIR"),
        PosixError::ENOTEMPTY => Some("ENOTEMPTY"),
        PosixError::ENOTRECOVERABLE => Some("ENOTRECOVERABLE"),
        PosixError::ENOTSOCK => Some("ENOTSOCK"),
        PosixError::ENOTSUP => Some("ENOTSUP"),
        PosixError::ENOTTY => Some("ENOTTY"),
        PosixError::ENXIO => Some("ENXIO"),
        PosixError::EOPNOTSUPP => Some("EOPNOTSUPP"),
        PosixError::EOVERFLOW => Some("EOVERFLOW"),
        PosixError::EOWNERDEAD => Some("EOWNERDEAD"),
        PosixError::EPERM => Some("EPERM"),
        PosixError::EPIPE => Some("EPIPE"),
        PosixError::EPROTO => Some("EPROTO"),
        PosixError::EPROTONOSUPPORT => Some("EPROTONOSUPPORT"),
        PosixError::EPROTOTYPE => Some("EPROTOTYPE"),
        PosixError::ERANGE => Some("ERANGE"),
        PosixError::EROFS => Some("EROFS"),
        PosixError::ESPIPE => Some("ESPIPE"),
        PosixError::ESRCH => Some("ESRCH"),
        PosixError::ESTALE => Some("ESTALE"),
        PosixError::ETIME => Some("ETIME"),
        PosixError::ETIMEDOUT => Some("ETIMEDOUT"),
        PosixError::ETXTBSY => Some("ETXTBSY"),
        PosixError::EWOULDBLOCK => Some("EWOULDBLOCK"),
        PosixError::EXDEV => Some("EXDEV"),
        PosixError::Unlisted => None,
    }
}

/// Maps a POSIX error condition to the macOS error for it, or to `None` where
/// macOS has none.
pub fn from_posix(err: PosixError) -> (r: Option<Error>)
    ensures
        r.is_some() <==> err != PosixError::Unlisted,
        r matches Some(e) ==> posix_number(err) == Some(e@),
        r.is_none() ==> posix_number(err).is_none(),
{
    match err {
        PosixError::E2BIG => Some(E2BIG()),
        PosixError::EACCES => Some(EACCES()),
        PosixError::EADDRINUSE => Some(EADDRINUSE()),
        PosixError::EADDRNOTAVAIL => Some(EADDRNOTAVAIL()),
        PosixError::EAFNOSUPPORT => Some(EAFNOSUPPORT()),
        PosixError::EAGAIN => Some(EAGAIN()),
        PosixError::EALREADY => Some(EALREADY()),
        PosixError::EBADF => Some(EBADF()),
        PosixError::EBADMSG => Some(EBADMSG()),
        PosixError::EBUSY => Some(EBUSY()),
        PosixError::ECANCELED => Some(ECANCELED()),
        PosixError::ECHILD => Some(ECHILD()),
        PosixError::ECONNABORTED => Some(ECONNABORTED()),
        PosixError::ECONNREFUSED => Some(ECONNREFUSED()),
        PosixError::ECONNRESET => Some(ECONNRESET()),
        PosixError::EDEADLK => Some(EDEADLK()),
        PosixError::EDESTADDRREQ => Some(EDESTADDRREQ()),
        PosixError::EDOM => Some(EDOM()),
        PosixError::EDQUOT => Some(EDQUOT()),
        PosixError::EEXIST => Some(EEXIST()),
        PosixError::EFAULT => Some(EFAULT()),
        PosixError::EFBIG => Some(EFBIG()),
        PosixError::EHOSTUNREACH => Some(EHOSTUNREACH()),
        PosixError::EIDRM => Some(EIDRM()),
        PosixError::EILSEQ => Some(EILSEQ()),
        PosixError::EINPROGRESS => Some(EINPROGRESS()),
        PosixError::EINTR => Some(EINTR()),
        PosixError::EINVAL => Some(EINVAL()),
        PosixError::EIO => Some(EIO()),
        PosixError::EISCONN => Some(EISCONN()),
        PosixError::EISDIR => Some(EISDIR()),
        PosixError::ELOOP => Some(ELOOP()),
        PosixError::EMFILE => Some(EMFILE()),
        PosixError::EMLINK => Some(EMLINK()),
        PosixError::EMSGSIZE => Some(EMSGSIZE()),
        PosixError::EMULTIHOP => Some(EMULTIHOP()),
        PosixError::ENAMETOOLONG => Some(ENAMETOOLONG()),
        PosixError::ENETDOWN => Some(ENETDOWN()),
        PosixError::ENETRESET => Some(ENETRESET()),
        PosixError::ENETUNREACH => Some(ENETUNREACH()),
        PosixError::ENFILE => Some(ENFILE()),
        PosixError::ENOBUFS => Some(ENOBUFS()),
        PosixError::ENODATA => Some(ENODATA()),
        PosixError::ENODEV => Some(ENODEV()),
        PosixError::ENOENT => Some(ENOENT()),
        PosixError::ENOEXEC => Some(ENOEXEC()),
        PosixError::ENOLCK => Some(ENOLCK()),
        PosixError::ENOLINK => Some(ENOLINK()),
        PosixError::ENOMEM => Some(ENOMEM()),
        PosixError::ENOMSG => Some(ENOMSG()),
        PosixError::ENOPROTOOPT => Some(ENOPROTOOPT()),
        PosixError::ENOSPC => Some(ENOSPC()),
        PosixError::ENOSR => Some(ENOSR()),
        PosixError::ENOSTR => Some(ENOSTR()),
        PosixError::ENOSYS => Some(ENOSYS()),
        PosixError::ENOTCONN => Some(ENOTCONN()),
        PosixError::ENOTDIR => Some(ENOTDIR()),
        PosixError::ENOTEMPTY => Some(ENOTEMPTY()),
        PosixError::ENOTRECOVERABLE => Some(ENOTRECOVERABLE()),
        PosixError::ENOTSOCK => Some(ENOTSOCK()),
        PosixError::ENOTSUP => Some(ENOTSUP()),
        PosixError::ENOTTY => Some(ENOTTY()),
        PosixError::ENXIO => Some(ENXIO()),
        PosixError::EOPNOTSUPP => Some(EOPNOTSUPP()),
        PosixError::EOVERFLOW => Some(EOVERFLOW()),
        PosixError::EOWNERDEAD => Some(EOWNERDEAD()),
        PosixError::EPERM => Some(EPERM()),
        PosixError::EPIPE => Some(EPIPE()),
        PosixError::EPROTO => Some(EPROTO()),
        PosixError::EPROTONOSUPPORT => Some(EPROTONOSUPPORT()),
        PosixError::EPROTOTYPE => Some(EPROTOTYPE()),
        PosixError::ERANGE => Some(ERANGE()),
        PosixError::EROFS => Some(EROFS()),
        PosixError::ESPIPE => Some(ESPIPE()),
        PosixError::ESRCH => Some(ESRCH()),
        PosixError::ESTALE => Some(ESTALE()),
        PosixError::ETIME => Some(ETIME()),
        PosixError::ETIMEDOUT => Some(ETIMEDOUT()),
        PosixError::ETXTBSY => Some(ETXTBSY()),
        PosixError::EWOULDBLOCK => Some(EWOULDBLOCK()),
        PosixError::EXDEV => Some(EXDEV()),
        PosixError::Unlisted => None,
    }
}

/// An error equals the POSIX condition that maps to it. A condition that maps
/// to no error equals none.
impl PartialEq<PosixError> for Error {
    fn eq(&self, other: &PosixError) -> (r: bool) {
        match from_posix(*other) {
            Some(e) => e.get() == self.get(),
            None => false,
        }
    }
}

impl vstd::std_specs::cmp::PartialEqSpecImpl<PosixError> for Error {
    open spec fn obeys_eq_spec() -> bool {
        true
    }

    open spec fn eq_spec(&self, other: &PosixError) -> bool {
        posix_number(*other) == Some(self@)
    }
}

/// A POSIX condition equals the error that it maps to. A condition that maps
/// to no error equals none.
impl PartialEq<Error> for PosixError {
    fn eq(&self, other: &Error) -> (r: bool) {
        match from_posix(*self) {
            Some(e) => e.get() == other.get(),
            None => false,
        }
    }
}

impl vstd::std_specs::cmp::PartialEqSpecImpl<Error> for PosixError {
    open spec fn obeys_eq_spec() -> bool {
        true
    }

    open spec fn eq_spec(&self, other: &Error) -> bool {
        posix_number(*self) == Some(other@)
    }
}

/// The macOS error of a POSIX condition has the condition's own name, but for
/// `EWOULDBLOCK`, whose number macOS lists as `EAGAIN`.
pub proof fn lemma_posix_keeps_name(err: PosixError)
    requires
        err != PosixError::EWOULDBLOCK,
    ensures
        posix_number(err) matches Some(n) ==> symbol(n) == posix_symbol(err),
        posix_number(PosixError::EWOULDBLOCK) == posix_number(PosixError::EAGAIN),
{
}

/// Every condition but the unlisted one has a macOS error, and its number is
/// that of a named error.
pub proof fn lemma_posix_mapping_total(err: PosixError)
    ensures
        posix_number(err).is_some() <==> err != PosixError::Unlisted,
        posix_number(err) matches Some(n) ==> 1 <= n <= 106 && symbol(n).is_some(),
{
}

/// Equality between an error and a POSIX condition does not depend on which
/// side the error stands, and holds of no error where the condition maps to
/// none.
pub proof fn lemma_posix_eq_symmetric(e: Error, err: PosixError)
    ensures
        e.eq_spec(&err) == err.eq_spec(&e),
        posix_number(err).is_none() ==> !e.eq_spec(&err) && !err.eq_spec(&e),
{
}

} // verus!
