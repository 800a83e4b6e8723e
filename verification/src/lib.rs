//! Error numbers returned from macOS system calls.
//!
//! The crate's one value type, [`Error`], wraps a 32-bit signed integer that is
//! never zero. Around it stand the table of named error numbers, the lookup of
//! a number's name, equality with the integer types, the textual forms, and a
//! mapping from the error conditions that POSIX names.
//!
//! Each named error is a function without parameters, called by the name that
//! `errno.h` gives the number: `ENOENT()` is the error with number 2.

pub mod compare;
pub mod error;
pub mod format;
pub mod ordering;
pub mod posix;
pub mod table;

pub use error::Error;
pub use posix::{from_posix, PosixError};
pub use table::{
    E2BIG, EACCES, EADDRINUSE, EADDRNOTAVAIL, EAFNOSUPPORT, EAGAIN, EALREADY, EAUTH, EBADARCH,
    EBADEXEC, EBADF, EBADMACHO, EBADMSG, EBADRPC, EBUSY, ECANCELED, ECHILD, ECONNABORTED,
    ECONNREFUSED, ECONNRESET, EDEADLK, EDESTADDRREQ, EDEVERR, EDOM, EDQUOT, EEXIST, EFAULT,
    EFBIG, EFTYPE, EHOSTDOWN, EHOSTUNREACH, EIDRM, EILSEQ, EINPROGRESS, EINTR, EINVAL, EIO,
    EISCONN, EISDIR, ELOOP, EMFILE, EMLINK, EMSGSIZE, EMULTIHOP, ENAMETOOLONG, ENEEDAUTH,
    ENETDOWN, ENETRESET, ENETUNREACH, ENFILE, ENOATTR, ENOBUFS, ENODATA, ENODEV, ENOENT,
    ENOEXEC, ENOLCK, ENOLINK, ENOMEM, ENOMSG, ENOPOLICY, ENOPROTOOPT, ENOSPC, ENOSR, ENOSTR,
    ENOSYS, ENOTBLK, ENOTCONN, ENOTDIR, ENOTEMPTY, ENOTRECOVERABLE, ENOTSOCK, ENOTSUP, ENOTTY,
    ENXIO, EOPNOTSUPP, EOVERFLOW, EOWNERDEAD, EPERM, EPFNOSUPPORT, EPIPE, EPROCLIM,
    EPROCUNAVAIL, EPROGMISMATCH, EPROGUNAVAIL, EPROTO, EPROTONOSUPPORT, EPROTOTYPE, EPWROFF,
    EQFULL, ERANGE, EREMOTE, EROFS, ERPCMISMATCH, ESHLIBVERS, ESHUTDOWN, ESOCKTNOSUPPORT,
    ESPIPE, ESRCH, ESTALE, ETIME, ETIMEDOUT, ETOOMANYREFS, ETXTBSY, EUSERS, EWOULDBLOCK, EXDEV,
};
