//! The table of named error numbers, and the lookup of a number's name.
//!
//! [`symbol`] is the table: it gives each number its name. The named errors
//! and [`err_name`] are each held to it.

use vstd::prelude::*;
use crate::error::Error;

verus! {

/// The symbolic name of an error number, or `None` where the number has none.
///
/// A number that two names share has the name listed here, so 35 is `EAGAIN`.
pub open spec fn symbol(errno: int) -> Option<&'static str> {
    if errno == 1 {
        Some("EPERM")
    } else if errno == 2 {
        Some("ENOENT")
    } else if errno == 3 {
        Some("ESRCH")
    } else if errno == 4 {
        Some("EINTR")
    } else if errno == 5 {
        Some("EIO")
    } else if errno == 6 {
        Some("ENXIO")
    } else if errno == 7 {
        Some("E2BIG")
    } else if errno == 8 {
        Some("ENOEXEC")
    } else if errno == 9 {
        Some("EBADF")
    } else if errno == 10 {
        Some("ECHILD")
    } else if errno == 11 {
        Some("EDEADLK")
    } else if errno == 12 {
        Some("ENOMEM")
    } else if errno == 13 {
        Some("EACCES")
    } else if errno == 14 {
        Some("EFAULT")
    } else if errno == 15 {
        Some("ENOTBLK")
    } else if errno == 16 {
        Some("EBUSY")
    } else if errno == 17 {
        Some("EEXIST")
    } else if errno == 18 {
        Some("EXDEV")
    } else if errno == 19 {
        Some("ENODEV")
    } else if errno == 20 {
        Some("ENOTDIR")
    } else if errno == 21 {
        Some("EISDIR")
    } else if errno == 22 {
        Some("EINVAL")
    } else if errno == 23 {
        Some("ENFILE")
    } else if errno == 24 {
        Some("EMFILE")
    } else if errno == 25 {
        Some("ENOTTY")
    } else if errno == 26 {
        Some("ETXTBSY")
    } else if errno == 27 {
        Some("EFBIG")
    } else if errno == 28 {
        Some("ENOSPC")
    } else if errno == 29 {
        Some("ESPIPE")
    } else if errno == 30 {
        Some("EROFS")
    } else if errno == 31 {
        Some("EMLINK")
    } else if errno == 32 {
        Some("EPIPE")
    } else if errno == 33 {
        Some("EDOM")
    } else if errno == 34 {
        Some("ERANGE")
    } else if errno == 35 {
        Some("EAGAIN")
    } else if errno == 36 {
        Some("EINPROGRESS")
    } else if errno == 37 {
        Some("EALREADY")
    } else if errno == 38 {
        Some("ENOTSOCK")
    } else if errno == 39 {
        Some("EDESTADDRREQ")
    } else if errno == 40 {
        Some("EMSGSIZE")
    } else if errno == 41 {
        Some("EPROTOTYPE")
    } else if errno == 42 {
        Some("ENOPROTOOPT")
    } else if errno == 43 {
        Some("EPROTONOSUPPORT")
    } else if errno == 44 {
        Some("ESOCKTNOSUPPORT")
    } else if errno == 45 {
        Some("ENOTSUP")
    } else if errno == 46 {
        Some("EPFNOSUPPORT")
    } else if errno == 47 {
        Some("EAFNOSUPPORT")
    } else if errno == 48 {
        Some("EADDRINUSE")
    } else if errno == 49 {
        Some("EADDRNOTAVAIL")
    } else if errno == 50 {
        Some("ENETDOWN")
    } else if errno == 51 {
        Some("ENETUNREACH")
    } else if errno == 52 {
        Some("ENETRESET")
    } else if errno == 53 {
        Some("ECONNABORTED")
    } else if errno == 54 {
        Some("ECONNRESET")
    } else if errno == 55 {
        Some("ENOBUFS")
    } else if errno == 56 {
        Some("EISCONN")
    } else if errno == 57 {
        Some("ENOTCONN")
    } else if errno == 58 {
        Some("ESHUTDOWN")
    } else if errno == 59 {
        Some("ETOOMANYREFS")
    } else if errno == 60 {
        Some("ETIMEDOUT")
    } else if errno == 61 {
        Some("ECONNREFUSED")
    } else if errno == 62 {
        Some("ELOOP")
    } else if errno == 63 {
        Some("ENAMETOOLONG")
    } else if errno == 64 {
        Some("EHOSTDOWN")
    } else if errno == 65 {
        Some("EHOSTUNREACH")
    } else if errno == 66 {
        Some("ENOTEMPTY")
    } else if errno == 67 {
        Some("EPROCLIM")
    } else if errno == 68 {
        Some("EUSERS")
    } else if errno == 69 {
        Some("EDQUOT")
    } else if errno == 70 {
        Some("ESTALE")
    } else if errno == 71 {
        Some("EREMOTE")
    } else if errno == 72 {
        Some("EBADRPC")
    } else if errno == 73 {
        Some("ERPCMISMATCH")
    } else if errno == 74 {
        Some("EPROGUNAVAIL")
    } else if errno == 75 {
        Some("EPROGMISMATCH")
    } else if errno == 76 {
        Some("EPROCUNAVAIL")
    } else if errno == 77 {
        Some("ENOLCK")
    } else if errno == 78 {
        Some("ENOSYS")
    } else if errno == 79 {
        Some("EFTYPE")
    } else if errno == 80 {
        Some("EAUTH")
    } else if errno == 81 {
        Some("ENEEDAUTH")
    } else if errno == 82 {
        Some("EPWROFF")
    } else if errno == 83 {
        Some("EDEVERR")
    } else if errno == 84 {
        Some("EOVERFLOW")
    } else if errno == 85 {
        Some("EBADEXEC")
    } else if errno == 86 {
        Some("EBADARCH")
    } else if errno == 87 {
        Some("ESHLIBVERS")
    } else if errno == 88 {
        Some("EBADMACHO")
    } else if errno == 89 {
        Some("ECANCELED")
    } else if errno == 90 {
        Some("EIDRM")
    } else if errno == 91 {
        Some("ENOMSG")
    } else if errno == 92 {
        Some("EILSEQ")
    } else if errno == 93 {
        Some("ENOATTR")
    } else if errno == 94 {
        Some("EBADMSG")
    } else if errno == 95 {
        Some("EMULTIHOP")
    } else if errno == 96 {
        Some("ENODATA")
    } else if errno == 97 {
        Some("ENOLINK")
    } else if errno == 98 {
        Some("ENOSR")
    } else if errno == 99 {
        Some("ENOSTR")
    } else if errno == 100 {
        Some("EPROTO")
    } else if errno == 101 {
        Some("ETIME")
    } else if errno == 102 {
        Some("EOPNOTSUPP")
    } else if errno == 103 {
        Some("ENOPOLICY")
    } else if errno == 104 {
        Some("ENOTRECOVERABLE")
    } else if errno == 105 {
        Some("EOWNERDEAD")
    } else if errno == 106 {
        Some("EQFULL")
    } else {
        None
    }
}

/// Looks up the symbolic name of an error.
pub fn err_name(err: Error) -> (r: Option<&'static str>)
    ensures
        r == symbol(err@),
{
    match err.get() {
        1 => Some("EPERM"),
        2 => Some("ENOENT"),
        3 => Some("ESRCH"),
        4 => Some("EINTR"),
        5 => Some("EIO"),
        6 => Some("ENXIO"),
        7 => Some("E2BIG"),
        8 => Some("ENOEXEC"),
        9 => Some("EBADF"),
        10 => Some("ECHILD"),
        11 => Some("EDEADLK"),
        12 => Some("ENOMEM"),
        13 => Some("EACCES"),
        14 => Some("EFAULT"),
        15 => Some("ENOTBLK"),
        16 => Some("EBUSY"),
        17 => Some("EEXIST"),
        18 => Some("EXDEV"),
        19 => Some("ENODEV"),
        20 => Some("ENOTDIR"),
        21 => Some("EISDIR"),
        22 => Some("EINVAL"),
        23 => Some("ENFILE"),
        24 => Some("EMFILE"),
        25 => Some("ENOTTY"),
        26 => Some("ETXTBSY"),
        27 => Some("EFBIG"),
        28 => Some("ENOSPC"),
        29 => Some("ESPIPE"),
        30 => Some("EROFS"),
        31 => Some("EMLINK"),
        32 => Some("EPIPE"),
        33 => Some("EDOM"),
        34 => Some("ERANGE"),
        35 => Some("EAGAIN"),
        36 => Some("EINPROGRESS"),
        37 => Some("EALREADY"),
        38 => Some("ENOTSOCK"),
        39 => Some("EDESTADDRREQ"),
        40 => Some("EMSGSIZE"),
        41 => Some("EPROTOTYPE"),
        42 => Some("ENOPROTOOPT"),
        43 => Some("EPROTONOSUPPORT"),
        44 => Some("ESOCKTNOSUPPORT"),
        45 => Some("ENOTSUP"),
        46 => Some("EPFNOSUPPORT"),
        47 => Some("EAFNOSUPPORT"),
        48 => Some("EADDRINUSE"),
        49 => Some("EADDRNOTAVAIL"),
        50 => Some("ENETDOWN"),
        51 => Some("ENETUNREACH"),
        52 => Some("ENETRESET"),
        53 => Some("ECONNABORTED"),
        54 => Some("ECONNRESET"),
        55 => Some("ENOBUFS"),
        56 => Some("EISCONN"),
        57 => Some("ENOTCONN"),
        58 => Some("ESHUTDOWN"),
        59 => Some("ETOOMANYREFS"),
        60 => Some("ETIMEDOUT"),
        61 => Some("ECONNREFUSED"),
        62 => Some("ELOOP"),
        63 => Some("ENAMETOOLONG"),
        64 => Some("EHOSTDOWN"),
        65 => Some("EHOSTUNREACH"),
        66 => Some("ENOTEMPTY"),
        67 => Some("EPROCLIM"),
        68 => Some("EUSERS"),
        69 => Some("EDQUOT"),
        70 => Some("ESTALE"),
        71 => Some("EREMOTE"),
        72 => Some("EBADRPC"),
        73 => Some("ERPCMISMATCH"),
        74 => Some("EPROGUNAVAIL"),
        75 => Some("EPROGMISMATCH"),
        76 => Some("EPROCUNAVAIL"),
        77 => Some("ENOLCK"),
        78 => Some("ENOSYS"),
        79 => Some("EFTYPE"),
        80 => Some("EAUTH"),
        81 => Some("ENEEDAUTH"),
        82 => Some("EPWROFF"),
        83 => Some("EDEVERR"),
        84 => Some("EOVERFLOW"),
        85 => Some("EBADEXEC"),
        86 => Some("EBADARCH"),
        87 => Some("ESHLIBVERS"),
        88 => Some("EBADMACHO"),
        89 => Some("ECANCELED"),
        90 => Some("EIDRM"),
        91 => Some("ENOMSG"),
        92 => Some("EILSEQ"),
        93 => Some("ENOATTR"),
        94 => Some("EBADMSG"),
        95 => Some("EMULTIHOP"),
        96 => Some("ENODATA"),
        97 => Some("ENOLINK"),
        98 => Some("ENOSR"),
        99 => Some("ENOSTR"),
        100 => Some("EPROTO"),
        101 => Some("ETIME"),
        102 => Some("EOPNOTSUPP"),
        103 => Some("ENOPOLICY"),
        104 => Some("ENOTRECOVERABLE"),
        105 => Some("EOWNERDEAD"),
        106 => Some("EQFULL"),
        _ => None,
    }
}

/// Operation not permitted
#[allow(non_snake_case)]
pub fn EPERM() -> (e: Error)
    ensures
        e@ == 1,
        symbol(e@) == Some("EPERM"),
{
    Error::new_unchecked(1)
}

/// No such file or directory
#[allow(non_snake_case)]
pub fn ENOENT() -> (e: Error)
    ensures
        e@ == 2,
        symbol(e@) == Some("ENOENT"),
{
    Error::new_unchecked(2)
}

/// No such process
#[allow(non_snake_case)]
pub fn ESRCH() -> (e: Error)
    ensures
        e@ == 3,
        symbol(e@) == Some("ESRCH"),
{
    Error::new_unchecked(3)
}

/// Interrupted system call
#[allow(non_snake_case)]
pub fn EINTR() -> (e: Error)
    ensures
        e@ == 4,
        symbol(e@) == Some("EINTR"),
{
    Error::new_unchecked(4)
}

/// Input/output error
#[allow(non_snake_case)]
pub fn EIO() -> (e: Error)
    ensures
        e@ == 5,
        symbol(e@) == Some("EIO"),
{
    Error::new_unchecked(5)
}

/// Device not configured
#[allow(non_snake_case)]
pub fn ENXIO() -> (e: Error)
    ensures
        e@ == 6,
        symbol(e@) == Some("ENXIO"),
{
    Error::new_unchecked(6)
}

/// Argument list too long
#[allow(non_snake_case)]
pub fn E2BIG() -> (e: Error)
    ensures
        e@ == 7,
        symbol(e@) == Some("E2BIG"),
{
    Error::new_unchecked(7)
}

/// Exec format error
#[allow(non_snake_case)]
pub fn ENOEXEC() -> (e: Error)
    ensures
        e@ == 8,
        symbol(e@) == Some("ENOEXEC"),
{
    Error::new_unchecked(8)
}

/// Bad file descriptor
#[allow(non_snake_case)]
pub fn EBADF() -> (e: Error)
    ensures
        e@ == 9,
        symbol(e@) == Some("EBADF"),
{
    Error::new_unchecked(9)
}

/// No child processes
#[allow(non_snake_case)]
pub fn ECHILD() -> (e: Error)
    ensures
        e@ == 10,
        symbol(e@) == Some("ECHILD"),
{
    Error::new_unchecked(10)
}

/// Resource deadlock avoided
#[allow(non_snake_case)]
pub fn EDEADLK() -> (e: Error)
    ensures
        e@ == 11,
        symbol(e@) == Some("EDEADLK"),
{
    Error::new_unchecked(11)
}

/// Cannot allocate memory
#[allow(non_snake_case)]
pub fn ENOMEM() -> (e: Error)
    ensures
        e@ == 12,
        symbol(e@) == Some("ENOMEM"),
{
    Error::new_unchecked(12)
}

/// Permission denied
#[allow(non_snake_case)]
pub fn EACCES() -> (e: Error)
    ensures
        e@ == 13,
        symbol(e@) == Some("EACCES"),
{
    Error::new_unchecked(13)
}

/// Bad address
#[allow(non_snake_case)]
pub fn EFAULT() -> (e: Error)
    ensures
        e@ == 14,
        symbol(e@) == Some("EFAULT"),
{
    Error::new_unchecked(14)
}

/// Block device required
#[allow(non_snake_case)]
pub fn ENOTBLK() -> (e: Error)
    ensures
        e@ == 15,
        symbol(e@) == Some("ENOTBLK"),
{
    Error::new_unchecked(15)
}

/// Device / Resource busy
#[allow(non_snake_case)]
pub fn EBUSY() -> (e: Error)
    ensures
        e@ == 16,
        symbol(e@) == Some("EBUSY"),
{
    Error::new_unchecked(16)
}

/// File exists
#[allow(non_snake_case)]
pub fn EEXIST() -> (e: Error)
    ensures
        e@ == 17,
        symbol(e@) == Some("EEXIST"),
{
    Error::new_unchecked(17)
}

/// Cross-device link
#[allow(non_snake_case)]
pub fn EXDEV() -> (e: Error)
    ensures
        e@ == 18,
        symbol(e@) == Some("EXDEV"),
{
    Error::new_unchecked(18)
}

/// Operation not supported by device
#[allow(non_snake_case)]
pub fn ENODEV() -> (e: Error)
    ensures
        e@ == 19,
        symbol(e@) == Some("ENODEV"),
{
    Error::new_unchecked(19)
}

/// Not a directory
#[allow(non_snake_case)]
pub fn ENOTDIR() -> (e: Error)
    ensures
        e@ == 20,
        symbol(e@) == Some("ENOTDIR"),
{
    Error::new_unchecked(20)
}

/// Is a directory
#[allow(non_snake_case)]
pub fn EISDIR() -> (e: Error)
    ensures
        e@ == 21,
        symbol(e@) == Some("EISDIR"),
{
    Error::new_unchecked(21)
}

/// Invalid argument
#[allow(non_snake_case)]
pub fn EINVAL() -> (e: Error)
    ensures
        e@ == 22,
        symbol(e@) == Some("EINVAL"),
{
    Error::new_unchecked(22)
}

/// Too many open files in system
#[allow(non_snake_case)]
pub fn ENFILE() -> (e: Error)
    ensures
        e@ == 23,
        symbol(e@) == Some("ENFILE"),
{
    Error::new_unchecked(23)
}

/// Too many open files
#[allow(non_snake_case)]
pub fn EMFILE() -> (e: Error)
    ensures
        e@ == 24,
        symbol(e@) == Some("EMFILE"),
{
    Error::new_unchecked(24)
}

/// Inappropriate ioctl for device
#[allow(non_snake_case)]
pub fn ENOTTY() -> (e: Error)
    ensures
        e@ == 25,
        symbol(e@) == Some("ENOTTY"),
{
    Error::new_unchecked(25)
}

/// Text file busy
#[allow(non_snake_case)]
pub fn ETXTBSY() -> (e: Error)
    ensures
        e@ == 26,
        symbol(e@) == Some("ETXTBSY"),
{
    Error::new_unchecked(26)
}

/// File too large
#[allow(non_snake_case)]
pub fn EFBIG() -> (e: Error)
    ensures
        e@ == 27,
        symbol(e@) == Some("EFBIG"),
{
    Error::new_unchecked(27)
}

/// No space left on device
#[allow(non_snake_case)]
pub fn ENOSPC() -> (e: Error)
    ensures
        e@ == 28,
        symbol(e@) == Some("ENOSPC"),
{
    Error::new_unchecked(28)
}

/// Illegal seek
#[allow(non_snake_case)]
pub fn ESPIPE() -> (e: Error)
    ensures
        e@ == 29,
        symbol(e@) == Some("ESPIPE"),
{
    Error::new_unchecked(29)
}

/// Read-only file system
#[allow(non_snake_case)]
pub fn EROFS() -> (e: Error)
    ensures
        e@ == 30,
        symbol(e@) == Some("EROFS"),
{
    Error::new_unchecked(30)
}

/// Too many links
#[allow(non_snake_case)]
pub fn EMLINK() -> (e: Error)
    ensures
        e@ == 31,
        symbol(e@) == Some("EMLINK"),
{
    Error::new_unchecked(31)
}

/// Broken pipe
#[allow(non_snake_case)]
pub fn EPIPE() -> (e: Error)
    ensures
        e@ == 32,
        symbol(e@) == Some("EPIPE"),
{
    Error::new_unchecked(32)
}

/// Numerical argument out of domain
#[allow(non_snake_case)]
pub fn EDOM() -> (e: Error)
    ensures
        e@ == 33,
        symbol(e@) == Some("EDOM"),
{
    Error::new_unchecked(33)
}

/// Result too large
#[allow(non_snake_case)]
pub fn ERANGE() -> (e: Error)
    ensures
        e@ == 34,
        symbol(e@) == Some("ERANGE"),
{
    Error::new_unchecked(34)
}

/// Resource temporarily unavailable
#[allow(non_snake_case)]
pub fn EAGAIN() -> (e: Error)
    ensures
        e@ == 35,
        symbol(e@) == Some("EAGAIN"),
{
    Error::new_unchecked(35)
}

/// Operation now in progress
#[allow(non_snake_case)]
pub fn EINPROGRESS() -> (e: Error)
    ensures
        e@ == 36,
        symbol(e@) == Some("EINPROGRESS"),
{
    Error::new_unchecked(36)
}

/// Operation already in progress
#[allow(non_snake_case)]
pub fn EALREADY() -> (e: Error)
    ensures
        e@ == 37,
        symbol(e@) == Some("EALREADY"),
{
    Error::new_unchecked(37)
}

/// Socket operation on non-socket
#[allow(non_snake_case)]
pub fn ENOTSOCK() -> (e: Error)
    ensures
        e@ == 38,
        symbol(e@) == Some("ENOTSOCK"),
{
    Error::new_unchecked(38)
}

/// Destination address required
#[allow(non_snake_case)]
pub fn EDESTADDRREQ() -> (e: Error)
    ensures
        e@ == 39,
        symbol(e@) == Some("EDESTADDRREQ"),
{
    Error::new_unchecked(39)
}

/// Message too long
#[allow(non_snake_case)]
pub fn EMSGSIZE() -> (e: Error)
    ensures
        e@ == 40,
        symbol(e@) == Some("EMSGSIZE"),
{
    Error::new_unchecked(40)
}

/// Protocol wrong type for socket
#[allow(non_snake_case)]
pub fn EPROTOTYPE() -> (e: Error)
    ensures
        e@ == 41,
        symbol(e@) == Some("EPROTOTYPE"),
{
    Error::new_unchecked(41)
}

/// Protocol not available
#[allow(non_snake_case)]
pub fn ENOPROTOOPT() -> (e: Error)
    ensures
        e@ == 42,
        symbol(e@) == Some("ENOPROTOOPT"),
{
    Error::new_unchecked(42)
}

/// Protocol not supported
#[allow(non_snake_case)]
pub fn EPROTONOSUPPORT() -> (e: Error)
    ensures
        e@ == 43,
        symbol(e@) == Some("EPROTONOSUPPORT"),
{
    Error::new_unchecked(43)
}

/// Socket type not supported
#[allow(non_snake_case)]
pub fn ESOCKTNOSUPPORT() -> (e: Error)
    ensures
        e@ == 44,
        symbol(e@) == Some("ESOCKTNOSUPPORT"),
{
    Error::new_unchecked(44)
}

/// Operation not supported
#[allow(non_snake_case)]
pub fn ENOTSUP() -> (e: Error)
    ensures
        e@ == 45,
        symbol(e@) == Some("ENOTSUP"),
{
    Error::new_unchecked(45)
}

/// Protocol family not supported
#[allow(non_snake_case)]
pub fn EPFNOSUPPORT() -> (e: Error)
    ensures
        e@ == 46,
        symbol(e@) == Some("EPFNOSUPPORT"),
{
    Error::new_unchecked(46)
}

/// Address family not supported by protocol family
#[allow(non_snake_case)]
pub fn EAFNOSUPPORT() -> (e: Error)
    ensures
        e@ == 47,
        symbol(e@) == Some("EAFNOSUPPORT"),
{
    Error::new_unchecked(47)
}

/// Address already in use
#[allow(non_snake_case)]
pub fn EADDRINUSE() -> (e: Error)
    ensures
        e@ == 48,
        symbol(e@) == Some("EADDRINUSE"),
{
    Error::new_unchecked(48)
}

/// Can't assign requested address
#[allow(non_snake_case)]
pub fn EADDRNOTAVAIL() -> (e: Error)
    ensures
        e@ == 49,
        symbol(e@) == Some("EADDRNOTAVAIL"),
{
    Error::new_unchecked(49)
}

/// Network is down
#[allow(non_snake_case)]
pub fn ENETDOWN() -> (e: Error)
    ensures
        e@ == 50,
        symbol(e@) == Some("ENETDOWN"),
{
    Error::new_unchecked(50)
}

/// Network is unreachable
#[allow(non_snake_case)]
pub fn ENETUNREACH() -> (e: Error)
    ensures
        e@ == 51,
        symbol(e@) == Some("ENETUNREACH"),
{
    Error::new_unchecked(51)
}

/// Network dropped connection on reset
#[allow(non_snake_case)]
pub fn ENETRESET() -> (e: Error)
    ensures
        e@ == 52,
        symbol(e@) == Some("ENETRESET"),
{
    Error::new_unchecked(52)
}

/// Software caused connection abort
#[allow(non_snake_case)]
pub fn ECONNABORTED() -> (e: Error)
    ensures
        e@ == 53,
        symbol(e@) == Some("ECONNABORTED"),
{
    Error::new_unchecked(53)
}

/// Connection reset by peer
#[allow(non_snake_case)]
pub fn ECONNRESET() -> (e: Error)
    ensures
        e@ == 54,
        symbol(e@) == Some("ECONNRESET"),
{
    Error::new_unchecked(54)
}

/// No buffer space available
#[allow(non_snake_case)]
pub fn ENOBUFS() -> (e: Error)
    ensures
        e@ == 55,
        symbol(e@) == Some("ENOBUFS"),
{
    Error::new_unchecked(55)
}

/// Socket is already connected
#[allow(non_snake_case)]
pub fn EISCONN() -> (e: Error)
    ensures
        e@ == 56,
        symbol(e@) == Some("EISCONN"),
{
    Error::new_unchecked(56)
}

/// Socket is not connected
#[allow(non_snake_case)]
pub fn ENOTCONN() -> (e: Error)
    ensures
        e@ == 57,
        symbol(e@) == Some("ENOTCONN"),
{
    Error::new_unchecked(57)
}

/// Can't send after socket shutdown
#[allow(non_snake_case)]
pub fn ESHUTDOWN() -> (e: Error)
    ensures
        e@ == 58,
        symbol(e@) == Some("ESHUTDOWN"),
{
    Error::new_unchecked(58)
}

/// Too many references: can't splice
#[allow(non_snake_case)]
pub fn ETOOMANYREFS() -> (e: Error)
    ensures
        e@ == 59,
        symbol(e@) == Some("ETOOMANYREFS"),
{
    Error::new_unchecked(59)
}

/// Operation timed out
#[allow(non_snake_case)]
pub fn ETIMEDOUT() -> (e: Error)
    ensures
        e@ == 60,
        symbol(e@) == Some("ETIMEDOUT"),
{
    Error::new_unchecked(60)
}

/// Connection refused
#[allow(non_snake_case)]
pub fn ECONNREFUSED() -> (e: Error)
    ensures
        e@ == 61,
        symbol(e@) == Some("ECONNREFUSED"),
{
    Error::new_unchecked(61)
}

/// Too many levels of symbolic links
#[allow(non_snake_case)]
pub fn ELOOP() -> (e: Error)
    ensures
        e@ == 62,
        symbol(e@) == Some("ELOOP"),
{
    Error::new_unchecked(62)
}

/// File name too long
#[allow(non_snake_case)]
pub fn ENAMETOOLONG() -> (e: Error)
    ensures
        e@ == 63,
        symbol(e@) == Some("ENAMETOOLONG"),
{
    Error::new_unchecked(63)
}

/// Host is down
#[allow(non_snake_case)]
pub fn EHOSTDOWN() -> (e: Error)
    ensures
        e@ == 64,
        symbol(e@) == Some("EHOSTDOWN"),
{
    Error::new_unchecked(64)
}

/// No route to host
#[allow(non_snake_case)]
pub fn EHOSTUNREACH() -> (e: Error)
    ensures
        e@ == 65,
        symbol(e@) == Some("EHOSTUNREACH"),
{
    Error::new_unchecked(65)
}

/// Directory not empty
#[allow(non_snake_case)]
pub fn ENOTEMPTY() -> (e: Error)
    ensures
        e@ == 66,
        symbol(e@) == Some("ENOTEMPTY"),
{
    Error::new_unchecked(66)
}

/// Too many processes
#[allow(non_snake_case)]
pub fn EPROCLIM() -> (e: Error)
    ensures
        e@ == 67,
        symbol(e@) == Some("EPROCLIM"),
{
    Error::new_unchecked(67)
}

/// Too many users
#[allow(non_snake_case)]
pub fn EUSERS() -> (e: Error)
    ensures
        e@ == 68,
        symbol(e@) == Some("EUSERS"),
{
    Error::new_unchecked(68)
}

/// Disc quota exceeded
#[allow(non_snake_case)]
pub fn EDQUOT() -> (e: Error)
    ensures
        e@ == 69,
        symbol(e@) == Some("EDQUOT"),
{
    Error::new_unchecked(69)
}

/// Stale NFS file handle
#[allow(non_snake_case)]
pub fn ESTALE() -> (e: Error)
    ensures
        e@ == 70,
        symbol(e@) == Some("ESTALE"),
{
    Error::new_unchecked(70)
}

/// Too many levels of remote in path
#[allow(non_snake_case)]
pub fn EREMOTE() -> (e: Error)
    ensures
        e@ == 71,
        symbol(e@) == Some("EREMOTE"),
{
    Error::new_unchecked(71)
}

/// RPC struct is bad
#[allow(non_snake_case)]
pub fn EBADRPC() -> (e: Error)
    ensures
        e@ == 72,
        symbol(e@) == Some("EBADRPC"),
{
    Error::new_unchecked(72)
}

/// RPC version wrong
#[allow(non_snake_case)]
pub fn ERPCMISMATCH() -> (e: Error)
    ensures
        e@ == 73,
        symbol(e@) == Some("ERPCMISMATCH"),
{
    Error::new_unchecked(73)
}

/// RPC prog. not avail
#[allow(non_snake_case)]
pub fn EPROGUNAVAIL() -> (e: Error)
    ensures
        e@ == 74,
        symbol(e@) == Some("EPROGUNAVAIL"),
{
    Error::new_unchecked(74)
}

/// Program version wrong
#[allow(non_snake_case)]
pub fn EPROGMISMATCH() -> (e: Error)
    ensures
        e@ == 75,
        symbol(e@) == Some("EPROGMISMATCH"),
{
    Error::new_unchecked(75)
}

/// Bad procedure for program
#[allow(non_snake_case)]
pub fn EPROCUNAVAIL() -> (e: Error)
    ensures
        e@ == 76,
        symbol(e@) == Some("EPROCUNAVAIL"),
{
    Error::new_unchecked(76)
}

/// No locks available
#[allow(non_snake_case)]
pub fn ENOLCK() -> (e: Error)
    ensures
        e@ == 77,
        symbol(e@) == Some("ENOLCK"),
{
    Error::new_unchecked(77)
}

/// Function not implemented
#[allow(non_snake_case)]
pub fn ENOSYS() -> (e: Error)
    ensures
        e@ == 78,
        symbol(e@) == Some("ENOSYS"),
{
    Error::new_unchecked(78)
}

/// Inappropriate file type or format
#[allow(non_snake_case)]
pub fn EFTYPE() -> (e: Error)
    ensures
        e@ == 79,
        symbol(e@) == Some("EFTYPE"),
{
    Error::new_unchecked(79)
}

/// Authentication error
#[allow(non_snake_case)]
pub fn EAUTH() -> (e: Error)
    ensures
        e@ == 80,
        symbol(e@) == Some("EAUTH"),
{
    Error::new_unchecked(80)
}

/// Need authenticator
#[allow(non_snake_case)]
pub fn ENEEDAUTH() -> (e: Error)
    ensures
        e@ == 81,
        symbol(e@) == Some("ENEEDAUTH"),
{
    Error::new_unchecked(81)
}

/// Device power is off
#[allow(non_snake_case)]
pub fn EPWROFF() -> (e: Error)
    ensures
        e@ == 82,
        symbol(e@) == Some("EPWROFF"),
{
    Error::new_unchecked(82)
}

/// Device error, e.g. paper out
#[allow(non_snake_case)]
pub fn EDEVERR() -> (e: Error)
    ensures
        e@ == 83,
        symbol(e@) == Some("EDEVERR"),
{
    Error::new_unchecked(83)
}

/// Value too large to be stored in data type
#[allow(non_snake_case)]
pub fn EOVERFLOW() -> (e: Error)
    ensures
        e@ == 84,
        symbol(e@) == Some("EOVERFLOW"),
{
    Error::new_unchecked(84)
}

/// Bad executable
#[allow(non_snake_case)]
pub fn EBADEXEC() -> (e: Error)
    ensures
        e@ == 85,
        symbol(e@) == Some("EBADEXEC"),
{
    Error::new_unchecked(85)
}

/// Bad CPU type in executable
#[allow(non_snake_case)]
pub fn EBADARCH() -> (e: Error)
    ensures
        e@ == 86,
        symbol(e@) == Some("EBADARCH"),
{
    Error::new_unchecked(86)
}

/// Shared library version mismatch
#[allow(non_snake_case)]
pub fn ESHLIBVERS() -> (e: Error)
    ensures
        e@ == 87,
        symbol(e@) == Some("ESHLIBVERS"),
{
    Error::new_unchecked(87)
}

/// Malformed Macho file
#[allow(non_snake_case)]
pub fn EBADMACHO() -> (e: Error)
    ensures
        e@ == 88,
        symbol(e@) == Some("EBADMACHO"),
{
    Error::new_unchecked(88)
}

/// Operation canceled
#[allow(non_snake_case)]
pub fn ECANCELED() -> (e: Error)
    ensures
        e@ == 89,
        symbol(e@) == Some("ECANCELED"),
{
    Error::new_unchecked(89)
}

/// Identifier removed
#[allow(non_snake_case)]
pub fn EIDRM() -> (e: Error)
    ensures
        e@ == 90,
        symbol(e@) == Some("EIDRM"),
{
    Error::new_unchecked(90)
}

/// No message of desired type
#[allow(non_snake_case)]
pub fn ENOMSG() -> (e: Error)
    ensures
        e@ == 91,
        symbol(e@) == Some("ENOMSG"),
{
    Error::new_unchecked(91)
}

/// Illegal byte sequence
#[allow(non_snake_case)]
pub fn EILSEQ() -> (e: Error)
    ensures
        e@ == 92,
        symbol(e@) == Some("EILSEQ"),
{
    Error::new_unchecked(92)
}

/// Attribute not found
#[allow(non_snake_case)]
pub fn ENOATTR() -> (e: Error)
    ensures
        e@ == 93,
        symbol(e@) == Some("ENOATTR"),
{
    Error::new_unchecked(93)
}

/// Bad message
#[allow(non_snake_case)]
pub fn EBADMSG() -> (e: Error)
    ensures
        e@ == 94,
        symbol(e@) == Some("EBADMSG"),
{
    Error::new_unchecked(94)
}

/// Reserved
#[allow(non_snake_case)]
pub fn EMULTIHOP() -> (e: Error)
    ensures
        e@ == 95,
        symbol(e@) == Some("EMULTIHOP"),
{
    Error::new_unchecked(95)
}

/// No message available on STREAM
#[allow(non_snake_case)]
pub fn ENODATA() -> (e: Error)
    ensures
        e@ == 96,
        symbol(e@) == Some("ENODATA"),
{
    Error::new_unchecked(96)
}

/// Reserved
#[allow(non_snake_case)]
pub fn ENOLINK() -> (e: Error)
    ensures
        e@ == 97,
        symbol(e@) == Some("ENOLINK"),
{
    Error::new_unchecked(97)
}

/// No STREAM resources
#[allow(non_snake_case)]
pub fn ENOSR() -> (e: Error)
    ensures
        e@ == 98,
        symbol(e@) == Some("ENOSR"),
{
    Error::new_unchecked(98)
}

/// Not a STREAM
#[allow(non_snake_case)]
pub fn ENOSTR() -> (e: Error)
    ensures
        e@ == 99,
        symbol(e@) == Some("ENOSTR"),
{
    Error::new_unchecked(99)
}

/// Protocol error
#[allow(non_snake_case)]
pub fn EPROTO() -> (e: Error)
    ensures
        e@ == 100,
        symbol(e@) == Some("EPROTO"),
{
    Error::new_unchecked(100)
}

/// STREAM ioctl timeout
#[allow(non_snake_case)]
pub fn ETIME() -> (e: Error)
    ensures
        e@ == 101,
        symbol(e@) == Some("ETIME"),
{
    Error::new_unchecked(101)
}

/// Operation not supported on socket
#[allow(non_snake_case)]
pub fn EOPNOTSUPP() -> (e: Error)
    ensures
        e@ == 102,
        symbol(e@) == Some("EOPNOTSUPP"),
{
    Error::new_unchecked(102)
}

/// No such policy registered
#[allow(non_snake_case)]
pub fn ENOPOLICY() -> (e: Error)
    ensures
        e@ == 103,
        symbol(e@) == Some("ENOPOLICY"),
{
    Error::new_unchecked(103)
}

/// State not recoverable
#[allow(non_snake_case)]
pub fn ENOTRECOVERABLE() -> (e: Error)
    ensures
        e@ == 104,
        symbol(e@) == Some("ENOTRECOVERABLE"),
{
    Error::new_unchecked(104)
}

/// Previous owner died
#[allow(non_snake_case)]
pub fn EOWNERDEAD() -> (e: Error)
    ensures
        e@ == 105,
        symbol(e@) == Some("EOWNERDEAD"),
{
    Error::new_unchecked(105)
}

/// Interface output queue is full
#[allow(non_snake_case)]
pub fn EQFULL() -> (e: Error)
    ensures
        e@ == 106,
        symbol(e@) == Some("EQFULL"),
{
    Error::new_unchecked(106)
}

/// Operation would block (another name for [`EAGAIN`])
#[allow(non_snake_case)]
pub fn EWOULDBLOCK() -> (e: Error)
    ensures
        e@ == 35,
        symbol(e@) == Some("EAGAIN"),
{
    EAGAIN()
}

} // verus!
