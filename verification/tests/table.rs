use macos_errno::table::err_name;
use macos_errno::table::{
    E2BIG, EACCES, EADDRINUSE, EADDRNOTAVAIL, EAFNOSUPPORT, EAGAIN, EALREADY, EAUTH, EBADARCH,
    EBADEXEC, EBADF, EBADMACHO, EBADMSG, EBADRPC, EBUSY, ECANCELED, ECHILD, ECONNABORTED,
    ECONNREFUSED, ECONNRESET, EDEADLK, EDESTADDRREQ, EDEVERR, EDOM, EDQUOT, EEXIST, EFAULT,
    EFBIG, EFTYPE, EHOSTDOWN, EHOSTUNREACH, EIDRM, EILSEQ, EINPROGRESS, EINTR, EINVAL, EIO,
    EISCONN, EISDIR, ELOOP, EMFILE, EMLINK, EMSGSIZE, EMULTIHOP, ENAMETOOLONG, ENEEDAUTH,
    ENETDOWN, ENETRESET, ENETUNREACH, ENFILE, ENOATTR, ENOBUFS, ENODATA, ENODEV, ENOENT,
    ENOEXEC, ENOLCK, ENOLINK, ENOMEM, ENOMSG, ENOPOLICY, ENOPROTOOPT, ENOSPC, ENOSR, ENOSTR,
    ENOSYS, ENOTBLK, ENOTCONN, ENOTDIR, ENOTEMPTY, ENOTRECOVERABLE, ENOTSOCK, ENOTSUP, ENOTTY,
    ENXIO, EOPNOTSUPP, EOVERFLOW, EOWNERDEAD, EPERM, EPFNOSUPPORT, EPIPE, EPROCLIM,
    EPROCUNAVAIL, EPROGMISMATCH, EPROGUNAVAIL, EPROTO, EPROTONOSUPPORT, EPROTOTYPE, EPWROFF,
    EQFULL, ERANGE, EREMOTE, EROFS, ERPCMISMATCH, ESHLIBVERS, ESHUTDOWN, ESOCKTNOSUPPORT,
    ESPIPE, ESRCH, ESTALE, ETIME, ETIMEDOUT, ETOOMANYREFS, ETXTBSY, EUSERS, EWOULDBLOCK, EXDEV,
};
use macos_errno::Error;

fn named() -> Vec<(Error, i32, &'static str)> {
    vec![
        (EPERM(), 1, "EPERM"),
        (ENOENT(), 2, "ENOENT"),
        (ESRCH(), 3, "ESRCH"),
        (EINTR(), 4, "EINTR"),
        (EIO(), 5, "EIO"),
        (ENXIO(), 6, "ENXIO"),
        (E2BIG(), 7, "E2BIG"),
        (ENOEXEC(), 8, "ENOEXEC"),
        (EBADF(), 9, "EBADF"),
        (ECHILD(), 10, "ECHILD"),
        (EDEADLK(), 11, "EDEADLK"),
        (ENOMEM(), 12, "ENOMEM"),
        (EACCES(), 13, "EACCES"),
        (EFAULT(), 14, "EFAULT"),
        (ENOTBLK(), 15, "ENOTBLK"),
        (EBUSY(), 16, "EBUSY"),
        (EEXIST(), 17, "EEXIST"),
        (EXDEV(), 18, "EXDEV"),
        (ENODEV(), 19, "ENODEV"),
        (ENOTDIR(), 20, "ENOTDIR"),
        (EISDIR(), 21, "EISDIR"),
        (EINVAL(), 22, "EINVAL"),
        (ENFILE(), 23, "ENFILE"),
        (EMFILE(), 24, "EMFILE"),
        (ENOTTY(), 25, "ENOTTY"),
        (ETXTBSY(), 26, "ETXTBSY"),
        (EFBIG(), 27, "EFBIG"),
        (ENOSPC(), 28, "ENOSPC"),
        (ESPIPE(), 29, "ESPIPE"),
        (EROFS(), 30, "EROFS"),
        (EMLINK(), 31, "EMLINK"),
        (EPIPE(), 32, "EPIPE"),
        (EDOM(), 33, "EDOM"),
        (ERANGE(), 34, "ERANGE"),
        (EAGAIN(), 35, "EAGAIN"),
        (EINPROGRESS(), 36, "EINPROGRESS"),
        (EALREADY(), 37, "EALREADY"),
        (ENOTSOCK(), 38, "ENOTSOCK"),
        (EDESTADDRREQ(), 39, "EDESTADDRREQ"),
        (EMSGSIZE(), 40, "EMSGSIZE"),
        (EPROTOTYPE(), 41, "EPROTOTYPE"),
        (ENOPROTOOPT(), 42, "ENOPROTOOPT"),
        (EPROTONOSUPPORT(), 43, "EPROTONOSUPPORT"),
        (ESOCKTNOSUPPORT(), 44, "ESOCKTNOSUPPORT"),
        (ENOTSUP(), 45, "ENOTSUP"),
        (EPFNOSUPPORT(), 46, "EPFNOSUPPORT"),
        (EAFNOSUPPORT(), 47, "EAFNOSUPPORT"),
        (EADDRINUSE(), 48, "EADDRINUSE"),
        (EADDRNOTAVAIL(), 49, "EADDRNOTAVAIL"),
        (ENETDOWN(), 50, "ENETDOWN"),
        (ENETUNREACH(), 51, "ENETUNREACH"),
        (ENETRESET(), 52, "ENETRESET"),
        (ECONNABORTED(), 53, "ECONNABORTED"),
        (ECONNRESET(), 54, "ECONNRESET"),
        (ENOBUFS(), 55, "ENOBUFS"),
        (EISCONN(), 56, "EISCONN"),
        (ENOTCONN(), 57, "ENOTCONN"),
        (ESHUTDOWN(), 58, "ESHUTDOWN"),
        (ETOOMANYREFS(), 59, "ETOOMANYREFS"),
        (ETIMEDOUT(), 60, "ETIMEDOUT"),
        (ECONNREFUSED(), 61, "ECONNREFUSED"),
        (ELOOP(), 62, "ELOOP"),
        (ENAMETOOLONG(), 63, "ENAMETOOLONG"),
        (EHOSTDOWN(), 64, "EHOSTDOWN"),
        (EHOSTUNREACH(), 65, "EHOSTUNREACH"),
        (ENOTEMPTY(), 66, "ENOTEMPTY"),
        (EPROCLIM(), 67, "EPROCLIM"),
        (EUSERS(), 68, "EUSERS"),
        (EDQUOT(), 69, "EDQUOT"),
        (ESTALE(), 70, "ESTALE"),
        (EREMOTE(), 71, "EREMOTE"),
        (EBADRPC(), 72, "EBADRPC"),
        (ERPCMISMATCH(), 73, "ERPCMISMATCH"),
        (EPROGUNAVAIL(), 74, "EPROGUNAVAIL"),
        (EPROGMISMATCH(), 75, "EPROGMISMATCH"),
        (EPROCUNAVAIL(), 76, "EPROCUNAVAIL"),
        (ENOLCK(), 77, "ENOLCK"),
        (ENOSYS(), 78, "ENOSYS"),
        (EFTYPE(), 79, "EFTYPE"),
        (EAUTH(), 80, "EAUTH"),
        (ENEEDAUTH(), 81, "ENEEDAUTH"),
        (EPWROFF(), 82, "EPWROFF"),
        (EDEVERR(), 83, "EDEVERR"),
        (EOVERFLOW(), 84, "EOVERFLOW"),
        (EBADEXEC(), 85, "EBADEXEC"),
        (EBADARCH(), 86, "EBADARCH"),
        (ESHLIBVERS(), 87, "ESHLIBVERS"),
        (EBADMACHO(), 88, "EBADMACHO"),
        (ECANCELED(), 89, "ECANCELED"),
        (EIDRM(), 90, "EIDRM"),
        (ENOMSG(), 91, "ENOMSG"),
        (EILSEQ(), 92, "EILSEQ"),
        (ENOATTR(), 93, "ENOATTR"),
        (EBADMSG(), 94, "EBADMSG"),
        (EMULTIHOP(), 95, "EMULTIHOP"),
        (ENODATA(), 96, "ENODATA"),
        (ENOLINK(), 97, "ENOLINK"),
        (ENOSR(), 98, "ENOSR"),
        (ENOSTR(), 99, "ENOSTR"),
        (EPROTO(), 100, "EPROTO"),
        (ETIME(), 101, "ETIME"),
        (EOPNOTSUPP(), 102, "EOPNOTSUPP"),
        (ENOPOLICY(), 103, "ENOPOLICY"),
        (ENOTRECOVERABLE(), 104, "ENOTRECOVERABLE"),
        (EOWNERDEAD(), 105, "EOWNERDEAD"),
        (EQFULL(), 106, "EQFULL"),
    ]
}

#[test]
fn every_named_error_has_its_number() {
    let all = named();
    assert!(all.len() == 106);
    for (err, number, _) in all {
        assert!(err.get() == number);
    }
}

#[test]
fn every_named_error_is_written_as_its_name() {
    for (err, _, name) in named() {
        assert_eq!(err.to_debug_string(), name);
        assert_eq!(err_name(err), Some(name));
    }
}

#[test]
fn every_named_error_is_rebuilt_from_its_number() {
    for (err, number, _) in named() {
        assert!(Error::new(err.get()) == Some(err));
        assert!(Error::new(number) == Some(err));
    }
}

#[test]
fn named_errors_are_numbered_without_gaps() {
    let all = named();
    for (i, (_, number, _)) in all.iter().enumerate() {
        assert_eq!(*number, i as i32 + 1);
    }
}

#[test]
fn enoent_is_two() {
    assert_eq!(ENOENT().get(), 2);
    assert_eq!(ENOENT().to_debug_string(), "ENOENT");
}

#[test]
fn ewouldblock_is_eagain() {
    assert!(EWOULDBLOCK() == EAGAIN());
    assert_eq!(EWOULDBLOCK().get(), 35);
    assert_eq!(EAGAIN().get(), 35);
}

#[test]
fn shared_number_has_the_first_name() {
    assert_eq!(err_name(EWOULDBLOCK()), Some("EAGAIN"));
    assert_eq!(EWOULDBLOCK().to_debug_string(), "EAGAIN");
    assert_eq!(err_name(Error::new(35).unwrap()), Some("EAGAIN"));
}

#[test]
fn numbers_outside_the_table_have_no_name() {
    for n in [107, 9999, -1, -2, i32::MIN, i32::MAX, 1000] {
        assert_eq!(err_name(Error::new(n).unwrap()), None);
    }
}

#[test]
fn first_and_last_names() {
    assert_eq!(err_name(Error::new(1).unwrap()), Some("EPERM"));
    assert_eq!(err_name(Error::new(106).unwrap()), Some("EQFULL"));
    assert_eq!(EQFULL().get(), 106);
    assert_eq!(EPERM().get(), 1);
}
