//! The table of the kernel's error codes: symbolic name and description of
//! each code, in ascending order of the code.
use super::Errno;
use vstd::prelude::*;

verus! {
/// Operation not permitted
pub const EPERM: i32 = 1;
/// No such file or directory
pub const ENOENT: i32 = 2;
/// No such process
pub const ESRCH: i32 = 3;
/// Interrupted system call
pub const EINTR: i32 = 4;
/// I/O error
pub const EIO: i32 = 5;
/// No such device or address
pub const ENXIO: i32 = 6;
/// Argument list too long
pub const E2BIG: i32 = 7;
/// Exec format error
pub const ENOEXEC: i32 = 8;
/// Bad file number
pub const EBADF: i32 = 9;
/// No child processes
pub const ECHILD: i32 = 10;
/// Try again
pub const EAGAIN: i32 = 11;
/// Out of memory
pub const ENOMEM: i32 = 12;
/// Permission denied
pub const EACCES: i32 = 13;
/// Bad address
pub const EFAULT: i32 = 14;
/// Block device required
pub const ENOTBLK: i32 = 15;
/// Device or resource busy
pub const EBUSY: i32 = 16;
/// File exists
pub const EEXIST: i32 = 17;
/// Cross-device link
pub const EXDEV: i32 = 18;
/// No such device
pub const ENODEV: i32 = 19;
/// Not a directory
pub const ENOTDIR: i32 = 20;
/// Is a directory
pub const EISDIR: i32 = 21;
/// Invalid argument
pub const EINVAL: i32 = 22;
/// File table overflow
pub const ENFILE: i32 = 23;
/// Too many open files
pub const EMFILE: i32 = 24;
/// Not a typewriter
pub const ENOTTY: i32 = 25;
/// Text file busy
pub const ETXTBSY: i32 = 26;
/// File too large
pub const EFBIG: i32 = 27;
/// No space left on device
pub const ENOSPC: i32 = 28;
/// Illegal seek
pub const ESPIPE: i32 = 29;
/// Read-only file system
pub const EROFS: i32 = 30;
/// Too many links
pub const EMLINK: i32 = 31;
/// Broken pipe
pub const EPIPE: i32 = 32;
/// Math argument out of domain of func
pub const EDOM: i32 = 33;
/// Math result not representable
pub const ERANGE: i32 = 34;
/// Resource deadlock would occur
pub const EDEADLK: i32 = 35;
/// File name too long
pub const ENAMETOOLONG: i32 = 36;
/// No record locks available
pub const ENOLCK: i32 = 37;
/// Invalid system call number
pub const ENOSYS: i32 = 38;
/// Directory not empty
pub const ENOTEMPTY: i32 = 39;
/// Too many symbolic links encountered
pub const ELOOP: i32 = 40;
/// No message of desired type
pub const ENOMSG: i32 = 42;
/// Identifier removed
pub const EIDRM: i32 = 43;
/// Channel number out of range
pub const ECHRNG: i32 = 44;
/// Level 2 not synchronized
pub const EL2NSYNC: i32 = 45;
/// Level 3 halted
pub const EL3HLT: i32 = 46;
/// Level 3 reset
pub const EL3RST: i32 = 47;
/// Link number out of range
pub const ELNRNG: i32 = 48;
/// Protocol driver not attached
pub const EUNATCH: i32 = 49;
/// No CSI structure available
pub const ENOCSI: i32 = 50;
/// Level 2 halted
pub const EL2HLT: i32 = 51;
/// Invalid exchange
pub const EBADE: i32 = 52;
/// Invalid request descriptor
pub const EBADR: i32 = 53;
/// Exchange full
pub const EXFULL: i32 = 54;
/// No anode
pub const ENOANO: i32 = 55;
/// Invalid request code
pub const EBADRQC: i32 = 56;
/// Invalid slot
pub const EBADSLT: i32 = 57;
/// Bad font file format
pub const EBFONT: i32 = 59;
/// Device not a stream
pub const ENOSTR: i32 = 60;
/// No data available
pub const ENODATA: i32 = 61;
/// Timer expired
pub const ETIME: i32 = 62;
/// Out of streams resources
pub const ENOSR: i32 = 63;
/// Machine is not on the network
pub const ENONET: i32 = 64;
/// Package not installed
pub const ENOPKG: i32 = 65;
/// Object is remote
pub const EREMOTE: i32 = 66;
/// Link has been severed
pub const ENOLINK: i32 = 67;
/// Advertise error
pub const EADV: i32 = 68;
/// Srmount error
pub const ESRMNT: i32 = 69;
/// Communication error on send
pub const ECOMM: i32 = 70;
/// Protocol error
pub const EPROTO: i32 = 71;
/// Multihop attempted
pub const EMULTIHOP: i32 = 72;
/// RFS specific error
pub const EDOTDOT: i32 = 73;
/// Not a data message
pub const EBADMSG: i32 = 74;
/// Value too large for defined data type
pub const EOVERFLOW: i32 = 75;
/// Name not unique on network
pub const ENOTUNIQ: i32 = 76;
/// File descriptor in bad state
pub const EBADFD: i32 = 77;
/// Remote address changed
pub const EREMCHG: i32 = 78;
/// Can not access a needed shared library
pub const ELIBACC: i32 = 79;
/// Accessing a corrupted shared library
pub const ELIBBAD: i32 = 80;
/// .lib section in a.out corrupted
pub const ELIBSCN: i32 = 81;
/// Attempting to link in too many shared libraries
pub const ELIBMAX: i32 = 82;
/// Cannot exec a shared library directly
pub const ELIBEXEC: i32 = 83;
/// Illegal byte sequence
pub const EILSEQ: i32 = 84;
/// Interrupted system call should be restarted
pub const ERESTART: i32 = 85;
/// Streams pipe error
pub const ESTRPIPE: i32 = 86;
/// Too many users
pub const EUSERS: i32 = 87;
/// Socket operation on non-socket
pub const ENOTSOCK: i32 = 88;
/// Destination address required
pub const EDESTADDRREQ: i32 = 89;
/// Message too long
pub const EMSGSIZE: i32 = 90;
/// Protocol wrong type for socket
pub const EPROTOTYPE: i32 = 91;
/// Protocol not available
pub const ENOPROTOOPT: i32 = 92;
/// Protocol not supported
pub const EPROTONOSUPPORT: i32 = 93;
/// Socket type not supported
pub const ESOCKTNOSUPPORT: i32 = 94;
/// Operation not supported on transport endpoint
pub const EOPNOTSUPP: i32 = 95;
/// Protocol family not supported
pub const EPFNOSUPPORT: i32 = 96;
/// Address family not supported by protocol
pub const EAFNOSUPPORT: i32 = 97;
/// Address already in use
pub const EADDRINUSE: i32 = 98;
/// Cannot assign requested address
pub const EADDRNOTAVAIL: i32 = 99;
/// Network is down
pub const ENETDOWN: i32 = 100;
/// Network is unreachable
pub const ENETUNREACH: i32 = 101;
/// Network dropped connection because of reset
pub const ENETRESET: i32 = 102;
/// Software caused connection abort
pub const ECONNABORTED: i32 = 103;
/// Connection reset by peer
pub const ECONNRESET: i32 = 104;
/// No buffer space available
pub const ENOBUFS: i32 = 105;
/// Transport endpoint is already connected
pub const EISCONN: i32 = 106;
/// Transport endpoint is not connected
pub const ENOTCONN: i32 = 107;
/// Cannot send after transport endpoint shutdown
pub const ESHUTDOWN: i32 = 108;
/// Too many references: cannot splice
pub const ETOOMANYREFS: i32 = 109;
/// Connection timed out
pub const ETIMEDOUT: i32 = 110;
/// Connection refused
pub const ECONNREFUSED: i32 = 111;
/// Host is down
pub const EHOSTDOWN: i32 = 112;
/// No route to host
pub const EHOSTUNREACH: i32 = 113;
/// Operation already in progress
pub const EALREADY: i32 = 114;
/// Operation now in progress
pub const EINPROGRESS: i32 = 115;
/// Stale file handle
pub const ESTALE: i32 = 116;
/// Structure needs cleaning
pub const EUCLEAN: i32 = 117;
/// Not a XENIX named type file
pub const ENOTNAM: i32 = 118;
/// No XENIX semaphores available
pub const ENAVAIL: i32 = 119;
/// Is a named type file
pub const EISNAM: i32 = 120;
/// Remote I/O error
pub const EREMOTEIO: i32 = 121;
/// Quota exceeded
pub const EDQUOT: i32 = 122;
/// No medium found
pub const ENOMEDIUM: i32 = 123;
/// Wrong medium type
pub const EMEDIUMTYPE: i32 = 124;
/// Operation Canceled
pub const ECANCELED: i32 = 125;
/// Required key not available
pub const ENOKEY: i32 = 126;
/// Key has expired
pub const EKEYEXPIRED: i32 = 127;
/// Key has been revoked
pub const EKEYREVOKED: i32 = 128;
/// Key was rejected by service
pub const EKEYREJECTED: i32 = 129;
/// Owner died
pub const EOWNERDEAD: i32 = 130;
/// State not recoverable
pub const ENOTRECOVERABLE: i32 = 131;
/// Operation not possible due to RF-kill
pub const ERFKILL: i32 = 132;
/// Memory page has hardware error
pub const EHWPOISON: i32 = 133;
/// Restart syscall
pub const ERESTARTSYS: i32 = 512;
/// Restart if no interrupt
pub const ERESTARTNOINTR: i32 = 513;
/// restart if no handler..
pub const ERESTARTNOHAND: i32 = 514;
/// No ioctl command
pub const ENOIOCTLCMD: i32 = 515;
/// restart by calling sys_restart_syscall
pub const ERESTART_RESTARTBLOCK: i32 = 516;
/// Driver requests probe retry
pub const EPROBE_DEFER: i32 = 517;
/// open found a stale dentry
pub const EOPENSTALE: i32 = 518;
/// Parameter not supported
pub const ENOPARAM: i32 = 519;
/// Illegal NFS file handle
pub const EBADHANDLE: i32 = 521;
/// Update synchronization mismatch
pub const ENOTSYNC: i32 = 522;
/// Cookie is stale
pub const EBADCOOKIE: i32 = 523;
/// Operation is not supported
pub const ENOTSUPP: i32 = 524;
/// Buffer or request is too small
pub const ETOOSMALL: i32 = 525;
/// An untranslatable error occurred
pub const ESERVERFAULT: i32 = 526;
/// Type not supported by server
pub const EBADTYPE: i32 = 527;
/// Request initiated, but will not complete before timeout
pub const EJUKEBOX: i32 = 528;
/// iocb queued, will get completion event
pub const EIOCBQUEUED: i32 = 529;
/// conflict with recalled state
pub const ERECALLCONFLICT: i32 = 530;
/// NFS file lock reclaim refused
pub const ENOGRACE: i32 = 531;
/// Try again
pub const EWOULDBLOCK: i32 = EAGAIN;

/// The entry of `code` in the table: its symbolic name and its description,
/// or `None` where the table lists no such code.
pub open spec fn entry(code: i32) -> Option<(&'static str, &'static str)> {
    match code {
        1i32 => Some(("EPERM", "Operation not permitted")),
        2i32 => Some(("ENOENT", "No such file or directory")),
        3i32 => Some(("ESRCH", "No such process")),
        4i32 => Some(("EINTR", "Interrupted system call")),
        5i32 => Some(("EIO", "I/O error")),
        6i32 => Some(("ENXIO", "No such device or address")),
        7i32 => Some(("E2BIG", "Argument list too long")),
        8i32 => Some(("ENOEXEC", "Exec format error")),
        9i32 => Some(("EBADF", "Bad file number")),
        10i32 => Some(("ECHILD", "No child processes")),
        11i32 => Some(("EAGAIN", "Try again")),
        12i32 => Some(("ENOMEM", "Out of memory")),
        13i32 => Some(("EACCES", "Permission denied")),
        14i32 => Some(("EFAULT", "Bad address")),
        15i32 => Some(("ENOTBLK", "Block device required")),
        16i32 => Some(("EBUSY", "Device or resource busy")),
        17i32 => Some(("EEXIST", "File exists")),
        18i32 => Some(("EXDEV", "Cross-device link")),
        19i32 => Some(("ENODEV", "No such device")),
        20i32 => Some(("ENOTDIR", "Not a directory")),
        21i32 => Some(("EISDIR", "Is a directory")),
        22i32 => Some(("EINVAL", "Invalid argument")),
        23i32 => Some(("ENFILE", "File table overflow")),
        24i32 => Some(("EMFILE", "Too many open files")),
        25i32 => Some(("ENOTTY", "Not a typewriter")),
        26i32 => Some(("ETXTBSY", "Text file busy")),
        27i32 => Some(("EFBIG", "File too large")),
        28i32 => Some(("ENOSPC", "No space left on device")),
        29i32 => Some(("ESPIPE", "Illegal seek")),
        30i32 => Some(("EROFS", "Read-only file system")),
        31i32 => Some(("EMLINK", "Too many links")),
        32i32 => Some(("EPIPE", "Broken pipe")),
        33i32 => Some(("EDOM", "Math argument out of domain of func")),
        34i32 => Some(("ERANGE", "Math result not representable")),
        35i32 => Some(("EDEADLK", "Resource deadlock would occur")),
        36i32 => Some(("ENAMETOOLONG", "File name too long")),
        37i32 => Some(("ENOLCK", "No record locks available")),
        38i32 => Some(("ENOSYS", "Invalid system call number")),
        39i32 => Some(("ENOTEMPTY", "Directory not empty")),
        40i32 => Some(("ELOOP", "Too many symbolic links encountered")),
        42i32 => Some(("ENOMSG", "No message of desired type")),
        43i32 => Some(("EIDRM", "Identifier removed")),
        44i32 => Some(("ECHRNG", "Channel number out of range")),
        45i32 => Some(("EL2NSYNC", "Level 2 not synchronized")),
        46i32 => Some(("EL3HLT", "Level 3 halted")),
        47i32 => Some(("EL3RST", "Level 3 reset")),
        48i32 => Some(("ELNRNG", "Link number out of range")),
        49i32 => Some(("EUNATCH", "Protocol driver not attached")),
        50i32 => Some(("ENOCSI", "No CSI structure available")),
        51i32 => Some(("EL2HLT", "Level 2 halted")),
        52i32 => Some(("EBADE", "Invalid exchange")),
        53i32 => Some(("EBADR", "Invalid request descriptor")),
        54i32 => Some(("EXFULL", "Exchange full")),
        55i32 => Some(("ENOANO", "No anode")),
        56i32 => Some(("EBADRQC", "Invalid request code")),
        57i32 => Some(("EBADSLT", "Invalid slot")),
        59i32 => Some(("EBFONT", "Bad font file format")),
        60i32 => Some(("ENOSTR", "Device not a stream")),
        61i32 => Some(("ENODATA", "No data available")),
        62i32 => Some(("ETIME", "Timer expired")),
        63i32 => Some(("ENOSR", "Out of streams resources")),
        64i32 => Some(("ENONET", "Machine is not on the network")),
        65i32 => Some(("ENOPKG", "Package not installed")),
        66i32 => Some(("EREMOTE", "Object is remote")),
        67i32 => Some(("ENOLINK", "Link has been severed")),
        68i32 => Some(("EADV", "Advertise error")),
        69i32 => Some(("ESRMNT", "Srmount error")),
        70i32 => Some(("ECOMM", "Communication error on send")),
        71i32 => Some(("EPROTO", "Protocol error")),
        72i32 => Some(("EMULTIHOP", "Multihop attempted")),
        73i32 => Some(("EDOTDOT", "RFS specific error")),
        74i32 => Some(("EBADMSG", "Not a data message")),
        75i32 => Some(("EOVERFLOW", "Value too large for defined data type")),
        76i32 => Some(("ENOTUNIQ", "Name not unique on network")),
        77i32 => Some(("EBADFD", "File descriptor in bad state")),
        78i32 => Some(("EREMCHG", "Remote address changed")),
        79i32 => Some(("ELIBACC", "Can not access a needed shared library")),
        80i32 => Some(("ELIBBAD", "Accessing a corrupted shared library")),
        81i32 => Some(("ELIBSCN", ".lib section in a.out corrupted")),
        82i32 => Some(("ELIBMAX", "Attempting to link in too many shared libraries")),
        83i32 => Some(("ELIBEXEC", "Cannot exec a shared library directly")),
        84i32 => Some(("EILSEQ", "Illegal byte sequence")),
        85i32 => Some(("ERESTART", "Interrupted system call should be restarted")),
        86i32 => Some(("ESTRPIPE", "Streams pipe error")),
        87i32 => Some(("EUSERS", "Too many users")),
        88i32 => Some(("ENOTSOCK", "Socket operation on non-socket")),
        89i32 => Some(("EDESTADDRREQ", "Destination address required")),
        90i32 => Some(("EMSGSIZE", "Message too long")),
        91i32 => Some(("EPROTOTYPE", "Protocol wrong type for socket")),
        92i32 => Some(("ENOPROTOOPT", "Protocol not available")),
        93i32 => Some(("EPROTONOSUPPORT", "Protocol not supported")),
        94i32 => Some(("ESOCKTNOSUPPORT", "Socket type not supported")),
        95i32 => Some(("EOPNOTSUPP", "Operation not supported on transport endpoint")),
        96i32 => Some(("EPFNOSUPPORT", "Protocol family not supported")),
        97i32 => Some(("EAFNOSUPPORT", "Address family not supported by protocol")),
        98i32 => Some(("EADDRINUSE", "Address already in use")),
        99i32 => Some(("EADDRNOTAVAIL", "Cannot assign requested address")),
        100i32 => Some(("ENETDOWN", "Network is down")),
        101i32 => Some(("ENETUNREACH", "Network is unreachable")),
        102i32 => Some(("ENETRESET", "Network dropped connection because of reset")),
        103i32 => Some(("ECONNABORTED", "Software caused connection abort")),
        104i32 => Some(("ECONNRESET", "Connection reset by peer")),
        105i32 => Some(("ENOBUFS", "No buffer space available")),
        106i32 => Some(("EISCONN", "Transport endpoint is already connected")),
        107i32 => Some(("ENOTCONN", "Transport endpoint is not connected")),
        108i32 => Some(("ESHUTDOWN", "Cannot send after transport endpoint shutdown")),
        109i32 => Some(("ETOOMANYREFS", "Too many references: cannot splice")),
        110i32 => Some(("ETIMEDOUT", "Connection timed out")),
        111i32 => Some(("ECONNREFUSED", "Connection refused")),
        112i32 => Some(("EHOSTDOWN", "Host is down")),
        113i32 => Some(("EHOSTUNREACH", "No route to host")),
        114i32 => Some(("EALREADY", "Operation already in progress")),
        115i32 => Some(("EINPROGRESS", "Operation now in progress")),
        116i32 => Some(("ESTALE", "Stale file handle")),
        117i32 => Some(("EUCLEAN", "Structure needs cleaning")),
        118i32 => Some(("ENOTNAM", "Not a XENIX named type file")),
        119i32 => Some(("ENAVAIL", "No XENIX semaphores available")),
        120i32 => Some(("EISNAM", "Is a named type file")),
        121i32 => Some(("EREMOTEIO", "Remote I/O error")),
        122i32 => Some(("EDQUOT", "Quota exceeded")),
        123i32 => Some(("ENOMEDIUM", "No medium found")),
        124i32 => Some(("EMEDIUMTYPE", "Wrong medium type")),
        125i32 => Some(("ECANCELED", "Operation Canceled")),
        126i32 => Some(("ENOKEY", "Required key not available")),
        127i32 => Some(("EKEYEXPIRED", "Key has expired")),
        128i32 => Some(("EKEYREVOKED", "Key has been revoked")),
        129i32 => Some(("EKEYREJECTED", "Key was rejected by service")),
        130i32 => Some(("EOWNERDEAD", "Owner died")),
        131i32 => Some(("ENOTRECOVERABLE", "State not recoverable")),
        132i32 => Some(("ERFKILL", "Operation not possible due to RF-kill")),
        133i32 => Some(("EHWPOISON", "Memory page has hardware error")),
        512i32 => Some(("ERESTARTSYS", "Restart syscall")),
        513i32 => Some(("ERESTARTNOINTR", "Restart if no interrupt")),
        514i32 => Some(("ERESTARTNOHAND", "restart if no handler..")),
        515i32 => Some(("ENOIOCTLCMD", "No ioctl command")),
        516i32 => Some(("ERESTART_RESTARTBLOCK", "restart by calling sys_restart_syscall")),
        517i32 => Some(("EPROBE_DEFER", "Driver requests probe retry")),
        518i32 => Some(("EOPENSTALE", "open found a stale dentry")),
        519i32 => Some(("ENOPARAM", "Parameter not supported")),
        521i32 => Some(("EBADHANDLE", "Illegal NFS file handle")),
        522i32 => Some(("ENOTSYNC", "Update synchronization mismatch")),
        523i32 => Some(("EBADCOOKIE", "Cookie is stale")),
        524i32 => Some(("ENOTSUPP", "Operation is not supported")),
        525i32 => Some(("ETOOSMALL", "Buffer or request is too small")),
        526i32 => Some(("ESERVERFAULT", "An untranslatable error occurred")),
        527i32 => Some(("EBADTYPE", "Type not supported by server")),
        528i32 => Some(("EJUKEBOX", "Request initiated, but will not complete before timeout")),
        529i32 => Some(("EIOCBQUEUED", "iocb queued, will get completion event")),
        530i32 => Some(("ERECALLCONFLICT", "conflict with recalled state")),
        531i32 => Some(("ENOGRACE", "NFS file lock reclaim refused")),
        _ => None,
    }
}

impl Errno {
    /// Looks the code up in the table.
    pub fn name_and_description(&self) -> (r: Option<(&'static str, &'static str)>)
        ensures
            r == entry(self.code()),
    {
        match self.into_raw() {
            1 => Some(("EPERM", "Operation not permitted")),
            2 => Some(("ENOENT", "No such file or directory")),
            3 => Some(("ESRCH", "No such process")),
            4 => Some(("EINTR", "Interrupted system call")),
            5 => Some(("EIO", "I/O error")),
            6 => Some(("ENXIO", "No such device or address")),
            7 => Some(("E2BIG", "Argument list too long")),
            8 => Some(("ENOEXEC", "Exec format error")),
            9 => Some(("EBADF", "Bad file number")),
            10 => Some(("ECHILD", "No child processes")),
            11 => Some(("EAGAIN", "Try again")),
            12 => Some(("ENOMEM", "Out of memory")),
            13 => Some(("EACCES", "Permission denied")),
            14 => Some(("EFAULT", "Bad address")),
            15 => Some(("ENOTBLK", "Block device required")),
            16 => Some(("EBUSY", "Device or resource busy")),
            17 => Some(("EEXIST", "File exists")),
            18 => Some(("EXDEV", "Cross-device link")),
            19 => Some(("ENODEV", "No such device")),
            20 => Some(("ENOTDIR", "Not a directory")),
            21 => Some(("EISDIR", "Is a directory")),
            22 => Some(("EINVAL", "Invalid argument")),
            23 => Some(("ENFILE", "File table overflow")),
            24 => Some(("EMFILE", "Too many open files")),
            25 => Some(("ENOTTY", "Not a typewriter")),
            26 => Some(("ETXTBSY", "Text file busy")),
            27 => Some(("EFBIG", "File too large")),
            28 => Some(("ENOSPC", "No space left on device")),
            29 => Some(("ESPIPE", "Illegal seek")),
            30 => Some(("EROFS", "Read-only file system")),
            31 => Some(("EMLINK", "Too many links")),
            32 => Some(("EPIPE", "Broken pipe")),
            33 => Some(("EDOM", "Math argument out of domain of func")),
            34 => Some(("ERANGE", "Math result not representable")),
            35 => Some(("EDEADLK", "Resource deadlock would occur")),
            36 => Some(("ENAMETOOLONG", "File name too long")),
            37 => Some(("ENOLCK", "No record locks available")),
            38 => Some(("ENOSYS", "Invalid system call number")),
            39 => Some(("ENOTEMPTY", "Directory not empty")),
            40 => Some(("ELOOP", "Too many symbolic links encountered")),
            42 => Some(("ENOMSG", "No message of desired type")),
            43 => Some(("EIDRM", "Identifier removed")),
            44 => Some(("ECHRNG", "Channel number out of range")),
            45 => Some(("EL2NSYNC", "Level 2 not synchronized")),
            46 => Some(("EL3HLT", "Level 3 halted")),
            47 => Some(("EL3RST", "Level 3 reset")),
            48 => Some(("ELNRNG", "Link number out of range")),
            49 => Some(("EUNATCH", "Protocol driver not attached")),
            50 => Some(("ENOCSI", "No CSI structure available")),
            51 => Some(("EL2HLT", "Level 2 halted")),
            52 => Some(("EBADE", "Invalid exchange")),
            53 => Some(("EBADR", "Invalid request descriptor")),
            54 => Some(("EXFULL", "Exchange full")),
            55 => Some(("ENOANO", "No anode")),
            56 => Some(("EBADRQC", "Invalid request code")),
            57 => Some(("EBADSLT", "Invalid slot")),
            59 => Some(("EBFONT", "Bad font file format")),
            60 => Some(("ENOSTR", "Device not a stream")),
            61 => Some(("ENODATA", "No data available")),
            62 => Some(("ETIME", "Timer expired")),
            63 => Some(("ENOSR", "Out of streams resources")),
            64 => Some(("ENONET", "Machine is not on the network")),
            65 => Some(("ENOPKG", "Package not installed")),
            66 => Some(("EREMOTE", "Object is remote")),
            67 => Some(("ENOLINK", "Link has been severed")),
            68 => Some(("EADV", "Advertise error")),
            69 => Some(("ESRMNT", "Srmount error")),
            70 => Some(("ECOMM", "Communication error on send")),
            71 => Some(("EPROTO", "Protocol error")),
            72 => Some(("EMULTIHOP", "Multihop attempted")),
            73 => Some(("EDOTDOT", "RFS specific error")),
            74 => Some(("EBADMSG", "Not a data message")),
            75 => Some(("EOVERFLOW", "Value too large for defined data type")),
            76 => Some(("ENOTUNIQ", "Name not unique on network")),
            77 => Some(("EBADFD", "File descriptor in bad state")),
            78 => Some(("EREMCHG", "Remote address changed")),
            79 => Some(("ELIBACC", "Can not access a needed shared library")),
            80 => Some(("ELIBBAD", "Accessing a corrupted shared library")),
            81 => Some(("ELIBSCN", ".lib section in a.out corrupted")),
            82 => Some(("ELIBMAX", "Attempting to link in too many shared libraries")),
            83 => Some(("ELIBEXEC", "Cannot exec a shared library directly")),
            84 => Some(("EILSEQ", "Illegal byte sequence")),
            85 => Some(("ERESTART", "Interrupted system call should be restarted")),
            86 => Some(("ESTRPIPE", "Streams pipe error")),
            87 => Some(("EUSERS", "Too many users")),
            88 => Some(("ENOTSOCK", "Socket operation on non-socket")),
            89 => Some(("EDESTADDRREQ", "Destination address required")),
            90 => Some(("EMSGSIZE", "Message too long")),
            91 => Some(("EPROTOTYPE", "Protocol wrong type for socket")),
            92 => Some(("ENOPROTOOPT", "Protocol not available")),
            93 => Some(("EPROTONOSUPPORT", "Protocol not supported")),
            94 => Some(("ESOCKTNOSUPPORT", "Socket type not supported")),
            95 => Some(("EOPNOTSUPP", "Operation not supported on transport endpoint")),
            96 => Some(("EPFNOSUPPORT", "Protocol family not supported")),
            97 => Some(("EAFNOSUPPORT", "Address family not supported by protocol")),
            98 => Some(("EADDRINUSE", "Address already in use")),
            99 => Some(("EADDRNOTAVAIL", "Cannot assign requested address")),
            100 => Some(("ENETDOWN", "Network is down")),
            101 => Some(("ENETUNREACH", "Network is unreachable")),
            102 => Some(("ENETRESET", "Network dropped connection because of reset")),
            103 => Some(("ECONNABORTED", "Software caused connection abort")),
            104 => Some(("ECONNRESET", "Connection reset by peer")),
            105 => Some(("ENOBUFS", "No buffer space available")),
            106 => Some(("EISCONN", "Transport endpoint is already connected")),
            107 => Some(("ENOTCONN", "Transport endpoint is not connected")),
            108 => Some(("ESHUTDOWN", "Cannot send after transport endpoint shutdown")),
            109 => Some(("ETOOMANYREFS", "Too many references: cannot splice")),
            110 => Some(("ETIMEDOUT", "Connection timed out")),
            111 => Some(("ECONNREFUSED", "Connection refused")),
            112 => Some(("EHOSTDOWN", "Host is down")),
            113 => Some(("EHOSTUNREACH", "No route to host")),
            114 => Some(("EALREADY", "Operation already in progress")),
            115 => Some(("EINPROGRESS", "Operation now in progress")),
            116 => Some(("ESTALE", "Stale file handle")),
            117 => Some(("EUCLEAN", "Structure needs cleaning")),
            118 => Some(("ENOTNAM", "Not a XENIX named type file")),
            119 => Some(("ENAVAIL", "No XENIX semaphores available")),
            120 => Some(("EISNAM", "Is a named type file")),
            121 => Some(("EREMOTEIO", "Remote I/O error")),
            122 => Some(("EDQUOT", "Quota exceeded")),
            123 => Some(("ENOMEDIUM", "No medium found")),
            124 => Some(("EMEDIUMTYPE", "Wrong medium type")),
            125 => Some(("ECANCELED", "Operation Canceled")),
            126 => Some(("ENOKEY", "Required key not available")),
            127 => Some(("EKEYEXPIRED", "Key has expired")),
            128 => Some(("EKEYREVOKED", "Key has been revoked")),
            129 => Some(("EKEYREJECTED", "Key was rejected by service")),
            130 => Some(("EOWNERDEAD", "Owner died")),
            131 => Some(("ENOTRECOVERABLE", "State not recoverable")),
            132 => Some(("ERFKILL", "Operation not possible due to RF-kill")),
            133 => Some(("EHWPOISON", "Memory page has hardware error")),
            512 => Some(("ERESTARTSYS", "Restart syscall")),
            513 => Some(("ERESTARTNOINTR", "Restart if no interrupt")),
            514 => Some(("ERESTARTNOHAND", "restart if no handler..")),
            515 => Some(("ENOIOCTLCMD", "No ioctl command")),
            516 => Some(("ERESTART_RESTARTBLOCK", "restart by calling sys_restart_syscall")),
            517 => Some(("EPROBE_DEFER", "Driver requests probe retry")),
            518 => Some(("EOPENSTALE", "open found a stale dentry")),
            519 => Some(("ENOPARAM", "Parameter not supported")),
            521 => Some(("EBADHANDLE", "Illegal NFS file handle")),
            522 => Some(("ENOTSYNC", "Update synchronization mismatch")),
            523 => Some(("EBADCOOKIE", "Cookie is stale")),
            524 => Some(("ENOTSUPP", "Operation is not supported")),
            525 => Some(("ETOOSMALL", "Buffer or request is too small")),
            526 => Some(("ESERVERFAULT", "An untranslatable error occurred")),
            527 => Some(("EBADTYPE", "Type not supported by server")),
            528 => Some(("EJUKEBOX", "Request initiated, but will not complete before timeout")),
            529 => Some(("EIOCBQUEUED", "iocb queued, will get completion event")),
            530 => Some(("ERECALLCONFLICT", "conflict with recalled state")),
            531 => Some(("ENOGRACE", "NFS file lock reclaim refused")),
            _ => None,
        }
    }
}

} // verus!
