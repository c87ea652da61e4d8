use vstd::prelude::*;

use crate::sys;

verus! {

/// Error type representing all CANLib status codes.
#[derive(Debug, Clone, Copy, PartialEq, Eq, Structural)]
pub enum CanError {
    /// Invalid parameter.
    Param,
    /// No message available.
    NoMsg,
    /// Channel not found.
    NotFound,
    /// Out of memory.
    NoMem,
    /// No channels available.
    NoChannels,
    /// Operation interrupted.
    Interrupted,
    /// Operation timed out.
    Timeout,
    /// Library not initialized.
    NotInitialized,
    /// No free handles.
    NoHandles,
    /// Invalid handle.
    InvalidHandle,
    /// Ini-file error.
    IniFile,
    /// Driver error.
    Driver,
    /// Transmit buffer overflow.
    TxBufOverflow,
    /// Hardware error.
    Hardware,
    /// Dynamic library load error.
    DynaLoad,
    /// Dynamic library not found.
    DynaLib,
    /// Dynamic library init error.
    DynaInit,
    /// Operation not supported.
    NotSupported,
    /// Driver load error.
    DriverLoad,
    /// Driver failed.
    DriverFailed,
    /// No configuration manager.
    NoConfigMgr,
    /// No card found.
    NoCard,
    /// Registry error.
    Registry,
    /// License error.
    License,
    /// Internal error.
    Internal,
    /// No access.
    NoAccess,
    /// Not implemented.
    NotImplemented,
    /// Device file error.
    DeviceFile,
    /// Host file error.
    HostFile,
    /// Disk error.
    Disk,
    /// CRC error.
    Crc,
    /// Configuration error.
    Config,
    /// Memo failure.
    MemoFail,
    /// Script failure.
    ScriptFail,
    /// Script wrong version.
    ScriptWrongVersion,
    /// A status code with no variant of its own.
    Unknown(i32),
}

/// Result type alias used throughout the crate.
pub type Result<T> = core::result::Result<T, CanError>;

/// The status codes that have a variant of their own in [`CanError`].
pub open spec fn is_known_status(status: i32) -> bool {
    &&& -40 <= status <= -1
    &&& status != sys::canERR_RESERVED_1
    &&& status != sys::canERR_RESERVED_5
    &&& status != sys::canERR_RESERVED_6
    &&& status != sys::canERR_RESERVED_2
    &&& status != sys::canERR_RESERVED_7
}

impl CanError {
    /// The raw status code of each error.
    pub open spec fn spec_status_code(self) -> i32 {
        match self {
            CanError::Param => sys::canERR_PARAM,
            CanError::NoMsg => sys::canERR_NOMSG,
            CanError::NotFound => sys::canERR_NOTFOUND,
            CanError::NoMem => sys::canERR_NOMEM,
            CanError::NoChannels => sys::canERR_NOCHANNELS,
            CanError::Interrupted => sys::canERR_INTERRUPTED,
            CanError::Timeout => sys::canERR_TIMEOUT,
            CanError::NotInitialized => sys::canERR_NOTINITIALIZED,
            CanError::NoHandles => sys::canERR_NOHANDLES,
            CanError::InvalidHandle => sys::canERR_INVHANDLE,
            CanError::IniFile => sys::canERR_INIFILE,
            CanError::Driver => sys::canERR_DRIVER,
            CanError::TxBufOverflow => sys::canERR_TXBUFOFL,
            CanError::Hardware => sys::canERR_HARDWARE,
            CanError::DynaLoad => sys::canERR_DYNALOAD,
            CanError::DynaLib => sys::canERR_DYNALIB,
            CanError::DynaInit => sys::canERR_DYNAINIT,
            CanError::NotSupported => sys::canERR_NOT_SUPPORTED,
            CanError::DriverLoad => sys::canERR_DRIVERLOAD,
            CanError::DriverFailed => sys::canERR_DRIVERFAILED,
            CanError::NoConfigMgr => sys::canERR_NOCONFIGMGR,
            CanError::NoCard => sys::canERR_NOCARD,
            CanError::Registry => sys::canERR_REGISTRY,
            CanError::License => sys::canERR_LICENSE,
            CanError::Internal => sys::canERR_INTERNAL,
            CanError::NoAccess => sys::canERR_NO_ACCESS,
            CanError::NotImplemented => sys::canERR_NOT_IMPLEMENTED,
            CanError::DeviceFile => sys::canERR_DEVICE_FILE,
            CanError::HostFile => sys::canERR_HOST_FILE,
            CanError::Disk => sys::canERR_DISK,
            CanError::Crc => sys::canERR_CRC,
            CanError::Config => sys::canERR_CONFIG,
            CanError::MemoFail => sys::canERR_MEMO_FAIL,
            CanError::ScriptFail => sys::canERR_SCRIPT_FAIL,
            CanError::ScriptWrongVersion => sys::canERR_SCRIPT_WRONG_VERSION,
            CanError::Unknown(code) => code,
        }
    }

    /// The error that each raw status code stands for.
    pub open spec fn spec_from_status(status: i32) -> CanError {
        if status == sys::canERR_PARAM {
            CanError::Param
        } else if status == sys::canERR_NOMSG {
            CanError::NoMsg
        } else if status == sys::canERR_NOTFOUND {
            CanError::NotFound
        } else if status == sys::canERR_NOMEM {
            CanError::NoMem
        } else if status == sys::canERR_NOCHANNELS {
            CanError::NoChannels
        } else if status == sys::canERR_INTERRUPTED {
            CanError::Interrupted
        } else if status == sys::canERR_TIMEOUT {
            CanError::Timeout
        } else if status == sys::canERR_NOTINITIALIZED {
            CanError::NotInitialized
        } else if status == sys::canERR_NOHANDLES {
            CanError::NoHandles
        } else if status == sys::canERR_INVHANDLE {
            CanError::InvalidHandle
        } else if status == sys::canERR_INIFILE {
            CanError::IniFile
        } else if status == sys::canERR_DRIVER {
            CanError::Driver
        } else if status == sys::canERR_TXBUFOFL {
            CanError::TxBufOverflow
        } else if status == sys::canERR_HARDWARE {
            CanError::Hardware
        } else if status == sys::canERR_DYNALOAD {
            CanError::DynaLoad
        } else if status == sys::canERR_DYNALIB {
            CanError::DynaLib
        } else if status == sys::canERR_DYNAINIT {
            CanError::DynaInit
        } else if status == sys::canERR_NOT_SUPPORTED {
            CanError::NotSupported
        } else if status == sys::canERR_DRIVERLOAD {
            CanError::DriverLoad
        } else if status == sys::canERR_DRIVERFAILED {
            CanError::DriverFailed
        } else if status == sys::canERR_NOCONFIGMGR {
            CanError::NoConfigMgr
        } else if status == sys::canERR_NOCARD {
            CanError::NoCard
        } else if status == sys::canERR_REGISTRY {
            CanError::Registry
        } else if status == sys::canERR_LICENSE {
            CanError::License
        } else if status == sys::canERR_INTERNAL {
            CanError::Internal
        } else if status == sys::canERR_NO_ACCESS {
            CanError::NoAccess
        } else if status == sys::canERR_NOT_IMPLEMENTED {
            CanError::NotImplemented
        } else if status == sys::canERR_DEVICE_FILE {
            CanError::DeviceFile
        } else if status == sys::canERR_HOST_FILE {
            CanError::HostFile
        } else if status == sys::canERR_DISK {
            CanError::Disk
        } else if status == sys::canERR_CRC {
            CanError::Crc
        } else if status == sys::canERR_CONFIG {
            CanError::Config
        } else if status == sys::canERR_MEMO_FAIL {
            CanError::MemoFail
        } else if status == sys::canERR_SCRIPT_FAIL {
            CanError::ScriptFail
        } else if status == sys::canERR_SCRIPT_WRONG_VERSION {
            CanError::ScriptWrongVersion
        } else {
            CanError::Unknown(status)
        }
    }

    /// Convert this `CanError` back to the corresponding raw `canStatus` code.
    pub fn to_status_code(&self) -> (code: sys::canStatus)
        ensures
            code == self.spec_status_code(),
    {
        match self {
            CanError::Param => sys::canERR_PARAM,
            CanError::NoMsg => sys::canERR_NOMSG,
            CanError::NotFound => sys::canERR_NOTFOUND,
            CanError::NoMem => sys::canERR_NOMEM,
            CanError::NoChannels => sys::canERR_NOCHANNELS,
            CanError::Interrupted => sys::canERR_INTERRUPTED,
            CanError::Timeout => sys::canERR_TIMEOUT,
            CanError::NotInitialized => sys::canERR_NOTINITIALIZED,
            CanError::NoHandles => sys::canERR_NOHANDLES,
            CanError::InvalidHandle => sys::canERR_INVHANDLE,
            CanError::IniFile => sys::canERR_INIFILE,
            CanError::Driver => sys::canERR_DRIVER,
            CanError::TxBufOverflow => sys::canERR_TXBUFOFL,
            CanError::Hardware => sys::canERR_HARDWARE,
            CanError::DynaLoad => sys::canERR_DYNALOAD,
            CanError::DynaLib => sys::canERR_DYNALIB,
            CanError::DynaInit => sys::canERR_DYNAINIT,
            CanError::NotSupported => sys::canERR_NOT_SUPPORTED,
            CanError::DriverLoad => sys::canERR_DRIVERLOAD,
            CanError::DriverFailed => sys::canERR_DRIVERFAILED,
            CanError::NoConfigMgr => sys::canERR_NOCONFIGMGR,
            CanError::NoCard => sys::canERR_NOCARD,
            CanError::Registry => sys::canERR_REGISTRY,
            CanError::License => sys::canERR_LICENSE,
            CanError::Internal => sys::canERR_INTERNAL,
            CanError::NoAccess => sys::canERR_NO_ACCESS,
            CanError::NotImplemented => sys::canERR_NOT_IMPLEMENTED,
            CanError::DeviceFile => sys::canERR_DEVICE_FILE,
            CanError::HostFile => sys::canERR_HOST_FILE,
            CanError::Disk => sys::canERR_DISK,
            CanError::Crc => sys::canERR_CRC,
            CanError::Config => sys::canERR_CONFIG,
            CanError::MemoFail => sys::canERR_MEMO_FAIL,
            CanError::ScriptFail => sys::canERR_SCRIPT_FAIL,
            CanError::ScriptWrongVersion => sys::canERR_SCRIPT_WRONG_VERSION,
            CanError::Unknown(code) => *code,
        }
    }

    /// Convert a raw `canStatus` code into a `CanError`.
    pub fn from_status(status: sys::canStatus) -> (e: CanError)
        ensures
            e == CanError::spec_from_status(status),
    {
        match status {
            sys::canERR_PARAM => CanError::Param,
            sys::canERR_NOMSG => CanError::NoMsg,
            sys::canERR_NOTFOUND => CanError::NotFound,
            sys::canERR_NOMEM => CanError::NoMem,
            sys::canERR_NOCHANNELS => CanError::NoChannels,
            sys::canERR_INTERRUPTED => CanError::Interrupted,
            sys::canERR_TIMEOUT => CanError::Timeout,
            sys::canERR_NOTINITIALIZED => CanError::NotInitialized,
            sys::canERR_NOHANDLES => CanError::NoHandles,
            sys::canERR_INVHANDLE => CanError::InvalidHandle,
            sys::canERR_INIFILE => CanError::IniFile,
            sys::canERR_DRIVER => CanError::Driver,
            sys::canERR_TXBUFOFL => CanError::TxBufOverflow,
            sys::canERR_HARDWARE => CanError::Hardware,
            sys::canERR_DYNALOAD => CanError::DynaLoad,
            sys::canERR_DYNALIB => CanError::DynaLib,
            sys::canERR_DYNAINIT => CanError::DynaInit,
            sys::canERR_NOT_SUPPORTED => CanError::NotSupported,
            sys::canERR_DRIVERLOAD => CanError::DriverLoad,
            sys::canERR_DRIVERFAILED => CanError::DriverFailed,
            sys::canERR_NOCONFIGMGR => CanError::NoConfigMgr,
            sys::canERR_NOCARD => CanError::NoCard,
            sys::canERR_REGISTRY => CanError::Registry,
            sys::canERR_LICENSE => CanError::License,
            sys::canERR_INTERNAL => CanError::Internal,
            sys::canERR_NO_ACCESS => CanError::NoAccess,
            sys::canERR_NOT_IMPLEMENTED => CanError::NotImplemented,
            sys::canERR_DEVICE_FILE => CanError::DeviceFile,
            sys::canERR_HOST_FILE => CanError::HostFile,
            sys::canERR_DISK => CanError::Disk,
            sys::canERR_CRC => CanError::Crc,
            sys::canERR_CONFIG => CanError::Config,
            sys::canERR_MEMO_FAIL => CanError::MemoFail,
            sys::canERR_SCRIPT_FAIL => CanError::ScriptFail,
            sys::canERR_SCRIPT_WRONG_VERSION => CanError::ScriptWrongVersion,
            other => CanError::Unknown(other),
        }
    }

    /// The description of each error: a fixed text for each named error, and
    /// `unknown error (code N)` with the code in decimal for the others.
    pub open spec fn spec_message(self) -> Seq<char> {
        match self {
            CanError::Param => "invalid parameter"@,
            CanError::NoMsg => "no message available"@,
            CanError::NotFound => "channel not found"@,
            CanError::NoMem => "out of memory"@,
            CanError::NoChannels => "no channels available"@,
            CanError::Interrupted => "operation interrupted"@,
            CanError::Timeout => "operation timed out"@,
            CanError::NotInitialized => "library not initialized"@,
            CanError::NoHandles => "no free handles"@,
            CanError::InvalidHandle => "invalid handle"@,
            CanError::IniFile => "ini-file error"@,
            CanError::Driver => "driver error"@,
            CanError::TxBufOverflow => "transmit buffer overflow"@,
            CanError::Hardware => "hardware error"@,
            CanError::DynaLoad => "dynamic library load error"@,
            CanError::DynaLib => "dynamic library not found"@,
            CanError::DynaInit => "dynamic library init error"@,
            CanError::NotSupported => "operation not supported"@,
            CanError::DriverLoad => "driver load error"@,
            CanError::DriverFailed => "driver failed"@,
            CanError::NoConfigMgr => "no configuration manager"@,
            CanError::NoCard => "no card found"@,
            CanError::Registry => "registry error"@,
            CanError::License => "license error"@,
            CanError::Internal => "internal error"@,
            CanError::NoAccess => "no access"@,
            CanError::NotImplemented => "not implemented"@,
            CanError::DeviceFile => "device file error"@,
            CanError::HostFile => "host file error"@,
            CanError::Disk => "disk error"@,
            CanError::Crc => "CRC error"@,
            CanError::Config => "configuration error"@,
            CanError::MemoFail => "memo failure"@,
            CanError::ScriptFail => "script failure"@,
            CanError::ScriptWrongVersion => "script wrong version"@,
            CanError::Unknown(code) => "unknown error (code "@ + spec_decimal(code as int) + ")"@,
        }
    }

    /// A short human-readable description of the error.
    pub fn message(&self) -> (s: String)
        ensures
            s@ == self.spec_message(),
    {
        match self {
            CanError::Param => {
                proof {
                    reveal_strlit("invalid parameter");
                }
                "invalid parameter".to_owned()
            },
            CanError::NoMsg => {
                proof {
                    reveal_strlit("no message available");
                }
                "no message available".to_owned()
            },
            CanError::NotFound => {
                proof {
                    reveal_strlit("channel not found");
                }
                "channel not found".to_owned()
            },
            CanError::NoMem => {
                proof {
                    reveal_strlit("out of memory");
                }
                "out of memory".to_owned()
            },
            CanError::NoChannels => {
                proof {
                    reveal_strlit("no channels available");
                }
                "no channels available".to_owned()
            },
            CanError::Interrupted => {
                proof {
                    reveal_strlit("operation interrupted");
                }
                "operation interrupted".to_owned()
            },
            CanError::Timeout => {
                proof {
                    reveal_strlit("operation timed out");
                }
                "operation timed out".to_owned()
            },
            CanError::NotInitialized => {
                proof {
                    reveal_strlit("library not initialized");
                }
                "library not initialized".to_owned()
            },
            CanError::NoHandles => {
                proof {
                    reveal_strlit("no free handles");
                }
                "no free handles".to_owned()
            },
            CanError::InvalidHandle => {
                proof {
                    reveal_strlit("invalid handle");
                }
                "invalid handle".to_owned()
            },
            CanError::IniFile => {
                proof {
                    reveal_strlit("ini-file error");
                }
                "ini-file error".to_owned()
            },
            CanError::Driver => {
                proof {
                    reveal_strlit("driver error");
                }
                "driver error".to_owned()
            },
            CanError::TxBufOverflow => {
                proof {
                    reveal_strlit("transmit buffer overflow");
                }
                "transmit buffer overflow".to_owned()
            },
            CanError::Hardware => {
                proof {
                    reveal_strlit("hardware error");
                }
                "hardware error".to_owned()
            },
            CanError::DynaLoad => {
                proof {
                    reveal_strlit("dynamic library load error");
                }
                "dynamic library load error".to_owned()
            },
            CanError::DynaLib => {
                proof {
                    reveal_strlit("dynamic library not found");
                }
                "dynamic library not found".to_owned()
            },
            CanError::DynaInit => {
                proof {
                    reveal_strlit("dynamic library init error");
                }
                "dynamic library init error".to_owned()
            },
            CanError::NotSupported => {
                proof {
                    reveal_strlit("operation not supported");
                }
                "operation not supported".to_owned()
            },
            CanError::DriverLoad => {
                proof {
                    reveal_strlit("driver load error");
                }
                "driver load error".to_owned()
            },
            CanError::DriverFailed => {
                proof {
                    reveal_strlit("driver failed");
                }
                "driver failed".to_owned()
            },
            CanError::NoConfigMgr => {
                proof {
                    reveal_strlit("no configuration manager");
                }
                "no configuration manager".to_owned()
            },
            CanError::NoCard => {
                proof {
                    reveal_strlit("no card found");
                }
                "no card found".to_owned()
            },
            CanError::Registry => {
                proof {
                    reveal_strlit("registry error");
                }
                "registry error".to_owned()
            },
            CanError::License => {
                proof {
                    reveal_strlit("license error");
                }
                "license error".to_owned()
            },
            CanError::Internal => {
                proof {
                    reveal_strlit("internal error");
                }
                "internal error".to_owned()
            },
            CanError::NoAccess => {
                proof {
                    reveal_strlit("no access");
                }
                "no access".to_owned()
            },
            CanError::NotImplemented => {
                proof {
                    reveal_strlit("not implemented");
                }
                "not implemented".to_owned()
            },
            CanError::DeviceFile => {
                proof {
                    reveal_strlit("device file error");
                }
                "device file error".to_owned()
            },
            CanError::HostFile => {
                proof {
                    reveal_strlit("host file error");
                }
                "host file error".to_owned()
            },
            CanError::Disk => {
                proof {
                    reveal_strlit("disk error");
                }
                "disk error".to_owned()
            },
            CanError::Crc => {
                proof {
                    reveal_strlit("CRC error");
                }
                "CRC error".to_owned()
            },
            CanError::Config => {
                proof {
                    reveal_strlit("configuration error");
                }
                "configuration error".to_owned()
            },
            CanError::MemoFail => {
                proof {
                    reveal_strlit("memo failure");
                }
                "memo failure".to_owned()
            },
            CanError::ScriptFail => {
                proof {
                    reveal_strlit("script failure");
                }
                "script failure".to_owned()
            },
            CanError::ScriptWrongVersion => {
                proof {
                    reveal_strlit("script wrong version");
                }
                "script wrong version".to_owned()
            },
            CanError::Unknown(code) => {
                let mut s = "unknown error (code ".to_owned();
                push_signed_decimal(&mut s, *code);
                push_char(&mut s, ')');
                proof {
                    reveal_strlit("unknown error (code ");
                    reveal_strlit(")");
                    assert(s@ =~= self.spec_message());
                }
                s
            },
        }
    }
}

/// The decimal digit `d` (below ten) as a character.
pub open spec fn digit_char(d: nat) -> char {
    (48 + d) as char
}

/// The decimal digits of `n`, most significant first, with no leading zeros.
pub open spec fn spec_decimal_nat(n: nat) -> Seq<char>
    decreases n,
{
    if n < 10 {
        seq![digit_char(n)]
    } else {
        spec_decimal_nat(n / 10).push(digit_char(n % 10))
    }
}

/// The decimal text of `i`: its digits, after a minus sign when it is negative.
pub open spec fn spec_decimal(i: int) -> Seq<char> {
    if i < 0 {
        seq!['-'] + spec_decimal_nat((-i) as nat)
    } else {
        spec_decimal_nat(i as nat)
    }
}

/// Appends a character to a string with std's `String::push`. Trusted, not
/// proved: that the string afterwards is the old one followed by `c`.
#[verifier::external_body]
fn push_char(s: &mut String, c: char)
    ensures
        final(s)@ == old(s)@.push(c),
{
    s.push(c);
}

/// Appends the decimal digits of `n` to `s`.
fn push_decimal(s: &mut String, n: u64)
    ensures
        final(s)@ == old(s)@ + spec_decimal_nat(n as nat),
    decreases n,
{
    if n >= 10 {
        push_decimal(s, n / 10);
    }
    let d: u8 = (n % 10) as u8;
    let c: char = (48u8 + d) as char;
    push_char(s, c);
    proof {
        assert(old(s)@ + spec_decimal_nat(n as nat) =~= s@);
    }
}

/// Appends the decimal text of `code` to `s`.
fn push_signed_decimal(s: &mut String, code: i32)
    ensures
        final(s)@ == old(s)@ + spec_decimal(code as int),
{
    let magnitude: u64 = if code < 0 {
        push_char(s, '-');
        (0i64 - code as i64) as u64
    } else {
        code as u64
    };
    push_decimal(s, magnitude);
    proof {
        if code < 0 {
            assert(old(s)@ + spec_decimal(code as int) =~= s@);
        }
    }
}

/// The text given for a status code when the driver has no text for it:
/// `Unknown error (N)` with the code in decimal.
pub open spec fn spec_fallback_error_text(code: i32) -> Seq<char> {
    "Unknown error ("@ + spec_decimal(code as int) + ")"@
}

/// The text given for a status code when the driver has no text for it.
pub fn fallback_error_text(code: i32) -> (s: String)
    ensures
        s@ == spec_fallback_error_text(code),
{
    let mut s = "Unknown error (".to_owned();
    push_signed_decimal(&mut s, code);
    push_char(&mut s, ')');
    proof {
        reveal_strlit("Unknown error (");
        reveal_strlit(")");
        assert(s@ =~= spec_fallback_error_text(code));
    }
    s
}

/// The outcome of a call that reports only a status: success when the status is
/// non-negative, else the error that the status stands for.
pub open spec fn spec_check_status(status: i32) -> Result<()> {
    if status >= sys::canOK {
        Ok(())
    } else {
        Err(CanError::spec_from_status(status))
    }
}

/// The outcome of a call that returns a handle or a failing status.
pub open spec fn spec_check_handle(status: i32) -> Result<sys::canHandle> {
    if status >= 0 {
        Ok(status)
    } else {
        Err(CanError::spec_from_status(status))
    }
}

/// Check a `canStatus` return value and convert it to a `Result<()>`.
pub fn check_status(status: sys::canStatus) -> (r: Result<()>)
    ensures
        r == spec_check_status(status),
{
    if status >= sys::canOK {
        Ok(())
    } else {
        Err(CanError::from_status(status))
    }
}

/// Check a `canStatus` return value that may be a handle (non-negative means success).
pub fn check_handle(status: sys::canStatus) -> (r: Result<sys::canHandle>)
    ensures
        r == spec_check_handle(status),
{
    if status >= 0 {
        Ok(status)
    } else {
        Err(CanError::from_status(status))
    }
}

/// Reading a status code back from its error gives the same code, for every code.
pub proof fn lemma_status_code_round_trip(status: i32)
    ensures
        CanError::spec_from_status(status).spec_status_code() == status,
{
}

/// A status code maps to a variant of its own exactly when it is a known code.
pub proof fn lemma_from_status_unknown(status: i32)
    ensures
        (CanError::spec_from_status(status) is Unknown) <==> !is_known_status(status),
{
}

/// Every error survives the trip to its status code and back, except `Unknown`
/// carrying a code that has a variant of its own.
pub proof fn lemma_error_round_trip(e: CanError)
    requires
        e matches CanError::Unknown(code) ==> !is_known_status(code),
    ensures
        CanError::spec_from_status(e.spec_status_code()) == e,
{
}

/// An error that came from a failing status is reported with that status.
pub proof fn lemma_check_status_error_code(status: i32)
    ensures
        status < 0 ==> CanError::spec_from_status(status).spec_status_code() == status,
        status >= 0 ==> CanError::spec_from_status(status) == CanError::Unknown(status),
{
}

} // verus!
