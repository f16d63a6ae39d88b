use vstd::prelude::*;

verus! {

/// Errors of opening and using a driver.
#[derive(Clone, Copy, Debug, PartialEq, Eq, Structural)]
pub enum ErrorKind {
    ConnectError,
    EofError,
    MemoryNotExport,
    BadFileDescriptor,
    DriverNotFound,
    Addrnotavail,
    DriverBadOpen,
    DriverBadParams,
    PermissionDeny,
    Unknown,
}

/// The message of an error of this kind.
pub open spec fn error_kind_message(e: ErrorKind) -> Seq<char> {
    match e {
        ErrorKind::ConnectError => "Connect Error."@,
        ErrorKind::EofError => "End of file error."@,
        ErrorKind::MemoryNotExport => "Memoery not export"@,
        ErrorKind::BadFileDescriptor => "Bad file descriptor."@,
        ErrorKind::DriverNotFound => "Driver not found."@,
        ErrorKind::Addrnotavail => "Address is not avail."@,
        ErrorKind::DriverBadOpen => "Driver bad open."@,
        ErrorKind::DriverBadParams => "Driver bad params."@,
        ErrorKind::PermissionDeny => "Permision deny."@,
        ErrorKind::Unknown => "Unknown error."@,
    }
}

impl ErrorKind {
    /// The message of the error.
    pub fn message(&self) -> (r: &'static str)
        ensures
            r@ == error_kind_message(*self),
    {
        match self {
            ErrorKind::ConnectError => "Connect Error.",
            ErrorKind::EofError => "End of file error.",
            ErrorKind::MemoryNotExport => "Memoery not export",
            ErrorKind::BadFileDescriptor => "Bad file descriptor.",
            ErrorKind::DriverNotFound => "Driver not found.",
            ErrorKind::Addrnotavail => "Address is not avail.",
            ErrorKind::DriverBadOpen => "Driver bad open.",
            ErrorKind::DriverBadParams => "Driver bad params.",
            ErrorKind::PermissionDeny => "Permision deny.",
            ErrorKind::Unknown => "Unknown error.",
        }
    }
}

/// Errors of the HTTP driver.
#[derive(Clone, Copy, Debug, PartialEq, Eq, Structural)]
pub enum HttpErrorKind {
    InvalidDriver,
    InvalidHandle,
    MemoryAccessError,
    BufferTooSmall,
    HeaderNotFound,
    Utf8Error,
    DestinationNotAllowed,
    InvalidMethod,
    InvalidEncoding,
    InvalidUrl,
    RequestError,
    RuntimeError,
    TooManySessions,
    PermissionDeny,
}

/// The message of an error of this kind.
pub open spec fn http_error_kind_message(e: HttpErrorKind) -> Seq<char> {
    match e {
        HttpErrorKind::InvalidDriver => "Invalid Driver"@,
        HttpErrorKind::InvalidHandle => "Invalid Error"@,
        HttpErrorKind::MemoryAccessError => "Memoery Access Error"@,
        HttpErrorKind::BufferTooSmall => "Buffer too small"@,
        HttpErrorKind::HeaderNotFound => "Header not found"@,
        HttpErrorKind::Utf8Error => "Utf8 error"@,
        HttpErrorKind::DestinationNotAllowed => "Destination not allowed"@,
        HttpErrorKind::InvalidMethod => "Invalid method"@,
        HttpErrorKind::InvalidEncoding => "Invalid encoding"@,
        HttpErrorKind::InvalidUrl => "Invalid url"@,
        HttpErrorKind::RequestError => "Request url"@,
        HttpErrorKind::RuntimeError => "Runtime error"@,
        HttpErrorKind::TooManySessions => "Too many sessions"@,
        HttpErrorKind::PermissionDeny => "Permision deny."@,
    }
}

impl HttpErrorKind {
    /// The message of the error.
    pub fn message(&self) -> (r: &'static str)
        ensures
            r@ == http_error_kind_message(*self),
    {
        match self {
            HttpErrorKind::InvalidDriver => "Invalid Driver",
            HttpErrorKind::InvalidHandle => "Invalid Error",
            HttpErrorKind::MemoryAccessError => "Memoery Access Error",
            HttpErrorKind::BufferTooSmall => "Buffer too small",
            HttpErrorKind::HeaderNotFound => "Header not found",
            HttpErrorKind::Utf8Error => "Utf8 error",
            HttpErrorKind::DestinationNotAllowed => "Destination not allowed",
            HttpErrorKind::InvalidMethod => "Invalid method",
            HttpErrorKind::InvalidEncoding => "Invalid encoding",
            HttpErrorKind::InvalidUrl => "Invalid url",
            HttpErrorKind::RequestError => "Request url",
            HttpErrorKind::RuntimeError => "Runtime error",
            HttpErrorKind::TooManySessions => "Too many sessions",
            HttpErrorKind::PermissionDeny => "Permision deny.",
        }
    }
}

/// Errors of the IPFS driver.
#[derive(Clone, Copy, Debug, PartialEq, Eq, Structural)]
pub enum IpfsErrorKind {
    InvalidHandle,
    Utf8Error,
    InvalidMethod,
    InvalidEncoding,
    InvalidParameter,
    RequestError,
    RuntimeError,
    TooManySessions,
    PermissionDeny,
}

/// The message of an error of this kind.
pub open spec fn ipfs_error_kind_message(e: IpfsErrorKind) -> Seq<char> {
    match e {
        IpfsErrorKind::InvalidHandle => "Invalid Error"@,
        IpfsErrorKind::Utf8Error => "Utf8 error"@,
        IpfsErrorKind::InvalidMethod => "Invalid method"@,
        IpfsErrorKind::InvalidEncoding => "Invalid encoding"@,
        IpfsErrorKind::InvalidParameter => "Invalid parameter"@,
        IpfsErrorKind::RequestError => "Request url"@,
        IpfsErrorKind::RuntimeError => "Runtime error"@,
        IpfsErrorKind::TooManySessions => "Too many sessions"@,
        IpfsErrorKind::PermissionDeny => "Permision deny."@,
    }
}

impl IpfsErrorKind {
    /// The message of the error.
    pub fn message(&self) -> (r: &'static str)
        ensures
            r@ == ipfs_error_kind_message(*self),
    {
        match self {
            IpfsErrorKind::InvalidHandle => "Invalid Error",
            IpfsErrorKind::Utf8Error => "Utf8 error",
            IpfsErrorKind::InvalidMethod => "Invalid method",
            IpfsErrorKind::InvalidEncoding => "Invalid encoding",
            IpfsErrorKind::InvalidParameter => "Invalid parameter",
            IpfsErrorKind::RequestError => "Request url",
            IpfsErrorKind::RuntimeError => "Runtime error",
            IpfsErrorKind::TooManySessions => "Too many sessions",
            IpfsErrorKind::PermissionDeny => "Permision deny.",
        }
    }
}

/// Errors of the S3 driver.
#[derive(Clone, Copy, Debug, PartialEq, Eq, Structural)]
pub enum S3ErrorKind {
    InvalidHandle,
    Utf8Error,
    InvalidMethod,
    InvalidEncoding,
    CredentialsError,
    RegionError,
    InvalidParameter,
    RequestError,
    RuntimeError,
    TooManySessions,
    PermissionDeny,
}

/// The message of an error of this kind.
pub open spec fn s3_error_kind_message(e: S3ErrorKind) -> Seq<char> {
    match e {
        S3ErrorKind::InvalidHandle => "Invalid Error"@,
        S3ErrorKind::Utf8Error => "Utf8 error"@,
        S3ErrorKind::InvalidMethod => "Invalid method"@,
        S3ErrorKind::InvalidEncoding => "Invalid encoding"@,
        S3ErrorKind::CredentialsError => "Credentials encoding"@,
        S3ErrorKind::RegionError => "Region encoding"@,
        S3ErrorKind::InvalidParameter => "Invalid parameter"@,
        S3ErrorKind::RequestError => "Request url"@,
        S3ErrorKind::RuntimeError => "Runtime error"@,
        S3ErrorKind::TooManySessions => "Too many sessions"@,
        S3ErrorKind::PermissionDeny => "Permision deny."@,
    }
}

impl S3ErrorKind {
    /// The message of the error.
    pub fn message(&self) -> (r: &'static str)
        ensures
            r@ == s3_error_kind_message(*self),
    {
        match self {
            S3ErrorKind::InvalidHandle => "Invalid Error",
            S3ErrorKind::Utf8Error => "Utf8 error",
            S3ErrorKind::InvalidMethod => "Invalid method",
            S3ErrorKind::InvalidEncoding => "Invalid encoding",
            S3ErrorKind::CredentialsError => "Credentials encoding",
            S3ErrorKind::RegionError => "Region encoding",
            S3ErrorKind::InvalidParameter => "Invalid parameter",
            S3ErrorKind::RequestError => "Request url",
            S3ErrorKind::RuntimeError => "Runtime error",
            S3ErrorKind::TooManySessions => "Too many sessions",
            S3ErrorKind::PermissionDeny => "Permision deny.",
        }
    }
}

/// Errors of the memory driver.
#[derive(Clone, Copy, Debug, PartialEq, Eq, Structural)]
pub enum BlocklessMemoryErrorKind {
    InvalidHandle,
    RuntimeError,
    InvalidParameter,
}

/// The message of an error of this kind.
pub open spec fn blockless_memory_error_kind_message(e: BlocklessMemoryErrorKind) -> Seq<char> {
    match e {
        BlocklessMemoryErrorKind::InvalidHandle => "Invalid Error"@,
        BlocklessMemoryErrorKind::RuntimeError => "Runtime error"@,
        BlocklessMemoryErrorKind::InvalidParameter => "Invalid parameter"@,
    }
}

impl BlocklessMemoryErrorKind {
    /// The message of the error.
    pub fn message(&self) -> (r: &'static str)
        ensures
            r@ == blockless_memory_error_kind_message(*self),
    {
        match self {
            BlocklessMemoryErrorKind::InvalidHandle => "Invalid Error",
            BlocklessMemoryErrorKind::RuntimeError => "Runtime error",
            BlocklessMemoryErrorKind::InvalidParameter => "Invalid parameter",
        }
    }
}

/// Errors of the CGI driver.
#[derive(Clone, Copy, Debug, PartialEq, Eq, Structural)]
pub enum CgiErrorKind {
    InvalidHandle,
    RuntimeError,
    InvalidParameter,
    InvalidExtension,
}

/// The message of an error of this kind.
pub open spec fn cgi_error_kind_message(e: CgiErrorKind) -> Seq<char> {
    match e {
        CgiErrorKind::InvalidHandle => "Invalid Error"@,
        CgiErrorKind::RuntimeError => "Runtime error"@,
        CgiErrorKind::InvalidParameter => "Invalid parameter"@,
        CgiErrorKind::InvalidExtension => "Invalid extension"@,
    }
}

impl CgiErrorKind {
    /// The message of the error.
    pub fn message(&self) -> (r: &'static str)
        ensures
            r@ == cgi_error_kind_message(*self),
    {
        match self {
            CgiErrorKind::InvalidHandle => "Invalid Error",
            CgiErrorKind::RuntimeError => "Runtime error",
            CgiErrorKind::InvalidParameter => "Invalid parameter",
            CgiErrorKind::InvalidExtension => "Invalid extension",
        }
    }
}

} // verus!
