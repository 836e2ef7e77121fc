//! The closed set of failure kinds a download run can produce, each with a
//! static classification as ignorable (an expected, benign outcome) or fatal
//! (worth investigating).

use vstd::prelude::*;

verus! {

/// One failure kind. Variants carry only what is needed to render them: an
/// HTTP status code, or the message of an underlying I/O or transport error.
#[derive(Debug)]
pub enum Error {
    FileExisted,
    DifferentFileExisted,
    DifferentFileExistedWhenRename,
    FileExistedAsFolder,
    FileExistedAsFolderWhenRename,
    NoPermissionToWrite,
    FailedToCreateFolder,
    FolderExistedAsFile,
    FileIsNotBinary,
    ResourceNotFound,
    HttpError(String),
    UrlIllegal,
    UrlCannotDownload,
    RequestNotOK(u16),
    IoError(String),
    IoErrorWhenRename(String),
    HashingError,
    HashingErrorWhenRename,
    ProxyError(String),
}

/// The single decimal digit `n` as a one-character string.
pub open spec fn spec_digit(n: nat) -> Seq<char> {
    if n == 0 {
        "0"@
    } else if n == 1 {
        "1"@
    } else if n == 2 {
        "2"@
    } else if n == 3 {
        "3"@
    } else if n == 4 {
        "4"@
    } else if n == 5 {
        "5"@
    } else if n == 6 {
        "6"@
    } else if n == 7 {
        "7"@
    } else if n == 8 {
        "8"@
    } else {
        "9"@
    }
}

/// The decimal rendering of `n`, most significant digit first, without
/// leading zeroes (`0` renders as `0`).
pub open spec fn spec_decimal(n: nat) -> Seq<char>
    decreases n,
{
    if n < 10 {
        spec_digit(n)
    } else {
        spec_decimal(n / 10) + spec_digit(n % 10)
    }
}

/// The single decimal digit `n` as a string slice.
fn digit_str(n: u16) -> (r: &'static str)
    requires
        n < 10,
    ensures
        r@ == spec_digit(n as nat),
{
    if n == 0 {
        "0"
    } else if n == 1 {
        "1"
    } else if n == 2 {
        "2"
    } else if n == 3 {
        "3"
    } else if n == 4 {
        "4"
    } else if n == 5 {
        "5"
    } else if n == 6 {
        "6"
    } else if n == 7 {
        "7"
    } else if n == 8 {
        "8"
    } else {
        "9"
    }
}

/// Renders `n` in decimal.
fn u16_decimal(n: u16) -> (r: String)
    ensures
        r@ == spec_decimal(n as nat),
    decreases n,
{
    if n < 10 {
        digit_str(n).to_owned()
    } else {
        let mut s = u16_decimal(n / 10);
        s.append(digit_str(n % 10));
        s
    }
}

impl Error {
    /// Whether this failure is an expected, benign outcome (a rename-time race
    /// or an input that was never downloadable) rather than a genuine fault.
    pub open spec fn spec_ignorable(&self) -> bool {
        match self {
            Error::DifferentFileExistedWhenRename => true,
            Error::FileExistedAsFolderWhenRename => true,
            Error::HashingErrorWhenRename => true,
            Error::IoErrorWhenRename(_) => true,
            Error::UrlCannotDownload => true,
            Error::FileIsNotBinary => true,
            _ => false,
        }
    }

    /// Classifies this failure: `true` means a caller may treat it as an
    /// expected outcome, `false` means a genuine fault.
    pub fn ignorable(&self) -> (r: bool)
        ensures
            r == self.spec_ignorable(),
    {
        match self {
            Error::DifferentFileExistedWhenRename => true,
            Error::FileExistedAsFolderWhenRename => true,
            Error::HashingErrorWhenRename => true,
            Error::IoErrorWhenRename(_) => true,
            Error::UrlCannotDownload => true,
            Error::FileIsNotBinary => true,
            _ => false,
        }
    }

    /// The human-readable message for this failure.
    pub open spec fn spec_message(&self) -> Seq<char> {
        match self {
            Error::FileExisted => "File Existed"@,
            Error::DifferentFileExisted => "Different File Existed"@,
            Error::DifferentFileExistedWhenRename => "Different File Existed When Rename"@,
            Error::FileExistedAsFolder => "File Existed As Folder"@,
            Error::FileExistedAsFolderWhenRename => "File Existed As Folder When Rename"@,
            Error::NoPermissionToWrite => "No Permission To Write"@,
            Error::FailedToCreateFolder => "Failed To Create Folder"@,
            Error::FolderExistedAsFile => "Folder Existed As File"@,
            Error::FileIsNotBinary => "File Is Not Binary"@,
            Error::ResourceNotFound => "404 Resource Not Found"@,
            Error::HttpError(m) => "HTTP Error: "@ + m@,
            Error::UrlIllegal => "Url Illegal"@,
            Error::UrlCannotDownload => "Url Cannot Be Downloaded"@,
            Error::RequestNotOK(c) => "Request Not OK with Code: "@ + spec_decimal(*c as nat),
            Error::IoError(m) => "Io Error: "@ + m@,
            Error::IoErrorWhenRename(m) => "Io Error When Rename: "@ + m@,
            Error::HashingError => "Hashing Error"@,
            Error::HashingErrorWhenRename => "Hashing Error When Rename"@,
            Error::ProxyError(m) => "Proxy Error: "@ + m@,
        }
    }

    /// Renders this failure for a report or a progress line.
    pub fn message(&self) -> (r: String)
        ensures
            r@ == self.spec_message(),
    {
        match self {
            Error::FileExisted => "File Existed".to_owned(),
            Error::DifferentFileExisted => "Different File Existed".to_owned(),
            Error::DifferentFileExistedWhenRename => "Different File Existed When Rename".to_owned(),
            Error::FileExistedAsFolder => "File Existed As Folder".to_owned(),
            Error::FileExistedAsFolderWhenRename => "File Existed As Folder When Rename".to_owned(),
            Error::NoPermissionToWrite => "No Permission To Write".to_owned(),
            Error::FailedToCreateFolder => "Failed To Create Folder".to_owned(),
            Error::FolderExistedAsFile => "Folder Existed As File".to_owned(),
            Error::FileIsNotBinary => "File Is Not Binary".to_owned(),
            Error::ResourceNotFound => "404 Resource Not Found".to_owned(),
            Error::HttpError(m) => {
                let mut s = "HTTP Error: ".to_owned();
                s.append(m.as_str());
                s
            },
            Error::UrlIllegal => "Url Illegal".to_owned(),
            Error::UrlCannotDownload => "Url Cannot Be Downloaded".to_owned(),
            Error::RequestNotOK(c) => {
                let mut s = "Request Not OK with Code: ".to_owned();
                let d = u16_decimal(*c);
                s.append(d.as_str());
                s
            },
            Error::IoError(m) => {
                let mut s = "Io Error: ".to_owned();
                s.append(m.as_str());
                s
            },
            Error::IoErrorWhenRename(m) => {
                let mut s = "Io Error When Rename: ".to_owned();
                s.append(m.as_str());
                s
            },
            Error::HashingError => "Hashing Error".to_owned(),
            Error::HashingErrorWhenRename => "Hashing Error When Rename".to_owned(),
            Error::ProxyError(m) => {
                let mut s = "Proxy Error: ".to_owned();
                s.append(m.as_str());
                s
            },
        }
    }
}

} // verus!
