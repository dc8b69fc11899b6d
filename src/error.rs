use vstd::prelude::*;

verus! {

/// Why a hex string could not be read as a field element.
#[derive(Debug, Clone, Copy, PartialEq, Eq, Structural)]
pub enum HexError {
    /// A character that is not a hex digit.
    InvalidCharacter,
    /// More than 64 digits, or a value that is not below the field prime.
    OutOfRange,
}

/// Why a signature could not be made.
#[derive(Debug, Clone, Copy, PartialEq, Eq, Structural)]
pub enum SignError {
    /// The message hash is not below 2^251.
    InvalidMessageHash,
    /// The nonce gave a degenerate r or s (also: every allowed attempt did).
    InvalidK,
}

/// Why a verification could not be carried out.
#[derive(Debug, Clone, Copy, PartialEq, Eq, Structural)]
pub enum VerifyError {
    /// The public key is not the x-coordinate of a curve point.
    InvalidPublicKey,
    /// The message hash is not below 2^251.
    InvalidMessageHash,
    /// r is zero or not below 2^251.
    InvalidR,
    /// s is zero or not below 2^251, or has no usable inverse.
    InvalidS,
}

/// Any failure of the entry points.
#[derive(Debug, Clone, Copy, PartialEq, Eq, Structural)]
pub enum Error {
    /// An input is not a hex-encoded field element.
    FromHexError(HexError),
    /// Signing failed.
    SignError(SignError),
    /// The curve arithmetic refused the inputs to verification. The entry
    /// point reports such inputs as a signature that does not verify.
    VerifyError(VerifyError),
}

/// The human-readable text of an error.
pub open spec fn error_message(e: Error) -> Seq<char> {
    match e {
        Error::FromHexError(HexError::InvalidCharacter) => "invalid character"@,
        Error::FromHexError(HexError::OutOfRange) => "number out of range"@,
        Error::SignError(SignError::InvalidMessageHash) => "Invalid message hash"@,
        Error::SignError(SignError::InvalidK) => "Invalid k"@,
        Error::VerifyError(VerifyError::InvalidPublicKey) => "Invalid public key"@,
        Error::VerifyError(VerifyError::InvalidMessageHash) => "Invalid message hash"@,
        Error::VerifyError(VerifyError::InvalidR) => "Invalid r"@,
        Error::VerifyError(VerifyError::InvalidS) => "Invalid s"@,
    }
}

impl Error {
    /// The human-readable text of this error.
    pub fn message(&self) -> (r: String)
        ensures
            r@ == error_message(*self),
    {
        match self {
            Error::FromHexError(HexError::InvalidCharacter) => String::from_str("invalid character"),
            Error::FromHexError(HexError::OutOfRange) => String::from_str("number out of range"),
            Error::SignError(SignError::InvalidMessageHash) => String::from_str(
                "Invalid message hash",
            ),
            Error::SignError(SignError::InvalidK) => String::from_str("Invalid k"),
            Error::VerifyError(VerifyError::InvalidPublicKey) => String::from_str(
                "Invalid public key",
            ),
            Error::VerifyError(VerifyError::InvalidMessageHash) => String::from_str(
                "Invalid message hash",
            ),
            Error::VerifyError(VerifyError::InvalidR) => String::from_str("Invalid r"),
            Error::VerifyError(VerifyError::InvalidS) => String::from_str("Invalid s"),
        }
    }
}

} // verus!
