use vstd::prelude::*;

verus! {

/// Every way in which an operation of this library can fail.
#[derive(Debug, Clone, Copy, PartialEq, Eq, Structural)]
pub enum TronError {
    /// Text that is not Base58 or not hex, or bytes of the wrong length.
    Format,
    /// A Base58Check text whose embedded checksum does not match its payload.
    Checksum,
    /// A private key that is not a valid secp256k1 scalar.
    InvalidKey,
    /// A message to sign that is not exactly 32 bytes long.
    InvalidDigest,
    /// A threshold of zero, or one larger than the number of owners.
    Threshold,
    /// A recovery id outside `0..=3` reported by the curve library.
    InvalidRecoveryId,
}

/// The description of each error.
pub open spec fn error_text(e: TronError) -> Seq<char> {
    match e {
        TronError::Format => "malformed text or wrong length"@,
        TronError::Checksum => "invalid checksum"@,
        TronError::InvalidKey => "invalid private key"@,
        TronError::InvalidDigest => "message digest must be 32 bytes"@,
        TronError::Threshold => "invalid threshold: must be > 0 and <= number of owners"@,
        TronError::InvalidRecoveryId => "recovery id out of range"@,
    }
}

impl TronError {
    /// A short human-readable description of the error.
    pub fn message(&self) -> (r: String)
        ensures
            r@ == error_text(*self),
    {
        match self {
            TronError::Format => String::from_str("malformed text or wrong length"),
            TronError::Checksum => String::from_str("invalid checksum"),
            TronError::InvalidKey => String::from_str("invalid private key"),
            TronError::InvalidDigest => String::from_str("message digest must be 32 bytes"),
            TronError::Threshold => String::from_str(
                "invalid threshold: must be > 0 and <= number of owners",
            ),
            TronError::InvalidRecoveryId => String::from_str("recovery id out of range"),
        }
    }
}

} // verus!
