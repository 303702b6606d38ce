use vstd::prelude::*;

verus! {

/// The reason an operation was refused. An operation that is refused leaves
/// every record as it was.
#[derive(Clone, Copy, Debug, PartialEq, Eq, Structural)]
pub enum ErrorCode {
    /// The authority configuration has not been set up yet.
    NotInitialized,
    /// The authority configuration has been set up already.
    Initialized,
    /// The message is not valid UTF-8 text.
    MessageShouldString,
    /// The message text is not a statement of the expected schema.
    MessageShouldJson,
    /// The consensus proof does not decode to exactly 32 bytes.
    ProofLengthError,
    /// The consensus proof is not a string of hexadecimal digits.
    ProofDataError,
    /// No verification record stands right before the operation, or it is
    /// not a genuine one, or it does not cover the key, message and
    /// signature that were submitted.
    SigVerificationFailed,
    /// An account is not the one that the operation must be given: the
    /// pool state is not at the address under which the program is the
    /// authority over its vaults, or the claim record is not that of the
    /// statement's task.
    AccountError,
    /// The quiz identifier is zero.
    InvalidQuizIDError,
    /// The caller is not the identity that the statement names.
    InvalidOwnerError,
    /// A token balance is of the wrong kind or belongs to the wrong holder.
    InvalidTokenAccount,
    /// The vault is not in the custody of the reward pool.
    InvalidVaultOwner,
    /// The caller is not the owner of the configuration.
    OnlyOwner,
    /// The statement's nonce is not the one the claim record expects next.
    NonceError,
    /// A record that must be new exists already.
    AccountInUse,
    /// A balance does not hold the amount that was to be taken from it.
    InsufficientFunds,
    /// A counter or a balance would exceed what its type can hold.
    Overflow,
}

impl ErrorCode {
    /// The message that goes with the error.
    pub open spec fn spec_message(self) -> Seq<char> {
        match self {
            ErrorCode::NotInitialized => "Not initialized."@,
            ErrorCode::Initialized => "Already initialized."@,
            ErrorCode::MessageShouldString => "Message must be able to be converted into a string."@,
            ErrorCode::MessageShouldJson => "Message must be json format."@,
            ErrorCode::ProofLengthError => "Proof length error."@,
            ErrorCode::ProofDataError => "Proof data error."@,
            ErrorCode::SigVerificationFailed => "Signature verification failed."@,
            ErrorCode::AccountError => "Wrong account."@,
            ErrorCode::InvalidQuizIDError => "Invalid quiz id."@,
            ErrorCode::InvalidOwnerError => "Invalid owner."@,
            ErrorCode::InvalidTokenAccount => "Invalid token account"@,
            ErrorCode::InvalidVaultOwner => "Invalid vault owner"@,
            ErrorCode::OnlyOwner => "Only owner"@,
            ErrorCode::NonceError => "Invalid nonce"@,
            ErrorCode::AccountInUse => "Account already in use"@,
            ErrorCode::InsufficientFunds => "Insufficient funds"@,
            ErrorCode::Overflow => "Arithmetic overflow"@,
        }
    }

    /// The message that goes with the error, as text.
    pub fn message(&self) -> (text: String)
        ensures
            text@ == self.spec_message(),
    {
        let text: &str = match self {
            ErrorCode::NotInitialized => "Not initialized.",
            ErrorCode::Initialized => "Already initialized.",
            ErrorCode::MessageShouldString => "Message must be able to be converted into a string.",
            ErrorCode::MessageShouldJson => "Message must be json format.",
            ErrorCode::ProofLengthError => "Proof length error.",
            ErrorCode::ProofDataError => "Proof data error.",
            ErrorCode::SigVerificationFailed => "Signature verification failed.",
            ErrorCode::AccountError => "Wrong account.",
            ErrorCode::InvalidQuizIDError => "Invalid quiz id.",
            ErrorCode::InvalidOwnerError => "Invalid owner.",
            ErrorCode::InvalidTokenAccount => "Invalid token account",
            ErrorCode::InvalidVaultOwner => "Invalid vault owner",
            ErrorCode::OnlyOwner => "Only owner",
            ErrorCode::NonceError => "Invalid nonce",
            ErrorCode::AccountInUse => "Account already in use",
            ErrorCode::InsufficientFunds => "Insufficient funds",
            ErrorCode::Overflow => "Arithmetic overflow",
        };
        text.to_owned()
    }
}

} // verus!
