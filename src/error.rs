use vstd::prelude::*;

verus! {

/// The business rule that a create or update request broke.
#[derive(Clone, Copy, Debug, PartialEq, Eq, Structural)]
pub enum ValidationFailure {
    /// Fewer than two members.
    TooFewMembers,
    /// More than eight members and no name.
    NameRequired,
    /// The membership resolver did not return one row per supplied id:
    /// some id does not exist, or an id was supplied twice.
    UnknownOrDuplicateMembers,
}

/// The discriminated error kinds that chat operations report.
#[derive(Clone, Copy, Debug, PartialEq, Eq, Structural)]
pub enum ChatError {
    /// The request broke a business rule; retrying it cannot help.
    Validation(ValidationFailure),
    /// The chat to update does not exist.
    NotFound,
    /// The store refused the write as an integrity violation (a uniqueness conflict).
    Conflict,
    /// The store could not be reached or failed; the request may be retried.
    Persistence,
}

/// The client-facing text of each error kind.
pub open spec fn message_of(e: ChatError) -> Seq<char> {
    match e {
        ChatError::Validation(ValidationFailure::TooFewMembers) => "too few members"@,
        ChatError::Validation(ValidationFailure::NameRequired) => "name required for large groups"@,
        ChatError::Validation(ValidationFailure::UnknownOrDuplicateMembers) => "unknown or duplicate members"@,
        ChatError::NotFound => "chat not found"@,
        ChatError::Conflict => "chat conflicts with an existing one"@,
        ChatError::Persistence => "chat store unavailable"@,
    }
}

impl ChatError {
    pub open spec fn spec_is_retryable(self) -> bool {
        self is Persistence
    }

    /// Whether a caller may retry the operation that failed with this error.
    pub fn is_retryable(&self) -> (r: bool)
        ensures
            r == self.spec_is_retryable(),
    {
        match self {
            ChatError::Persistence => true,
            _ => false,
        }
    }

    /// Whether the error is a client error (a validation failure).
    pub fn is_validation(&self) -> (r: bool)
        ensures
            r == (*self is Validation),
    {
        match self {
            ChatError::Validation(_) => true,
            _ => false,
        }
    }

    /// A client-facing description that leaks no store detail.
    pub fn message(&self) -> (r: &'static str)
        ensures
            r@ == message_of(*self),
    {
        match self {
            ChatError::Validation(ValidationFailure::TooFewMembers) => "too few members",
            ChatError::Validation(ValidationFailure::NameRequired) => "name required for large groups",
            ChatError::Validation(ValidationFailure::UnknownOrDuplicateMembers) => "unknown or duplicate members",
            ChatError::NotFound => "chat not found",
            ChatError::Conflict => "chat conflicts with an existing one",
            ChatError::Persistence => "chat store unavailable",
        }
    }
}

} // verus!
