//! Failure kinds of the identity core.

use vstd::prelude::*;
use vstd::std_specs::convert::FromSpecImpl;
use vstd::string::StringExecFns;

verus! {

/// A failure reported by a storage gateway.
#[derive(Debug)]
pub enum RepositoryError {
    /// The requested record does not exist.
    NotFound,
    /// A uniqueness constraint refused the write.
    Conflict,
    /// Any other fault of the store, with its description.
    DatabaseError(String),
}

/// A failure of the identity core.
#[derive(Debug)]
pub enum DomainError {
    Repository(RepositoryError),
    AuthenticationFailed,
    InvalidCredentials,
    WeakPassword,
    EmptyDisplayName,
    InvalidActivityId,
}

/// Mathematical value of a [`RepositoryError`].
pub enum RepositoryFault {
    NotFound,
    Conflict,
    DatabaseError(Seq<char>),
}

/// Mathematical value of a [`DomainError`].
pub enum DomainFault {
    Repository(RepositoryFault),
    AuthenticationFailed,
    InvalidCredentials,
    WeakPassword,
    EmptyDisplayName,
    InvalidActivityId,
}

/// The mathematical value of an outcome: that of what was achieved, or that
/// of the failure.
pub open spec fn outcome<T: View, E: View>(result: Result<T, E>) -> Result<T::V, E::V> {
    match result {
        Ok(value) => Ok(value@),
        Err(error) => Err(error@),
    }
}

impl RepositoryFault {
    /// The text that describes the fault.
    pub open spec fn message(self) -> Seq<char> {
        match self {
            RepositoryFault::NotFound => "Not found"@,
            RepositoryFault::Conflict => "Conflict"@,
            RepositoryFault::DatabaseError(detail) => "Database error: "@ + detail,
        }
    }
}

impl DomainFault {
    /// The text that describes the fault.
    pub open spec fn message(self) -> Seq<char> {
        match self {
            DomainFault::Repository(inner) => "Repository error: "@ + inner.message(),
            DomainFault::AuthenticationFailed => "Authentication failed"@,
            DomainFault::InvalidCredentials => "Invalid credentials"@,
            DomainFault::WeakPassword => "Weak password (minimum 8 characters required)"@,
            DomainFault::EmptyDisplayName => "Empty display name"@,
            DomainFault::InvalidActivityId => "Invalid activity ID"@,
        }
    }
}

impl View for RepositoryError {
    type V = RepositoryFault;

    open spec fn view(&self) -> RepositoryFault {
        match self {
            RepositoryError::NotFound => RepositoryFault::NotFound,
            RepositoryError::Conflict => RepositoryFault::Conflict,
            RepositoryError::DatabaseError(detail) => RepositoryFault::DatabaseError(detail@),
        }
    }
}

impl View for DomainError {
    type V = DomainFault;

    open spec fn view(&self) -> DomainFault {
        match self {
            DomainError::Repository(inner) => DomainFault::Repository(inner@),
            DomainError::AuthenticationFailed => DomainFault::AuthenticationFailed,
            DomainError::InvalidCredentials => DomainFault::InvalidCredentials,
            DomainError::WeakPassword => DomainFault::WeakPassword,
            DomainError::EmptyDisplayName => DomainFault::EmptyDisplayName,
            DomainError::InvalidActivityId => DomainFault::InvalidActivityId,
        }
    }
}

impl RepositoryError {
    /// Describes the failure in words.
    pub fn message(&self) -> (text: String)
        ensures
            text@ == self@.message(),
    {
        match self {
            RepositoryError::NotFound => "Not found".to_string(),
            RepositoryError::Conflict => "Conflict".to_string(),
            RepositoryError::DatabaseError(detail) => {
                let mut text = "Database error: ".to_string();
                text.append(detail.as_str());
                text
            },
        }
    }
}

impl DomainError {
    /// Describes the failure in words.
    pub fn message(&self) -> (text: String)
        ensures
            text@ == self@.message(),
    {
        match self {
            DomainError::Repository(inner) => {
                let mut text = "Repository error: ".to_string();
                let detail = inner.message();
                text.append(detail.as_str());
                text
            },
            DomainError::AuthenticationFailed => "Authentication failed".to_string(),
            DomainError::InvalidCredentials => "Invalid credentials".to_string(),
            DomainError::WeakPassword => "Weak password (minimum 8 characters required)".to_string(),
            DomainError::EmptyDisplayName => "Empty display name".to_string(),
            DomainError::InvalidActivityId => "Invalid activity ID".to_string(),
        }
    }
}

impl From<RepositoryError> for DomainError {
    fn from(inner: RepositoryError) -> (wrapped: DomainError) {
        DomainError::Repository(inner)
    }
}

impl FromSpecImpl<RepositoryError> for DomainError {
    open spec fn obeys_from_spec() -> bool {
        true
    }

    open spec fn from_spec(inner: RepositoryError) -> DomainError {
        DomainError::Repository(inner)
    }
}

} // verus!
