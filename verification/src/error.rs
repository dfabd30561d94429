use vstd::prelude::*;
use vstd::string::StringExecFns;

verus! {

/// The text every message of a [`DataStoreError`] starts with.
pub open spec fn data_store_error_prefix() -> Seq<char> {
    "DataStoreError: "@
}

/// The description given to a transaction that conflicted with concurrent work.
pub open spec fn retryable_description() -> Seq<char> {
    "transaction conflict (retryable)"@
}

/// The description given to a transaction whose policy the backend cannot honour.
pub open spec fn unsupported_policy_description() -> Seq<char> {
    "transaction policy not supported"@
}

/// Error type for data store operations. It carries a human readable description.
#[derive(Debug)]
pub struct DataStoreError {
    pub details: String,
}

impl DataStoreError {
    /// Builds an error with the given description.
    pub fn new(details: String) -> (e: DataStoreError)
        ensures
            e.details == details,
    {
        DataStoreError { details }
    }

    /// The message shown for this error: `DataStoreError: ` followed by the details.
    pub fn to_string(&self) -> (s: String)
        ensures
            s@ == data_store_error_prefix() + self.details@,
            s@ == "DataStoreError: "@ + self.details@,
    {
        let mut s = String::from_str("DataStoreError: ");
        s.append(self.details.as_str());
        s
    }
}

impl Clone for DataStoreError {
    /// A copy of the error, equal to it.
    fn clone(&self) -> (e: DataStoreError)
        ensures
            e == *self,
    {
        DataStoreError { details: self.details.clone() }
    }
}

/// Failure opening or completing a transaction.
#[derive(Debug)]
pub enum TransactionError {
    /// The transaction conflicted with concurrent work and may succeed if retried.
    Retryable,
    /// The backend cannot honour the requested [`TransactionPolicy`]; it refuses the
    /// transaction rather than weaken the guarantee.
    UnsupportedPolicy,
    /// Any other transaction failure.
    DatabaseError(DataStoreError),
}

impl Clone for TransactionError {
    /// A copy of the error, equal to it.
    fn clone(&self) -> (e: TransactionError)
        ensures
            e == *self,
    {
        match self {
            TransactionError::Retryable => TransactionError::Retryable,
            TransactionError::UnsupportedPolicy => TransactionError::UnsupportedPolicy,
            TransactionError::DatabaseError(error) => TransactionError::DatabaseError(error.clone()),
        }
    }
}

/// The message shown for a transaction error.
pub open spec fn transaction_error_message(e: TransactionError) -> Seq<char> {
    match e {
        TransactionError::Retryable => retryable_description(),
        TransactionError::UnsupportedPolicy => unsupported_policy_description(),
        TransactionError::DatabaseError(inner) => data_store_error_prefix() + inner.details@,
    }
}

/// The data store error that a transaction error is reported as.
pub open spec fn spec_transaction_error_to_datastore(e: TransactionError) -> Seq<char> {
    match e {
        TransactionError::Retryable => retryable_description(),
        TransactionError::UnsupportedPolicy => unsupported_policy_description(),
        TransactionError::DatabaseError(inner) => inner.details@,
    }
}

impl TransactionError {
    /// The message shown for this error: a fixed text for
    /// [`TransactionError::Retryable`] and [`TransactionError::UnsupportedPolicy`], the
    /// inner error's message otherwise.
    pub fn to_string(&self) -> (s: String)
        ensures
            s@ == transaction_error_message(*self),
            *self is Retryable ==> s@ == "transaction conflict (retryable)"@,
            *self is UnsupportedPolicy ==> s@ == "transaction policy not supported"@,
            *self matches TransactionError::DatabaseError(inner) ==> s@ == "DataStoreError: "@
                + inner.details@,
    {
        match self {
            TransactionError::Retryable => String::from_str("transaction conflict (retryable)"),
            TransactionError::UnsupportedPolicy => String::from_str(
                "transaction policy not supported",
            ),
            TransactionError::DatabaseError(error) => error.to_string(),
        }
    }
}

/// Reports a transaction error as a data store error: a database error is passed on
/// unchanged, a conflict or a refused policy becomes an error that names it.
pub fn transaction_error_to_datastore(error: TransactionError) -> (e: DataStoreError)
    ensures
        e.details@ == spec_transaction_error_to_datastore(error),
        error matches TransactionError::DatabaseError(inner) ==> e == inner,
        error is Retryable ==> e.details@ == "transaction conflict (retryable)"@,
        error is UnsupportedPolicy ==> e.details@ == "transaction policy not supported"@,
{
    match error {
        TransactionError::DatabaseError(error) => error,
        TransactionError::Retryable => DataStoreError {
            details: String::from_str("transaction conflict (retryable)"),
        },
        TransactionError::UnsupportedPolicy => DataStoreError {
            details: String::from_str("transaction policy not supported"),
        },
    }
}

/// Whether a SQLSTATE code reports a conflict with concurrent transactions:
/// `40001` (serialization failure) or `40P01` (deadlock detected).
pub open spec fn is_conflict_code(code: Seq<char>) -> bool {
    code == "40001"@ || code == "40P01"@
}

/// Exactly two SQLSTATE codes report a conflict with concurrent work: serialization
/// failure (`40001`) and deadlock detected (`40P01`). Every other code, such as a
/// syntax error (`42601`) or an undefined table (`42P01`), and a failure without a
/// code, is no conflict.
pub proof fn law_only_serialization_and_deadlock_conflict(code: Seq<char>)
    ensures
        is_conflict_code(code) <==> (code == "40001"@ || code == "40P01"@),
        code != "40001"@ && code != "40P01"@ ==> !is_conflict_code(code),
{
}

/// Whether a failure carrying the SQLSTATE `sqlstate`, if any, is a conflict.
pub open spec fn is_conflict(sqlstate: Option<String>) -> bool {
    match sqlstate {
        Some(code) => is_conflict_code(code@),
        None => false,
    }
}

/// Classifies a failure met while opening, using or completing a transaction: a
/// conflict with concurrent work is [`TransactionError::Retryable`], so that the caller
/// can rerun the whole transaction; anything else is a database error with the given
/// description.
pub fn classify_transaction_failure(sqlstate: Option<String>, details: String) -> (e:
    TransactionError)
    ensures
        is_conflict(sqlstate) ==> e is Retryable,
        !is_conflict(sqlstate) ==> e == TransactionError::DatabaseError(DataStoreError { details }),
        e is Retryable <==> (sqlstate matches Some(code) && (code@ == "40001"@ || code@
            == "40P01"@)),
        !(e is Retryable) ==> e == TransactionError::DatabaseError(DataStoreError { details }),
{
    let conflict = match &sqlstate {
        Some(code) => *code == String::from_str("40001") || *code == String::from_str("40P01"),
        None => false,
    };
    if conflict {
        TransactionError::Retryable
    } else {
        TransactionError::DatabaseError(DataStoreError { details })
    }
}

/// How a transaction is to be coordinated with the others.
#[derive(Debug, PartialEq, Eq)]
pub enum TransactionPolicy {
    /// The backend's ordinary isolation.
    Default,
    /// Serialize the transaction with every other transaction opened for the same
    /// named logical resource.
    SerializeOn(String),
}

impl Clone for TransactionPolicy {
    /// A copy of the policy, equal to it.
    fn clone(&self) -> (p: TransactionPolicy)
        ensures
            p == *self,
    {
        match self {
            TransactionPolicy::Default => TransactionPolicy::Default,
            TransactionPolicy::SerializeOn(name) => TransactionPolicy::SerializeOn(name.clone()),
        }
    }
}

/// Decides whether a backend may open a transaction under `policy`: the default policy
/// is always honoured; serialization on a resource is honoured only by a backend that
/// supports it, and is otherwise refused with
/// [`TransactionError::UnsupportedPolicy`] rather than silently weakened.
pub fn admit_policy(policy: &TransactionPolicy, supports_serialization: bool) -> (r: Result<
    (),
    TransactionError,
>)
    ensures
        r is Ok <==> (policy is Default || supports_serialization),
        r matches Err(e) ==> e is UnsupportedPolicy,
{
    match policy {
        TransactionPolicy::Default => Ok(()),
        TransactionPolicy::SerializeOn(_) => {
            if supports_serialization {
                Ok(())
            } else {
                Err(TransactionError::UnsupportedPolicy)
            }
        },
    }
}

} // verus!
