use vstd::prelude::*;

verus! {

/// A failure reported by the batch status query.
#[derive(Debug, Clone, PartialEq, Eq)]
pub enum BatchError {
    /// The batch with this number does not exist.
    NotFound(u32),
    /// The lookup of the batch's status could not be carried out.
    Query(String),
}

/// The one error type that crosses the command layer: every failure of a
/// status query is reported as one of these.
#[derive(Debug, Clone, PartialEq, Eq)]
pub enum CLIErrors {
    /// The batch with this number does not exist.
    BatchNotFound(u32),
    /// The lookup of a batch's status could not be carried out.
    BatchQuery(String),
    /// The status of the L1 chain could not be obtained.
    L1Query(String),
}

/// The error that a batch failure is reported as: one variant for each kind
/// of batch failure, with its data kept.
pub open spec fn cli_error_of(e: BatchError) -> CLIErrors {
    match e {
        BatchError::NotFound(n) => CLIErrors::BatchNotFound(n),
        BatchError::Query(msg) => CLIErrors::BatchQuery(msg),
    }
}

/// The result of the batch query in the common error type.
pub open spec fn cli_result_of(r: Result<(), BatchError>) -> Result<(), CLIErrors> {
    match r {
        Ok(()) => Ok(()),
        Err(e) => Err(cli_error_of(e)),
    }
}

/// The batch failure that an error reports, if it reports one.
pub open spec fn batch_cause(e: CLIErrors) -> Option<BatchError> {
    match e {
        CLIErrors::BatchNotFound(n) => Some(BatchError::NotFound(n)),
        CLIErrors::BatchQuery(msg) => Some(BatchError::Query(msg)),
        CLIErrors::L1Query(_) => None,
    }
}

impl From<BatchError> for CLIErrors {
    fn from(e: BatchError) -> (r: CLIErrors)
        ensures
            r == cli_error_of(e),
    {
        match e {
            BatchError::NotFound(n) => CLIErrors::BatchNotFound(n),
            BatchError::Query(msg) => CLIErrors::BatchQuery(msg),
        }
    }
}

impl vstd::std_specs::convert::FromSpecImpl<BatchError> for CLIErrors {
    open spec fn obeys_from_spec() -> bool {
        true
    }

    open spec fn from_spec(e: BatchError) -> CLIErrors {
        cli_error_of(e)
    }
}

/// Converting a batch failure loses nothing: the error it becomes reports
/// exactly that failure, and two different failures never become the same
/// error.
pub proof fn lemma_batch_error_conversion_lossless(e1: BatchError, e2: BatchError)
    ensures
        batch_cause(cli_error_of(e1)) == Some(e1),
        cli_error_of(e1) == cli_error_of(e2) ==> e1 == e2,
{
    assert(batch_cause(cli_error_of(e2)) == Some(e2));
}

} // verus!
