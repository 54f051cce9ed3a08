use vstd::prelude::*;
use scylla::statement::prepared::PreparedStatement;

verus! {

#[verifier::external_type_specification]
#[verifier::external_body]
pub struct ExPreparedStatement(PreparedStatement);

/// Whether the server confirmed, when it prepared the statement, that the
/// statement is a lightweight transaction; fixed once the statement is prepared.
pub uninterp spec fn confirmed_lwt_of(statement: PreparedStatement) -> bool;

/// The number of bind variables of the statement; fixed once the statement
/// is prepared.
pub uninterp spec fn variable_count_of(statement: PreparedStatement) -> usize;

/// A prepared statement as it is shared with the host.
#[derive(Debug)]
pub struct BridgedPreparedStatement {
    pub inner: PreparedStatement,
}

impl BridgedPreparedStatement {
    /// Wraps a statement that the driver prepared.
    pub fn new(inner: PreparedStatement) -> (r: BridgedPreparedStatement)
        ensures
            r.inner == inner,
    {
        BridgedPreparedStatement { inner }
    }
}

/// Whether the statement is known to be a lightweight transaction.
pub fn prepared_statement_is_lwt(prepared_statement: &BridgedPreparedStatement) -> (r: bool)
    ensures
        r == confirmed_lwt_of(prepared_statement.inner),
{
    is_confirmed_lwt(&prepared_statement.inner)
}

/// The number of bind variables of the statement.
pub fn prepared_statement_get_variables_column_specs_count(
    prepared_statement: &BridgedPreparedStatement,
) -> (r: usize)
    ensures
        r == variable_count_of(prepared_statement.inner),
{
    variable_col_specs_count(&prepared_statement.inner)
}

/// Relies on `PreparedStatement::is_confirmed_lwt`, which reads a flag that
/// the server set when the statement was prepared.
#[verifier::external_body]
fn is_confirmed_lwt(statement: &PreparedStatement) -> (r: bool)
    ensures
        r == confirmed_lwt_of(*statement),
{
    statement.is_confirmed_lwt()
}

/// Relies on `PreparedStatement::get_variable_col_specs`, whose length is the
/// number of bind variables.
#[verifier::external_body]
fn variable_col_specs_count(statement: &PreparedStatement) -> (r: usize)
    ensures
        r == variable_count_of(*statement),
{
    statement.get_variable_col_specs().len()
}

} // verus!
