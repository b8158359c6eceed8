//! The database client of a guest.

pub mod transaction;

use vstd::prelude::*;
use edgedb_errors::ErrorKind;
use crate::server::abi::client_v1::{Capabilities, Cardinality, CompilationFlags, Data, DbError, ErrorView, IoFormat, MODIFICATIONS};

verus! {

/// The flags with which every query of a guest is prepared, for results
/// in `io_format` and of `expected_cardinality`: no implicit limit, no
/// implicit type names or ids, object ids only where asked for, and the
/// capability to change data.
pub open spec fn flags_of(io_format: IoFormat, expected_cardinality: Cardinality) -> CompilationFlags {
    CompilationFlags {
        implicit_limit: None,
        implicit_typenames: false,
        implicit_typeids: false,
        explicit_objectids: true,
        allow_capabilities: Capabilities { bits: MODIFICATIONS },
        io_format,
        expected_cardinality,
    }
}

/// The flags with which a guest prepares a query for results in
/// `io_format` and of `expected_cardinality`.
pub fn query_flags(io_format: IoFormat, expected_cardinality: Cardinality) -> (flags: CompilationFlags)
    ensures
        flags == flags_of(io_format, expected_cardinality),
{
    CompilationFlags {
        implicit_limit: None,
        implicit_typenames: false,
        implicit_typeids: false,
        explicit_objectids: true,
        allow_capabilities: Capabilities { bits: MODIFICATIONS },
        io_format,
        expected_cardinality,
    }
}

/// The code of the error for a query that gave no row where one is required.
pub const NO_DATA: u32 = 0xFF03_0000;

/// The code of the error for a query that gives no result at all.
pub const NO_RESULT_EXPECTED: u32 = 0xFF02_FF00;

/// What the error for a missing row says.
pub open spec fn zero_results() -> Seq<char> {
    "query row returned zero results"@
}

/// `edgedb_errors::NoDataError::with_message`, read through `code`,
/// `initial_message`, `contexts`, `source` and `headers`: an error with
/// the code of that kind and `message` as its only message, without a
/// cause and without headers.
#[verifier::external_body]
fn no_data_error(message: String) -> (r: DbError)
    ensures
        r@ == (ErrorView { code: NO_DATA, messages: seq![message@], error: None, headers: Seq::empty() }),
{
    let e = edgedb_errors::NoDataError::with_message(message);
    DbError {
        code: e.code(),
        messages: e.initial_message().into_iter().chain(e.contexts()).map(String::from).collect(),
        source: std::error::Error::source(&e).map(|s| s.to_string()),
        headers: e.headers().iter().map(|(k, v)| (*k, v.to_vec())).collect(),
    }
}

/// `edgedb_errors::NoResultExpected::build`, read in the same way: an
/// error with the code of that kind, without message, cause or headers.
#[verifier::external_body]
fn no_result_expected() -> (r: DbError)
    ensures
        r@ == (ErrorView {
            code: NO_RESULT_EXPECTED,
            messages: Seq::empty(),
            error: None,
            headers: Seq::empty(),
        }),
{
    let e = edgedb_errors::NoResultExpected::build();
    DbError {
        code: e.code(),
        messages: e.initial_message().into_iter().chain(e.contexts()).map(String::from).collect(),
        source: std::error::Error::source(&e).map(|s| s.to_string()),
        headers: e.headers().iter().map(|(k, v)| (*k, v.to_vec())).collect(),
    }
}

/// The error for a query without a result.
pub open spec fn nothing_expected() -> ErrorView {
    ErrorView { code: NO_RESULT_EXPECTED, messages: Seq::empty(), error: None, headers: Seq::empty() }
}

/// The error for a query that gave no row where one is required.
pub open spec fn nothing_returned() -> ErrorView {
    ErrorView { code: NO_DATA, messages: seq![zero_results()], error: None, headers: Seq::empty() }
}

/// The rows to decode for a query that returns a collection of results:
/// every row of `data`. `has_root` says whether the description of the
/// output names a result; without one the query is an error.
pub fn execute_query(has_root: bool, data: Data) -> (r: Result<Vec<Vec<u8>>, DbError>)
    ensures
        match r {
            Ok(rows) => has_root && rows == data.chunks,
            Err(e) => !has_root && e@ == nothing_expected(),
        },
{
    if has_root {
        Ok(data.chunks)
    } else {
        Err(no_result_expected())
    }
}

/// The row to decode for a query that returns at most one result: the
/// first row of `data`, if it has one.
pub fn execute_query_single(has_root: bool, data: Data) -> (r: Result<Option<Vec<u8>>, DbError>)
    ensures
        match r {
            Ok(row) => has_root && row == first(data.chunks@),
            Err(e) => !has_root && e@ == nothing_expected(),
        },
{
    if has_root {
        Ok(single(data.chunks))
    } else {
        Err(no_result_expected())
    }
}

/// The row to decode for a query that returns its results as one JSON
/// text: the first row of `data`; a result without rows is an error.
pub fn execute_query_json(has_root: bool, data: Data) -> (r: Result<Vec<u8>, DbError>)
    ensures
        match r {
            Ok(row) => has_root && first(data.chunks@) == Some(row),
            Err(e) => if has_root {
                first(data.chunks@) is None && e@ == nothing_returned()
            } else {
                e@ == nothing_expected()
            },
        },
{
    if has_root {
        query_required_single(single(data.chunks))
    } else {
        Err(no_result_expected())
    }
}

/// The row to decode for a query that returns at most one result as
/// JSON: the first row of `data`, if it has one.
pub fn execute_query_single_json(has_root: bool, data: Data) -> (r: Result<Option<Vec<u8>>, DbError>)
    ensures
        match r {
            Ok(row) => has_root && row == first(data.chunks@),
            Err(e) => !has_root && e@ == nothing_expected(),
        },
{
    if has_root {
        Ok(single(data.chunks))
    } else {
        Err(no_result_expected())
    }
}

/// The first of the rows, if there is one.
pub open spec fn first(rows: Seq<Vec<u8>>) -> Option<Vec<u8>> {
    if rows.len() > 0 {
        Some(rows[0])
    } else {
        None
    }
}

/// The first of the rows, if there is one.
pub fn single(rows: Vec<Vec<u8>>) -> (r: Option<Vec<u8>>)
    ensures
        r == first(rows@),
{
    let mut rows = rows;
    if rows.len() > 0 {
        Some(rows.swap_remove(0))
    } else {
        None
    }
}

/// The one result that a query is required to give: the result, or the
/// error for a query that gave none.
pub fn query_required_single<T>(result: Option<T>) -> (r: Result<T, DbError>)
    ensures
        match r {
            Ok(value) => result == Some(value),
            Err(e) => result is None && e@ == nothing_returned(),
        },
{
    match result {
        Some(value) => Ok(value),
        None => Err(no_data_error("query row returned zero results".to_owned())),
    }
}

} // verus!
