use vstd::prelude::*;

use sqlparser::ast::Statement;

use crate::dialect::{dialect_for, spec_canonical_name, spec_dialect_for, DialectKind};

verus! {

/// sqlparser's top-level statement, carried through unopened.
#[verifier::external_type_specification]
#[verifier::external_body]
pub struct ExStatement(Statement);

/// Why a parse failed.
#[derive(Clone, Debug, PartialEq, Eq)]
pub enum SqlError {
    /// The dialect name is not in the registry; holds the name as given.
    UnsupportedDialect { name: String },
    /// The tokenizer rejected the text (an unterminated literal, a stray character).
    Lex { message: String },
    /// The token stream does not match the grammar.
    Parse { message: String },
    /// Expressions or statements nest deeper than the parser allows.
    RecursionLimitExceeded,
}

/// The text a user sees for each error.
pub open spec fn spec_error_message(e: SqlError) -> Seq<char> {
    match e {
        SqlError::UnsupportedDialect { name } => "Unsupported dialect '"@ + name@
            + "'. Supported dialects are: generic, postgresql, mysql, sqlite, mssql, snowflake, redshift, bigquery, clickhouse, hive"@,
        SqlError::Lex { message } => "Parse error: sql parser error: "@ + message@,
        SqlError::Parse { message } => "Parse error: sql parser error: "@ + message@,
        SqlError::RecursionLimitExceeded => "Parse error: sql parser error: recursion limit exceeded"@,
    }
}

impl SqlError {
    /// The error as text: the kind of failure, then its details.
    pub fn message(&self) -> (r: String)
        ensures
            r@ == spec_error_message(*self),
    {
        match self {
            SqlError::UnsupportedDialect { name } => {
                let mut r = String::from_str("Unsupported dialect '");
                r.append(name.as_str());
                r.append(
                    "'. Supported dialects are: generic, postgresql, mysql, sqlite, mssql, snowflake, redshift, bigquery, clickhouse, hive",
                );
                r
            },
            SqlError::Lex { message } | SqlError::Parse { message } => {
                let mut r = String::from_str("Parse error: sql parser error: ");
                r.append(message.as_str());
                r
            },
            SqlError::RecursionLimitExceeded => String::from_str(
                "Parse error: sql parser error: recursion limit exceeded",
            ),
        }
    }
}

/// Whether `name` is the canonical name of one of this library's dialects;
/// sqlparser's `dialect_from_str` maps each such name to the dialect of
/// the same name.
pub open spec fn is_canonical_name(name: Seq<char>) -> bool {
    exists|d: DialectKind| name == spec_canonical_name(d)
}

/// What parsing `sql` under the named dialect yields: `Ok(n)` for success
/// with `n` top-level statements, `Err(k)` for a failure with key `k` (see
/// `spec_error_key`).
pub uninterp spec fn parse_outcome(dialect: Seq<char>, sql: Seq<char>) -> Result<nat, (nat, Seq<char>)>;

/// An error's kind and text: equal keys mean the same error.
pub open spec fn spec_error_key(e: SqlError) -> (nat, Seq<char>) {
    match e {
        SqlError::Lex { message } => (0, message@),
        SqlError::Parse { message } => (1, message@),
        SqlError::RecursionLimitExceeded => (2, Seq::empty()),
        SqlError::UnsupportedDialect { name } => (3, name@),
    }
}

/// What `parse_sql` answers, with the statements counted: an unknown dialect
/// name is an error that holds the name, and every spelling of a dialect
/// parses as its canonical name does.
pub open spec fn spec_parse_sql(dialect: Seq<char>, sql: Seq<char>) -> Result<nat, (nat, Seq<char>)> {
    match spec_dialect_for(dialect) {
        None => Err((3, dialect)),
        Some(d) => parse_outcome(spec_canonical_name(d), sql),
    }
}

/// A parse result with the statements counted and the error keyed.
pub open spec fn spec_result_view(r: Result<Vec<Statement>, SqlError>) -> Result<nat, (nat, Seq<char>)> {
    match r {
        Ok(v) => Ok(v@.len()),
        Err(e) => Err(spec_error_key(e)),
    }
}

/// Relies on sqlparser's `dialect_from_str` (picks the dialect by its name)
/// and `Parser::parse_sql` (deterministic; empty input gives no statements,
/// and its error tells tokenizer failures, grammar failures and the
/// recursion limit apart).
#[verifier::external_body]
fn parse_with_dialect(dialect: &str, sql: &str) -> (r: Result<Vec<Statement>, SqlError>)
    requires
        is_canonical_name(dialect@),
    ensures
        spec_result_view(r) == parse_outcome(dialect@, sql@),
        match r {
            Ok(_) => true,
            Err(e) => !(e is UnsupportedDialect),
        },
        sql@.len() == 0 ==> (match r {
            Ok(v) => v@.len() == 0,
            Err(_) => false,
        }),
{
    let d = sqlparser::dialect::dialect_from_str(dialect).unwrap();
    sqlparser::parser::Parser::parse_sql(&*d, sql).map_err(|e| match e {
        sqlparser::parser::ParserError::TokenizerError(message) => SqlError::Lex { message },
        sqlparser::parser::ParserError::ParserError(message) => SqlError::Parse { message },
        sqlparser::parser::ParserError::RecursionLimitExceeded => SqlError::RecursionLimitExceeded,
    })
}

/// Parses `sql` under the dialect named `dialect` (matched without regard
/// to letter case, see `fold_case`) into its top-level statements.
pub fn parse_sql(dialect: &str, sql: &str) -> (r: Result<Vec<Statement>, SqlError>)
    ensures
        spec_result_view(r) == spec_parse_sql(dialect@, sql@),
        match r {
            Err(SqlError::UnsupportedDialect { name }) => spec_dialect_for(dialect@) is None
                && name@ == dialect@,
            Err(_) => spec_dialect_for(dialect@) is Some,
            Ok(_) => spec_dialect_for(dialect@) is Some,
        },
        spec_dialect_for(dialect@) is Some && sql@.len() == 0 ==> (match r {
            Ok(v) => v@.len() == 0,
            Err(_) => false,
        }),
{
    match dialect_for(dialect) {
        None => Err(SqlError::UnsupportedDialect { name: String::from_str(dialect) }),
        Some(d) => parse_with_dialect(d.canonical_name(), sql),
    }
}

/// Two names that select the same dialect (case spellings of one name, or
/// aliases such as `postgres` and `postgresql`) give the same answer on
/// every text: the same statement count, or the same error.
pub proof fn lemma_same_dialect_same_result(a: Seq<char>, b: Seq<char>, sql: Seq<char>)
    requires
        spec_dialect_for(a) is Some,
        spec_dialect_for(a) == spec_dialect_for(b),
    ensures
        spec_parse_sql(a, sql) == spec_parse_sql(b, sql),
{
}

} // verus!
