//! The uniform command surface: every operation on a backend, planned against
//! the registry. An operation on a kind without a connection is refused
//! before anything is built or sent.

use crate::catalog::{
    columns_statement, declared_type_lookup, declared_type_statement, declared_types_lookup,
    declared_types_statement, get_columns, get_primary_key, list_databases_text,
    list_databases_with_size, list_functions, list_functions_text, list_procedures,
    list_procedures_text, list_tables, list_tables_text, list_tables_with_size,
    list_tables_with_size_text, list_views, list_views_text, optional_plain, optional_statement,
    primary_key_statement, use_database, use_database_text,
};
use crate::dialect::Dialect;
use crate::error::{ErrorModel, GatewayError};
use crate::keyvalue::{
    delete, get_ttl, get_value, key_type, list_keys, parse_command, parsed_command, ping, rename,
    set_string, value_step, Command, CommandModel, CommandPlan, CommandPlanModel,
};
use crate::raw::{execute_raw, raw_plan};
use crate::registry::{backend_of, BackendKind, Registry};
use crate::row::CanonicalRow;
use crate::sql::{
    delete_row, delete_row_text, drop_table, drop_table_text, get_row_count, get_rows, insert_binds,
    insert_row, insert_row_text, page_text, pair_texts, rename_table,
    rename_table_text, row_count_text, update_cell, update_cell_text,
};
use crate::text::optional_str;
use crate::statement::{bound_one, bound_two, plain, Plan, PlanModel, Statement, StatementModel};
use vstd::prelude::*;
use vstd::string::*;

verus! {

/// One operation on a relational backend.
#[derive(Debug)]
pub enum SqlRequest<'a> {
    ListTables,
    ListViews,
    ListFunctions,
    ListProcedures,
    ListDatabasesWithSize,
    UseDatabase { database: &'a str },
    ListTablesWithSize { database: &'a str },
    GetColumns { table: &'a str },
    GetPrimaryKey { table: &'a str },
    GetRowCount { table: &'a str },
    GetRows { table: &'a str, primary_key: Option<&'a str>, limit: i64, offset: i64 },
    DeclaredType { table: &'a str, column: &'a str },
    DeclaredTypes { table: &'a str },
    UpdateCell {
        table: &'a str,
        key_column: &'a str,
        key_value: &'a str,
        column: &'a str,
        new_value: &'a str,
        declared: Option<&'a str>,
    },
    InsertRow { table: &'a str, row: &'a CanonicalRow, types: &'a Vec<(String, String)> },
    DeleteRow { table: &'a str, key_column: &'a str, key_value: &'a str },
    DropTable { table: &'a str },
    RenameTable { old_name: &'a str, new_name: &'a str },
    ExecuteRaw { sql: &'a str },
}

/// A statement to fetch, or `Unsupported` where the dialect has none.
pub open spec fn fetch_of(statement: Option<StatementModel>) -> Result<PlanModel, ErrorModel> {
    match statement {
        Some(st) => Ok(PlanModel::Fetch(st)),
        None => Err(ErrorModel::Unsupported),
    }
}

/// A statement to execute, or `Unsupported` where the dialect has none.
pub open spec fn execute_of(statement: Option<StatementModel>) -> Result<PlanModel, ErrorModel> {
    match statement {
        Some(st) => Ok(PlanModel::Execute(st)),
        None => Err(ErrorModel::Unsupported),
    }
}

/// A text to run unprepared, or `Unsupported` where the dialect has none.
pub open spec fn script_of(statement: Option<StatementModel>) -> Result<PlanModel, ErrorModel> {
    match statement {
        Some(st) => Ok(PlanModel::Script(st)),
        None => Err(ErrorModel::Unsupported),
    }
}

/// What an operation comes to on a connected backend: the statement to run
/// and how to run it, or `Unsupported` where the dialect has no such
/// operation.
pub open spec fn sql_plan(dialect: Dialect, request: SqlRequest) -> Result<PlanModel, ErrorModel> {
    match request {
        SqlRequest::ListTables => Ok(PlanModel::Fetch(plain(list_tables_text(dialect)))),
        SqlRequest::ListViews => fetch_of(optional_plain(list_views_text(dialect))),
        SqlRequest::ListFunctions => fetch_of(optional_plain(list_functions_text(dialect))),
        SqlRequest::ListProcedures => fetch_of(optional_plain(list_procedures_text(dialect))),
        SqlRequest::ListDatabasesWithSize => fetch_of(optional_plain(list_databases_text(dialect))),
        SqlRequest::UseDatabase { database } => script_of(
            optional_plain(use_database_text(dialect, database@)),
        ),
        SqlRequest::ListTablesWithSize { database } => fetch_of(
            optional_plain(list_tables_with_size_text(dialect, database@)),
        ),
        SqlRequest::GetColumns { table } => Ok(PlanModel::Fetch(columns_statement(dialect, table@))),
        SqlRequest::GetPrimaryKey { table } => Ok(
            PlanModel::Fetch(primary_key_statement(dialect, table@)),
        ),
        SqlRequest::GetRowCount { table } => Ok(
            PlanModel::Fetch(plain(row_count_text(dialect, table@))),
        ),
        SqlRequest::GetRows { table, primary_key, limit, offset } => Ok(
            PlanModel::Fetch(
                plain(page_text(dialect, table@, optional_str(primary_key), limit, offset)),
            ),
        ),
        SqlRequest::DeclaredType { table, column } => fetch_of(
            declared_type_statement(dialect, table@, column@),
        ),
        SqlRequest::DeclaredTypes { table } => fetch_of(declared_types_statement(dialect, table@)),
        SqlRequest::UpdateCell { table, key_column, key_value, column, new_value, declared } => Ok(
            PlanModel::Execute(
                bound_two(
                    update_cell_text(dialect, table@, key_column@, column@, optional_str(declared)),
                    new_value@,
                    key_value@,
                ),
            ),
        ),
        SqlRequest::InsertRow { table, row, types } => Ok(
            PlanModel::Execute(
                StatementModel {
                    sql: insert_row_text(dialect, table@, pair_texts(types@), row@),
                    binds: insert_binds(row@),
                },
            ),
        ),
        SqlRequest::DeleteRow { table, key_column, key_value } => Ok(
            PlanModel::Execute(bound_one(delete_row_text(dialect, table@, key_column@), key_value@)),
        ),
        SqlRequest::DropTable { table } => Ok(
            PlanModel::Execute(plain(drop_table_text(dialect, table@))),
        ),
        SqlRequest::RenameTable { old_name, new_name } => Ok(
            PlanModel::Execute(plain(rename_table_text(dialect, old_name@, new_name@))),
        ),
        SqlRequest::ExecuteRaw { sql } => Ok(raw_plan(dialect, sql@)),
    }
}

/// The view of a plan or a failure.
pub open spec fn plan_result(r: Result<Plan, GatewayError>) -> Result<PlanModel, ErrorModel> {
    match r {
        Ok(p) => Ok(p@),
        Err(e) => Err(e@),
    }
}

fn to_fetch(statement: Option<Statement>) -> (r: Result<Plan, GatewayError>)
    ensures
        plan_result(r) == fetch_of(optional_statement(statement)),
{
    match statement {
        Some(st) => Ok(Plan::Fetch(st)),
        None => Err(GatewayError::Unsupported),
    }
}

fn to_execute(statement: Option<Statement>) -> (r: Result<Plan, GatewayError>)
    ensures
        plan_result(r) == execute_of(optional_statement(statement)),
{
    match statement {
        Some(st) => Ok(Plan::Execute(st)),
        None => Err(GatewayError::Unsupported),
    }
}

fn to_script(statement: Option<Statement>) -> (r: Result<Plan, GatewayError>)
    ensures
        plan_result(r) == script_of(optional_statement(statement)),
{
    match statement {
        Some(st) => Ok(Plan::Script(st)),
        None => Err(GatewayError::Unsupported),
    }
}

/// Builds what an operation comes to, whatever the registry holds.
pub fn build_sql(dialect: Dialect, request: &SqlRequest) -> (r: Result<Plan, GatewayError>)
    ensures
        plan_result(r) == sql_plan(dialect, *request),
{
    match request {
        SqlRequest::ListTables => Ok(Plan::Fetch(list_tables(dialect))),
        SqlRequest::ListViews => to_fetch(list_views(dialect)),
        SqlRequest::ListFunctions => to_fetch(list_functions(dialect)),
        SqlRequest::ListProcedures => to_fetch(list_procedures(dialect)),
        SqlRequest::ListDatabasesWithSize => to_fetch(list_databases_with_size(dialect)),
        SqlRequest::UseDatabase { database } => to_script(use_database(dialect, database)),
        SqlRequest::ListTablesWithSize { database } => to_fetch(
            list_tables_with_size(dialect, database),
        ),
        SqlRequest::GetColumns { table } => Ok(Plan::Fetch(get_columns(dialect, table))),
        SqlRequest::GetPrimaryKey { table } => Ok(Plan::Fetch(get_primary_key(dialect, table))),
        SqlRequest::GetRowCount { table } => Ok(Plan::Fetch(get_row_count(dialect, table))),
        SqlRequest::GetRows { table, primary_key, limit, offset } => Ok(
            Plan::Fetch(get_rows(dialect, table, *primary_key, *limit, *offset)),
        ),
        SqlRequest::DeclaredType { table, column } => to_fetch(
            declared_type_lookup(dialect, table, column),
        ),
        SqlRequest::DeclaredTypes { table } => to_fetch(declared_types_lookup(dialect, table)),
        SqlRequest::UpdateCell { table, key_column, key_value, column, new_value, declared } => Ok(
            Plan::Execute(
                update_cell(dialect, table, key_column, key_value, column, new_value, *declared),
            ),
        ),
        SqlRequest::InsertRow { table, row, types } => Ok(
            Plan::Execute(insert_row(dialect, table, row, types)),
        ),
        SqlRequest::DeleteRow { table, key_column, key_value } => Ok(
            Plan::Execute(delete_row(dialect, table, key_column, key_value)),
        ),
        SqlRequest::DropTable { table } => Ok(Plan::Execute(drop_table(dialect, table))),
        SqlRequest::RenameTable { old_name, new_name } => Ok(
            Plan::Execute(rename_table(dialect, old_name, new_name)),
        ),
        SqlRequest::ExecuteRaw { sql } => Ok(execute_raw(dialect, sql)),
    }
}

/// The answer to an operation on a relational backend: `NotConnected` where
/// the registry holds no connection of the dialect's kind, whatever the
/// operation; else the handle to run on and what to run, or why not.
pub open spec fn sql_answer<H, T>(registry: Registry<H, T>, dialect: Dialect, request: SqlRequest) -> Result<
    (H, PlanModel),
    ErrorModel,
> {
    match registry.connection(backend_of(dialect)) {
        None => Err(ErrorModel::NotConnected),
        Some(c) => match sql_plan(dialect, request) {
            Ok(p) => Ok((c.handle, p)),
            Err(e) => Err(e),
        },
    }
}

/// The view of a planned operation.
pub open spec fn planned_view<H, P: View>(r: Result<(&H, P), GatewayError>) -> Result<(H, P::V), ErrorModel> {
    match r {
        Ok(pair) => Ok((*pair.0, pair.1@)),
        Err(e) => Err(e@),
    }
}

/// Plans an operation on a relational backend: first the connection is
/// looked up, then the statement is built.
pub fn plan_sql<'r, H, T>(registry: &'r Registry<H, T>, dialect: Dialect, request: &SqlRequest) -> (r:
    Result<(&'r H, Plan), GatewayError>)
    ensures
        planned_view(r) == sql_answer(*registry, dialect, *request),
{
    let handle = registry.get(BackendKind::of_dialect(dialect))?;
    let plan = build_sql(dialect, request)?;
    Ok((handle, plan))
}

/// Every operation on a relational backend is answered `NotConnected` as long
/// as no attempt to connect to that backend has succeeded.
pub proof fn sql_refused_until_connected<H, T>(
    start: Registry<H, T>,
    attempts: Seq<crate::registry::Attempt<H, T>>,
    dialect: Dialect,
    request: SqlRequest,
)
    requires
        start.is_empty(),
        forall|i: int|
            0 <= i < attempts.len() && (#[trigger] attempts[i]).kind == backend_of(dialect)
                ==> attempts[i].made is None,
    ensures
        sql_answer(Registry::after(start, attempts), dialect, request) == Err::<
            (H, PlanModel),
            ErrorModel,
        >(ErrorModel::NotConnected),
{
    Registry::empty_until_connected(start, attempts, backend_of(dialect));
}

/// One operation on the key-value backend.
#[derive(Debug)]
pub enum KeyValueRequest<'a> {
    Ping,
    ListKeys { pattern: &'a str },
    KeyType { key: &'a str },
    /// Read the value of a key whose type tag is known.
    GetValue { tag: &'a str, key: &'a str },
    SetString { key: &'a str, value: &'a str },
    Delete { key: &'a str },
    Rename { old_key: &'a str, new_key: &'a str },
    GetTtl { key: &'a str },
    /// A raw command line, split on whitespace.
    ExecuteRaw { line: &'a str },
}

/// What an operation comes to on a connected key-value backend.
pub open spec fn command_plan(request: KeyValueRequest) -> Result<CommandPlanModel, ErrorModel> {
    match request {
        KeyValueRequest::Ping => Ok(
            CommandPlanModel::Send(CommandModel { name: "PING"@, args: Seq::empty() }),
        ),
        KeyValueRequest::ListKeys { pattern } => Ok(
            CommandPlanModel::Send(CommandModel { name: "KEYS"@, args: seq![pattern@] }),
        ),
        KeyValueRequest::KeyType { key } => Ok(
            CommandPlanModel::Send(CommandModel { name: "TYPE"@, args: seq![key@] }),
        ),
        KeyValueRequest::GetValue { tag, key } => Ok(value_step(tag@, key@)),
        KeyValueRequest::SetString { key, value } => Ok(
            CommandPlanModel::Send(CommandModel { name: "SET"@, args: seq![key@, value@] }),
        ),
        KeyValueRequest::Delete { key } => Ok(
            CommandPlanModel::Send(CommandModel { name: "DEL"@, args: seq![key@] }),
        ),
        KeyValueRequest::Rename { old_key, new_key } => Ok(
            CommandPlanModel::Send(CommandModel { name: "RENAME"@, args: seq![old_key@, new_key@] }),
        ),
        KeyValueRequest::GetTtl { key } => Ok(
            CommandPlanModel::Send(CommandModel { name: "TTL"@, args: seq![key@] }),
        ),
        KeyValueRequest::ExecuteRaw { line } => match parsed_command(line@) {
            Ok(c) => Ok(CommandPlanModel::Send(c)),
            Err(e) => Err(e),
        },
    }
}

/// The view of a command plan or a failure.
pub open spec fn command_plan_result(r: Result<CommandPlan, GatewayError>) -> Result<
    CommandPlanModel,
    ErrorModel,
> {
    match r {
        Ok(p) => Ok(p@),
        Err(e) => Err(e@),
    }
}

/// Builds what an operation comes to, whatever the registry holds.
pub fn build_command(request: &KeyValueRequest) -> (r: Result<CommandPlan, GatewayError>)
    ensures
        command_plan_result(r) == command_plan(*request),
{
    match request {
        KeyValueRequest::Ping => Ok(CommandPlan::Send(ping())),
        KeyValueRequest::ListKeys { pattern } => Ok(CommandPlan::Send(list_keys(pattern))),
        KeyValueRequest::KeyType { key } => Ok(CommandPlan::Send(key_type(key))),
        KeyValueRequest::GetValue { tag, key } => Ok(get_value(tag, key)),
        KeyValueRequest::SetString { key, value } => Ok(CommandPlan::Send(set_string(key, value))),
        KeyValueRequest::Delete { key } => Ok(CommandPlan::Send(delete(key))),
        KeyValueRequest::Rename { old_key, new_key } => Ok(
            CommandPlan::Send(rename(old_key, new_key)),
        ),
        KeyValueRequest::GetTtl { key } => Ok(CommandPlan::Send(get_ttl(key))),
        KeyValueRequest::ExecuteRaw { line } => match parse_command(line) {
            Ok(c) => Ok(CommandPlan::Send(c)),
            Err(e) => Err(e),
        },
    }
}

/// The answer to an operation on the key-value backend: `NotConnected` where
/// the registry holds no connection of that kind, whatever the operation;
/// else the handle to send on and what to send, or why not.
pub open spec fn command_answer<H, T>(registry: Registry<H, T>, request: KeyValueRequest) -> Result<
    (H, CommandPlanModel),
    ErrorModel,
> {
    match registry.connection(BackendKind::KeyValue) {
        None => Err(ErrorModel::NotConnected),
        Some(c) => match command_plan(request) {
            Ok(p) => Ok((c.handle, p)),
            Err(e) => Err(e),
        },
    }
}

/// Plans an operation on the key-value backend: first the connection is
/// looked up, then the command is built.
pub fn plan_command<'r, H, T>(registry: &'r Registry<H, T>, request: &KeyValueRequest) -> (r: Result<
    (&'r H, CommandPlan),
    GatewayError,
>)
    ensures
        planned_view(r) == command_answer(*registry, *request),
{
    let handle = registry.get(BackendKind::KeyValue)?;
    let plan = build_command(request)?;
    Ok((handle, plan))
}

/// Every operation on the key-value backend is answered `NotConnected` as
/// long as no attempt to connect to it has succeeded.
pub proof fn command_refused_until_connected<H, T>(
    start: Registry<H, T>,
    attempts: Seq<crate::registry::Attempt<H, T>>,
    request: KeyValueRequest,
)
    requires
        start.is_empty(),
        forall|i: int|
            0 <= i < attempts.len() && (#[trigger] attempts[i]).kind == BackendKind::KeyValue
                ==> attempts[i].made is None,
    ensures
        command_answer(Registry::after(start, attempts), request) == Err::<
            (H, CommandPlanModel),
            ErrorModel,
        >(ErrorModel::NotConnected),
{
    Registry::empty_until_connected(start, attempts, BackendKind::KeyValue);
}

} // verus!
