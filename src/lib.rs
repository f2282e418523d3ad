//! Multi-dialect SQL parsing on top of sqlparser: dialect selection by name,
//! parsing into statements with typed errors, and the decisions a visitor
//! driver makes at each hook (which slots run, and when a break ends the walk).

pub mod dialect;
pub mod parse;
pub mod visitor;

pub use dialect::{dialect_for, get_supported_dialects, DialectKind};
pub use parse::{parse_sql, SqlError};
pub use visitor::{
    break_or_continue, hook_name, hook_slots, Flow, HookReply, HookStep, NodeKind, Phase,
    VisitSession,
};
