//! Vocabulary manager core: the stored records, the command protocol between
//! the interface and the storage worker, the worker's state machine, an
//! in-memory storage model, and the interface's view state.

pub mod db;
pub mod dispatcher;
pub mod protocol;
pub mod shell;
pub mod store;

pub use db::{Language, Text, Word};
pub use dispatcher::{
    Dispatcher, DispatcherAction, DispatcherEvent, DispatcherState, GatewayCall, GatewayReply,
    Pending,
};
pub use protocol::{Command, DbResult, StorageError};
pub use shell::{push_decimal, ShellState, ShellView, Status};
pub use store::{validate_language_name, LanguageStore};
