//! A small persistent task list: tasks with priorities and completion times,
//! positional editing, filtered views, the command step that decides what is
//! saved and shown, and the text forms that the exporters write.

pub mod cli;
pub mod exporter;
pub mod stamp;
pub mod task;
pub mod todolist;

pub use cli::{dispatch, Cli, Commands, ListView, Step};
pub use exporter::{CsvExporter, ExportError, FormatEnum, JsonExporter, MarkdownExporter, YamlExporter};
pub use stamp::Stamp;
pub use task::{PriorityEnum, Task};
pub use todolist::TodoList;
