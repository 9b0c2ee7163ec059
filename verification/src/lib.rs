//! A task list kept as a JSON document: the codec between the document and
//! the typed list, and the four operations on it, each a function from the
//! stored text to the text to store next.

pub mod value;
pub mod formatter;
pub mod file_management;
pub mod commands;
pub mod add;
pub mod done;
pub mod list;
pub mod remove;
