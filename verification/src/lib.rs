//! Verified core of a command line tool that opens Eclipse Che / Dev Spaces
//! workspaces: URI building for the editor, extension checks, pod and
//! container selection, and the decisions of the interactive session.

pub mod code;
pub mod devfile;
pub mod error;
pub mod extensions;
pub mod healthcheck;
pub mod helper;
pub mod level;
pub mod open_code;
pub mod pod;
pub mod string_map;
pub mod terminal;
pub mod text;
pub mod workspace;


