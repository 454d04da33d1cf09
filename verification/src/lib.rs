//! Building blocks of a small tool that renders a reverse-proxy development
//! configuration from a template and maintains the list of imported folders.

pub mod text;
pub mod generate;
pub mod generate_laws;
pub mod imports;
pub mod init;
pub mod init_laws;
pub mod paths;
pub mod pieces;
pub mod reload;
pub mod template;
pub mod template_laws;
pub mod vars;
