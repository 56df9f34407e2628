//! Sheepdog's verified core: the parsers for virtual-environment metadata, the
//! rules of indexing and scanning, the CSV export, the terminal tables, and the
//! cache of PyPI versions. Reading files, walking directories, the SQLite cache,
//! the network and the GUI are driven from outside this library.

pub mod cli;
pub mod demo;
pub mod disk_usage;
pub mod export;
pub mod indexing;
pub mod models;
pub mod numfmt;
pub mod parser;
pub mod project_files;
pub mod pypi;
pub mod scanner;
pub mod service;
pub mod table;
pub mod text;
