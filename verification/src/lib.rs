//! Links on disk, planned from a declarative configuration.
//!
//! A configuration names up to three links: a symbolic link to a file, a
//! hard link, and a symbolic link to a directory, each by a source and a
//! destination path. A path may begin with an alias, `$NAME/rest`, which
//! stands for a directory taken from the environment of the process.
//!
//! The library decides and never touches the disk. A caller hands it what
//! was read: the variables of the environment, the arguments, the text of
//! the configuration, the status of a path. The library hands back what is
//! to be done and what is to be said:
//!
//! - [`alias`] builds the table of aliases, sorted by name;
//! - [`resolve`] replaces a leading alias of a path by its directory;
//! - [`document`] parses the configuration into a tree, and [`request`]
//!   reads the link requests out of it;
//! - [`plan`] puts these together into the steps of a run;
//! - [`executor`] carries one step out, action by action;
//! - [`startup`] checks the argument and the file before a run;
//! - [`report`] words the lines of the log.

pub mod alias;
pub mod document;
pub mod executor;
pub mod plan;
pub mod probe;
pub mod report;
pub mod request;
pub mod resolve;
pub mod startup;
pub mod text;
