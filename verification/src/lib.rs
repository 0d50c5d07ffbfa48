//! A dispatcher for the package managers of Unix-like systems.
//!
//! Given the name of a package, the library finds out which package managers a host
//! has, composes the commands that search through all of them, merges what they print
//! into one list in which every package stays attributed to its manager, and composes
//! the command that installs or removes the one package that the user chose, through
//! the manager that offered it.
//!
//! The library runs nothing itself. It hands out command lines and reads what came
//! back; running the commands, and asking the user, is left to the caller.

pub mod dispatch;
pub mod environment;
pub mod labels;
pub mod messages;
pub mod package_managers;
pub mod platforms;
pub mod tasks;
pub mod text;
