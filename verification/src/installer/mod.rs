//! The installer's decisions: which tools to fetch from where, what each
//! step reports, the order of the install sequence, how archives are
//! recognized, how the install directory gets onto `PATH`, and what the
//! setup wizard shows. Downloading, unpacking, writing files and running
//! the freshly installed programs happen outside the library.

pub mod extract;

pub mod location;

pub mod python_runtime;
pub mod shortcut;
pub mod tools;

pub mod path_env;
pub mod install_logic;
pub mod wizard;
pub mod download;
