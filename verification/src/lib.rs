//! Host-import binding and internal-function injection for a deterministic
//! virtual machine.
//!
//! A guest module names the capabilities it needs by a namespace and a name.
//! At link time each such import is bound to a small stub made of the
//! machine's own operations, and a fixed table of privileged stubs is appended
//! to the module. A stub reaches a privileged capability only through the
//! position of that capability in the table, so the two sides must number the
//! capabilities alike: this crate states that agreement and proves it.

pub mod catalog;
pub mod host;
pub mod internal;
pub mod machine;
pub mod programs;
pub mod text;
pub mod value;
pub mod wavm;
