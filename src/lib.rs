//! The runtime value model of a markup compiler: tagged values, argument
//! tables with typed extraction and positional diagnostics, and the ambient
//! formatting state that library functions read and mutate.

pub mod geom;
pub mod diag;
pub mod value;
pub mod table;
pub mod text;
pub mod convert;
pub mod extract;
pub mod layout;
pub mod font;
pub mod paper;
pub mod state;
pub mod markup;
