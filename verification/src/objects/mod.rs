//! Mesh files.

pub mod lexer;
pub mod object;

pub use lexer::{Lexer, Token};
pub use object::{FaceVertex, Group, ObjError, Object, ObjectParser};
