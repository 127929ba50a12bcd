pub mod anki;
pub mod archive;
pub mod convert;
pub mod errors;
pub mod ident;
pub mod index;
pub mod jsonmodel;
pub mod laws;
pub mod model;
pub mod text;
