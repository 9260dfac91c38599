pub mod text;
pub mod path;
pub mod mime;
pub mod response;
pub mod laws;
