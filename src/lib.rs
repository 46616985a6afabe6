//! The decisions behind compiling a shader and looking up a vertex attribute
//! through a graphics driver.
//!
//! The driver itself is reached only by the embedding code: this library tells
//! it which driver call to make next and turns the driver's answers into
//! results.

pub mod attribute;
pub mod compile;
