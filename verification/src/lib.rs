//! Semantic course-search core: snapshot caching decisions, embedding
//! assembly, query preparation, and the construction of every request the
//! backing vector store executes.
//!
//! All network and file work lives outside this crate; the functions here
//! take and return plain values and carry contracts that Verus checks.

pub mod corpus;
pub mod course;
pub mod text;
pub mod vector;

pub use course::Course;
pub use course::CourseView;
pub use course::EMBED_DIM;
