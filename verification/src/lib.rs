//! A typed data-access layer over a document store: the decisions that every
//! repository operation makes before and after its round trip to the store.

pub mod concern;
pub mod cursor;
pub mod document;
pub mod driver;
pub mod error;
pub mod model;
pub mod repository;

pub use error::RepositoryError;
pub use model::Model;
pub use cursor::TypeCursor;
pub use repository::GenericRepository;
pub use repository::RepositoryTrait;
