pub mod flags;
pub mod registers;
