pub mod driver;
pub mod laws;
pub mod registers;
pub mod vertex;
