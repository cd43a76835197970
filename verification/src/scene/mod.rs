pub mod demos;
