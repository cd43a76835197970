pub mod fixed;
