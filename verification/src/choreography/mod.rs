pub mod protocol;
