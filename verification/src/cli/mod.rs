pub mod interface;
