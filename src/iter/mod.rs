pub mod digits;
