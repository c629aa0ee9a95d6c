pub mod builtin;
