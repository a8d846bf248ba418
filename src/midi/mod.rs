pub mod note;
