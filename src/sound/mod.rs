pub mod adsr;
