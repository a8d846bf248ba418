pub mod ttp229;
