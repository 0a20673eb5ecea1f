pub mod vision;
