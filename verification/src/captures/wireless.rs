pub mod wifi;
