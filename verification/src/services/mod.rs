pub mod da;
pub mod health_check;
