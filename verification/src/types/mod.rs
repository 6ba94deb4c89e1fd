pub mod health_check;
