pub mod da_clients;
