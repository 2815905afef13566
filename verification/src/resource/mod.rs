pub mod auth_zone;
