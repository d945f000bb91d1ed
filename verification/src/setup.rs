pub mod caddy;
pub mod dns;
pub mod nginx;
pub mod php_fpm;
