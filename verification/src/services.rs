pub mod dnsmasq;
pub mod nginx;
