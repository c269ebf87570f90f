//! Builders and encoders for the `WIFI:` payload carried by Wi-Fi QR codes.
pub mod utils;
pub mod no_pass;
pub mod wep;
pub mod wpa;
pub mod wpa2_eap;
