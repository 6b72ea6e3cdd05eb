[package]
name = "df_extras"
version = "0.1.0"
edition = "2021"
publish = false

[dependencies]
ipnet = "=2.12.2"
serde_json = { version = "=1.0.154", features = ["preserve_order"] }
serde_json_path = "=0.7.2"
libm = "=0.2.16"
rand = "=0.8.8"
rand_distr = "=0.4.3"
datafusion = { version = "=55.2.0", default-features = false }
