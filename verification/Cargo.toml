[package]
name = "arb_detector"
version = "0.1.0"
edition = "2021"
publish = false

[dependencies]
chrono = { version = "=0.4.45", default-features = false, features = ["now", "std"] }
dotenv = "=0.15.0"
ethers = { version = "=2.0.14", default-features = false, features = ["abigen"] }
# The facade's own TLS switch also pulls in the block explorer client; only the provider needs TLS.
ethers-providers = { version = "=2.0.14", default-features = false, features = ["rustls"] }
eyre = { version = "=0.6.14", default-features = false, features = ["auto-install"] }
futures = { version = "=0.3.34", default-features = false, features = ["std"] }
rusqlite = { version = "=0.31.0", features = ["bundled"] }
tokio = { version = "=1.54.1", features = ["macros", "rt-multi-thread", "signal", "time"] }
