[package]
name = "rikka"
version = "0.1.0"
edition = "2021"
publish = false

[dependencies]
blake3 = "=1.8.7"
byteorder = "=1.5.0"
foundationdb-tuple = "*"
hex = "=0.4.3"
twilight-command-parser = "=0.9.0"
twilight-mention = "=0.17.0"
twilight-model = "=0.17.1"
