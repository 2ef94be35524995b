[package]
name = "list_ec2_instances"
version = "0.1.0"
edition = "2021"
publish = false

[dependencies]
getopts = "0.2"
rusoto_core = "0.42"
rusoto_credential = "0.42"
rusoto_ec2 = "0.42"
futures = "0.1"
docopt = "0.7"
rustc-serialize = "0.3"
