[package]
name = "pear_client"
version = "0.1.0"
edition = "2021"
publish = false

[dependencies]
bytes = "=1.12.1"
futures = "=0.3.34"
http = "=1.5.0"
http-body = "=1.1.0"
http-body-util = "=0.1.5"
markup5ever_rcdom = "=0.39.0+unofficial"
tower-service = "=0.3.3"
url = "=2.5.8"
xml5ever = "=0.39.0"
