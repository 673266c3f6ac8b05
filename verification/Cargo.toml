[package]
name = "magika_boundary"
version = "0.1.0"
edition = "2021"
publish = false

[dependencies]
magika = "=1.1.0"
# magika leaves it to the final user to say how the ONNX Runtime is made
# available, by a dependency on ort with the features for it (see magika's
# crate documentation). Here the runtime is loaded when the program runs.
ort = { version = "=2.0.0-rc.12", default-features = false, features = ["load-dynamic", "api-24"] }
# The C surface tries the runtime library by hand before the engine loads it.
libloading = "=0.9.0"
