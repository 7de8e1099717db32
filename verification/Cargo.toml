[package]
name = "pathtracer"
version = "0.1.0"
edition = "2021"
publish = false

[dependencies]
gltf = { version = "*", features = ["KHR_lights_punctual", "KHR_materials_transmission", "KHR_materials_ior"] }
image = { version = "*", default-features = false }
nalgebra = "*"
nalgebra-glm = "*"
