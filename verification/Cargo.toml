[package]
name = "bevy_construct_prototype"
version = "0.1.0"
edition = "2021"
publish = false

[dependencies]
bevy_ecs = "0.15"
bevy_ptr = "0.15"
bevy_reflect = "0.15"
bevy_macro_utils = "0.15"
thiserror = "2"
variadics_please = "1"
syn = "2"
quote = "1"
proc-macro2 = "1"
