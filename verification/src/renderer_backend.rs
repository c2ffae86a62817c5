pub mod binary32;
pub mod bind_group_layout;
pub mod material;
pub mod mesh_builder;
pub mod pipeline;
