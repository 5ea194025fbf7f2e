//! Scene and sensor bookkeeping for a ray-traced LiDAR and depth-camera
//! simulator: meshes, instances, scene builders, transform updates, LiDAR
//! beam layouts and the selection of LiDAR returns that hit something.
//!
//! Floating-point values (vertex coordinates, poses, angles) are carried as
//! their IEEE-754 bit patterns (`f32::to_bits`), so that every value the
//! library stores is an integer and every contract speaks of exact values.
pub mod geometry;
pub mod mesh;
pub mod scene;
pub mod lidar;
pub mod depth;

pub use geometry::{Vertex, Pose};
pub use mesh::{Mesh, create_mesh, add_mesh_vertex, add_mesh_face};
pub use lidar::{Rt3DLidarConfiguration, new_lidar_config, hit_points};
pub use depth::ImageData;
pub use scene::{
    Instance, InstanceWrapper, RtSceneBuilder, RtSceneUpdate, ViewMatrix, create_instance_wrapper,
    create_rt_scene_builder, add_mesh, add_instance, create_rt_scene_update, add_update,
    create_view_matrix,
};



