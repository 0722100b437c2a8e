//! Keeps one entity's forward axis pointed at another inside a scene hierarchy.
//!
//! The crate holds the decisions of a facing pass: which up reference a
//! binding asks for, which bindings can be served from the poses at hand,
//! and which local rotations are staged for writing. The vector arithmetic
//! itself is done by `bevy`; every call into it goes through [`math`].

pub mod binding;
pub mod buffer;
pub mod laws;
pub mod math;
pub mod pose;
pub mod resolve;
pub mod rotation;
pub mod scheduler;
pub mod source;

pub use binding::{BindingStore, RotateTo, RotatedToBy, TargetBinding, UpDirection};
pub use buffer::{DeferredWriteBuffer, StagedRotation};
pub use pose::{EntityId, Pose};
pub use resolve::resolve_up_direction;
pub use rotation::calculate_local_rotation_to_target;
pub use scheduler::{
    face_target, rotate_towards_with_updated_global_transforms,
    rotate_towards_without_updating_global_transforms, run_update_pass, Diagnostic,
    RotateTowardsPlugin,
};
pub use source::{PoseSource, PoseStrategy, SceneRecord};
