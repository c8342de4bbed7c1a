//! The per-entity components of the simulation.

pub mod ball;
pub mod block;
pub mod hitbox;
pub mod is_collidable;
pub mod paddle;
pub mod sprite_render;
pub mod transform;

pub use ball::Ball;
pub use block::Block;
pub use hitbox::classify_at;
pub use hitbox::hitbox_in_bounds;
pub use transform::transform_in_bounds;
pub use hitbox::corners_of;
pub use hitbox::lemma_classify_symmetric;
pub use hitbox::lemma_corner_touch_is_both;
pub use hitbox::lemma_height_offset_is_only_y;
pub use hitbox::lemma_separated_is_no_overlap;
pub use hitbox::lemma_width_offset_is_only_x;
pub use hitbox::overlap_class;
pub use hitbox::rect_bounded;
pub use hitbox::Hitbox;
pub use hitbox::COORD_LIMIT;
pub use hitbox::OVERLAP_TOLERANCE;
pub use is_collidable::IsCollidable;
pub use paddle::Paddle;
pub use sprite_render::model_matrix_fits;
pub use sprite_render::sprite_in_bounds;
pub use sprite_render::uv_ratio;
pub use sprite_render::Sprite;
pub use transform::lemma_world_point_round_trip;
pub use transform::GlobalTransform;
pub use transform::Transform;
