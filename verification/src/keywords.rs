pub mod any_of;
pub mod format;
pub mod maximum;
pub mod pattern_properties;
pub mod type_;
