pub mod file;
pub mod format;
pub mod fuzzy_time;
pub mod gitignore;
pub mod icons;
pub mod order;
pub mod style;
pub mod text;
