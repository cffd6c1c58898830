pub mod theme_default;
pub mod theme_nord;
pub mod theme_powerline_dark;
