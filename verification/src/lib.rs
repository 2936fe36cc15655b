//! The logic of a first-boot setup app for phones: deriving and checking the
//! new user's name and PIN, the user record handed to homed, the locale
//! settings handed to localed, the configurable defaults, and the settings
//! exported for the next boot.
pub mod crypt;
pub mod dconf;
pub mod defaults;
pub mod done_page;
pub mod locale;
pub mod page;
pub mod text;
pub mod user_page;
pub mod username;
