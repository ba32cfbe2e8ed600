pub mod import_export;
pub mod login;
pub mod profile;

pub use import_export::{handle_export, handle_import, handle_list};
pub use login::handle_login;
pub use profile::{handle_create, handle_delete, handle_edit, handle_rename, CreateParams};
