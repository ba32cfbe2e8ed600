pub mod display;
pub mod manual_entry;
pub mod prompts;

pub use display::display_tokens;
pub use manual_entry::handle_manual_code_entry;
pub use prompts::{
    prompt_input,
    prompt_input_with_current,
    prompt_input_with_default,
    prompt_optional_input,
    prompt_optional_input_with_current,
    select_profile,
};
