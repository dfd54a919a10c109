//! A command-line assistant's core: it turns a free-text request into the
//! body of a chat-completion request, and turns the decoded reply into the
//! one line that the program prints.
mod config;
mod prompt;
mod reply;

pub use config::{bearer_value, Config, ConfigError};
pub use prompt::{join_args, prepare_payload, system_instruction, user_instruction};
pub use reply::{print_choice_message, response_line, ApiResponse, Choice, Message};
