use cmdgen::{
    bearer_value, join_args, prepare_payload, print_choice_message, response_line,
    system_instruction, user_instruction, ApiResponse, Choice, Config, ConfigError, Message,
};

fn reply_of(contents: &[&str]) -> ApiResponse {
    ApiResponse {
        choices: contents
            .iter()
            .map(|c| Choice { message: Message { content: c.to_string() } })
            .collect(),
    }
}

fn words(ws: &[&str]) -> Vec<String> {
    ws.iter().map(|w| w.to_string()).collect()
}

#[test]
fn join_args_uses_single_spaces() {
    assert_eq!(join_args(&words(&["find", "large", "files"])), "find large files");
}

#[test]
fn join_args_single_word() {
    assert_eq!(join_args(&words(&["ls"])), "ls");
}

#[test]
fn join_args_empty() {
    assert_eq!(join_args(&words(&[])), "");
}

#[test]
fn join_args_keeps_words_as_given() {
    assert_eq!(join_args(&words(&["list", "files?"])), "list files?");
}

#[test]
fn system_instruction_names_os() {
    assert_eq!(
        system_instruction("linux"),
        "Generate a command based on the user's request, ensuring compatibility specifically with linux. Include only the command itself in your response, without any additional explanations or context. Do not format it in any way."
    );
}

#[test]
fn user_instruction_asks_question() {
    assert_eq!(user_instruction("list files"), "What is the command to list files?");
}

#[test]
fn payload_has_fixed_layout() {
    let p = prepare_payload("find large files", "macos");
    assert_eq!(
        p,
        "{\"model\":\"gpt-4-turbo-preview\",\"messages\":[{\"role\":\"system\",\"content\":\"Generate a command based on the user's request, ensuring compatibility specifically with macos. Include only the command itself in your response, without any additional explanations or context. Do not format it in any way.\"},{\"role\":\"user\",\"content\":\"What is the command to find large files?\"}]}"
    );
}

#[test]
fn payload_escapes_quotes() {
    let p = prepare_payload("print \"hi\"", "linux");
    assert!(p.ends_with(
        "{\"role\":\"user\",\"content\":\"What is the command to print \\\"hi\\\"?\"}]}"
    ));
}

#[test]
fn payload_is_deterministic() {
    assert_eq!(prepare_payload("count lines", "windows"), prepare_payload("count lines", "windows"));
}

#[test]
fn first_choice_is_printed() {
    assert_eq!(response_line(Some(reply_of(&["ls -lh"]))), "ls -lh");
}

#[test]
fn only_first_of_many_choices() {
    assert_eq!(print_choice_message(&reply_of(&["du -sh *", "ls"])), "du -sh *");
}

#[test]
fn no_choices_notice() {
    assert_eq!(response_line(Some(reply_of(&[]))), "No choices found in the response");
}

#[test]
fn undecodable_body_notice() {
    assert_eq!(response_line(None), "Failed to parse the JSON response");
}

#[test]
fn missing_key_is_an_error() {
    let r = Config::from_values(None, "linux".to_string());
    assert!(matches!(r, Err(ConfigError::MissingApiKey)));
    assert_eq!(ConfigError::MissingApiKey.message(), "OPENAI_API_KEY not found in environment");
}

#[test]
fn present_key_is_kept() {
    let c = Config::from_values(Some("k-123".to_string()), "linux".to_string()).ok().unwrap();
    assert_eq!(c.api_key, "k-123");
    assert_eq!(c.os_name, "linux");
}

#[test]
fn bearer_header_value() {
    assert_eq!(bearer_value("abc"), "Bearer abc");
}
