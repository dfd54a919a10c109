use vstd::prelude::*;
use vstd::string::*;

verus! {

/// The text of one suggested answer.
pub struct Message {
    pub content: String,
}

/// One candidate answer of the completion service.
pub struct Choice {
    pub message: Message,
}

/// A decoded reply of the completion service.
pub struct ApiResponse {
    pub choices: Vec<Choice>,
}

impl View for ApiResponse {
    /// The contents of the choices, in order.
    type V = Seq<Seq<char>>;

    open spec fn view(&self) -> Seq<Seq<char>> {
        self.choices@.map_values(|c: Choice| c.message.content@)
    }
}

/// The line shown for a reply whose choices hold `contents`.
pub open spec fn choice_line(contents: Seq<Seq<char>>) -> Seq<char> {
    if contents.len() == 0 {
        "No choices found in the response"@
    } else {
        contents[0]
    }
}

/// The line shown for a reply body: `None` when the body did not decode.
pub open spec fn reply_line(contents: Option<Seq<Seq<char>>>) -> Seq<char> {
    match contents {
        Some(c) => choice_line(c),
        None => "Failed to parse the JSON response"@,
    }
}

/// The line to print for a decoded reply: its first choice's content, or a
/// notice when there is none.
pub fn print_choice_message(api_response: &ApiResponse) -> (r: String)
    ensures
        r@ == choice_line(api_response@),
{
    if api_response.choices.len() > 0 {
        api_response.choices[0].message.content.clone()
    } else {
        String::from_str("No choices found in the response")
    }
}

/// The line to print for a reply body, given what decoding it gave.
pub fn response_line(parsed: Option<ApiResponse>) -> (r: String)
    ensures
        r@ == reply_line(
            match parsed {
                Some(a) => Some(a@),
                None => None,
            },
        ),
{
    match parsed {
        Some(a) => print_choice_message(&a),
        None => String::from_str("Failed to parse the JSON response"),
    }
}

} // verus!
