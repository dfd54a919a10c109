use vstd::prelude::*;
use vstd::string::*;

verus! {

/// What serde_json prints for a JSON string holding `s`: the characters,
/// escaped where JSON asks for it, between double quotes.
pub uninterp spec fn json_string_text(s: Seq<char>) -> Seq<char>;

/// Relies on serde_json's `Display` for `Value`: a `Value::String` prints as
/// one compact JSON string literal, fixed by its characters alone.
#[verifier::external_body]
fn json_string(s: &str) -> (r: String)
    ensures
        r@ == json_string_text(s@),
{
    serde_json::Value::String(s.to_string()).to_string()
}

/// The words of a command line joined with one space between neighbours.
pub open spec fn joined(args: Seq<Seq<char>>) -> Seq<char>
    decreases args.len(),
{
    if args.len() == 0 {
        Seq::empty()
    } else if args.len() == 1 {
        args[0]
    } else {
        joined(args.drop_last()) + seq![' '] + args.last()
    }
}

pub open spec fn views_of(args: Seq<String>) -> Seq<Seq<char>> {
    args.map_values(|a: String| a@)
}

/// The instruction that binds the answer to the host's operating system.
pub open spec fn system_text(os: Seq<char>) -> Seq<char> {
    "Generate a command based on the user's request, ensuring compatibility specifically with "@
        + os
        + ". Include only the command itself in your response, without any additional explanations or context. Do not format it in any way."@
}

/// The question asked on the user's behalf.
pub open spec fn user_text(query: Seq<char>) -> Seq<char> {
    "What is the command to "@ + query + "?"@
}

/// The request body: the model, then a system message and a user message,
/// each with its role before its content.
pub open spec fn payload_text(query: Seq<char>, os: Seq<char>) -> Seq<char> {
    "{\"model\":\"gpt-4-turbo-preview\",\"messages\":[{\"role\":\"system\",\"content\":"@
        + json_string_text(system_text(os))
        + "},{\"role\":\"user\",\"content\":"@
        + json_string_text(user_text(query))
        + "}]}"@
}

/// Joins the words of the command line with single spaces.
pub fn join_args(args: &Vec<String>) -> (r: String)
    ensures
        r@ == joined(views_of(args@)),
{
    let mut r = String::new();
    let mut i: usize = 0;
    while i < args.len()
        invariant
            i <= args.len(),
            r@ == joined(views_of(args@).take(i as int)),
        decreases args.len() - i,
    {
        let ghost before = views_of(args@).take(i as int);
        if i > 0 {
            r.append(" ");
            proof {
                reveal_strlit(" ");
            }
        }
        r.append(args[i].as_str());
        proof {
            let after = views_of(args@).take(i + 1);
            assert(after.drop_last() =~= before);
            if i == 0 {
                assert(before =~= Seq::empty());
            }
        }
        i = i + 1;
    }
    assert(views_of(args@).take(args.len() as int) =~= views_of(args@));
    r
}

/// The system instruction for the operating system named `os`.
pub fn system_instruction(os: &str) -> (r: String)
    ensures
        r@ == system_text(os@),
{
    let mut r = String::from_str(
        "Generate a command based on the user's request, ensuring compatibility specifically with ",
    );
    r.append(os);
    r.append(
        ". Include only the command itself in your response, without any additional explanations or context. Do not format it in any way.",
    );
    r
}

/// The user instruction for the request `query`.
pub fn user_instruction(query: &str) -> (r: String)
    ensures
        r@ == user_text(query@),
{
    let mut r = String::from_str("What is the command to ");
    r.append(query);
    r.append("?");
    r
}

/// The JSON body of the completion request for `query` on the operating
/// system named `os`.
pub fn prepare_payload(query: &str, os: &str) -> (r: String)
    ensures
        r@ == payload_text(query@, os@),
{
    let system = system_instruction(os);
    let user = user_instruction(query);
    let system_json = json_string(system.as_str());
    let user_json = json_string(user.as_str());
    let mut r = String::from_str(
        "{\"model\":\"gpt-4-turbo-preview\",\"messages\":[{\"role\":\"system\",\"content\":",
    );
    r.append(system_json.as_str());
    r.append("},{\"role\":\"user\",\"content\":");
    r.append(user_json.as_str());
    r.append("}]}");
    r
}

/// Joining a non-empty command line adds nothing at either end: the text
/// starts with the first word's first character and ends with the last
/// word's last character.
pub proof fn lemma_joined_ends(args: Seq<Seq<char>>)
    requires
        args.len() > 0,
        args[0].len() > 0,
        args.last().len() > 0,
    ensures
        joined(args).len() > 0,
        joined(args)[0] == args[0][0],
        joined(args).last() == args.last().last(),
    decreases args.len(),
{
    if args.len() > 1 {
        let front = args.drop_last();
        if front.last().len() > 0 {
            lemma_joined_ends(front);
        } else {
            lemma_joined_first(front);
        }
    }
}

proof fn lemma_joined_first(args: Seq<Seq<char>>)
    requires
        args.len() > 0,
        args[0].len() > 0,
    ensures
        joined(args).len() > 0,
        joined(args)[0] == args[0][0],
    decreases args.len(),
{
    if args.len() > 1 {
        lemma_joined_first(args.drop_last());
    }
}

/// The request body depends on the query and the operating system name
/// alone: equal inputs give the same text.
pub proof fn lemma_payload_deterministic(
    query1: Seq<char>,
    os1: Seq<char>,
    query2: Seq<char>,
    os2: Seq<char>,
)
    requires
        query1 == query2,
        os1 == os2,
    ensures
        payload_text(query1, os1) == payload_text(query2, os2),
{
}

} // verus!
