//! The endpoint for chat completions.
use crate::application::config::AuthMode;
use crate::interfaces::channel_adapter_common::{error_status, status_of, HttpReply};
use crate::interfaces::channels::{build_chat_params, chat_params, http_session, is_http_session};
use crate::interfaces::compat::{
    authorize_gateway_http, bearer_outcome, content_text, extract_text_content, header_text,
    normalize_segment,
};
use crate::json::{
    json_text_of, lemma_models, member, models, no_fields, object, opt_model, set_field, text,
    text_of, Json, JsonModel,
};
use crate::protocol::errors::ErrorShape;
use crate::rpc::SessionContext;
use crate::security::auth::{auth_failure_error, AuthFailureReason};
use crate::slug::{slug, slug_of};
use crate::text::{
    cat, cat3, cat4, join, joined, kept, kept_opt, law_joined_parts_are_found,
    law_joined_parts_keep_order, lemma_kept, lowered, not_blank, opt_text, same, text_or, texts, to_lower, trim,
    trim_non_empty_opt, trimmed,
};
use vstd::prelude::*;

verus! {

broadcast use vstd::seq::group_seq_axioms;

/// A request for a completion.
pub struct ChatCompletionsRequest {
    pub model: Option<String>,
    pub stream: bool,
    pub messages: Vec<ChatMessage>,
    pub user: Option<String>,
}

/// A message of a conversation.
pub struct ChatMessage {
    pub role: Option<String>,
    pub content: Option<Json>,
    pub name: Option<String>,
}

/// What is wrong with a body.
#[derive(Debug, Clone, Copy, PartialEq, Eq, Structural)]
pub enum BadBody {
    /// It is no JSON.
    NotJson,
    /// It is no request.
    NotRequest,
}

// ---------------------------------------------------------------------------------------------
// Prompts
// ---------------------------------------------------------------------------------------------
/// What a message adds to a prompt.
pub enum LineModel {
    Nothing,
    System(Seq<char>),
    User(Seq<char>),
    Other(Seq<char>),
}

/// What a message says, trimmed.
pub open spec fn message_content(message: ChatMessage) -> Seq<char> {
    match opt_model(message.content) {
        Some(content) => trimmed(content_text(content)),
        None => trimmed(""@),
    }
}

/// The role of a message, trimmed and in small letters.
pub open spec fn message_role(message: ChatMessage) -> Seq<char> {
    match opt_text(message.role) {
        Some(role) => lowered(trimmed(role)),
        None => ""@,
    }
}

/// What a message adds to a prompt: a line under the name of who said it.
pub open spec fn line_of(message: ChatMessage) -> LineModel {
    let role = message_role(message);
    let content = message_content(message);
    if role.len() == 0 || content.len() == 0 {
        LineModel::Nothing
    } else if role == "system"@ || role == "developer"@ {
        LineModel::System(content)
    } else if role == "assistant"@ {
        LineModel::Other("Assistant: "@ + content)
    } else if role == "user"@ {
        LineModel::User("User: "@ + content)
    } else if role == "tool"@ || role == "function"@ {
        LineModel::Other(text_or(kept_opt(opt_text(message.name)), "Tool"@) + ": "@ + content)
    } else {
        LineModel::Nothing
    }
}

/// The instructions to the system.
pub open spec fn system_lines(messages: Seq<ChatMessage>) -> Seq<Seq<char>>
    decreases messages.len(),
{
    if messages.len() == 0 {
        Seq::empty()
    } else {
        let earlier = system_lines(messages.drop_last());
        match line_of(messages.last()) {
            LineModel::System(s) => earlier.push(s),
            _ => earlier,
        }
    }
}

/// The lines of the conversation.
pub open spec fn talk_lines(messages: Seq<ChatMessage>) -> Seq<Seq<char>>
    decreases messages.len(),
{
    if messages.len() == 0 {
        Seq::empty()
    } else {
        let earlier = talk_lines(messages.drop_last());
        match line_of(messages.last()) {
            LineModel::User(s) => earlier.push(s),
            LineModel::Other(s) => earlier.push(s),
            _ => earlier,
        }
    }
}

/// A user said something.
pub open spec fn user_spoke(messages: Seq<ChatMessage>) -> bool {
    exists|i: int| 0 <= i < messages.len() && #[trigger] line_of(messages[i]) is User
}

/// The prompt that a conversation makes: the instructions, then the lines; none where no user said
/// anything.
pub open spec fn prompt_of(messages: Seq<ChatMessage>) -> Option<Seq<char>> {
    if !user_spoke(messages) {
        None
    } else if system_lines(messages).len() == 0 {
        Some(joined(talk_lines(messages), "\n"@))
    } else {
        Some(
            "System:\n"@ + joined(system_lines(messages), "\n\n"@) + "\n\n"@ + joined(
                talk_lines(messages),
                "\n"@,
            ),
        )
    }
}

/// What a message adds to a prompt.
enum Line {
    Nothing,
    System(String),
    User(String),
    Other(String),
}

spec fn line_is(line: Line, model: LineModel) -> bool {
    match (line, model) {
        (Line::Nothing, LineModel::Nothing) => true,
        (Line::System(s), LineModel::System(m)) => s@ == m,
        (Line::User(s), LineModel::User(m)) => s@ == m,
        (Line::Other(s), LineModel::Other(m)) => s@ == m,
        _ => false,
    }
}

fn read_line(message: &ChatMessage) -> (r: Line)
    ensures
        line_is(r, line_of(*message)),
{
    let role = match &message.role {
        Some(role) => to_lower(trim(role.as_str()).as_str()),
        None => "".to_owned(),
    };
    let role = role.as_str();
    if role.is_empty() {
        return Line::Nothing;
    }
    let raw = match &message.content {
        Some(content) => extract_text_content(content),
        None => "".to_owned(),
    };
    let content = trim(raw.as_str());
    if content.as_str().is_empty() {
        return Line::Nothing;
    }
    if same(role, "system") || same(role, "developer") {
        Line::System(content)
    } else if same(role, "assistant") {
        Line::Other(cat("Assistant: ", content.as_str()))
    } else if same(role, "user") {
        Line::User(cat("User: ", content.as_str()))
    } else if same(role, "tool") || same(role, "function") {
        let name = match trim_non_empty_opt(&message.name) {
            Some(name) => name,
            None => "Tool".to_owned(),
        };
        Line::Other(cat3(name.as_str(), ": ", content.as_str()))
    } else {
        Line::Nothing
    }
}

/// The prompt that a conversation makes; none where no user said anything.
pub fn build_prompt(messages: &Vec<ChatMessage>) -> (r: Option<String>)
    ensures
        opt_text(r) == prompt_of(messages@),
{
    let mut system: Vec<String> = Vec::new();
    let mut talk: Vec<String> = Vec::new();
    let mut spoke = false;
    let mut i: usize = 0;
    assert(texts(system@) =~= Seq::<Seq<char>>::empty());
    while i < messages.len()
        invariant
            i <= messages@.len(),
            texts(system@) == system_lines(messages@.take(i as int)),
            texts(talk@) == talk_lines(messages@.take(i as int)),
            spoke == user_spoke(messages@.take(i as int)),
        decreases messages@.len() - i,
    {
        let ghost before_system = system@;
        let ghost before_talk = talk@;
        let ghost shorter = messages@.take(i as int);
        let ghost longer = messages@.take(i + 1);
        proof {
            assert(longer.drop_last() =~= shorter);
            assert(longer.last() == messages@[i as int]);
        }
        match read_line(&messages[i]) {
            Line::Nothing => {},
            Line::System(s) => {
                system.push(s);
                assert(texts(system@) =~= texts(before_system).push(s@));
            },
            Line::User(s) => {
                talk.push(s);
                spoke = true;
                assert(texts(talk@) =~= texts(before_talk).push(s@));
            },
            Line::Other(s) => {
                talk.push(s);
                assert(texts(talk@) =~= texts(before_talk).push(s@));
            },
        }
        proof {
            assert(spoke == user_spoke(longer)) by {
                if user_spoke(longer) {
                    let k = choose|k: int|
                        0 <= k < longer.len() && #[trigger] line_of(longer[k]) is User;
                    if k < i {
                        assert(line_of(shorter[k]) is User);
                    }
                }
                if spoke {
                    if line_of(messages@[i as int]) is User {
                        assert(line_of(longer[i as int]) is User);
                    } else {
                        let k = choose|k: int|
                            0 <= k < shorter.len() && #[trigger] line_of(shorter[k]) is User;
                        assert(line_of(longer[k]) is User);
                    }
                }
            }
        }
        i = i + 1;
    }
    assert(messages@.take(i as int) =~= messages@);
    if !spoke {
        return None;
    }
    let conversation = join(&talk, "\n");
    assert(texts(system@).len() == system@.len());
    if system.len() == 0 {
        return Some(conversation);
    }
    let head = cat("System:\n", join(&system, "\n\n").as_str());
    Some(cat3(head.as_str(), "\n\n", conversation.as_str()))
}

/// What a message says that has a role and a text that is not blank.
pub open spec fn says_as(message: ChatMessage, role: Seq<char>, said: Seq<char>) -> bool {
    &&& message.role is Some
    &&& lowered(trimmed(message.role->0@)) == role
    &&& message.content is Some
    &&& kept(content_text(message.content->0@)) == Some(said)
}

/// What a message of the conversation is written as: who said it, and what.
pub open spec fn spoken_line(message: ChatMessage, role: Seq<char>, said: Seq<char>) -> Seq<char> {
    if role == "user"@ {
        "User: "@ + said
    } else if role == "assistant"@ {
        "Assistant: "@ + said
    } else {
        text_or(kept_opt(opt_text(message.name)), "Tool"@) + ": "@ + said
    }
}

/// A role of the conversation.
pub open spec fn is_talk_role(role: Seq<char>) -> bool {
    role == "user"@ || role == "assistant"@ || role == "tool"@ || role == "function"@
}

/// A role of instructions.
pub open spec fn is_system_role(role: Seq<char>) -> bool {
    role == "system"@ || role == "developer"@
}

proof fn lemma_roles_differ()
    ensures
        "user"@ != "assistant"@ && "user"@ != "tool"@ && "user"@ != "function"@,
        "assistant"@ != "tool"@ && "assistant"@ != "function"@,
        "system"@ != "user"@ && "system"@ != "assistant"@,
        "developer"@ != "user"@ && "developer"@ != "assistant"@,
        "system"@ != "tool"@ && "system"@ != "function"@,
        "developer"@ != "tool"@ && "developer"@ != "function"@,
{
    reveal_strlit("user");
    reveal_strlit("assistant");
    reveal_strlit("tool");
    reveal_strlit("function");
    reveal_strlit("system");
    reveal_strlit("developer");
    assert("user"@[0] == 'u' && "assistant"@[0] == 'a' && "tool"@[0] == 't' && "function"@[0] == 'f'
        && "system"@[0] == 's' && "developer"@[0] == 'd');
}

proof fn lemma_line(message: ChatMessage, role: Seq<char>, said: Seq<char>)
    requires
        says_as(message, role, said),
    ensures
        is_system_role(role) ==> line_of(message) == LineModel::System(said),
        role == "user"@ ==> line_of(message) == LineModel::User("User: "@ + said),
        is_talk_role(role) && role != "user"@ ==> line_of(message) == LineModel::Other(
            spoken_line(message, role, said),
        ),
{
    lemma_roles_differ();
    reveal_strlit("system");
    reveal_strlit("developer");
    reveal_strlit("user");
    reveal_strlit("assistant");
    reveal_strlit("tool");
    reveal_strlit("function");
}

/// Where the line of a message stands among the lines.
proof fn lemma_talk_place(messages: Seq<ChatMessage>, i: int)
    requires
        0 <= i <= messages.len(),
    ensures
        talk_lines(messages.take(i)).len() <= talk_lines(messages).len(),
        system_lines(messages.take(i)).len() <= system_lines(messages).len(),
        i < messages.len() ==> match line_of(messages[i]) {
            LineModel::User(s) | LineModel::Other(s) => {
                let k = talk_lines(messages.take(i)).len() as int;
                k < talk_lines(messages).len() && talk_lines(messages)[k] == s && talk_lines(
                    messages.take(i + 1),
                ).len() == k + 1
            },
            LineModel::System(s) => {
                let k = system_lines(messages.take(i)).len() as int;
                k < system_lines(messages).len() && system_lines(messages)[k] == s
            },
            LineModel::Nothing => true,
        },
    decreases messages.len(),
{
    if i == messages.len() {
        assert(messages.take(i) =~= messages);
    } else if i == messages.len() - 1 {
        assert(messages.take(i) =~= messages.drop_last());
        assert(messages.take(i + 1) =~= messages);
    } else {
        let d = messages.drop_last();
        lemma_talk_place(d, i);
        assert(d.take(i) =~= messages.take(i));
        assert(d.take(i + 1) =~= messages.take(i + 1));
        assert(d[i] == messages[i]);
    }
}

/// The lines of an earlier message stand before those of a later one.
proof fn lemma_talk_order(messages: Seq<ChatMessage>, i: int, j: int)
    requires
        0 <= i <= j <= messages.len(),
    ensures
        talk_lines(messages.take(i)).len() <= talk_lines(messages.take(j)).len(),
{
    lemma_talk_place(messages.take(j), i);
    assert(messages.take(j).take(i) =~= messages.take(i));
}

/// There is a prompt exactly where a user said something that is not blank.
pub proof fn law_prompts_need_a_user(messages: &Vec<ChatMessage>, r: Option<String>)
    requires
        call_ensures(build_prompt, (messages,), r),
    ensures
        r is Some <==> exists|i: int, said: Seq<char>|
            0 <= i < messages@.len() && #[trigger] says_as(messages@[i], "user"@, said),
{
    if exists|i: int, said: Seq<char>|
        0 <= i < messages@.len() && #[trigger] says_as(messages@[i], "user"@, said) {
        let (i, said) = choose|i: int, said: Seq<char>|
            0 <= i < messages@.len() && #[trigger] says_as(messages@[i], "user"@, said);
        lemma_line(messages@[i], "user"@, said);
    }
    if user_spoke(messages@) {
        let i = choose|i: int| 0 <= i < messages@.len() && #[trigger] line_of(messages@[i]) is User;
        let said = message_content(messages@[i]);
        reveal_strlit("");
        assert(trimmed(""@) =~= ""@);
        assert(says_as(messages@[i], "user"@, said));
    }
}

/// Nothing that is said is lost: what each message says stands in the prompt, under the name of who
/// said it where it is of the conversation.
pub proof fn law_nothing_said_is_lost(
    messages: &Vec<ChatMessage>,
    r: Option<String>,
    i: int,
    role: Seq<char>,
    said: Seq<char>,
)
    requires
        call_ensures(build_prompt, (messages,), r),
        r is Some,
        0 <= i < messages@.len(),
        says_as(messages@[i], role, said),
        is_talk_role(role) || is_system_role(role),
    ensures
        is_system_role(role) ==> exists|a: Seq<char>, b: Seq<char>| r->0@ == #[trigger] (a + said + b),
        is_talk_role(role) ==> exists|a: Seq<char>, b: Seq<char>|
            r->0@ == #[trigger] (a + spoken_line(messages@[i], role, said) + b),
{
    lemma_roles_differ();
    lemma_line(messages@[i], role, said);
    lemma_talk_place(messages@, i);
    let system = system_lines(messages@);
    let talk = talk_lines(messages@);
    let head = "System:\n"@;
    let gap = "\n\n"@;
    let end = joined(talk, "\n"@);
    if is_system_role(role) {
        let k = system_lines(messages@.take(i)).len() as int;
        law_joined_parts_are_found(system, gap, k);
        let (a, b) = choose|a: Seq<char>, b: Seq<char>| joined(system, gap) == #[trigger] (a + system[k] + b);
        assert(r->0@ =~= (head + a) + said + (b + gap + end));
    } else {
        let k = talk_lines(messages@.take(i)).len() as int;
        law_joined_parts_are_found(talk, "\n"@, k);
        let (a, b) = choose|a: Seq<char>, b: Seq<char>| end == #[trigger] (a + talk[k] + b);
        let line = spoken_line(messages@[i], role, said);
        if system.len() == 0 {
            assert(r->0@ =~= a + line + b);
        } else {
            assert(r->0@ =~= (head + joined(system, gap) + gap + a) + line + b);
        }
    }
}

/// Instructions stand before the conversation, and what is said earlier in the conversation before
/// what is said later.
#[verifier::rlimit(60)]
pub proof fn law_prompts_keep_order(
    messages: &Vec<ChatMessage>,
    r: Option<String>,
    i: int,
    first_role: Seq<char>,
    first: Seq<char>,
    j: int,
    second_role: Seq<char>,
    second: Seq<char>,
)
    requires
        call_ensures(build_prompt, (messages,), r),
        r is Some,
        0 <= i < messages@.len(),
        0 <= j < messages@.len(),
        says_as(messages@[i], first_role, first),
        says_as(messages@[j], second_role, second),
        is_talk_role(second_role),
        is_system_role(first_role) || (is_talk_role(first_role) && i < j),
    ensures
        exists|a: Seq<char>, b: Seq<char>, c: Seq<char>|
            r->0@ == #[trigger] (a + first + b + second + c),
{
    lemma_roles_differ();
    lemma_line(messages@[i], first_role, first);
    lemma_line(messages@[j], second_role, second);
    lemma_talk_place(messages@, i);
    lemma_talk_place(messages@, j);
    let system = system_lines(messages@);
    let talk = talk_lines(messages@);
    let head = "System:\n"@;
    let gap = "\n\n"@;
    let end = joined(talk, "\n"@);
    let l = talk_lines(messages@.take(j)).len() as int;
    let line = spoken_line(messages@[j], second_role, second);
    let label = line.take(line.len() - second.len());
    lemma_label(messages@[j], second_role, second);
    if is_system_role(first_role) {
        let k = system_lines(messages@.take(i)).len() as int;
        law_joined_parts_are_found(system, gap, k);
        law_joined_parts_are_found(talk, "\n"@, l);
        let (a, b) = choose|a: Seq<char>, b: Seq<char>| joined(system, gap) == #[trigger] (a + system[k] + b);
        let (c, d) = choose|c: Seq<char>, d: Seq<char>| end == #[trigger] (c + talk[l] + d);
        lemma_regroup(head + a, Seq::empty(), first, b + gap + c, label, second, d);
        assert(r->0@ =~= (head + a) + (Seq::<char>::empty() + first) + (b + gap + c) + (label + second) + d);
    } else {
        let k = talk_lines(messages@.take(i)).len() as int;
        lemma_talk_order(messages@, i + 1, j);
        law_joined_parts_keep_order(talk, "\n"@, k, l);
        let (a, b, c) = choose|a: Seq<char>, b: Seq<char>, c: Seq<char>|
            end == #[trigger] (a + talk[k] + b + talk[l] + c);
        let first_line = spoken_line(messages@[i], first_role, first);
        let first_label = first_line.take(first_line.len() - first.len());
        lemma_label(messages@[i], first_role, first);
        let start = if system.len() == 0 {
            Seq::<char>::empty()
        } else {
            head + joined(system, gap) + gap
        };
        assert(r->0@ =~= start + end);
        lemma_regroup(start + a, first_label, first, b, label, second, c);
        assert(r->0@ =~= (start + a) + (first_label + first) + b + (label + second) + c);
    }
}

proof fn lemma_regroup(
    start: Seq<char>,
    p: Seq<char>,
    first: Seq<char>,
    middle: Seq<char>,
    q: Seq<char>,
    second: Seq<char>,
    end: Seq<char>,
)
    ensures
        start + (p + first) + middle + (q + second) + end == (start + p) + first + (middle + q)
            + second + end,
{
    assert(start + (p + first) + middle + (q + second) + end =~= (start + p) + first + (middle + q)
        + second + end);
}

proof fn lemma_label(message: ChatMessage, role: Seq<char>, said: Seq<char>)
    ensures
        ({
            let line = spoken_line(message, role, said);
            &&& line.len() >= said.len()
            &&& line == line.take(line.len() - said.len()) + said
        }),
{
    let line = spoken_line(message, role, said);
    assert(line =~= line.take(line.len() - said.len()) + said);
}

/// A conversation of one message of a user is that message under the user's name; instructions
/// before it stand above it, under a heading and with an empty line between.
pub proof fn law_short_conversations(
    messages: &Vec<ChatMessage>,
    r: Option<String>,
    instruction: Seq<char>,
    said: Seq<char>,
)
    requires
        call_ensures(build_prompt, (messages,), r),
    ensures
        messages@.len() == 1 && says_as(messages@[0], "user"@, said) ==> r is Some && r->0@ == "User: "@
            + said,
        messages@.len() == 2 && says_as(messages@[0], "system"@, instruction) && says_as(
            messages@[1],
            "user"@,
            said,
        ) ==> r is Some && r->0@ == "System:\n"@ + instruction + "\n\n"@ + "User: "@ + said,
{
    reveal_with_fuel(talk_lines, 3);
    reveal_with_fuel(system_lines, 3);
    lemma_roles_differ();
    if messages@.len() == 1 && says_as(messages@[0], "user"@, said) {
        lemma_line(messages@[0], "user"@, said);
        assert(line_of(messages@[0]) is User);
        assert(talk_lines(messages@) =~= seq!["User: "@ + said]);
        assert(system_lines(messages@) =~= Seq::<Seq<char>>::empty());
    }
    if messages@.len() == 2 && says_as(messages@[0], "system"@, instruction) && says_as(
        messages@[1],
        "user"@,
        said,
    ) {
        lemma_line(messages@[0], "system"@, instruction);
        lemma_line(messages@[1], "user"@, said);
        assert(line_of(messages@[1]) is User);
        let first = messages@.drop_last();
        assert(first.last() == messages@[0]);
        assert(talk_lines(first) =~= Seq::<Seq<char>>::empty());
        assert(system_lines(first) =~= seq![instruction]);
        assert(talk_lines(messages@) =~= seq!["User: "@ + said]);
        assert(system_lines(messages@) =~= seq![instruction]);
        assert(r->0@ =~= "System:\n"@ + instruction + "\n\n"@ + "User: "@ + said);
    }
}

// ---------------------------------------------------------------------------------------------
// Requests and answers
// ---------------------------------------------------------------------------------------------
/// The session that a model and a user share through an endpoint.
pub open spec fn endpoint_session_key(
    model: Seq<char>,
    user: Option<Seq<char>>,
    endpoint: Seq<char>,
) -> Seq<char> {
    let agent = slug(model, true);
    let conversation = match user {
        Some(u) => slug(u, true),
        None => Seq::empty(),
    };
    "agent:"@ + (if agent.len() == 0 {
        "main"@
    } else {
        agent
    }) + ":"@ + endpoint + ":chat:"@ + (if conversation.len() == 0 {
        "default"@
    } else {
        conversation
    })
}

/// The session that a model and a user share through an endpoint.
pub(crate) fn resolve_endpoint_session_key(model: &str, user: &Option<String>, endpoint: &str) -> (r:
    String)
    ensures
        r@ == endpoint_session_key(model@, opt_text(*user), endpoint@),
{
    let agent = normalize_segment(model);
    let agent = if agent.as_str().is_empty() {
        "main".to_owned()
    } else {
        agent
    };
    let conversation = match user {
        Some(user) => normalize_segment(user.as_str()),
        None => String::new(),
    };
    let conversation = if conversation.as_str().is_empty() {
        "default".to_owned()
    } else {
        conversation
    };
    let head = cat4("agent:", agent.as_str(), ":", endpoint);
    cat3(head.as_str(), ":chat:", conversation.as_str())
}

/// The session that a model and a user share.
pub fn resolve_openai_session_key(model: &str, user: &Option<String>) -> (r: String)
    ensures
        r@ == endpoint_session_key(model@, opt_text(*user), "openai"@),
{
    resolve_endpoint_session_key(model, user, "openai")
}

/// The body of an error.
pub open spec fn openai_error_body(message: Seq<char>, kind: Seq<char>) -> JsonModel {
    JsonModel::Object(
        no_fields().insert(
            "error"@,
            JsonModel::Object(
                no_fields().insert("message"@, JsonModel::Text(message)).insert(
                    "type"@,
                    JsonModel::Text(kind),
                ),
            ),
        ),
    )
}

/// An error.
pub fn openai_error(status: u16, message: &str, kind: &str) -> (r: HttpReply)
    ensures
        r.says(status, openai_error_body(message@, kind@)),
{
    let mut error = object();
    set_field(&mut error, "message", text(message));
    set_field(&mut error, "type", text(kind));
    let mut body = object();
    set_field(&mut body, "error", Json::Object(error));
    HttpReply { status, body: Json::Object(body) }
}

/// What a failed check of a secret is called.
pub open spec fn failure_text(reason: AuthFailureReason) -> Seq<char> {
    match reason {
        AuthFailureReason::MissingCredentials => "unauthorized: missing credentials"@,
        AuthFailureReason::InvalidCredentials => "unauthorized: invalid credentials"@,
    }
}

/// The model that a request names, or the gateway's own.
pub open spec fn model_name(model: Option<Seq<char>>) -> Seq<char> {
    text_or(kept_opt(model), "reclaw-core"@)
}

/// The chat that a request becomes.
pub struct EndpointPlan {
    pub model: String,
    pub stream: bool,
    pub response_id: String,
    pub session: SessionContext,
    pub params: Json,
}

/// The chat that a request becomes.
pub open spec fn is_plan(
    p: EndpointPlan,
    endpoint: Seq<char>,
    model: Option<Seq<char>>,
    user: Option<Seq<char>>,
    stream: bool,
    prompt: Seq<char>,
    response_id: Seq<char>,
    conn_id: Seq<char>,
) -> bool {
    &&& p.model@ == model_name(model)
    &&& p.stream == stream
    &&& p.response_id@ == response_id
    &&& is_http_session(
        p.session,
        "http-"@ + endpoint + "-"@ + conn_id,
        endpoint + "-http"@,
        endpoint + "-http"@,
    )
    &&& p.params@ == chat_params(
        endpoint_session_key(model_name(model), user, endpoint),
        prompt,
        endpoint + "-"@ + response_id,
    )
}

/// The chat that a request becomes.
pub(crate) fn make_plan(
    endpoint: &str,
    model: &Option<String>,
    user: &Option<String>,
    stream: bool,
    prompt: &str,
    response_id: String,
    conn_id: &str,
) -> (r: EndpointPlan)
    ensures
        is_plan(
            r,
            endpoint@,
            opt_text(*model),
            opt_text(*user),
            stream,
            prompt@,
            response_id@,
            conn_id@,
        ),
{
    let model = match trim_non_empty_opt(model) {
        Some(model) => model,
        None => "reclaw-core".to_owned(),
    };
    let session_key = resolve_endpoint_session_key(model.as_str(), user, endpoint);
    let key = cat3(endpoint, "-", response_id.as_str());
    let params = build_chat_params(session_key.as_str(), prompt, key.as_str());
    let conn = cat4("http-", endpoint, "-", conn_id);
    let client = cat(endpoint, "-http");
    let session = http_session(conn.as_str(), client.as_str(), client.as_str());
    EndpointPlan { model, stream, response_id, session, params }
}

/// The chat that a request for a completion becomes, or the answer where it becomes none.
pub fn chat_completions_handler(
    mode: &AuthMode,
    authorization: Option<&str>,
    body: Result<ChatCompletionsRequest, BadBody>,
    completion: &str,
    conn_id: &str,
) -> (r: Result<EndpointPlan, HttpReply>)
    ensures
        match bearer_outcome(*mode, header_text(authorization)) {
            Err(reason) => r is Err && r->Err_0.says(
                401,
                openai_error_body(failure_text(reason), "authentication_error"@),
            ),
            Ok(_) => match body {
                Err(BadBody::NotJson) => r is Err && r->Err_0.says(
                    400,
                    openai_error_body("Invalid JSON body."@, "invalid_request_error"@),
                ),
                Err(BadBody::NotRequest) => r is Err && r->Err_0.says(
                    400,
                    openai_error_body("Invalid request body."@, "invalid_request_error"@),
                ),
                Ok(request) => match prompt_of(request.messages@) {
                    None => r is Err && r->Err_0.says(
                        400,
                        openai_error_body(
                            "Missing user message in `messages`."@,
                            "invalid_request_error"@,
                        ),
                    ),
                    Some(prompt) => r is Ok && is_plan(
                        r->Ok_0,
                        "openai"@,
                        opt_text(request.model),
                        opt_text(request.user),
                        request.stream,
                        prompt,
                        "chatcmpl_"@ + completion@,
                        conn_id@,
                    ),
                },
            },
        },
{
    if let Err(reason) = authorize_gateway_http(mode, authorization) {
        let message = auth_failure_error(reason).message;
        return Err(openai_error(401, message.as_str(), "authentication_error"));
    }
    let request = match body {
        Ok(request) => request,
        Err(BadBody::NotJson) => {
            return Err(openai_error(400, "Invalid JSON body.", "invalid_request_error"));
        },
        Err(BadBody::NotRequest) => {
            return Err(openai_error(400, "Invalid request body.", "invalid_request_error"));
        },
    };
    let prompt = match build_prompt(&request.messages) {
        Some(prompt) => prompt,
        None => {
            return Err(
                openai_error(
                    400,
                    "Missing user message in `messages`.",
                    "invalid_request_error",
                ),
            );
        },
    };
    Ok(
        make_plan(
            "openai",
            &request.model,
            &request.user,
            request.stream,
            prompt.as_str(),
            cat("chatcmpl_", completion),
            conn_id,
        ),
    )
}

/// The text that a chat was answered with, or that there was none.
pub open spec fn assistant_text(payload: JsonModel) -> Seq<char> {
    text_or(text_of(member(payload, "message"@)), "No response from Reclaw Core."@)
}

/// The text that a chat was answered with, or that there was none.
pub(crate) fn read_assistant_text(payload: &Json) -> (r: String)
    ensures
        r@ == assistant_text(payload@),
{
    match payload.get_text("message") {
        Some(s) => s,
        None => "No response from Reclaw Core.".to_owned(),
    }
}

/// What an error of a chat is called.
pub open spec fn error_kind(code: Seq<char>) -> Seq<char> {
    if error_status(code) == 400 {
        "invalid_request_error"@
    } else {
        "api_error"@
    }
}

/// The answer to a request whose chat failed.
pub(crate) fn failed_chat(error: &ErrorShape) -> (r: HttpReply)
    ensures
        r.says(error_status(error.code@), openai_error_body(error.message@, error_kind(error.code@))),
{
    let status: u16 = status_of(error);
    if status == 400 {
        openai_error(status, error.message.as_str(), "invalid_request_error")
    } else {
        openai_error(status, error.message.as_str(), "api_error")
    }
}

/// An array of one value.
pub open spec fn one(value: JsonModel) -> JsonModel {
    JsonModel::Array(seq![value])
}

/// An array of one value.
pub(crate) fn one_item(value: Json) -> (r: Json)
    ensures
        r@ == one(value@),
{
    let mut items: Vec<Json> = Vec::new();
    items.push(value);
    proof {
        lemma_models(items@);
        assert(models(items@) =~= seq![value@]);
    }
    Json::Array(items)
}

/// The head of a completion and of its pieces.
pub open spec fn completion_head(
    id: Seq<char>,
    object_kind: Seq<char>,
    created: u64,
    model: Seq<char>,
) -> Map<Seq<char>, JsonModel> {
    no_fields().insert("id"@, JsonModel::Text(id)).insert(
        "object"@,
        JsonModel::Text(object_kind),
    ).insert("created"@, JsonModel::Unsigned(created)).insert("model"@, JsonModel::Text(model))
}

/// No tokens are counted.
pub open spec fn no_usage(first: Seq<char>, second: Seq<char>) -> JsonModel {
    JsonModel::Object(
        no_fields().insert(first, JsonModel::Unsigned(0)).insert(
            second,
            JsonModel::Unsigned(0),
        ).insert("total_tokens"@, JsonModel::Unsigned(0)),
    )
}

/// No tokens are counted.
pub(crate) fn zero_usage(first: &str, second: &str) -> (r: Json)
    ensures
        r@ == no_usage(first@, second@),
{
    let mut o = object();
    set_field(&mut o, first, Json::Unsigned(0));
    set_field(&mut o, second, Json::Unsigned(0));
    set_field(&mut o, "total_tokens", Json::Unsigned(0));
    Json::Object(o)
}

/// The completion of a conversation.
pub open spec fn completion_body(
    id: Seq<char>,
    created: u64,
    model: Seq<char>,
    content: Seq<char>,
) -> JsonModel {
    JsonModel::Object(
        completion_head(id, "chat.completion"@, created, model).insert(
            "choices"@,
            one(
                JsonModel::Object(
                    no_fields().insert("index"@, JsonModel::Unsigned(0)).insert(
                        "message"@,
                        JsonModel::Object(
                            no_fields().insert("role"@, JsonModel::Text("assistant"@)).insert(
                                "content"@,
                                JsonModel::Text(content),
                            ),
                        ),
                    ).insert("finish_reason"@, JsonModel::Text("stop"@)),
                ),
            ),
        ).insert("usage"@, no_usage("prompt_tokens"@, "completion_tokens"@)),
    )
}

/// The piece of a completion that says who speaks.
pub open spec fn role_chunk(id: Seq<char>, created: u64, model: Seq<char>) -> JsonModel {
    JsonModel::Object(
        completion_head(id, "chat.completion.chunk"@, created, model).insert(
            "choices"@,
            one(
                JsonModel::Object(
                    no_fields().insert("index"@, JsonModel::Unsigned(0)).insert(
                        "delta"@,
                        JsonModel::Object(
                            no_fields().insert("role"@, JsonModel::Text("assistant"@)),
                        ),
                    ),
                ),
            ),
        ),
    )
}

/// The piece of a completion that says what is said.
pub open spec fn content_chunk(
    id: Seq<char>,
    created: u64,
    model: Seq<char>,
    content: Seq<char>,
) -> JsonModel {
    JsonModel::Object(
        completion_head(id, "chat.completion.chunk"@, created, model).insert(
            "choices"@,
            one(
                JsonModel::Object(
                    no_fields().insert("index"@, JsonModel::Unsigned(0)).insert(
                        "delta"@,
                        JsonModel::Object(
                            no_fields().insert("content"@, JsonModel::Text(content)),
                        ),
                    ).insert("finish_reason"@, JsonModel::Text("stop"@)),
                ),
            ),
        ),
    )
}

fn start_completion(id: &str, kind: &str, created: u64, model: &str) -> (r: crate::sorted_map::SortedMap<
    Json,
>)
    ensures
        crate::json::fields(r) == completion_head(id@, kind@, created, model@),
{
    let mut o = object();
    set_field(&mut o, "id", text(id));
    set_field(&mut o, "object", text(kind));
    set_field(&mut o, "created", Json::Unsigned(created));
    set_field(&mut o, "model", text(model));
    o
}

/// The completion of a conversation.
pub fn completion_response(id: &str, created: u64, model: &str, content: &str) -> (r: Json)
    ensures
        r@ == completion_body(id@, created, model@, content@),
{
    let mut message = object();
    set_field(&mut message, "role", text("assistant"));
    set_field(&mut message, "content", text(content));
    let mut choice = object();
    set_field(&mut choice, "index", Json::Unsigned(0));
    set_field(&mut choice, "message", Json::Object(message));
    set_field(&mut choice, "finish_reason", text("stop"));
    let mut body = start_completion(id, "chat.completion", created, model);
    set_field(&mut body, "choices", one_item(Json::Object(choice)));
    set_field(&mut body, "usage", zero_usage("prompt_tokens", "completion_tokens"));
    Json::Object(body)
}

/// The lines in which a completion is sent piece by piece.
pub fn stream_completion_response(id: &str, model: &str, created: u64, content: &str) -> (r: Vec<
    String,
>)
    ensures
        texts(r@) == seq![
            json_text_of(role_chunk(id@, created, model@)),
            json_text_of(content_chunk(id@, created, model@, content@)),
            "[DONE]"@,
        ],
{
    let mut who = object();
    set_field(&mut who, "role", text("assistant"));
    let mut first = object();
    set_field(&mut first, "index", Json::Unsigned(0));
    set_field(&mut first, "delta", Json::Object(who));
    let mut role_piece = start_completion(id, "chat.completion.chunk", created, model);
    set_field(&mut role_piece, "choices", one_item(Json::Object(first)));
    let mut what = object();
    set_field(&mut what, "content", text(content));
    let mut second = object();
    set_field(&mut second, "index", Json::Unsigned(0));
    set_field(&mut second, "delta", Json::Object(what));
    set_field(&mut second, "finish_reason", text("stop"));
    let mut content_piece = start_completion(id, "chat.completion.chunk", created, model);
    set_field(&mut content_piece, "choices", one_item(Json::Object(second)));
    let mut out: Vec<String> = Vec::new();
    out.push(Json::Object(role_piece).to_text());
    out.push(Json::Object(content_piece).to_text());
    out.push("[DONE]".to_owned());
    assert(texts(out@) =~= seq![
        json_text_of(role_chunk(id@, created, model@)),
        json_text_of(content_chunk(id@, created, model@, content@)),
        "[DONE]"@,
    ]);
    out
}

/// What a request for a completion is answered with: at once, or piece by piece.
pub enum CompletionReply {
    Whole(HttpReply),
    Pieces(Vec<String>),
}

/// What a request for a completion is answered with, from what its chat was answered.
pub fn finish_completion(plan: &EndpointPlan, result: &Result<Json, ErrorShape>, now: u64) -> (r:
    CompletionReply)
    ensures
        match result {
            Err(error) => r matches CompletionReply::Whole(reply) && reply.says(
                error_status(error.code@),
                openai_error_body(error.message@, error_kind(error.code@)),
            ),
            Ok(payload) => if plan.stream {
                r matches CompletionReply::Pieces(lines) && texts(lines@) == seq![
                    json_text_of(role_chunk(plan.response_id@, now / 1_000, plan.model@)),
                    json_text_of(
                        content_chunk(
                            plan.response_id@,
                            now / 1_000,
                            plan.model@,
                            assistant_text(payload@),
                        ),
                    ),
                    "[DONE]"@,
                ]
            } else {
                r matches CompletionReply::Whole(reply) && reply.says(
                    200,
                    completion_body(
                        plan.response_id@,
                        now / 1_000,
                        plan.model@,
                        assistant_text(payload@),
                    ),
                )
            },
        },
{
    let payload = match result {
        Ok(payload) => payload,
        Err(error) => {
            return CompletionReply::Whole(failed_chat(error));
        },
    };
    let content = read_assistant_text(payload);
    let created: u64 = now / 1_000;
    if plan.stream {
        return CompletionReply::Pieces(
            stream_completion_response(
                plan.response_id.as_str(),
                plan.model.as_str(),
                created,
                content.as_str(),
            ),
        );
    }
    CompletionReply::Whole(
        HttpReply {
            status: 200,
            body: completion_response(
                plan.response_id.as_str(),
                created,
                plan.model.as_str(),
                content.as_str(),
            ),
        },
    )
}

/// A conversation is in the session of its model and its user, as they are reduced: those who share
/// both share it. A model or a user of which nothing is left is `main` or `default`.
pub proof fn law_sessions_of_chats(
    model: &str,
    user: &str,
    given: Option<String>,
    agent: String,
    who: String,
    r: String,
)
    requires
        call_ensures(resolve_openai_session_key, (model, &given), r),
        call_ensures(slug_of, (model, true), agent),
        call_ensures(slug_of, (user, true), who),
        given is Some ==> given->0@ == user@,
    ensures
        r@ == "agent:"@ + (if agent@.len() == 0 {
            "main"@
        } else {
            agent@
        }) + ":openai:chat:"@ + (if given is None || who@.len() == 0 {
            "default"@
        } else {
            who@
        }),
{
    reveal_strlit(":");
    reveal_strlit("openai");
    reveal_strlit(":chat:");
    reveal_strlit(":openai:chat:");
    assert(":"@ + "openai"@ + ":chat:"@ =~= ":openai:chat:"@);
    assert(r@ =~= "agent:"@ + (if agent@.len() == 0 {
        "main"@
    } else {
        agent@
    }) + (":"@ + "openai"@ + ":chat:"@) + (if given is None || who@.len() == 0 {
        "default"@
    } else {
        who@
    }));
}

/// A completion is run exactly where the caller shows the secret and a prompt can be made of the
/// messages. What is run is that prompt, in the session of the model and the user.
pub proof fn law_completions_that_are_run(
    mode: &AuthMode,
    authorization: Option<&str>,
    request: ChatCompletionsRequest,
    completion: &str,
    conn_id: &str,
    open: Result<(), AuthFailureReason>,
    prompt: Option<String>,
    model: &str,
    key: String,
    r: Result<EndpointPlan, HttpReply>,
)
    requires
        call_ensures(authorize_gateway_http, (mode, authorization), open),
        call_ensures(build_prompt, (&request.messages,), prompt),
        call_ensures(
            chat_completions_handler,
            (mode, authorization, Ok::<ChatCompletionsRequest, BadBody>(request), completion, conn_id),
            r,
        ),
        model@ == (if request.model is Some && not_blank(request.model->0@) {
            trimmed(request.model->0@)
        } else {
            "reclaw-core"@
        }),
        call_ensures(resolve_openai_session_key, (model, &request.user), key),
    ensures
        r is Ok <==> open is Ok && prompt is Some,
        r is Err ==> r->Err_0.status == (if open is Err {
            401u16
        } else {
            400u16
        }),
        r is Ok ==> {
            let plan = r->Ok_0;
            &&& plan.model@ == model@
            &&& plan.stream == request.stream
            &&& plan.response_id@ == "chatcmpl_"@ + completion@
            &&& plan.session.role@ == "operator"@
            &&& member(plan.params@, "message"@) == Some(JsonModel::Text(prompt->0@))
            &&& member(plan.params@, "sessionKey"@) == Some(JsonModel::Text(key@))
            &&& member(plan.params@, "idempotencyKey"@) == Some(
                JsonModel::Text("openai-"@ + ("chatcmpl_"@ + completion@)),
            )
        },
{
    if request.model is Some {
        lemma_kept(request.model->0@);
    }
    reveal_strlit("openai");
    reveal_strlit("-");
    reveal_strlit("openai-");
    assert("openai"@ + "-"@ =~= "openai-"@);
    reveal_strlit("sessionKey");
    reveal_strlit("message");
    reveal_strlit("idempotencyKey");
    assert("sessionKey"@.len() != "message"@.len());
    assert("sessionKey"@.len() != "idempotencyKey"@.len());
    assert("message"@.len() != "idempotencyKey"@.len());
}

/// A completion that was asked for whole is answered with 200 and holds what the assistant said;
/// one that was asked for in pieces brings that in its second piece and ends with the third. One
/// that failed is answered with its error.
pub proof fn law_completions_are_answered(
    plan: &EndpointPlan,
    result: &Result<Json, ErrorShape>,
    now: u64,
    r: CompletionReply,
)
    requires
        call_ensures(finish_completion, (plan, result, now), r),
    ensures
        ({
            let said = match *result {
                Ok(payload) => match member(payload@, "message"@) {
                    Some(JsonModel::Text(said)) => said,
                    _ => "No response from Reclaw Core."@,
                },
                Err(_) => ""@,
            };
            &&& r is Pieces <==> *result is Ok && plan.stream
            &&& *result is Err ==> {
                &&& r->Whole_0.status == (if result->Err_0.code@ == "INVALID_REQUEST"@ {
                    400u16
                } else {
                    503u16
                })
                &&& member(r->Whole_0.body@, "error"@) is Some
                &&& member(member(r->Whole_0.body@, "error"@)->0, "message"@) == Some(
                    JsonModel::Text(result->Err_0.message@),
                )
            }
            &&& r is Whole && *result is Ok ==> {
                let body = r->Whole_0.body@;
                &&& r->Whole_0.status == 200
                &&& member(body, "id"@) == Some(JsonModel::Text(plan.response_id@))
                &&& member(body, "model"@) == Some(JsonModel::Text(plan.model@))
                &&& member(body, "created"@) == Some(JsonModel::Unsigned(now / 1000))
                &&& completion_says(body, "message"@, said)
            }
            &&& r is Pieces ==> {
                &&& r->Pieces_0@.len() == 3
                &&& r->Pieces_0@[2]@ == "[DONE]"@
                &&& exists|piece: JsonModel|
                    r->Pieces_0@[1]@ == #[trigger] json_text_of(piece) && completion_says(
                        piece,
                        "delta"@,
                        said,
                    )
                        && member(piece, "id"@) == Some(JsonModel::Text(plan.response_id@))
                        && member(piece, "created"@) == Some(JsonModel::Unsigned(now / 1000))
            }
        }),
{
    reveal_strlit("id");
    reveal_strlit("object");
    reveal_strlit("created");
    reveal_strlit("model");
    reveal_strlit("choices");
    reveal_strlit("usage");
    reveal_strlit("index");
    reveal_strlit("message");
    reveal_strlit("finish_reason");
    reveal_strlit("role");
    reveal_strlit("content");
    reveal_strlit("delta");
    reveal_strlit("error");
    reveal_strlit("type");
    assert("id"@.len() != "object"@.len());
    assert("id"@.len() != "created"@.len());
    assert("id"@.len() != "model"@.len());
    assert("id"@.len() != "choices"@.len());
    assert("id"@.len() != "usage"@.len());
    assert("id"@.len() != "index"@.len());
    assert("id"@.len() != "message"@.len());
    assert("id"@.len() != "finish_reason"@.len());
    assert("id"@.len() != "role"@.len());
    assert("id"@.len() != "content"@.len());
    assert("id"@.len() != "delta"@.len());
    assert("id"@.len() != "error"@.len());
    assert("id"@.len() != "type"@.len());
    assert("object"@.len() != "created"@.len());
    assert("object"@.len() != "model"@.len());
    assert("object"@.len() != "choices"@.len());
    assert("object"@.len() != "usage"@.len());
    assert("object"@.len() != "index"@.len());
    assert("object"@.len() != "message"@.len());
    assert("object"@.len() != "finish_reason"@.len());
    assert("object"@.len() != "role"@.len());
    assert("object"@.len() != "content"@.len());
    assert("object"@.len() != "delta"@.len());
    assert("object"@.len() != "error"@.len());
    assert("object"@.len() != "type"@.len());
    assert("created"@.len() != "model"@.len());
    assert("created"@[1] != "choices"@[1]);
    assert("created"@.len() != "usage"@.len());
    assert("created"@.len() != "index"@.len());
    assert("created"@[0] != "message"@[0]);
    assert("created"@.len() != "finish_reason"@.len());
    assert("created"@.len() != "role"@.len());
    assert("created"@[1] != "content"@[1]);
    assert("created"@.len() != "delta"@.len());
    assert("created"@.len() != "error"@.len());
    assert("created"@.len() != "type"@.len());
    assert("model"@.len() != "choices"@.len());
    assert("model"@[0] != "usage"@[0]);
    assert("model"@[0] != "index"@[0]);
    assert("model"@.len() != "message"@.len());
    assert("model"@.len() != "finish_reason"@.len());
    assert("model"@.len() != "role"@.len());
    assert("model"@.len() != "content"@.len());
    assert("model"@[0] != "delta"@[0]);
    assert("model"@[0] != "error"@[0]);
    assert("model"@.len() != "type"@.len());
    assert("choices"@.len() != "usage"@.len());
    assert("choices"@.len() != "index"@.len());
    assert("choices"@[0] != "message"@[0]);
    assert("choices"@.len() != "finish_reason"@.len());
    assert("choices"@.len() != "role"@.len());
    assert("choices"@[1] != "content"@[1]);
    assert("choices"@.len() != "delta"@.len());
    assert("choices"@.len() != "error"@.len());
    assert("choices"@.len() != "type"@.len());
    assert("usage"@[0] != "index"@[0]);
    assert("usage"@.len() != "message"@.len());
    assert("usage"@.len() != "finish_reason"@.len());
    assert("usage"@.len() != "role"@.len());
    assert("usage"@.len() != "content"@.len());
    assert("usage"@[0] != "delta"@[0]);
    assert("usage"@[0] != "error"@[0]);
    assert("usage"@.len() != "type"@.len());
    assert("index"@.len() != "message"@.len());
    assert("index"@.len() != "finish_reason"@.len());
    assert("index"@.len() != "role"@.len());
    assert("index"@.len() != "content"@.len());
    assert("index"@[0] != "delta"@[0]);
    assert("index"@[0] != "error"@[0]);
    assert("index"@.len() != "type"@.len());
    assert("message"@.len() != "finish_reason"@.len());
    assert("message"@.len() != "role"@.len());
    assert("message"@[0] != "content"@[0]);
    assert("message"@.len() != "delta"@.len());
    assert("message"@.len() != "error"@.len());
    assert("message"@.len() != "type"@.len());
    assert("finish_reason"@.len() != "role"@.len());
    assert("finish_reason"@.len() != "content"@.len());
    assert("finish_reason"@.len() != "delta"@.len());
    assert("finish_reason"@.len() != "error"@.len());
    assert("finish_reason"@.len() != "type"@.len());
    assert("role"@.len() != "content"@.len());
    assert("role"@.len() != "delta"@.len());
    assert("role"@.len() != "error"@.len());
    assert("role"@[0] != "type"@[0]);
    assert("content"@.len() != "delta"@.len());
    assert("content"@.len() != "error"@.len());
    assert("content"@.len() != "type"@.len());
    assert("delta"@[0] != "error"@[0]);
    assert("delta"@.len() != "type"@.len());
    assert("error"@.len() != "type"@.len());
    if let Ok(payload) = *result {
        let said = assistant_text(payload@);
        let whole = completion_body(plan.response_id@, now / 1_000, plan.model@, said);
        let piece = content_chunk(plan.response_id@, now / 1_000, plan.model@, said);
        assert(member(whole, "choices"@) is Some);
        assert(completion_says(whole, "message"@, said));
        assert(completion_says(piece, "delta"@, said));
        if r is Pieces {
            let lines = texts(r->Pieces_0@);
            assert(lines.len() == 3);
            assert(lines[1] == r->Pieces_0@[1]@ && lines[2] == r->Pieces_0@[2]@);
            assert(r->Pieces_0@[1]@ == json_text_of(piece));
        }
    }
}

/// A completion has one choice, and what it says stands under a name.
pub open spec fn completion_says(body: JsonModel, name: Seq<char>, said: Seq<char>) -> bool {
    member(body, "choices"@) matches Some(JsonModel::Array(choices)) && choices.len() == 1 && member(
        choices[0],
        name,
    ) is Some && member(member(choices[0], name)->0, "content"@) == Some(JsonModel::Text(said))
}

/// What is no JSON or no request is refused with 400, once the secret is shown.
pub proof fn law_what_is_no_completion(
    mode: &AuthMode,
    authorization: Option<&str>,
    bad: BadBody,
    completion: &str,
    conn_id: &str,
    open: Result<(), AuthFailureReason>,
    r: Result<EndpointPlan, HttpReply>,
)
    requires
        call_ensures(authorize_gateway_http, (mode, authorization), open),
        call_ensures(
            chat_completions_handler,
            (mode, authorization, Err::<ChatCompletionsRequest, BadBody>(bad), completion, conn_id),
            r,
        ),
    ensures
        r is Err,
        r->Err_0.status == (if open is Err {
            401u16
        } else {
            400u16
        }),
        crate::json::member(r->Err_0.body@, "error"@) is Some && crate::json::member(crate::json::member(r->Err_0.body@, "error"@)->0, "type"@) == Some(
            JsonModel::Text(
                if open is Err {
                    "authentication_error"@
                } else {
                    "invalid_request_error"@
                },
            ),
        ),
{
    reveal_strlit("error");
    reveal_strlit("type");
    reveal_strlit("message");
    assert("error"@.len() != "type"@.len());
    assert("error"@.len() != "message"@.len());
    assert("type"@.len() != "message"@.len());
}

} // verus!
