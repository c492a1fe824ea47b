//! What the HTTP endpoints for other clients share.
use crate::application::config::AuthMode;
use crate::json::{field, text_of, Json, JsonModel, models, lemma_models};
use crate::protocol::frames::ConnectAuth;
use crate::security::auth::{authorize, AuthFailureReason};
use crate::slug::{is_slug, slug, slug_of};
use crate::text::{
    after_prefix, first_of, join, joined, kept, opt_text, same, strip_prefix, text_or, texts,
    trim_non_empty,
};
use vstd::prelude::*;

verus! {

broadcast use vstd::seq::group_seq_axioms;

/// The secret behind `Bearer ` in an authorization header, trimmed.
pub open spec fn bearer(authorization: Option<Seq<char>>) -> Option<Seq<char>> {
    match authorization {
        None => None,
        Some(header) => match after_prefix(header, "Bearer "@) {
            None => None,
            Some(token) => kept(token),
        },
    }
}

/// The header's text, where there is one.
pub open spec fn header_text(header: Option<&str>) -> Option<Seq<char>> {
    match header {
        Some(h) => Some(h@),
        None => None,
    }
}

/// The secrets that an authorization header presents: its bearer token, for both modes.
pub fn auth_from_headers(authorization: Option<&str>) -> (r: Option<ConnectAuth>)
    ensures
        match bearer(header_text(authorization)) {
            None => r is None,
            Some(token) => r matches Some(auth) && opt_text(auth.token) == Some(token) && opt_text(
                auth.password,
            ) == Some(token) && auth.device_token is None,
        },
{
    match authorization {
        None => None,
        Some(header) => match strip_prefix(header, "Bearer ") {
            None => None,
            Some(token) => match trim_non_empty(token.as_str()) {
                None => None,
                Some(token) => Some(
                    ConnectAuth {
                        token: Some(token.clone()),
                        device_token: None,
                        password: Some(token),
                    },
                ),
            },
        },
    }
}

/// What comes of a bearer token under the gateway's mode.
pub open spec fn bearer_outcome(mode: AuthMode, authorization: Option<Seq<char>>) -> Result<
    (),
    AuthFailureReason,
> {
    match mode {
        AuthMode::NoAuth => Ok(()),
        AuthMode::Token(expected) | AuthMode::Password(expected) => match bearer(authorization) {
            None => Err(AuthFailureReason::MissingCredentials),
            Some(token) => if token == expected@ {
                Ok(())
            } else {
                Err(AuthFailureReason::InvalidCredentials)
            },
        },
    }
}

/// Whether a request with this authorization header is let in.
pub fn authorize_gateway_http(mode: &AuthMode, authorization: Option<&str>) -> (r: Result<
    (),
    AuthFailureReason,
>)
    ensures
        r == bearer_outcome(*mode, header_text(authorization)),
{
    let auth = auth_from_headers(authorization);
    proof {
        if let Some(header) = authorization {
            if let Some(token) = after_prefix(header@, "Bearer "@) {
                crate::text::law_trim_is_idempotent(token);
            }
        }
    }
    match &auth {
        Some(a) => authorize(mode, Some(a)),
        None => authorize(mode, None),
    }
}

/// A name as a segment of a session's key.
pub fn normalize_segment(value: &str) -> (r: String)
    ensures
        r@ == slug(value@, true),
        is_slug(r@),
{
    slug_of(value, true)
}

/// The text of one part of a message's content.
pub open spec fn part_text(part: JsonModel) -> Option<Seq<char>> {
    match part {
        JsonModel::Object(m) => {
            let kind = text_or(text_of(field(m, "type"@)), ""@);
            let plain = text_of(field(m, "text"@));
            let input = text_of(field(m, "input_text"@));
            if kind == "text"@ || kind == "input_text"@ {
                first_of(plain, input)
            } else {
                first_of(input, plain)
            }
        },
        _ => None,
    }
}

/// The texts of the parts that have one that is not blank.
pub open spec fn part_texts(parts: Seq<JsonModel>) -> Seq<Seq<char>>
    decreases parts.len(),
{
    if parts.len() == 0 {
        Seq::empty()
    } else {
        let earlier = part_texts(parts.drop_last());
        match part_text(parts.last()) {
            Some(t) => if kept(t) is Some {
                earlier.push(t)
            } else {
                earlier
            },
            None => earlier,
        }
    }
}

/// The text of a message's content: a text, or parts with a line for each.
pub open spec fn content_text(content: JsonModel) -> Seq<char> {
    match content {
        JsonModel::Text(s) => s,
        JsonModel::Array(parts) => joined(part_texts(parts), "\n"@),
        _ => text_or(part_text(content), ""@),
    }
}

/// The text of one part of a message's content.
fn read_part(part: &Json) -> (r: Option<String>)
    ensures
        opt_text(r) == part_text(part@),
{
    if !part.is_object() {
        return None;
    }
    let kind = match part.get_text("type") {
        Some(kind) => kind,
        None => "".to_owned(),
    };
    let plain = part.get_text("text");
    let input = part.get_text("input_text");
    if same(kind.as_str(), "text") || same(kind.as_str(), "input_text") {
        if plain.is_some() {
            plain
        } else {
            input
        }
    } else {
        if input.is_some() {
            input
        } else {
            plain
        }
    }
}

/// The text of a message's content.
pub fn extract_text_content(content: &Json) -> (r: String)
    ensures
        r@ == content_text(content@),
{
    match content {
        Json::Text(s) => s.clone(),
        Json::Array(parts) => {
            let mut out: Vec<String> = Vec::new();
            let mut i: usize = 0;
            proof {
                lemma_models(parts@);
                assert(texts(out@) =~= part_texts(models(parts@).take(0)));
            }
            while i < parts.len()
                invariant
                    i <= parts@.len(),
                    models(parts@).len() == parts@.len(),
                    forall|k: int| 0 <= k < parts@.len() ==> #[trigger] models(parts@)[k] == parts@[k]@,
                    texts(out@) == part_texts(models(parts@).take(i as int)),
                decreases parts@.len() - i,
            {
                proof {
                    let t = models(parts@).take(i + 1);
                    assert(t.drop_last() =~= models(parts@).take(i as int));
                    assert(t.last() == parts@[i as int]@);
                }
                if let Some(text) = read_part(&parts[i]) {
                    if trim_non_empty(text.as_str()).is_some() {
                        let ghost so_far = out@;
                        out.push(text);
                        assert(texts(out@) =~= texts(so_far).push(text@));
                    }
                }
                i = i + 1;
            }
            assert(models(parts@).take(i as int) =~= models(parts@));
            join(&out, "\n")
        },
        _ => match read_part(content) {
            Some(text) => text,
            None => "".to_owned(),
        },
    }
}

/// A request under a gateway with a secret is let in exactly where its authorization header is `Bearer `
/// and the secret, white space around the secret aside; under a gateway without one always.
pub proof fn law_bearer_secrets(
    mode: &AuthMode,
    authorization: Option<&str>,
    r: Result<(), AuthFailureReason>,
    secret: Seq<char>,
)
    requires
        call_ensures(authorize_gateway_http, (mode, authorization), r),
        *mode matches AuthMode::Token(s) ==> s@ == secret,
        *mode matches AuthMode::Password(s) ==> s@ == secret,
    ensures
        *mode is NoAuth ==> r is Ok,
        !(*mode is NoAuth) ==> (r is Ok <==> authorization is Some && exists|t: Seq<char>|
            authorization->0@ == #[trigger] ("Bearer "@ + t) && crate::text::not_blank(t) && crate::text::trimmed(
                t,
            ) == secret),
{
    if !(*mode is NoAuth) && authorization is Some {
        let h = authorization->0@;
        let p = "Bearer "@;
        if exists|t: Seq<char>| h == #[trigger] (p + t) && crate::text::not_blank(t) && crate::text::trimmed(t) == secret {
            let t = choose|t: Seq<char>| h == #[trigger] (p + t) && crate::text::not_blank(t) && crate::text::trimmed(t) == secret;
            assert(h.take(p.len() as int) =~= p);
            assert(h.skip(p.len() as int) =~= t);
            crate::text::lemma_kept(t);
        }
        if r is Ok {
            let t = h.skip(p.len() as int);
            assert(h =~= p + t);
            crate::text::lemma_kept(t);
        }
    }
}

/// The text of a content that is a text is that text, and of one that is a part the text of the part.
/// Of a list of parts, each text that is not blank stands in it.
pub proof fn law_contents(content: &Json, r: String, parts: Seq<JsonModel>, i: int, said: Seq<char>)
    requires
        call_ensures(extract_text_content, (content,), r),
    ensures
        content@ == JsonModel::Text(said) ==> r@ == said,
        content@ == JsonModel::Array(parts) && 0 <= i < parts.len() && part_says(parts[i], said)
            && crate::text::not_blank(said) ==> exists|a: Seq<char>, b: Seq<char>| r@ == #[trigger] (a + said + b),
        content@ == JsonModel::Array(seq![parts[i]]) && part_says(parts[i], said) && crate::text::not_blank(said)
            ==> r@ == said,
        part_says(content@, said) ==> r@ == said,
{
    if content@ == JsonModel::Array(parts) && 0 <= i < parts.len() && part_says(parts[i], said)
        && crate::text::not_blank(said) {
        crate::text::lemma_kept(said);
        let k = lemma_part_place(parts, i, said);
        crate::text::law_joined_parts_are_found(part_texts(parts), "\n"@, k);
    }
    if content@ == JsonModel::Array(seq![parts[i]]) && part_says(parts[i], said) && crate::text::not_blank(said) {
        crate::text::lemma_kept(said);
        let one = seq![parts[i]];
        assert(one.drop_last() =~= Seq::<JsonModel>::empty());
        assert(part_texts(one.drop_last()) =~= Seq::<Seq<char>>::empty());
        assert(part_texts(one) =~= seq![said]);
    }
}

/// A part that says a text: it has it under `text`, and no other text.
pub open spec fn part_says(part: JsonModel, said: Seq<char>) -> bool {
    part matches JsonModel::Object(m) && m.contains_key("text"@) && m["text"@] == JsonModel::Text(said)
        && !m.contains_key("input_text"@)
}

proof fn lemma_part_place(parts: Seq<JsonModel>, i: int, said: Seq<char>) -> (k: int)
    requires
        0 <= i < parts.len(),
        part_text(parts[i]) == Some(said),
        kept(said) is Some,
    ensures
        0 <= k < part_texts(parts).len(),
        part_texts(parts)[k] == said,
    decreases parts.len(),
{
    if i == parts.len() - 1 {
        part_texts(parts.drop_last()).len() as int
    } else {
        lemma_part_place(parts.drop_last(), i, said)
    }
}

/// A header that bears a token presents it, trimmed, for either mode, and no other header presents
/// anything.
pub proof fn law_presented_secrets(authorization: Option<&str>, borne: Seq<char>, r: Option<ConnectAuth>)
    requires
        call_ensures(auth_from_headers, (authorization,), r),
    ensures
        authorization is Some && authorization->0@ == "Bearer "@ + borne ==> (r is Some <==> crate::text::not_blank(borne)),
        authorization is Some && authorization->0@ == "Bearer "@ + borne && r is Some ==> opt_text(
            r->0.token,
        ) == Some(crate::text::trimmed(borne)) && opt_text(r->0.password) == Some(crate::text::trimmed(borne)) && r->0.device_token is None,
        authorization is None ==> r is None,
{
    crate::text::lemma_kept(borne);
    if authorization is Some && authorization->0@ == "Bearer "@ + borne {
        let h = authorization->0@;
        let p = "Bearer "@;
        assert(h.take(p.len() as int) =~= p);
        assert(h.skip(p.len() as int) =~= borne);
    }
}

} // verus!
