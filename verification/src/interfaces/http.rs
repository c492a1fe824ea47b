//! The paths that the gateway answers over HTTP.
use crate::application::config::RuntimeConfig;
use crate::domain::error::DomainError;
use crate::interfaces::channel_adapter_common::HttpReply;
use crate::json::{member, no_fields, object, set_field, text, Json, JsonModel};
use crate::text::cat;
use vstd::prelude::*;

verus! {

broadcast use vstd::seq::group_seq_axioms;

/// Who answers a path.
#[derive(Debug, Clone, Copy, PartialEq, Eq, Structural)]
pub enum Endpoint {
    WebSocket,
    Healthz,
    Readyz,
    Info,
    ToolsInvoke,
    SlackEvents,
    Inbound,
    ChannelInbound,
    TelegramWebhook,
    ChannelWebhook,
    HooksRoot,
    HooksSubpath,
    ChatCompletions,
    Responses,
}

/// A path that is answered.
pub struct HttpRoute {
    pub path: String,
    pub endpoint: Endpoint,
}

/// The paths that are always answered.
pub open spec fn fixed_routes() -> Seq<(Seq<char>, Endpoint)> {
    seq![
        ("/"@, Endpoint::WebSocket),
        ("/ws"@, Endpoint::WebSocket),
        ("/healthz"@, Endpoint::Healthz),
        ("/readyz"@, Endpoint::Readyz),
        ("/info"@, Endpoint::Info),
        ("/tools/invoke"@, Endpoint::ToolsInvoke),
        ("/slack/events"@, Endpoint::SlackEvents),
        ("/channels/inbound"@, Endpoint::Inbound),
        ("/channels/{channel}/inbound"@, Endpoint::ChannelInbound),
        ("/channels/telegram/webhook"@, Endpoint::TelegramWebhook),
        ("/channels/{channel}/webhook"@, Endpoint::ChannelWebhook),
    ]
}

/// The paths that are answered: the fixed ones, and those that are switched on.
pub open spec fn routes_of(config: RuntimeConfig) -> Seq<(Seq<char>, Endpoint)> {
    let hooks = if config.hooks_enabled {
        seq![
            (config.hooks_path@, Endpoint::HooksRoot),
            (config.hooks_path@ + "/{*subpath}"@, Endpoint::HooksSubpath),
        ]
    } else {
        Seq::empty()
    };
    let chat = if config.openai_chat_completions_enabled {
        seq![("/v1/chat/completions"@, Endpoint::ChatCompletions)]
    } else {
        Seq::empty()
    };
    let responses = if config.openresponses_enabled {
        seq![("/v1/responses"@, Endpoint::Responses)]
    } else {
        Seq::empty()
    };
    fixed_routes() + hooks + chat + responses
}

/// What routes say.
pub open spec fn route_models(routes: Seq<HttpRoute>) -> Seq<(Seq<char>, Endpoint)> {
    routes.map_values(|r: HttpRoute| (r.path@, r.endpoint))
}

/// An endpoint is asked with POST; the others are asked with GET.
pub open spec fn is_posted(endpoint: Endpoint) -> bool {
    !(endpoint is WebSocket || endpoint is Healthz || endpoint is Readyz || endpoint is Info)
}

impl HttpRoute {
    /// Whether the path is asked with POST, and not with GET.
    pub fn is_post(&self) -> (r: bool)
        ensures
            r == is_posted(self.endpoint),
    {
        !matches!(
            self.endpoint,
            Endpoint::WebSocket | Endpoint::Healthz | Endpoint::Readyz | Endpoint::Info
        )
    }
}

fn add_route(routes: &mut Vec<HttpRoute>, path: &str, endpoint: Endpoint)
    ensures
        route_models(final(routes)@) == route_models(old(routes)@).push((path@, endpoint)),
{
    let ghost before = routes@;
    routes.push(HttpRoute { path: path.to_owned(), endpoint });
    assert(route_models(routes@) =~= route_models(before).push((path@, endpoint)));
}

/// The paths that are answered.
pub fn build_routes(config: &RuntimeConfig) -> (r: Vec<HttpRoute>)
    ensures
        route_models(r@) == routes_of(*config),
{
    let mut routes: Vec<HttpRoute> = Vec::new();
    assert(route_models(routes@) =~= Seq::<(Seq<char>, Endpoint)>::empty());
    add_route(&mut routes, "/", Endpoint::WebSocket);
    add_route(&mut routes, "/ws", Endpoint::WebSocket);
    add_route(&mut routes, "/healthz", Endpoint::Healthz);
    add_route(&mut routes, "/readyz", Endpoint::Readyz);
    add_route(&mut routes, "/info", Endpoint::Info);
    add_route(&mut routes, "/tools/invoke", Endpoint::ToolsInvoke);
    add_route(&mut routes, "/slack/events", Endpoint::SlackEvents);
    add_route(&mut routes, "/channels/inbound", Endpoint::Inbound);
    add_route(&mut routes, "/channels/{channel}/inbound", Endpoint::ChannelInbound);
    add_route(&mut routes, "/channels/telegram/webhook", Endpoint::TelegramWebhook);
    add_route(&mut routes, "/channels/{channel}/webhook", Endpoint::ChannelWebhook);
    assert(route_models(routes@) =~= fixed_routes());
    if config.hooks_enabled {
        let below = cat(config.hooks_path.as_str(), "/{*subpath}");
        add_route(&mut routes, config.hooks_path.as_str(), Endpoint::HooksRoot);
        add_route(&mut routes, below.as_str(), Endpoint::HooksSubpath);
    }
    if config.openai_chat_completions_enabled {
        add_route(&mut routes, "/v1/chat/completions", Endpoint::ChatCompletions);
    }
    if config.openresponses_enabled {
        add_route(&mut routes, "/v1/responses", Endpoint::Responses);
    }
    assert(route_models(routes@) =~= routes_of(*config));
    routes
}

/// Whether the gateway is well, over HTTP.
pub fn healthz(found: Result<Json, DomainError>) -> (r: HttpReply)
    ensures
        match found {
            Ok(payload) => r.says(200, payload@),
            Err(error) => r.says(503, JsonModel::Object(
                no_fields()
                    .insert("ok"@, JsonModel::Bool(false))
                    .insert("error"@, JsonModel::Text(error.words())),
            )),
        },
{
    match found {
        Ok(payload) => HttpReply { status: 200, body: payload },
        Err(error) => {
            let mut o = object();
            set_field(&mut o, "ok", Json::Bool(false));
            set_field(&mut o, "error", text(error.describe().as_str()));
            HttpReply { status: 503, body: Json::Object(o) }
        },
    }
}

/// What is not switched on is not answered.
pub proof fn law_only_enabled_paths_are_answered(config: RuntimeConfig, i: int)
    requires
        0 <= i < routes_of(config).len(),
    ensures
        routes_of(config)[i].1 is ChatCompletions ==> config.openai_chat_completions_enabled,
        routes_of(config)[i].1 is Responses ==> config.openresponses_enabled,
        (routes_of(config)[i].1 is HooksRoot || routes_of(config)[i].1 is HooksSubpath)
            ==> config.hooks_enabled,
{
    let routes = routes_of(config);
    if i < 11 {
        assert(routes[i] == fixed_routes()[i]);
    }
}

/// A path is served by its endpoint: those that are always there, those of the hooks where hooks are
/// on, and each of the two chat endpoints where it is on.
pub proof fn law_paths_that_are_served(config: &RuntimeConfig, r: Vec<HttpRoute>, i: int)
    requires
        call_ensures(build_routes, (config,), r),
        0 <= i < r@.len(),
    ensures
        r@.len() == 11 + (if config.hooks_enabled {
            2int
        } else {
            0
        }) + (if config.openai_chat_completions_enabled {
            1int
        } else {
            0
        }) + (if config.openresponses_enabled {
            1int
        } else {
            0
        }),
        ({
            let path = r@[i].path@;
            match r@[i].endpoint {
                Endpoint::WebSocket => path == "/"@ || path == "/ws"@,
                Endpoint::Healthz => path == "/healthz"@,
                Endpoint::Readyz => path == "/readyz"@,
                Endpoint::Info => path == "/info"@,
                Endpoint::ToolsInvoke => path == "/tools/invoke"@,
                Endpoint::SlackEvents => path == "/slack/events"@,
                Endpoint::Inbound => path == "/channels/inbound"@,
                Endpoint::ChannelInbound => path == "/channels/{channel}/inbound"@,
                Endpoint::TelegramWebhook => path == "/channels/telegram/webhook"@,
                Endpoint::ChannelWebhook => path == "/channels/{channel}/webhook"@,
                Endpoint::HooksRoot => config.hooks_enabled && path == config.hooks_path@,
                Endpoint::HooksSubpath => config.hooks_enabled && path == config.hooks_path@
                    + "/{*subpath}"@,
                Endpoint::ChatCompletions => config.openai_chat_completions_enabled && path
                    == "/v1/chat/completions"@,
                Endpoint::Responses => config.openresponses_enabled && path == "/v1/responses"@,
            }
        }),
{
    let all = route_models(r@);
    assert(all[i] == (r@[i].path@, r@[i].endpoint));
    assert(all.len() == r@.len());
    assert(all == routes_of(*config));
}

/// The gateway is well where its health can be told, and says why where it cannot.
pub proof fn law_health_is_told(found: Result<Json, DomainError>, r: HttpReply)
    requires
        call_ensures(healthz, (found,), r),
    ensures
        r.status == 200 <==> found is Ok,
        found is Ok ==> r.body@ == found->Ok_0@,
        found is Err ==> r.status == 503 && member(r.body@, "ok"@) == Some(JsonModel::Bool(false)),
{
    reveal_strlit("ok");
    reveal_strlit("error");
    assert("ok"@.len() != "error"@.len());
}

/// What only tells something is asked for, and everything else is posted.
pub proof fn law_what_is_posted(route: &HttpRoute, r: bool)
    requires
        call_ensures(HttpRoute::is_post, (route,), r),
    ensures
        r <==> match route.endpoint {
            Endpoint::WebSocket | Endpoint::Healthz | Endpoint::Readyz | Endpoint::Info => false,
            _ => true,
        },
{
}

} // verus!
