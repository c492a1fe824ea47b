//! The adapters of channels and how a webhook finds its own.
use crate::interfaces::channel_adapter_common::{
    error_response, refusal_body, ChannelInboundEvent, HttpReply, OutboundReplyDispatch,
};
use crate::interfaces::channels::InboundProcessResult;
use crate::json::{opt_model, Json, JsonModel};
use crate::application::state::copy_text;
use crate::sorted_map::SortedMap;
use crate::text::opt_text;
use vstd::prelude::*;

verus! {

/// A channel and what answers its webhook.
pub struct ChannelWebhookAdapter<D> {
    pub channel: &'static str,
    pub dispatch: D,
}

/// What answers the webhook of a channel that the gateway knows.
#[derive(Clone, Copy, PartialEq, Eq, Debug, Structural)]
pub enum ChannelDispatch {
    Telegram,
    Discord,
    Slack,
    Signal,
    Whatsapp,
}

/// What answers the webhooks of channels.
pub struct ChannelWebhookRegistry<D> {
    adapters: SortedMap<D>,
}

/// The channels with what answers them, a later entry winning over an earlier one.
pub open spec fn registered<D>(adapters: Seq<ChannelWebhookAdapter<D>>) -> Map<Seq<char>, D>
    decreases adapters.len(),
{
    if adapters.len() == 0 {
        Map::empty()
    } else {
        registered(adapters.drop_last()).insert(adapters.last().channel@, adapters.last().dispatch)
    }
}

impl<D: Copy> ChannelWebhookRegistry<D> {
    /// What answers the webhook of each channel.
    pub closed spec fn view(&self) -> Map<Seq<char>, D> {
        self.adapters@
    }

    /// No channel is answered.
    pub fn new() -> (r: Self)
        ensures
            r@ == Map::<Seq<char>, D>::empty(),
    {
        ChannelWebhookRegistry { adapters: SortedMap::new() }
    }

    /// The channels of the adapters are answered.
    pub fn with_adapters(adapters: &[ChannelWebhookAdapter<D>]) -> (r: Self)
        ensures
            r@ == registered(adapters@),
    {
        let mut registry = Self::new();
        let mut i: usize = 0;
        while i < adapters.len()
            invariant
                i <= adapters@.len(),
                registry@ == registered(adapters@.take(i as int)),
            decreases adapters@.len() - i,
        {
            registry.register(
                ChannelWebhookAdapter {
                    channel: adapters[i].channel,
                    dispatch: adapters[i].dispatch,
                },
            );
            i = i + 1;
            proof {
                let t = adapters@.take(i as int);
                assert(t.drop_last() =~= adapters@.take(i - 1));
                assert(t.last() == adapters@[i - 1]);
            }
        }
        assert(adapters@.take(i as int) =~= adapters@);
        registry
    }

    /// A channel is answered by its adapter from now on.
    pub fn register(&mut self, adapter: ChannelWebhookAdapter<D>)
        ensures
            final(self)@ == old(self)@.insert(adapter.channel@, adapter.dispatch),
    {
        self.adapters.insert(adapter.channel.to_owned(), adapter.dispatch);
    }

    /// What answers the webhook of a channel.
    pub fn adapter_for(&self, channel: &str) -> (r: Option<D>)
        ensures
            match r {
                Some(dispatch) => self@.contains_key(channel@) && self@[channel@] == dispatch,
                None => !self@.contains_key(channel@),
            },
    {
        match self.adapters.get(channel) {
            Some(dispatch) => Some(*dispatch),
            None => None,
        }
    }
}

/// The channels that the gateway knows.
pub open spec fn default_channels() -> Map<Seq<char>, ChannelDispatch> {
    Map::<Seq<char>, ChannelDispatch>::empty().insert(
        "telegram"@,
        ChannelDispatch::Telegram,
    ).insert("discord"@, ChannelDispatch::Discord).insert(
        "slack"@,
        ChannelDispatch::Slack,
    ).insert("signal"@, ChannelDispatch::Signal).insert("whatsapp"@, ChannelDispatch::Whatsapp)
}

/// The adapters of the channels that the gateway knows.
pub fn default_registry() -> (r: ChannelWebhookRegistry<ChannelDispatch>)
    ensures
        r@ == default_channels(),
{
    let mut r: ChannelWebhookRegistry<ChannelDispatch> = ChannelWebhookRegistry::new();
    r.register(
        ChannelWebhookAdapter { channel: "telegram", dispatch: ChannelDispatch::Telegram },
    );
    r.register(ChannelWebhookAdapter { channel: "discord", dispatch: ChannelDispatch::Discord });
    r.register(ChannelWebhookAdapter { channel: "slack", dispatch: ChannelDispatch::Slack });
    r.register(ChannelWebhookAdapter { channel: "signal", dispatch: ChannelDispatch::Signal });
    r.register(
        ChannelWebhookAdapter { channel: "whatsapp", dispatch: ChannelDispatch::Whatsapp },
    );
    r
}

/// What answers a webhook, or that nothing does.
pub fn channel_webhook_handler<D: Copy>(registry: &ChannelWebhookRegistry<D>, channel: &str) -> (r:
    Result<D, HttpReply>)
    ensures
        match r {
            Ok(dispatch) => registry@.contains_key(channel@) && registry@[channel@] == dispatch,
            Err(reply) => !registry@.contains_key(channel@) && reply.says(
                404,
                refusal_body("NOT_FOUND"@, "unknown channel webhook adapter"@),
            ),
        },
{
    match registry.adapter_for(channel) {
        Some(dispatch) => Ok(dispatch),
        None => Err(error_response(404, "NOT_FOUND", "unknown channel webhook adapter")),
    }
}

/// Where the reply to a message goes.
pub struct ReplyRoute {
    pub channel: &'static str,
    pub conversation_id: String,
    pub source_sender_id: Option<String>,
    pub source_message_id: Option<String>,
    pub metadata: Option<Json>,
    pub log_scope: &'static str,
}

/// A message to take: the key and the id that it is known by, the message, and where its reply
/// goes.
pub struct WebhookTake {
    pub dedupe_key: String,
    pub event_id: String,
    pub event: ChannelInboundEvent,
    pub route: Option<ReplyRoute>,
}

/// What a message says.
#[verifier::ext_equal]
pub struct EventModel {
    pub channel: Seq<char>,
    pub conversation_id: Seq<char>,
    pub text: Seq<char>,
    pub sender_id: Option<Seq<char>>,
    pub message_id: Option<Seq<char>>,
    pub idempotency_key: Seq<char>,
    pub metadata: Option<JsonModel>,
}

/// What a way of a reply says.
#[verifier::ext_equal]
pub struct RouteModel {
    pub channel: Seq<char>,
    pub conversation_id: Seq<char>,
    pub source_sender_id: Option<Seq<char>>,
    pub source_message_id: Option<Seq<char>>,
    pub metadata: Option<JsonModel>,
    pub log_scope: Seq<char>,
}

/// What a message to take says.
#[verifier::ext_equal]
pub struct TakeModel {
    pub dedupe_key: Seq<char>,
    pub event_id: Seq<char>,
    pub event: EventModel,
    pub route: Option<RouteModel>,
}

/// What a message says.
pub open spec fn event_model(e: ChannelInboundEvent) -> EventModel {
    EventModel {
        channel: e.channel@,
        conversation_id: e.conversation_id@,
        text: e.text@,
        sender_id: opt_text(e.sender_id),
        message_id: opt_text(e.message_id),
        idempotency_key: e.idempotency_key@,
        metadata: opt_model(e.metadata),
    }
}

/// What a way of a reply says.
pub open spec fn route_model(r: ReplyRoute) -> RouteModel {
    RouteModel {
        channel: r.channel@,
        conversation_id: r.conversation_id@,
        source_sender_id: opt_text(r.source_sender_id),
        source_message_id: opt_text(r.source_message_id),
        metadata: opt_model(r.metadata),
        log_scope: r.log_scope@,
    }
}

impl WebhookTake {
    /// What the message to take says.
    pub open spec fn view(&self) -> TakeModel {
        TakeModel {
            dedupe_key: self.dedupe_key@,
            event_id: self.event_id@,
            event: event_model(self.event),
            route: match self.route {
                Some(r) => Some(route_model(r)),
                None => None,
            },
        }
    }
}

/// The reply to a message with the way that it goes.
pub fn outbound_reply(route: ReplyRoute, result: &InboundProcessResult) -> (r: OutboundReplyDispatch)
    ensures
        r.channel@ == route.channel@,
        r.conversation_id@ == route.conversation_id@,
        opt_text(r.source_sender_id) == opt_text(route.source_sender_id),
        opt_text(r.source_message_id) == opt_text(route.source_message_id),
        opt_text(r.reply) == opt_text(result.reply),
        r.session_key@ == result.session_key@,
        opt_text(r.run_id) == opt_text(result.run_id),
        opt_model(r.metadata) == opt_model(route.metadata),
        r.log_scope@ == route.log_scope@,
{
    OutboundReplyDispatch {
        channel: route.channel,
        conversation_id: route.conversation_id,
        source_sender_id: route.source_sender_id,
        source_message_id: route.source_message_id,
        reply: copy_text(&result.reply),
        session_key: result.session_key.clone(),
        run_id: copy_text(&result.run_id),
        metadata: route.metadata,
        log_scope: route.log_scope,
    }
}

/// What a webhook is answered at once: a refusal, or why the message is not taken; or the message
/// to take.
pub open spec fn answers(
    r: Result<WebhookTake, HttpReply>,
    model: Result<TakeModel, (u16, JsonModel)>,
) -> bool {
    match model {
        Ok(take) => r is Ok && r->Ok_0@ == take,
        Err((status, body)) => r is Err && r->Err_0.says(status, body),
    }
}

/// Each of the five channels has its own adapter, and no other channel has one.
pub proof fn law_channels_that_are_served(
    registry: ChannelWebhookRegistry<ChannelDispatch>,
    channel: &str,
    r: Result<ChannelDispatch, HttpReply>,
)
    requires
        call_ensures(default_registry, (), registry),
        call_ensures(channel_webhook_handler::<ChannelDispatch>, (&registry, channel), r),
    ensures
        channel@ == "telegram"@ ==> r == Ok::<ChannelDispatch, HttpReply>(ChannelDispatch::Telegram),
        channel@ == "discord"@ ==> r == Ok::<ChannelDispatch, HttpReply>(ChannelDispatch::Discord),
        channel@ == "slack"@ ==> r == Ok::<ChannelDispatch, HttpReply>(ChannelDispatch::Slack),
        channel@ == "signal"@ ==> r == Ok::<ChannelDispatch, HttpReply>(ChannelDispatch::Signal),
        channel@ == "whatsapp"@ ==> r == Ok::<ChannelDispatch, HttpReply>(ChannelDispatch::Whatsapp),
        r is Err ==> r->Err_0.status == 404,
        r is Ok ==> channel@ == "telegram"@ || channel@ == "discord"@ || channel@ == "slack"@ || channel@
            == "signal"@ || channel@ == "whatsapp"@,
{
    reveal_strlit("telegram");
    reveal_strlit("discord");
    reveal_strlit("slack");
    reveal_strlit("signal");
    reveal_strlit("whatsapp");
    assert("telegram"@[0] == 't' && "discord"@[0] == 'd' && "slack"@[1] == 'l' && "signal"@[1] == 'i'
        && "whatsapp"@[0] == 'w' && "slack"@[0] == 's' && "signal"@[0] == 's');
}

/// A later adapter of a channel takes the place of an earlier one, and leaves those of the others.
pub proof fn law_adapters_are_registered<D>(adapters: Seq<ChannelWebhookAdapter<D>>, next: ChannelWebhookAdapter<D>, other: Seq<char>)
    ensures
        registered(adapters.push(next)).contains_key(next.channel@),
        registered(adapters.push(next))[next.channel@] == next.dispatch,
        other != next.channel@ ==> (registered(adapters.push(next)).contains_key(other) <==> registered(
            adapters,
        ).contains_key(other)),
        registered(Seq::<ChannelWebhookAdapter<D>>::empty()).dom() == Set::<Seq<char>>::empty(),
{
    assert(adapters.push(next).drop_last() =~= adapters);
}

/// A channel without an adapter is not found.
pub proof fn law_unknown_channels<D: Copy>(
    registry: &ChannelWebhookRegistry<D>,
    channel: &str,
    r: Result<D, HttpReply>,
)
    requires
        call_ensures(channel_webhook_handler::<D>, (registry, channel), r),
    ensures
        r is Ok <==> registry@.contains_key(channel@),
        r is Ok ==> r->Ok_0 == registry@[channel@],
        r is Err ==> r->Err_0.status == 404,
{
}

} // verus!
