//! The tools that can be called.
use crate::json::{
    lemma_models, models, no_fields, object, set_field, text, text_array, texts_json, Json, JsonModel,
};
use crate::text::texts;
use vstd::prelude::*;

verus! {

broadcast use vstd::seq::group_seq_axioms;

/// A tool.
pub open spec fn tool_entry(id: Seq<char>, kind: Seq<char>, description: Seq<char>) -> JsonModel {
    JsonModel::Object(
        no_fields()
            .insert("id"@, JsonModel::Text(id))
            .insert("kind"@, JsonModel::Text(kind))
            .insert("description"@, JsonModel::Text(description)),
    )
}

/// The tools.
pub open spec fn tool_entries() -> Seq<JsonModel> {
    seq![
        tool_entry("gateway.request"@, "rpc"@, "Invoke gateway RPC method"@),
        tool_entry("sessions"@, "state"@, "List and mutate sessions"@),
        tool_entry("cron"@, "scheduler"@, "Create and run scheduled jobs"@),
        tool_entry("nodes"@, "device"@, "Pair and invoke registered nodes"@),
    ]
}

fn new_tool(id: &str, kind: &str, description: &str) -> (r: Json)
    ensures
        r@ == tool_entry(id@, kind@, description@),
{
    let mut o = object();
    set_field(&mut o, "id", text(id));
    set_field(&mut o, "kind", text(kind));
    set_field(&mut o, "description", text(description));
    Json::Object(o)
}

/// The methods and the tools of the gateway.
pub fn handle_catalog(methods: &Vec<String>) -> (r: Json)
    ensures
        r@ == JsonModel::Object(
            no_fields()
                .insert("runtime"@, JsonModel::Text("reclaw-core"@))
                .insert("methods"@, text_array(texts(methods@)))
                .insert("tools"@, JsonModel::Array(tool_entries())),
        ),
{
    let tools = vec![
        new_tool("gateway.request", "rpc", "Invoke gateway RPC method"),
        new_tool("sessions", "state", "List and mutate sessions"),
        new_tool("cron", "scheduler", "Create and run scheduled jobs"),
        new_tool("nodes", "device", "Pair and invoke registered nodes"),
    ];
    proof {
        lemma_models(tools@);
        assert(models(tools@) =~= tool_entries());
    }
    let mut o = object();
    set_field(&mut o, "runtime", text("reclaw-core"));
    set_field(&mut o, "methods", texts_json(methods));
    set_field(&mut o, "tools", Json::Array(tools));
    Json::Object(o)
}

/// The catalogue has the methods that there are and the four tools, the gateway's own request first.
pub proof fn law_the_catalogue(methods: &Vec<String>, r: Json)
    requires
        call_ensures(handle_catalog, (methods,), r),
    ensures
        crate::json::member(r@, "methods"@) == Some(text_array(texts(methods@))),
        crate::json::member(r@, "runtime"@) == Some(JsonModel::Text("reclaw-core"@)),
        ({
            let tools = crate::json::member(r@, "tools"@)->0->Array_0;
            &&& crate::json::member(r@, "tools"@) is Some && crate::json::member(r@, "tools"@)->0 is Array && tools.len() == 4
            &&& crate::json::member(tools[0], "id"@) == Some(JsonModel::Text("gateway.request"@)) && crate::json::member(
                tools[0],
                "kind"@,
            ) == Some(JsonModel::Text("rpc"@))
            &&& crate::json::member(tools[1], "id"@) == Some(JsonModel::Text("sessions"@)) && crate::json::member(tools[1], "kind"@)
                == Some(JsonModel::Text("state"@))
            &&& crate::json::member(tools[2], "id"@) == Some(JsonModel::Text("cron"@)) && crate::json::member(tools[2], "kind"@) == Some(
                JsonModel::Text("scheduler"@),
            )
            &&& crate::json::member(tools[3], "id"@) == Some(JsonModel::Text("nodes"@)) && crate::json::member(tools[3], "kind"@) == Some(
                JsonModel::Text("device"@),
            )
        }),
{
    reveal_strlit("runtime");
    reveal_strlit("methods");
    reveal_strlit("tools");
    reveal_strlit("id");
    reveal_strlit("kind");
    reveal_strlit("description");
    assert("runtime"@[0] != "methods"@[0]);
    assert("runtime"@.len() != "tools"@.len());
    assert("runtime"@.len() != "id"@.len());
    assert("runtime"@.len() != "kind"@.len());
    assert("runtime"@.len() != "description"@.len());
    assert("methods"@.len() != "tools"@.len());
    assert("methods"@.len() != "id"@.len());
    assert("methods"@.len() != "kind"@.len());
    assert("methods"@.len() != "description"@.len());
    assert("tools"@.len() != "id"@.len());
    assert("tools"@.len() != "kind"@.len());
    assert("tools"@.len() != "description"@.len());
    assert("id"@.len() != "kind"@.len());
    assert("id"@.len() != "description"@.len());
    assert("kind"@.len() != "description"@.len());
}

} // verus!
