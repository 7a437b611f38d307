//! Helpers for the Model Context Protocol: the shapes of its messages, and
//! server configurations as values of the scripting language.

use vstd::prelude::*;
use crate::collections::StringMap;
use crate::error::{Error, ErrorKind};
use crate::json::Json;
use crate::text::copy_str;
use crate::value::{
    dict_get, entry_views, lemma_lookup_finds, lemma_views_of, lookup, push_entry, push_item,
    views_of, Value, ValueView,
};

verus! {

/// Protocol version.
pub const PROTOCOL_VERSION: &'static str = "2024-11-05";

/// The requests of the protocol.
#[derive(Debug, Clone)]
pub enum McpMessage {
    /// `initialize`.
    Initialize(InitializeParams),
    /// `tools/list`.
    ListTools,
    /// `tools/call`.
    CallTool(CallToolParams),
    /// `resources/list`.
    ListResources,
    /// `resources/read`.
    ReadResource(ReadResourceParams),
    /// `prompts/list`.
    ListPrompts,
    /// `prompts/get`.
    GetPrompt(GetPromptParams),
}

impl McpMessage {
    /// The name of the request's method.
    pub open spec fn method_text(&self) -> Seq<char> {
        match self {
            McpMessage::Initialize(_) => "initialize"@,
            McpMessage::ListTools => "tools/list"@,
            McpMessage::CallTool(_) => "tools/call"@,
            McpMessage::ListResources => "resources/list"@,
            McpMessage::ReadResource(_) => "resources/read"@,
            McpMessage::ListPrompts => "prompts/list"@,
            McpMessage::GetPrompt(_) => "prompts/get"@,
        }
    }

    /// The name of the request's method.
    pub fn method(&self) -> (r: &'static str)
        ensures
            r@ == self.method_text(),
    {
        match self {
            McpMessage::Initialize(_) => "initialize",
            McpMessage::ListTools => "tools/list",
            McpMessage::CallTool(_) => "tools/call",
            McpMessage::ListResources => "resources/list",
            McpMessage::ReadResource(_) => "resources/read",
            McpMessage::ListPrompts => "prompts/list",
            McpMessage::GetPrompt(_) => "prompts/get",
        }
    }
}

/// Parameters of `initialize`.
#[derive(Debug, Clone)]
pub struct InitializeParams {
    /// Protocol version.
    pub protocol_version: String,
    /// Capabilities of the client.
    pub capabilities: ClientCapabilities,
    /// Name and version of the client.
    pub client_info: ClientInfo,
}

/// Capabilities of a client.
#[derive(Debug, Clone, Default)]
pub struct ClientCapabilities {
    /// Whether the client supports sampling.
    pub sampling: Option<Json>,
    /// Whether the client supports roots.
    pub roots: Option<Json>,
}

/// Name and version of a client.
#[derive(Debug, Clone)]
pub struct ClientInfo {
    /// Client name.
    pub name: String,
    /// Client version.
    pub version: String,
}

/// Capabilities of a server.
#[derive(Debug, Clone, Default)]
pub struct ServerCapabilities {
    /// Tool capabilities.
    pub tools: Option<ToolCapabilities>,
    /// Resource capabilities.
    pub resources: Option<ResourceCapabilities>,
    /// Prompt capabilities.
    pub prompts: Option<PromptCapabilities>,
}

/// Tool capabilities.
#[derive(Debug, Clone, Default)]
pub struct ToolCapabilities {
    /// Whether the list of tools can change.
    pub list_changed: bool,
}

/// Resource capabilities.
#[derive(Debug, Clone, Default)]
pub struct ResourceCapabilities {
    /// Whether resources can be subscribed to.
    pub subscribe: bool,
    /// Whether the list of resources can change.
    pub list_changed: bool,
}

/// Prompt capabilities.
#[derive(Debug, Clone, Default)]
pub struct PromptCapabilities {
    /// Whether the list of prompts can change.
    pub list_changed: bool,
}

/// Name and version of a server.
#[derive(Debug, Clone)]
pub struct ServerInfo {
    /// Server name.
    pub name: String,
    /// Server version.
    pub version: String,
}

/// Parameters of `tools/call`.
#[derive(Debug, Clone)]
pub struct CallToolParams {
    /// Tool name.
    pub name: String,
    /// Tool arguments.
    pub arguments: Vec<(String, Json)>,
}

/// Parameters of `resources/read`.
#[derive(Debug, Clone)]
pub struct ReadResourceParams {
    /// Resource URI.
    pub uri: String,
}

/// Parameters of `prompts/get`.
#[derive(Debug, Clone)]
pub struct GetPromptParams {
    /// Prompt name.
    pub name: String,
    /// Prompt arguments.
    pub arguments: StringMap,
}

/// Definition of a tool.
#[derive(Debug, Clone)]
pub struct ToolDefinition {
    /// Tool name.
    pub name: String,
    /// Tool description.
    pub description: Option<String>,
    /// JSON schema of the input.
    pub input_schema: Json,
}

/// Definition of a resource.
#[derive(Debug, Clone)]
pub struct ResourceDefinition {
    /// Resource URI.
    pub uri: String,
    /// Resource name.
    pub name: String,
    /// Resource description.
    pub description: Option<String>,
    /// MIME type.
    pub mime_type: Option<String>,
}

/// Definition of a prompt.
#[derive(Debug, Clone)]
pub struct PromptDefinition {
    /// Prompt name.
    pub name: String,
    /// Prompt description.
    pub description: Option<String>,
    /// Prompt arguments.
    pub arguments: Vec<PromptArgument>,
}

/// Definition of an argument of a prompt.
#[derive(Debug, Clone)]
pub struct PromptArgument {
    /// Argument name.
    pub name: String,
    /// Argument description.
    pub description: Option<String>,
    /// Whether the argument is required.
    pub required: bool,
}

/// Configuration of a server whose context is injected.
#[derive(Debug, Clone)]
pub struct McpServerConfig {
    /// Server name.
    pub name: String,
    /// Server endpoint URL.
    pub endpoint: String,
    /// Items to inject from this server.
    pub inject: Vec<String>,
}

/// The mathematical model of a server configuration.
pub struct McpServerConfigView {
    pub name: Seq<char>,
    pub endpoint: Seq<char>,
    pub inject: Seq<Seq<char>>,
}

impl View for McpServerConfig {
    type V = McpServerConfigView;

    open spec fn view(&self) -> McpServerConfigView {
        McpServerConfigView {
            name: self.name@,
            endpoint: self.endpoint@,
            inject: self.inject@.map_values(|s: String| s@),
        }
    }
}

/// The text under `key` in `entries`, where there is one.
pub open spec fn text_field(entries: Seq<(Seq<char>, ValueView)>, key: Seq<char>) -> Option<
    Seq<char>,
> {
    match lookup(entries, key) {
        Some(ValueView::Text(s)) => Some(s),
        _ => None,
    }
}

/// The texts among the first `n` of `items`, in their order.
pub open spec fn texts_among(items: Seq<ValueView>, n: int) -> Seq<Seq<char>>
    decreases n,
{
    if n <= 0 || n > items.len() {
        Seq::empty()
    } else {
        match items[n - 1] {
            ValueView::Text(s) => texts_among(items, n - 1).push(s),
            _ => texts_among(items, n - 1),
        }
    }
}

/// The texts of the list under `inject` in `entries`; none where there is
/// no such list.
pub open spec fn inject_field(entries: Seq<(Seq<char>, ValueView)>) -> Seq<Seq<char>> {
    match lookup(entries, "inject"@) {
        Some(ValueView::List(items)) => texts_among(items, items.len() as int),
        _ => Seq::empty(),
    }
}

/// The configuration that a value stands for: a dictionary with the texts
/// `name` and `endpoint` and, optionally, the list `inject`.
pub open spec fn config_of(v: ValueView) -> Result<McpServerConfigView, (ErrorKind, Seq<char>)> {
    match v {
        ValueView::Dict(entries) => match text_field(entries, "name"@) {
            None => Err((ErrorKind::InvalidValue, "MCP config missing 'name' field"@)),
            Some(name) => match text_field(entries, "endpoint"@) {
                None => Err((ErrorKind::InvalidValue, "MCP config missing 'endpoint' field"@)),
                Some(endpoint) => Ok(
                    McpServerConfigView { name, endpoint, inject: inject_field(entries) },
                ),
            },
        },
        _ => Err((ErrorKind::InvalidValue, "Expected Map for MCP server config"@)),
    }
}

/// The list of the texts as a value.
pub open spec fn text_list(texts: Seq<Seq<char>>) -> ValueView {
    ValueView::List(texts.map_values(|s: Seq<char>| ValueView::Text(s)))
}

/// The value that stands for a configuration.
pub open spec fn value_of(config: McpServerConfigView) -> ValueView {
    ValueView::Dict(
        seq![
            ("name"@, ValueView::Text(config.name)),
            ("endpoint"@, ValueView::Text(config.endpoint)),
            ("inject"@, text_list(config.inject)),
        ],
    )
}

/// The outcome of an operation on configurations as a mathematical value.
pub open spec fn config_outcome(r: Result<McpServerConfig, Error>) -> Result<
    McpServerConfigView,
    (ErrorKind, Seq<char>),
> {
    match r {
        Ok(c) => Ok(c@),
        Err(e) => Err((e.kind(), e.detail())),
    }
}

/// The outcome of an operation that gives a value, as a mathematical value.
pub open spec fn value_outcome(r: Result<Value, Error>) -> Result<
    ValueView,
    (ErrorKind, Seq<char>),
> {
    match r {
        Ok(v) => Ok(v@),
        Err(e) => Err((e.kind(), e.detail())),
    }
}

fn field_text<'a>(entries: &'a Vec<(String, Value)>, key: &str) -> (r: Option<&'a str>)
    ensures
        r is Some <==> text_field(entry_views(entries@), key@) is Some,
        r matches Some(s) ==> text_field(entry_views(entries@), key@) == Some(s@),
{
    match dict_get(entries, key) {
        Some(v) => v.as_str(),
        None => None,
    }
}

/// The texts among `items`, in their order.
pub fn strings_among(items: &Vec<Value>) -> (r: Vec<String>)
    ensures
        r@.map_values(|s: String| s@) == texts_among(views_of(items@), items@.len() as int),
{
    let ghost models = views_of(items@);
    proof {
        lemma_views_of(items@);
    }
    let mut out: Vec<String> = Vec::new();
    let mut i: usize = 0;
    assert(out@.map_values(|s: String| s@) =~= texts_among(models, 0));
    while i < items.len()
        invariant
            i <= items.len(),
            models == views_of(items@),
            models.len() == items@.len(),
            forall|k: int| 0 <= k < items@.len() ==> (#[trigger] models[k]) == items@[k]@,
            out@.map_values(|s: String| s@) == texts_among(models, i as int),
        decreases items.len() - i,
    {
        match items[i].as_str() {
            Some(s) => {
                let ghost before = out@;
                let copy = copy_str(s);
                out.push(copy);
                assert(out@.map_values(|s: String| s@) =~= before.map_values(|s: String| s@).push(
                    s@,
                ));
            },
            None => {},
        }
        i += 1;
    }
    out
}

fn text_items(texts: &Vec<String>) -> (r: Value)
    ensures
        r@ == text_list(texts@.map_values(|s: String| s@)),
{
    let ghost wanted = texts@.map_values(|s: String| s@).map_values(
        |s: Seq<char>| ValueView::Text(s),
    );
    let mut items: Vec<Value> = Vec::new();
    assert(views_of(items@) =~= Seq::<ValueView>::empty());
    let mut i: usize = 0;
    while i < texts.len()
        invariant
            i <= texts.len(),
            wanted == texts@.map_values(|s: String| s@).map_values(
                |s: Seq<char>| ValueView::Text(s),
            ),
            views_of(items@) == wanted.take(i as int),
        decreases texts.len() - i,
    {
        push_item(&mut items, Value::String(texts[i].clone()));
        assert(views_of(items@) =~= wanted.take(i + 1));
        i += 1;
    }
    assert(wanted.take(texts@.len() as int) =~= wanted);
    Value::List(items)
}

impl McpServerConfig {
    /// A configuration without items to inject.
    pub fn new(name: &str, endpoint: &str) -> (r: Self)
        ensures
            r@ == (McpServerConfigView { name: name@, endpoint: endpoint@, inject: Seq::empty() }),
    {
        let r = McpServerConfig {
            name: copy_str(name),
            endpoint: copy_str(endpoint),
            inject: Vec::new(),
        };
        assert(r@.inject =~= Seq::<Seq<char>>::empty());
        r
    }

    /// Replaces the items to inject.
    pub fn with_inject(self, inject: Vec<String>) -> (r: Self)
        ensures
            r@ == (McpServerConfigView {
                name: self@.name,
                endpoint: self@.endpoint,
                inject: inject@.map_values(|s: String| s@),
            }),
    {
        McpServerConfig { name: self.name, endpoint: self.endpoint, inject }
    }

    /// The configuration as a value: a dictionary of `name`, `endpoint` and
    /// `inject`.
    pub fn to_fusabi_value(&self) -> (r: Value)
        ensures
            r@ == value_of(self@),
    {
        let mut entries: Vec<(String, Value)> = Vec::new();
        assert(entry_views(entries@) =~= Seq::<(Seq<char>, ValueView)>::empty());
        push_entry(&mut entries, "name", Value::String(self.name.clone()));
        push_entry(&mut entries, "endpoint", Value::String(self.endpoint.clone()));
        push_entry(&mut entries, "inject", text_items(&self.inject));
        assert(entry_views(entries@) =~= seq![
            ("name"@, ValueView::Text(self@.name)),
            ("endpoint"@, ValueView::Text(self@.endpoint)),
            ("inject"@, text_list(self@.inject)),
        ]);
        Value::Dict(entries)
    }

    /// The configuration that `value` stands for.
    pub fn from_fusabi_value(value: &Value) -> (r: Result<Self, Error>)
        ensures
            config_outcome(r) == config_of(value@),
    {
        match value {
            Value::Dict(map) => {
                let name = match field_text(map, "name") {
                    Some(s) => copy_str(s),
                    None => {
                        return Err(Error::invalid_value("MCP config missing 'name' field"));
                    },
                };
                let endpoint = match field_text(map, "endpoint") {
                    Some(s) => copy_str(s),
                    None => {
                        return Err(Error::invalid_value("MCP config missing 'endpoint' field"));
                    },
                };
                let inject = match dict_get(map, "inject") {
                    Some(v) => match v.as_list() {
                        Some(items) => {
                            proof {
                                lemma_views_of(items@);
                            }
                            strings_among(items)
                        },
                        None => Vec::new(),
                    },
                    None => Vec::new(),
                };
                let r = McpServerConfig { name, endpoint, inject };
                assert(r@.inject =~= inject_field(entry_views(map@)));
                Ok(r)
            },
            _ => Err(Error::invalid_value("Expected Map for MCP server config")),
        }
    }
}

/// What `mcp_server_new` gives: the value of the configuration with the
/// two texts, which must both be texts.
pub open spec fn server_new_result(name: ValueView, endpoint: ValueView) -> Result<
    ValueView,
    (ErrorKind, Seq<char>),
> {
    match name {
        ValueView::Text(n) => match endpoint {
            ValueView::Text(e) => Ok(
                value_of(McpServerConfigView { name: n, endpoint: e, inject: Seq::empty() }),
            ),
            _ => Err((ErrorKind::InvalidValue, "endpoint must be a string"@)),
        },
        _ => Err((ErrorKind::InvalidValue, "name must be a string"@)),
    }
}

/// A new server configuration as a value.
pub fn mcp_server_new(name: &Value, endpoint: &Value) -> (r: Result<Value, Error>)
    ensures
        value_outcome(r) == server_new_result(name@, endpoint@),
{
    let name_str = match name {
        Value::String(s) => s.as_str(),
        _ => {
            return Err(Error::invalid_value("name must be a string"));
        },
    };
    let endpoint_str = match endpoint {
        Value::String(s) => s.as_str(),
        _ => {
            return Err(Error::invalid_value("endpoint must be a string"));
        },
    };
    Ok(McpServerConfig::new(name_str, endpoint_str).to_fusabi_value())
}

/// What `mcp_server_with_inject` gives: the configuration of `server` with
/// the texts of the list `inject` as its items.
pub open spec fn server_with_inject_result(server: ValueView, inject: ValueView) -> Result<
    ValueView,
    (ErrorKind, Seq<char>),
> {
    match config_of(server) {
        Err(e) => Err(e),
        Ok(config) => match inject {
            ValueView::List(items) => Ok(
                value_of(
                    McpServerConfigView {
                        name: config.name,
                        endpoint: config.endpoint,
                        inject: texts_among(items, items.len() as int),
                    },
                ),
            ),
            _ => Err((ErrorKind::InvalidValue, "inject must be a list of strings"@)),
        },
    }
}

/// The server configuration `server` with the items of `inject`.
pub fn mcp_server_with_inject(server: &Value, inject: &Value) -> (r: Result<Value, Error>)
    ensures
        value_outcome(r) == server_with_inject_result(server@, inject@),
{
    let config = match McpServerConfig::from_fusabi_value(server) {
        Ok(c) => c,
        Err(e) => {
            return Err(e);
        },
    };
    let inject_items = match inject.as_list() {
        Some(items) => {
            proof {
                lemma_views_of(items@);
            }
            strings_among(items)
        },
        None => {
            return Err(Error::invalid_value("inject must be a list of strings"));
        },
    };
    Ok(config.with_inject(inject_items).to_fusabi_value())
}

/// The server configuration that is to be written as JSON.
pub fn mcp_server_to_json(server: &Value) -> (r: Result<McpServerConfig, Error>)
    ensures
        config_outcome(r) == config_of(server@),
{
    McpServerConfig::from_fusabi_value(server)
}

/// The name of a server configuration.
pub fn mcp_server_get_name(server: &Value) -> (r: Result<Value, Error>)
    ensures
        value_outcome(r) == match config_of(server@) {
            Ok(config) => Ok(ValueView::Text(config.name)),
            Err(e) => Err(e),
        },
{
    match McpServerConfig::from_fusabi_value(server) {
        Ok(config) => Ok(Value::String(config.name)),
        Err(e) => Err(e),
    }
}

/// The endpoint of a server configuration.
pub fn mcp_server_get_endpoint(server: &Value) -> (r: Result<Value, Error>)
    ensures
        value_outcome(r) == match config_of(server@) {
            Ok(config) => Ok(ValueView::Text(config.endpoint)),
            Err(e) => Err(e),
        },
{
    match McpServerConfig::from_fusabi_value(server) {
        Ok(config) => Ok(Value::String(config.endpoint)),
        Err(e) => Err(e),
    }
}

/// The items to inject of a server configuration.
pub fn mcp_server_get_inject(server: &Value) -> (r: Result<Value, Error>)
    ensures
        value_outcome(r) == match config_of(server@) {
            Ok(config) => Ok(text_list(config.inject)),
            Err(e) => Err(e),
        },
{
    match McpServerConfig::from_fusabi_value(server) {
        Ok(config) => Ok(text_items(&config.inject)),
        Err(e) => Err(e),
    }
}

proof fn lemma_texts_among_texts(texts: Seq<Seq<char>>, n: int)
    requires
        0 <= n <= texts.len(),
    ensures
        texts_among(texts.map_values(|s: Seq<char>| ValueView::Text(s)), n) == texts.take(n),
    decreases n,
{
    let items = texts.map_values(|s: Seq<char>| ValueView::Text(s));
    if n > 0 {
        lemma_texts_among_texts(texts, n - 1);
        assert(texts.take(n) =~= texts.take(n - 1).push(texts[n - 1]));
    } else {
        assert(texts.take(0) =~= Seq::<Seq<char>>::empty());
    }
}

/// A configuration comes back unchanged from its value.
pub proof fn law_config_round_trip(config: McpServerConfigView)
    ensures
        config_of(value_of(config)) == Ok::<McpServerConfigView, (ErrorKind, Seq<char>)>(config),
{
    reveal_strlit("name");
    reveal_strlit("endpoint");
    reveal_strlit("inject");
    let entries = seq![
        ("name"@, ValueView::Text(config.name)),
        ("endpoint"@, ValueView::Text(config.endpoint)),
        ("inject"@, text_list(config.inject)),
    ];
    assert("name"@.len() == 4);
    assert("endpoint"@.len() == 8);
    assert("inject"@.len() == 6);
    assert(crate::value::distinct_keys(entries));
    lemma_lookup_finds(entries, 0);
    lemma_lookup_finds(entries, 1);
    lemma_lookup_finds(entries, 2);
    lemma_texts_among_texts(config.inject, config.inject.len() as int);
    assert(config.inject.take(config.inject.len() as int) =~= config.inject);
}

} // verus!
