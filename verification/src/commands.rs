use crate::json::{items_view, Json, JsonValue};
use crate::text::str_eq;
use vstd::prelude::*;

verus! {

/// The commands that the host can give to the bridge.
#[derive(Clone, Copy, Debug, PartialEq, Eq, Structural)]
pub enum Command {
    Connect,
    Disconnect,
    SessionNew,
    SessionLoad,
    Prompt,
    Cancel,
    PermissionRespond,
    FileReadResponse,
    FileWriteResponse,
    ToolResponse,
    SetMode,
    SetModel,
}

/// The command that the host means by a method name, if it means one.
pub open spec fn command_of(method: Seq<char>) -> Option<Command> {
    if method == "cog_connect"@ {
        Some(Command::Connect)
    } else if method == "cog_disconnect"@ {
        Some(Command::Disconnect)
    } else if method == "cog_session_new"@ {
        Some(Command::SessionNew)
    } else if method == "cog_session_load"@ {
        Some(Command::SessionLoad)
    } else if method == "cog_prompt"@ {
        Some(Command::Prompt)
    } else if method == "cog_cancel"@ {
        Some(Command::Cancel)
    } else if method == "cog_permission_respond"@ {
        Some(Command::PermissionRespond)
    } else if method == "cog_file_read_response"@ {
        Some(Command::FileReadResponse)
    } else if method == "cog_file_write_response"@ {
        Some(Command::FileWriteResponse)
    } else if method == "cog_tool_response"@ {
        Some(Command::ToolResponse)
    } else if method == "cog_set_mode"@ {
        Some(Command::SetMode)
    } else if method == "cog_set_model"@ {
        Some(Command::SetModel)
    } else {
        None
    }
}

/// The command that the host means by a method name, if it means one.
pub fn command(method: &str) -> (r: Option<Command>)
    ensures
        r == command_of(method@),
{
    if str_eq(method, "cog_connect") {
        Some(Command::Connect)
    } else if str_eq(method, "cog_disconnect") {
        Some(Command::Disconnect)
    } else if str_eq(method, "cog_session_new") {
        Some(Command::SessionNew)
    } else if str_eq(method, "cog_session_load") {
        Some(Command::SessionLoad)
    } else if str_eq(method, "cog_prompt") {
        Some(Command::Prompt)
    } else if str_eq(method, "cog_cancel") {
        Some(Command::Cancel)
    } else if str_eq(method, "cog_permission_respond") {
        Some(Command::PermissionRespond)
    } else if str_eq(method, "cog_file_read_response") {
        Some(Command::FileReadResponse)
    } else if str_eq(method, "cog_file_write_response") {
        Some(Command::FileWriteResponse)
    } else if str_eq(method, "cog_tool_response") {
        Some(Command::ToolResponse)
    } else if str_eq(method, "cog_set_mode") {
        Some(Command::SetMode)
    } else if str_eq(method, "cog_set_model") {
        Some(Command::SetModel)
    } else {
        None
    }
}

/// Whether a command comes with a parameter. Only `disconnect` has none.
pub fn takes_param(command: Command) -> (r: bool)
    ensures
        r == (command != Command::Disconnect),
{
    match command {
        Command::Disconnect => false,
        _ => true,
    }
}

/// A command of the host with its fields.
#[derive(Debug, PartialEq, Eq)]
#[allow(inconsistent_fields)]
pub enum HostCommand {
    Connect {
        command: Vec<String>,
        env: Option<Vec<(String, String)>>,
        cwd: Option<String>,
        protocol_version: Option<String>,
    },
    Disconnect,
    SessionNew { cwd: Option<String> },
    SessionLoad { session_id: Option<String> },
    Prompt { session_id: String, content: String },
    Cancel { session_id: String },
    PermissionRespond { request_id: u64, option_id: String },
    FileReadResponse { request_id: u64, content: String },
    FileWriteResponse { request_id: u64, success: bool, message: Option<String> },
    ToolResponse { request_id: u64, ok: bool, result: Option<JsonValue>, error: Option<String> },
    SetMode { session_id: String, mode_id: String },
    SetModel { session_id: String, model_id: String },
}

/// The mathematical content of a [`HostCommand`].
#[allow(inconsistent_fields)]
pub enum Ask {
    Connect {
        command: Seq<Seq<char>>,
        env: Option<Seq<(Seq<char>, Seq<char>)>>,
        cwd: Option<Seq<char>>,
        protocol_version: Option<Seq<char>>,
    },
    Disconnect,
    SessionNew { cwd: Option<Seq<char>> },
    SessionLoad { session_id: Option<Seq<char>> },
    Prompt { session_id: Seq<char>, content: Seq<char> },
    Cancel { session_id: Seq<char> },
    PermissionRespond { request_id: u64, option_id: Seq<char> },
    FileReadResponse { request_id: u64, content: Seq<char> },
    FileWriteResponse { request_id: u64, success: bool, message: Option<Seq<char>> },
    ToolResponse { request_id: u64, ok: bool, result: Option<Json>, error: Option<Seq<char>> },
    SetMode { session_id: Seq<char>, mode_id: Seq<char> },
    SetModel { session_id: Seq<char>, model_id: Seq<char> },
}

/// The characters of a string that may be missing.
pub open spec fn text_view(text: Option<String>) -> Option<Seq<char>> {
    match text {
        Some(t) => Some(t@),
        None => None,
    }
}

/// The content of a document that may be missing.
pub open spec fn json_view(value: Option<JsonValue>) -> Option<Json> {
    match value {
        Some(v) => Some(v@),
        None => None,
    }
}

/// The characters of the strings of a list, one by one.
pub open spec fn texts_view(texts: Seq<String>) -> Seq<Seq<char>> {
    Seq::new(texts.len(), |i: int| texts[i]@)
}

/// The characters of the pairs of a list, one by one.
pub open spec fn pairs_view(pairs: Seq<(String, String)>) -> Seq<(Seq<char>, Seq<char>)> {
    Seq::new(pairs.len(), |i: int| (pairs[i].0@, pairs[i].1@))
}

/// The characters of the pairs of a list that may be missing.
pub open spec fn env_view(env: Option<Vec<(String, String)>>) -> Option<
    Seq<(Seq<char>, Seq<char>)>,
> {
    match env {
        Some(pairs) => Some(pairs_view(pairs@)),
        None => None,
    }
}

impl View for HostCommand {
    type V = Ask;

    open spec fn view(&self) -> Ask {
        match self {
            HostCommand::Connect { command, env, cwd, protocol_version } => Ask::Connect {
                command: texts_view(command@),
                env: env_view(*env),
                cwd: text_view(*cwd),
                protocol_version: text_view(*protocol_version),
            },
            HostCommand::Disconnect => Ask::Disconnect,
            HostCommand::SessionNew { cwd } => Ask::SessionNew { cwd: text_view(*cwd) },
            HostCommand::SessionLoad { session_id } => Ask::SessionLoad {
                session_id: text_view(*session_id),
            },
            HostCommand::Prompt { session_id, content } => Ask::Prompt {
                session_id: session_id@,
                content: content@,
            },
            HostCommand::Cancel { session_id } => Ask::Cancel { session_id: session_id@ },
            HostCommand::PermissionRespond { request_id, option_id } => Ask::PermissionRespond {
                request_id: *request_id,
                option_id: option_id@,
            },
            HostCommand::FileReadResponse { request_id, content } => Ask::FileReadResponse {
                request_id: *request_id,
                content: content@,
            },
            HostCommand::FileWriteResponse {
                request_id,
                success,
                message,
            } => Ask::FileWriteResponse {
                request_id: *request_id,
                success: *success,
                message: text_view(*message),
            },
            HostCommand::ToolResponse { request_id, ok, result, error } => Ask::ToolResponse {
                request_id: *request_id,
                ok: *ok,
                result: json_view(*result),
                error: text_view(*error),
            },
            HostCommand::SetMode { session_id, mode_id } => Ask::SetMode {
                session_id: session_id@,
                mode_id: mode_id@,
            },
            HostCommand::SetModel { session_id, model_id } => Ask::SetModel {
                session_id: session_id@,
                model_id: model_id@,
            },
        }
    }
}

/// A call to the agent: the method and its parameters.
#[derive(Debug, PartialEq, Eq)]
pub struct AgentCall {
    pub method: String,
    pub params: JsonValue,
}

/// The mathematical content of an [`AgentCall`].
pub struct Call {
    pub method: Seq<char>,
    pub params: Json,
}

impl View for AgentCall {
    type V = Call;

    open spec fn view(&self) -> Call {
        Call { method: self.method@, params: self.params@ }
    }
}

/// The protocol version that the bridge offers where the host names none.
pub open spec fn default_protocol_version() -> Seq<char> {
    "1.0"@
}

/// The extension methods that the bridge offers to the agent.
pub open spec fn extension_methods() -> Seq<Json> {
    seq![
        Json::String("_cog.nvim/grep"@),
        Json::String("_cog.nvim/apply_edits"@),
        Json::String("_cog.nvim/lsp/rename"@),
        Json::String("_cog.nvim/lsp/code_action"@),
    ]
}

/// What the bridge tells the agent of itself in the handshake: it reads and
/// writes text files for the agent, and offers the extension methods.
pub open spec fn client_capabilities() -> Json {
    Json::object2(
        "extensions"@,
        Json::object1("methods"@, Json::Array(extension_methods())),
        "fs"@,
        Json::object2("readTextFile"@, Json::Bool(true), "writeTextFile"@, Json::Bool(true)),
    )
}

/// The handshake: `initialize`, with the protocol version, the bridge's
/// capabilities and its name.
pub open spec fn initialize_call(protocol_version: Option<Seq<char>>) -> Call {
    Call {
        method: "initialize"@,
        params: Json::object3(
            "clientCapabilities"@,
            client_capabilities(),
            "clientInfo"@,
            Json::object2(
                "name"@,
                Json::String("cog.nvim"@),
                "version"@,
                Json::String("0.1.0"@),
            ),
            "protocolVersion"@,
            Json::String(
                match protocol_version {
                    Some(v) => v,
                    None => default_protocol_version(),
                },
            ),
        ),
    }
}

/// `session/new`, in the given working directory and without servers.
pub open spec fn session_new_call(cwd: Option<Seq<char>>) -> Call {
    Call {
        method: "session/new"@,
        params: Json::object2(
            "cwd"@,
            match cwd {
                Some(dir) => Json::String(dir),
                None => Json::Null,
            },
            "mcpServers"@,
            Json::Array(Seq::empty()),
        ),
    }
}

/// `session/load` of the given session.
pub open spec fn session_load_call(session_id: Seq<char>) -> Call {
    Call {
        method: "session/load"@,
        params: Json::object1("sessionId"@, Json::String(session_id)),
    }
}

/// `session/prompt`, with the content as one block of text.
pub open spec fn prompt_call(session_id: Seq<char>, content: Seq<char>) -> Call {
    Call {
        method: "session/prompt"@,
        params: Json::object2(
            "prompt"@,
            Json::Array(
                seq![
                    Json::object2(
                        "text"@,
                        Json::String(content),
                        "type"@,
                        Json::String("text"@),
                    ),
                ],
            ),
            "sessionId"@,
            Json::String(session_id),
        ),
    }
}

/// `session/cancel` of the given session.
pub open spec fn cancel_call(session_id: Seq<char>) -> Call {
    Call {
        method: "session/cancel"@,
        params: Json::object1("sessionId"@, Json::String(session_id)),
    }
}

/// `session/set_mode` of the given session.
pub open spec fn set_mode_call(session_id: Seq<char>, mode_id: Seq<char>) -> Call {
    Call {
        method: "session/set_mode"@,
        params: Json::object2(
            "modeId"@,
            Json::String(mode_id),
            "sessionId"@,
            Json::String(session_id),
        ),
    }
}

/// `session/set_model` of the given session.
pub open spec fn set_model_call(session_id: Seq<char>, model_id: Seq<char>) -> Call {
    Call {
        method: "session/set_model"@,
        params: Json::object2(
            "modelId"@,
            Json::String(model_id),
            "sessionId"@,
            Json::String(session_id),
        ),
    }
}

/// The notice that the agent gets before its connection is torn down.
pub open spec fn disconnect_notice() -> Call {
    Call { method: "disconnect"@, params: Json::Null }
}

fn extension_array() -> (r: JsonValue)
    ensures
        r@ == Json::Array(extension_methods()),
{
    let mut methods: Vec<JsonValue> = Vec::new();
    methods.push(JsonValue::string("_cog.nvim/grep"));
    methods.push(JsonValue::string("_cog.nvim/apply_edits"));
    methods.push(JsonValue::string("_cog.nvim/lsp/rename"));
    methods.push(JsonValue::string("_cog.nvim/lsp/code_action"));
    assert(items_view(methods@) =~= extension_methods());
    JsonValue::array(methods)
}

/// Builds the handshake.
pub fn build_initialize(protocol_version: &Option<String>) -> (r: AgentCall)
    ensures
        r@ == initialize_call(text_view(*protocol_version)),
{
    let version = match protocol_version {
        Some(v) => JsonValue::string(v.as_str()),
        None => JsonValue::string("1.0"),
    };
    let fs = JsonValue::object2(
        "readTextFile",
        JsonValue::Bool(true),
        "writeTextFile",
        JsonValue::Bool(true),
    );
    let extensions = JsonValue::object1("methods", extension_array());
    let capabilities = JsonValue::object2(
        "extensions",
        extensions,
        "fs",
        fs,
    );
    let info = JsonValue::object2(
        "name",
        JsonValue::string("cog.nvim"),
        "version",
        JsonValue::string("0.1.0"),
    );
    let params = JsonValue::object3(
        "clientCapabilities",
        capabilities,
        "clientInfo",
        info,
        "protocolVersion",
        version,
    );
    AgentCall { method: "initialize".to_owned(), params }
}

/// Builds `session/new`.
pub fn build_session_new(cwd: &Option<String>) -> (r: AgentCall)
    ensures
        r@ == session_new_call(text_view(*cwd)),
{
    let servers: Vec<JsonValue> = Vec::new();
    assert(items_view(servers@) =~= Seq::empty());
    let params = JsonValue::object2(
        "cwd",
        JsonValue::optional_string(cwd),
        "mcpServers",
        JsonValue::array(servers),
    );
    AgentCall { method: "session/new".to_owned(), params }
}

/// Builds `session/load`.
pub fn build_session_load(session_id: &str) -> (r: AgentCall)
    ensures
        r@ == session_load_call(session_id@),
{
    let params = JsonValue::object1("sessionId", JsonValue::string(session_id));
    AgentCall { method: "session/load".to_owned(), params }
}

/// Builds `session/prompt`.
pub fn build_prompt(session_id: &str, content: &str) -> (r: AgentCall)
    ensures
        r@ == prompt_call(session_id@, content@),
{
    let block = JsonValue::object2(
        "text",
        JsonValue::string(content),
        "type",
        JsonValue::string("text"),
    );
    let ghost b = block@;
    let mut blocks: Vec<JsonValue> = Vec::new();
    blocks.push(block);
    assert(items_view(blocks@) =~= seq![b]);
    let params = JsonValue::object2(
        "prompt",
        JsonValue::array(blocks),
        "sessionId",
        JsonValue::string(session_id),
    );
    AgentCall { method: "session/prompt".to_owned(), params }
}

/// Builds `session/cancel`.
pub fn build_cancel(session_id: &str) -> (r: AgentCall)
    ensures
        r@ == cancel_call(session_id@),
{
    let params = JsonValue::object1("sessionId", JsonValue::string(session_id));
    AgentCall { method: "session/cancel".to_owned(), params }
}

/// Builds `session/set_mode`.
pub fn build_set_mode(session_id: &str, mode_id: &str) -> (r: AgentCall)
    ensures
        r@ == set_mode_call(session_id@, mode_id@),
{
    let params = JsonValue::object2(
        "modeId",
        JsonValue::string(mode_id),
        "sessionId",
        JsonValue::string(session_id),
    );
    AgentCall { method: "session/set_mode".to_owned(), params }
}

/// Builds `session/set_model`.
pub fn build_set_model(session_id: &str, model_id: &str) -> (r: AgentCall)
    ensures
        r@ == set_model_call(session_id@, model_id@),
{
    let params = JsonValue::object2(
        "modelId",
        JsonValue::string(model_id),
        "sessionId",
        JsonValue::string(session_id),
    );
    AgentCall { method: "session/set_model".to_owned(), params }
}

/// Builds the notice of a disconnect.
pub fn build_disconnect_notice() -> (r: AgentCall)
    ensures
        r@ == disconnect_notice(),
{
    AgentCall { method: "disconnect".to_owned(), params: JsonValue::Null }
}

} // verus!
