//! Common types: backend selection, request options, identity and extension
//! data, Docker options and the bus configuration.
use crate::duration::{duration_millis, duration_of_secs};
use crate::error::Error;
use crate::json::{
    field, integer_text_u64, json_quoted, parse_u64, quote_json_string, JsonValue,
};
use crate::message::non_null;
use crate::text::{decimal, decimal_string, views};
use std::collections::HashMap;
use std::time::Duration;
use vstd::prelude::*;

verus! {

/// Backend mode selection.
#[derive(Debug, Clone, Copy, PartialEq, Eq, Structural)]
pub enum BackendMode {
    /// Auto-select: native on Unix (if available), docker otherwise
    Auto,
    /// Force native backend (requires libstdio_bus)
    Native,
    /// Force Docker backend
    Docker,
}

impl BackendMode {
    /// The lower-case name a mode is displayed with.
    pub open spec fn name(self) -> Seq<char> {
        match self {
            BackendMode::Auto => "auto"@,
            BackendMode::Native => "native"@,
            BackendMode::Docker => "docker"@,
        }
    }

    /// The display form of the mode (`auto`, `native`, `docker`).
    pub fn to_string(&self) -> (r: String)
        ensures
            r@ == self.name(),
    {
        match self {
            BackendMode::Auto => "auto".to_string(),
            BackendMode::Native => "native".to_string(),
            BackendMode::Docker => "docker".to_string(),
        }
    }
}

impl Default for BackendMode {
    fn default() -> (r: BackendMode)
        ensures
            r == BackendMode::Auto,
    {
        BackendMode::Auto
    }
}

/// Options for individual requests.
#[derive(Debug, Clone)]
pub struct RequestOptions {
    /// Request timeout
    pub timeout: Option<Duration>,
    /// Session ID for routing
    pub session_id: Option<String>,
    /// Agent ID for routing to specific agent
    pub agent_id: Option<String>,
    /// Idempotency key for replay protection
    pub idempotency_key: Option<String>,
    /// Required extensions
    pub required_extensions: Vec<String>,
}

impl Default for RequestOptions {
    fn default() -> (r: RequestOptions)
        ensures
            r.timeout is None,
            r.session_id is None,
            r.agent_id is None,
            r.idempotency_key is None,
            r.required_extensions@.len() == 0,
    {
        RequestOptions {
            timeout: None,
            session_id: None,
            agent_id: None,
            idempotency_key: None,
            required_extensions: Vec::new(),
        }
    }
}

impl RequestOptions {
    /// Create new options with timeout; everything else is unset.
    pub fn with_timeout(timeout: Duration) -> (r: RequestOptions)
        ensures
            r.timeout == Some(timeout),
            r.session_id is None,
            r.agent_id is None,
            r.idempotency_key is None,
            r.required_extensions@.len() == 0,
    {
        RequestOptions { timeout: Some(timeout), ..RequestOptions::default() }
    }

    /// Set session ID.
    pub fn session_id(self, session_id: &str) -> (r: RequestOptions)
        ensures
            r.session_id matches Some(s) && s@ == session_id@,
            r.timeout == self.timeout,
            r.agent_id == self.agent_id,
            r.idempotency_key == self.idempotency_key,
            r.required_extensions == self.required_extensions,
    {
        RequestOptions { session_id: Some(session_id.to_string()), ..self }
    }

    /// Set agent ID.
    pub fn agent_id(self, agent_id: &str) -> (r: RequestOptions)
        ensures
            r.agent_id matches Some(s) && s@ == agent_id@,
            r.timeout == self.timeout,
            r.session_id == self.session_id,
            r.idempotency_key == self.idempotency_key,
            r.required_extensions == self.required_extensions,
    {
        RequestOptions { agent_id: Some(agent_id.to_string()), ..self }
    }

    /// Set idempotency key.
    pub fn idempotency_key(self, key: &str) -> (r: RequestOptions)
        ensures
            r.idempotency_key matches Some(s) && s@ == key@,
            r.timeout == self.timeout,
            r.session_id == self.session_id,
            r.agent_id == self.agent_id,
            r.required_extensions == self.required_extensions,
    {
        RequestOptions { idempotency_key: Some(key.to_string()), ..self }
    }

    /// Add required extension at the end of the list.
    pub fn require_extension(self, extension: &str) -> (r: RequestOptions)
        ensures
            r.required_extensions@.len() == self.required_extensions@.len() + 1,
            r.required_extensions@.drop_last() == self.required_extensions@,
            r.required_extensions@.last()@ == extension@,
            r.timeout == self.timeout,
            r.session_id == self.session_id,
            r.agent_id == self.agent_id,
            r.idempotency_key == self.idempotency_key,
    {
        let mut r = self;
        r.required_extensions.push(extension.to_string());
        r
    }
}

/// Identity extension data.
#[derive(Debug, Clone)]
pub struct Identity {
    /// Stable subject identifier
    pub subject_id: String,
    /// Role in the current process
    pub role: String,
    /// Who made the assertion (self, bus, issuer:<id>)
    pub asserted_by: String,
}

impl Identity {
    /// Create a self-asserted identity.
    pub fn self_asserted(subject_id: &str, role: &str) -> (r: Identity)
        ensures
            r.subject_id@ == subject_id@,
            r.role@ == role@,
            r.asserted_by@ == "self"@,
    {
        Identity {
            subject_id: subject_id.to_string(),
            role: role.to_string(),
            asserted_by: "self".to_string(),
        }
    }
}

/// Extension negotiation data.
#[derive(Debug, Clone)]
pub struct Extensions {
    /// Requested/active extensions with versions
    pub extensions: HashMap<String, ExtensionInfo>,
}

impl Default for Extensions {
    fn default() -> (r: Extensions)
        ensures
            r.extensions@ == Map::<String, ExtensionInfo>::empty(),
    {
        Extensions { extensions: HashMap::new() }
    }
}

/// Information about a single extension.
#[derive(Debug, Clone)]
pub struct ExtensionInfo {
    /// Extension version
    pub version: String,
    /// Whether extension is required
    pub required: bool,
    /// Whether extension is active (in response)
    pub active: bool,
}

impl ExtensionInfo {
    /// Create new extension info, neither required nor active.
    pub fn new(version: &str) -> (r: ExtensionInfo)
        ensures
            r.version@ == version@,
            !r.required,
            !r.active,
    {
        ExtensionInfo { version: version.to_string(), required: false, active: false }
    }

    /// Mark as required.
    pub fn required(self) -> (r: ExtensionInfo)
        ensures
            r.required,
            r.version == self.version,
            r.active == self.active,
    {
        ExtensionInfo { required: true, ..self }
    }
}

/// Docker backend options.
#[derive(Debug, Clone)]
pub struct DockerOptions {
    /// Docker image to use
    pub image: String,
    /// Pull policy: never, if-missing, always
    pub pull_policy: String,
    /// Path to docker CLI
    pub engine_path: String,
    /// Container startup timeout
    pub startup_timeout: Duration,
    /// Container name prefix
    pub container_name_prefix: String,
    /// Extra docker run arguments
    pub extra_args: Vec<String>,
    /// Environment variables
    pub env: HashMap<String, String>,
}

impl Default for DockerOptions {
    fn default() -> (r: DockerOptions)
        ensures
            r.image@ == "stdiobus/stdiobus:node20"@,
            r.pull_policy@ == "if-missing"@,
            r.engine_path@ == "docker"@,
            r.startup_timeout == duration_of_secs(15),
            duration_millis(r.startup_timeout) == 15000,
            r.container_name_prefix@ == "stdiobus"@,
            r.extra_args@.len() == 0,
            r.env@ == Map::<String, String>::empty(),
    {
        DockerOptions {
            image: "stdiobus/stdiobus:node20".to_string(),
            pull_policy: "if-missing".to_string(),
            engine_path: "docker".to_string(),
            startup_timeout: Duration::from_secs(15),
            container_name_prefix: "stdiobus".to_string(),
            extra_args: Vec::new(),
            env: HashMap::new(),
        }
    }
}

/// One pool of identical workers.
#[derive(Debug, Clone)]
pub struct PoolConfig {
    /// Pool identifier, used for routing
    pub id: String,
    /// Worker executable
    pub command: String,
    /// Worker arguments
    pub args: Vec<String>,
    /// Number of worker processes in the pool
    pub instances: u32,
}

/// Resource limits of the bus; an unset limit keeps the bus's own default.
#[derive(Debug, Clone)]
pub struct LimitsConfig {
    pub max_input_buffer: Option<u64>,
    pub max_output_queue: Option<u64>,
    pub max_restarts: Option<u64>,
    pub restart_window_sec: Option<u64>,
    pub drain_timeout_sec: Option<u64>,
    pub backpressure_timeout_sec: Option<u64>,
}

impl Default for LimitsConfig {
    fn default() -> (r: LimitsConfig)
        ensures
            r.max_input_buffer is None,
            r.max_output_queue is None,
            r.max_restarts is None,
            r.restart_window_sec is None,
            r.drain_timeout_sec is None,
            r.backpressure_timeout_sec is None,
    {
        LimitsConfig {
            max_input_buffer: None,
            max_output_queue: None,
            max_restarts: None,
            restart_window_sec: None,
            drain_timeout_sec: None,
            backpressure_timeout_sec: None,
        }
    }
}

/// Programmatic bus configuration.
#[derive(Debug, Clone)]
pub struct BusConfig {
    /// Worker pools
    pub pools: Vec<PoolConfig>,
    /// Optional resource limits
    pub limits: Option<LimitsConfig>,
}

/// Where the bus configuration comes from.
#[derive(Debug, Clone)]
pub enum ConfigSource {
    /// A configuration file on disk
    Path(String),
    /// A configuration given as a value
    Config(BusConfig),
}

// ---------------------------------------------------------------------------
// Validation
// ---------------------------------------------------------------------------

/// Why a single pool is refused, if it is.
pub open spec fn pool_error(p: PoolConfig) -> Option<Seq<char>> {
    if p.id@.len() == 0 {
        Some("pool id must not be empty"@)
    } else if p.instances == 0 {
        Some("pool '"@ + p.id@ + "': instances must be at least 1"@)
    } else {
        None
    }
}

/// The refusal of the first refused pool, if any.
pub open spec fn first_pool_error(pools: Seq<PoolConfig>) -> Option<Seq<char>>
    decreases pools.len(),
{
    if pools.len() == 0 {
        None
    } else {
        match first_pool_error(pools.drop_last()) {
            Some(m) => Some(m),
            None => pool_error(pools.last()),
        }
    }
}

/// Why a configuration is refused: it has no pool, or one of its pools is
/// refused (the first such pool is reported).
pub open spec fn config_error(c: BusConfig) -> Option<Seq<char>> {
    if c.pools@.len() == 0 {
        Some("at least one pool must be configured"@)
    } else {
        first_pool_error(c.pools@)
    }
}

fn check_pool(p: &PoolConfig) -> (r: Result<(), Error>)
    ensures
        match pool_error(*p) {
            None => r is Ok,
            Some(m) => r matches Err(Error::InvalidArgument { message }) && message@ == m,
        },
{
    if p.id.as_str().is_empty() {
        return Err(Error::InvalidArgument { message: "pool id must not be empty".to_string() });
    }
    if p.instances == 0 {
        let mut m = "pool '".to_string();
        m.append(p.id.as_str());
        m.append("': instances must be at least 1");
        return Err(Error::InvalidArgument { message: m });
    }
    Ok(())
}

// ---------------------------------------------------------------------------
// JSON rendering
// ---------------------------------------------------------------------------

/// Items separated by commas.
pub open spec fn join_comma(parts: Seq<Seq<char>>) -> Seq<char>
    decreases parts.len(),
{
    if parts.len() == 0 {
        Seq::empty()
    } else if parts.len() == 1 {
        parts[0]
    } else {
        join_comma(parts.drop_last()) + ","@ + parts.last()
    }
}

/// A JSON array of the given element texts.
pub open spec fn array_text(parts: Seq<Seq<char>>) -> Seq<char> {
    "["@ + join_comma(parts) + "]"@
}

/// The JSON string literals of a sequence of strings.
pub open spec fn quoted_all(v: Seq<String>) -> Seq<Seq<char>> {
    v.map_values(|s: String| json_quoted(s@))
}

/// The JSON text of a pool: `{"id":..,"command":..,"args":[..],"instances":N}`.
pub open spec fn pool_json(p: PoolConfig) -> Seq<char> {
    "{\"id\":"@ + json_quoted(p.id@) + ",\"command\":"@ + json_quoted(p.command@) + ",\"args\":"@
        + array_text(quoted_all(p.args@)) + ",\"instances\":"@ + decimal(p.instances as nat)
        + "}"@
}

/// The member text of one limit, present only when the limit is set.
pub open spec fn limit_member(name: Seq<char>, v: Option<u64>) -> Seq<Seq<char>> {
    match v {
        Some(n) => seq!["\""@ + name + "\":"@ + decimal(n as nat)],
        None => Seq::empty(),
    }
}

/// The JSON text of the limits: an object with the set limits only, in
/// declaration order.
pub open spec fn limits_json(l: LimitsConfig) -> Seq<char> {
    "{"@ + join_comma(
        limit_member("max_input_buffer"@, l.max_input_buffer) + limit_member(
            "max_output_queue"@,
            l.max_output_queue,
        ) + limit_member("max_restarts"@, l.max_restarts) + limit_member(
            "restart_window_sec"@,
            l.restart_window_sec,
        ) + limit_member("drain_timeout_sec"@, l.drain_timeout_sec) + limit_member(
            "backpressure_timeout_sec"@,
            l.backpressure_timeout_sec,
        ),
    ) + "}"@
}

/// The JSON text of a configuration: `{"pools":[..]}`, with a `"limits"`
/// member after the pools when limits are given.
pub open spec fn config_json(c: BusConfig) -> Seq<char> {
    "{\"pools\":"@ + array_text(c.pools@.map_values(|p: PoolConfig| pool_json(p))) + match c.limits {
        Some(l) => ",\"limits\":"@ + limits_json(l),
        None => Seq::empty(),
    } + "}"@
}

/// Joins the pieces with commas.
fn join_with_commas(parts: &Vec<String>) -> (r: String)
    ensures
        r@ == join_comma(views(parts@)),
{
    let mut r = String::new();
    let mut i: usize = 0;
    while i < parts.len()
        invariant
            i <= parts.len(),
            r@ == join_comma(views(parts@.take(i as int))),
        decreases parts.len() - i,
    {
        let ghost before = views(parts@.take(i as int));
        let ghost after = views(parts@.take(i as int + 1));
        assert(after.drop_last() =~= before);
        if i > 0 {
            r.append(",");
        }
        r.append(parts[i].as_str());
        proof {
            if i == 0 {
                assert(r@ =~= after[0]);
            } else {
                assert(r@ =~= join_comma(after.drop_last()) + ","@ + after.last());
            }
        }
        i = i + 1;
    }
    assert(parts@.take(parts.len() as int) =~= parts@);
    r
}

/// Quotes every string.
fn quote_each(items: &Vec<String>) -> (r: Vec<String>)
    ensures
        views(r@) == quoted_all(items@),
{
    let mut out: Vec<String> = Vec::new();
    let mut i: usize = 0;
    while i < items.len()
        invariant
            i <= items.len(),
            out@.len() == i,
            views(out@) == quoted_all(items@.take(i as int)),
        decreases items.len() - i,
    {
        let ghost before = out@;
        let t = quote_json_string(items[i].as_str());
        out.push(t);
        assert(out@[i as int]@ == json_quoted(items@[i as int]@));
        assert forall|j: int| 0 <= j < i implies out@[j] == before[j] by {}
        assert forall|j: int| 0 <= j < i + 1 implies views(out@)[j] == quoted_all(
            items@.take(i as int + 1),
        )[j] by {
            if j < i {
                assert(views(before)[j] == quoted_all(items@.take(i as int))[j]);
            }
        }
        assert(views(out@) =~= quoted_all(items@.take(i as int + 1)));
        i = i + 1;
    }
    assert(items@.take(items.len() as int) =~= items@);
    out
}

fn pool_to_json(p: &PoolConfig) -> (r: String)
    ensures
        r@ == pool_json(*p),
{
    let id = quote_json_string(p.id.as_str());
    let command = quote_json_string(p.command.as_str());
    let args = quote_each(&p.args);
    let args_text = join_with_commas(&args);
    let count = decimal_string(p.instances as u128);
    let mut r = "{\"id\":".to_string();
    r.append(id.as_str());
    r.append(",\"command\":");
    r.append(command.as_str());
    r.append(",\"args\":[");
    r.append(args_text.as_str());
    r.append("],\"instances\":");
    r.append(count.as_str());
    r.append("}");
    proof {
        reveal_strlit(",\"args\":[");
        reveal_strlit(",\"args\":");
        reveal_strlit("[");
        reveal_strlit("],\"instances\":");
        reveal_strlit("]");
        reveal_strlit(",\"instances\":");
        assert(r@ =~= pool_json(*p));
    }
    r
}

fn push_limit(members: &mut Vec<String>, name: &str, v: Option<u64>)
    ensures
        views(final(members)@) == views(old(members)@) + limit_member(name@, v),
{
    match v {
        Some(n) => {
            let mut m = "\"".to_string();
            m.append(name);
            m.append("\":");
            let digits = decimal_string(n as u128);
            m.append(digits.as_str());
            members.push(m);
            assert(views(members@) =~= views(old(members)@) + limit_member(name@, v));
        },
        None => {
            assert(views(members@) =~= views(old(members)@) + limit_member(name@, v));
        },
    }
}

fn limits_to_json(l: &LimitsConfig) -> (r: String)
    ensures
        r@ == limits_json(*l),
{
    let mut members: Vec<String> = Vec::new();
    push_limit(&mut members, "max_input_buffer", l.max_input_buffer);
    push_limit(&mut members, "max_output_queue", l.max_output_queue);
    push_limit(&mut members, "max_restarts", l.max_restarts);
    push_limit(&mut members, "restart_window_sec", l.restart_window_sec);
    push_limit(&mut members, "drain_timeout_sec", l.drain_timeout_sec);
    push_limit(&mut members, "backpressure_timeout_sec", l.backpressure_timeout_sec);
    let body = join_with_commas(&members);
    let mut r = "{".to_string();
    r.append(body.as_str());
    r.append("}");
    r
}

impl BusConfig {
    /// Checks the configuration: at least one pool, and every pool has a
    /// non-empty id and at least one instance. The error names the first
    /// problem found.
    pub fn validate(&self) -> (r: Result<(), Error>)
        ensures
            match config_error(*self) {
                None => r is Ok,
                Some(m) => r matches Err(Error::InvalidArgument { message }) && message@ == m,
            },
    {
        if self.pools.len() == 0 {
            return Err(
                Error::InvalidArgument {
                    message: "at least one pool must be configured".to_string(),
                },
            );
        }
        let mut i: usize = 0;
        while i < self.pools.len()
            invariant
                i <= self.pools.len(),
                self.pools@.len() > 0,
                first_pool_error(self.pools@.take(i as int)) is None,
            decreases self.pools.len() - i,
        {
            assert(self.pools@.take(i as int + 1).drop_last() =~= self.pools@.take(i as int));
            let r = check_pool(&self.pools[i]);
            if r.is_err() {
                assert(first_pool_error(self.pools@.take(i as int + 1)) == pool_error(
                    self.pools@[i as int],
                ));
                assert(self.pools@.take(self.pools@.len() as int) =~= self.pools@);
                proof {
                    lemma_first_error_prefix(self.pools@, i as int + 1);
                }
                return r;
            }
            i = i + 1;
        }
        assert(self.pools@.take(self.pools@.len() as int) =~= self.pools@);
        Ok(())
    }

    /// Renders the configuration as the JSON document the bus reads. It
    /// always succeeds.
    pub fn to_json(&self) -> (r: Result<String, Error>)
        ensures
            r is Ok,
            r matches Ok(t) ==> t@ == config_json(*self),
    {
        let mut pools: Vec<String> = Vec::new();
        let mut i: usize = 0;
        while i < self.pools.len()
            invariant
                i <= self.pools.len(),
                pools@.len() == i,
                views(pools@) == self.pools@.take(i as int).map_values(|p: PoolConfig| pool_json(p)),
            decreases self.pools.len() - i,
        {
            let ghost before = pools@;
            let t = pool_to_json(&self.pools[i]);
            pools.push(t);
            assert(pools@[i as int]@ == pool_json(self.pools@[i as int]));
            assert forall|j: int| 0 <= j < i implies pools@[j] == before[j] by {}
            assert forall|j: int| 0 <= j < i + 1 implies views(pools@)[j] == self.pools@.take(
                i as int + 1,
            ).map_values(|p: PoolConfig| pool_json(p))[j] by {
                if j < i {
                    assert(views(before)[j] == self.pools@.take(i as int).map_values(
                        |p: PoolConfig| pool_json(p),
                    )[j]);
                }
            }
            assert(views(pools@) =~= self.pools@.take(i as int + 1).map_values(
                |p: PoolConfig| pool_json(p),
            ));
            i = i + 1;
        }
        assert(self.pools@.take(self.pools@.len() as int) =~= self.pools@);
        let pools_text = join_with_commas(&pools);
        let mut r = "{\"pools\":[".to_string();
        r.append(pools_text.as_str());
        r.append("]");
        match &self.limits {
            Some(l) => {
                r.append(",\"limits\":");
                let lt = limits_to_json(l);
                r.append(lt.as_str());
            },
            None => {},
        }
        r.append("}");
        proof {
            reveal_strlit("{\"pools\":[");
            reveal_strlit("{\"pools\":");
            reveal_strlit("[");
            reveal_strlit("]");
            assert(r@ =~= config_json(*self));
        }
        Ok(r)
    }
}

// ---------------------------------------------------------------------------
// Reading
// ---------------------------------------------------------------------------

/// What a pool holds, its strings taken by their text: id, command,
/// arguments and instance count.
pub open spec fn pool_view(p: PoolConfig) -> (Seq<char>, Seq<char>, Seq<Seq<char>>, u32) {
    (p.id@, p.command@, views(p.args@), p.instances)
}

/// What a configuration holds: its pools and its limits.
pub open spec fn config_view(c: BusConfig) -> (
    Seq<(Seq<char>, Seq<char>, Seq<Seq<char>>, u32)>,
    Option<LimitsConfig>,
) {
    (c.pools@.map_values(|p: PoolConfig| pool_view(p)), c.limits)
}

/// The texts of a JSON array whose items are all strings.
pub open spec fn texts_of(items: Seq<JsonValue>) -> Option<Seq<Seq<char>>> {
    if forall|i: int| 0 <= i < items.len() ==> #[trigger] items[i] is String {
        Some(Seq::new(items.len(), |i: int| items[i]->String_0@))
    } else {
        None
    }
}

/// Reads a pool: an object with a string `id`, a string `command`, an array
/// of strings `args` and an integer `instances` that fits a `u32`. Other
/// members are ignored.
pub open spec fn decode_pool(v: JsonValue) -> Option<(Seq<char>, Seq<char>, Seq<Seq<char>>, u32)> {
    match (field(v, "id"@), field(v, "command"@), field(v, "args"@), field(v, "instances"@)) {
        (
            Some(JsonValue::String(id)),
            Some(JsonValue::String(command)),
            Some(JsonValue::Array(items)),
            Some(JsonValue::Number(t)),
        ) => match (texts_of(items@), integer_text_u64(t@)) {
            (Some(args), Some(n)) => if n <= u32::MAX {
                Some((id@, command@, args, n as u32))
            } else {
                None
            },
            _ => None,
        },
        _ => None,
    }
}

/// The pools of a JSON array whose items all read as pools.
pub open spec fn pools_of(items: Seq<JsonValue>) -> Option<
    Seq<(Seq<char>, Seq<char>, Seq<Seq<char>>, u32)>,
> {
    if forall|i: int| 0 <= i < items.len() ==> #[trigger] decode_pool(items[i]) is Some {
        Some(Seq::new(items.len(), |i: int| decode_pool(items[i])->0))
    } else {
        None
    }
}

/// Reads one limit: absent or `null` leaves it unset, an integer that fits
/// a `u64` sets it, and anything else makes the limits unreadable (the
/// outer `None`).
pub open spec fn limit_value(v: Option<JsonValue>) -> Option<Option<u64>> {
    match v {
        None => Some(None),
        Some(JsonValue::Null) => Some(None),
        Some(JsonValue::Number(t)) => match integer_text_u64(t@) {
            Some(n) => Some(Some(n)),
            None => None,
        },
        Some(_) => None,
    }
}

/// Reads the limits: an object whose members, each optional, are limits.
/// Other members are ignored.
pub open spec fn decode_limits(v: JsonValue) -> Option<LimitsConfig> {
    match v {
        JsonValue::Object(_) => match (
            limit_value(field(v, "max_input_buffer"@)),
            limit_value(field(v, "max_output_queue"@)),
            limit_value(field(v, "max_restarts"@)),
            limit_value(field(v, "restart_window_sec"@)),
            limit_value(field(v, "drain_timeout_sec"@)),
            limit_value(field(v, "backpressure_timeout_sec"@)),
        ) {
            (Some(a), Some(b), Some(c), Some(d), Some(e), Some(f)) => Some(
                LimitsConfig {
                    max_input_buffer: a,
                    max_output_queue: b,
                    max_restarts: c,
                    restart_window_sec: d,
                    drain_timeout_sec: e,
                    backpressure_timeout_sec: f,
                },
            ),
            _ => None,
        },
        _ => None,
    }
}

/// Reads a configuration: an object with an array `pools` of pools and
/// optional `limits` (`null` counts as absent). Other members are ignored.
pub open spec fn decode_config(v: JsonValue) -> Option<
    (Seq<(Seq<char>, Seq<char>, Seq<Seq<char>>, u32)>, Option<LimitsConfig>),
> {
    match field(v, "pools"@) {
        Some(JsonValue::Array(items)) => match pools_of(items@) {
            Some(ps) => match non_null(field(v, "limits"@)) {
                None => Some((ps, None)),
                Some(lv) => match decode_limits(lv) {
                    Some(l) => Some((ps, Some(l))),
                    None => None,
                },
            },
            None => None,
        },
        _ => None,
    }
}

fn texts_from(items: &Vec<JsonValue>) -> (r: Option<Vec<String>>)
    ensures
        match r {
            Some(v) => texts_of(items@) == Some(views(v@)),
            None => texts_of(items@) is None,
        },
{
    let mut out: Vec<String> = Vec::new();
    let mut i: usize = 0;
    while i < items.len()
        invariant
            i <= items.len(),
            out@.len() == i,
            forall|j: int| 0 <= j < i ==> #[trigger] items@[j] is String,
            forall|j: int| 0 <= j < i ==> #[trigger] out@[j]@ == items@[j]->String_0@,
        decreases items.len() - i,
    {
        match &items[i] {
            JsonValue::String(t) => {
                out.push(t.clone());
            },
            _ => {
                return None;
            },
        }
        i = i + 1;
    }
    assert(views(out@) =~= Seq::new(items@.len(), |j: int| items@[j]->String_0@));
    Some(out)
}

fn count_from(v: Option<&JsonValue>) -> (r: Option<u64>)
    ensures
        r == (match v {
            Some(JsonValue::Number(t)) => integer_text_u64(t@),
            _ => None,
        }),
{
    match v {
        Some(JsonValue::Number(t)) => parse_u64(t.as_str()),
        _ => None,
    }
}

fn pool_from(v: &JsonValue) -> (r: Option<PoolConfig>)
    ensures
        match r {
            Some(p) => decode_pool(*v) == Some(pool_view(p)),
            None => decode_pool(*v) is None,
        },
{
    let id = match v.get("id") {
        Some(JsonValue::String(t)) => t.clone(),
        _ => {
            return None;
        },
    };
    let command = match v.get("command") {
        Some(JsonValue::String(t)) => t.clone(),
        _ => {
            return None;
        },
    };
    let args = match v.get("args") {
        Some(JsonValue::Array(items)) => match texts_from(items) {
            Some(a) => a,
            None => {
                return None;
            },
        },
        _ => {
            return None;
        },
    };
    let n = match v.get("instances") {
        Some(x) => match count_from(Some(x)) {
            Some(n) => n,
            None => {
                return None;
            },
        },
        None => {
            return None;
        },
    };
    if n > 4294967295 {
        return None;
    }
    Some(PoolConfig { id, command, args, instances: n as u32 })
}

fn pools_from(items: &Vec<JsonValue>) -> (r: Option<Vec<PoolConfig>>)
    ensures
        match r {
            Some(ps) => pools_of(items@) == Some(ps@.map_values(|p: PoolConfig| pool_view(p))),
            None => pools_of(items@) is None,
        },
{
    let mut out: Vec<PoolConfig> = Vec::new();
    let mut i: usize = 0;
    while i < items.len()
        invariant
            i <= items.len(),
            out@.len() == i,
            forall|j: int| 0 <= j < i ==> #[trigger] decode_pool(items@[j]) is Some,
            forall|j: int|
                0 <= j < i ==> decode_pool(items@[j]) == Some(pool_view(#[trigger] out@[j])),
        decreases items.len() - i,
    {
        match pool_from(&items[i]) {
            Some(p) => {
                out.push(p);
            },
            None => {
                return None;
            },
        }
        i = i + 1;
    }
    assert(out@.map_values(|p: PoolConfig| pool_view(p)) =~= Seq::new(
        items@.len(),
        |j: int| decode_pool(items@[j])->0,
    ));
    Some(out)
}

fn limit_from(v: Option<&JsonValue>) -> (r: Option<Option<u64>>)
    ensures
        r == limit_value(match v {
            Some(x) => Some(*x),
            None => None,
        }),
{
    match v {
        None => Some(None),
        Some(JsonValue::Null) => Some(None),
        Some(JsonValue::Number(t)) => match parse_u64(t.as_str()) {
            Some(n) => Some(Some(n)),
            None => None,
        },
        Some(_) => None,
    }
}

fn limits_from(v: &JsonValue) -> (r: Option<LimitsConfig>)
    ensures
        r == decode_limits(*v),
{
    if !v.is_object() {
        return None;
    }
    let a = limit_from(v.get("max_input_buffer"));
    let b = limit_from(v.get("max_output_queue"));
    let c = limit_from(v.get("max_restarts"));
    let d = limit_from(v.get("restart_window_sec"));
    let e = limit_from(v.get("drain_timeout_sec"));
    let f = limit_from(v.get("backpressure_timeout_sec"));
    match (a, b, c, d, e, f) {
        (Some(a), Some(b), Some(c), Some(d), Some(e), Some(f)) => Some(
            LimitsConfig {
                max_input_buffer: a,
                max_output_queue: b,
                max_restarts: c,
                restart_window_sec: d,
                drain_timeout_sec: e,
                backpressure_timeout_sec: f,
            },
        ),
        _ => None,
    }
}

impl BusConfig {
    /// Reads a configuration from its JSON value.
    pub fn from_value(v: &JsonValue) -> (r: Option<BusConfig>)
        ensures
            match r {
                Some(c) => decode_config(*v) == Some(config_view(c)),
                None => decode_config(*v) is None,
            },
    {
        let pools = match v.get("pools") {
            Some(JsonValue::Array(items)) => match pools_from(items) {
                Some(ps) => ps,
                None => {
                    return None;
                },
            },
            _ => {
                return None;
            },
        };
        let limits = match v.get("limits") {
            None => None,
            Some(JsonValue::Null) => None,
            Some(lv) => match limits_from(lv) {
                Some(l) => Some(l),
                None => {
                    return None;
                },
            },
        };
        Some(BusConfig { pools, limits })
    }
}

/// A configuration is accepted exactly when it has at least one pool and
/// none of its pools is refused.
pub proof fn lemma_config_accepted(c: BusConfig)
    ensures
        config_error(c) is None <==> (c.pools@.len() > 0 && forall|i: int|
            0 <= i < c.pools@.len() ==> #[trigger] pool_error(c.pools@[i]) is None),
{
    if c.pools@.len() > 0 {
        lemma_first_pool_error_iff(c.pools@);
    }
}

/// Which pools are accepted: a pool is refused exactly when its id is empty
/// or it asks for no instance; its command and arguments play no part. The
/// refusal names the empty id first, else the pool and its instance count.
pub proof fn lemma_pool_acceptance(p: PoolConfig)
    ensures
        pool_error(p) is None <==> (p.id@.len() > 0 && p.instances >= 1),
        p.id@.len() == 0 ==> pool_error(p) == Some("pool id must not be empty"@),
        p.id@.len() > 0 && p.instances == 0 ==> pool_error(p) == Some(
            "pool '"@ + p.id@ + "': instances must be at least 1"@,
        ),
        forall|q: PoolConfig|
            q.id@ == p.id@ && q.instances == p.instances ==> #[trigger] pool_error(q)
                == pool_error(p),
{
}

/// Which configurations are accepted: exactly those that list at least one
/// pool, every pool with a non-empty id and at least one instance, whatever
/// the pools' commands, arguments and the limits.
pub proof fn lemma_config_acceptance(c: BusConfig)
    ensures
        config_error(c) is None <==> (c.pools@.len() > 0 && forall|i: int|
            0 <= i < c.pools@.len() ==> (#[trigger] c.pools@[i]).id@.len() > 0
                && c.pools@[i].instances >= 1),
        c.pools@.len() == 0 ==> config_error(c) == Some("at least one pool must be configured"@),
{
    lemma_config_accepted(c);
    assert forall|i: int| 0 <= i < c.pools@.len() implies (pool_error(#[trigger] c.pools@[i]) is None
        <==> (c.pools@[i].id@.len() > 0 && c.pools@[i].instances >= 1)) by {
        lemma_pool_acceptance(c.pools@[i]);
    }
}

/// No pool of a list is refused exactly when the list has no first refused
/// pool.
pub proof fn lemma_first_pool_error_iff(pools: Seq<PoolConfig>)
    ensures
        first_pool_error(pools) is None <==> forall|i: int|
            0 <= i < pools.len() ==> #[trigger] pool_error(pools[i]) is None,
    decreases pools.len(),
{
    if pools.len() > 0 {
        lemma_first_pool_error_iff(pools.drop_last());
        if first_pool_error(pools) is None {
            assert forall|i: int| 0 <= i < pools.len() implies #[trigger] pool_error(pools[i]) is None by {
                if i < pools.len() - 1 {
                    assert(pools[i] == pools.drop_last()[i]);
                }
            }
        } else {
            if first_pool_error(pools.drop_last()) is Some {
                let j = choose|j: int|
                    0 <= j < pools.drop_last().len() && pool_error(#[trigger] pools.drop_last()[j]) is Some;
                assert(pools[j] == pools.drop_last()[j]);
            } else {
                assert(pool_error(pools[pools.len() - 1]) is Some);
            }
        }
    }
}

/// When the first refused pool lies in a prefix, it is the first refused
/// pool of the whole list.
pub proof fn lemma_first_error_prefix(pools: Seq<PoolConfig>, n: int)
    requires
        0 <= n <= pools.len(),
        first_pool_error(pools.take(n)) is Some,
    ensures
        first_pool_error(pools) == first_pool_error(pools.take(n)),
    decreases pools.len() - n,
{
    if n < pools.len() {
        assert(pools.drop_last().take(n) =~= pools.take(n));
        lemma_first_error_prefix(pools.drop_last(), n);
    } else {
        assert(pools.take(n) =~= pools);
    }
}

} // verus!
