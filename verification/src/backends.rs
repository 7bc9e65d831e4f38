//! The decisions the backends make around their outside work: which backend
//! to create, where the Docker backend finds its configuration, how the
//! Docker container is pulled, started, reached and stopped, and what the
//! native library's return codes mean.
use crate::error::Error;
use crate::ffi::STDIO_BUS_OK;
use crate::lifecycle::BusPtr;
use crate::text::{
    decimal, decimal_string, signed_decimal, signed_decimal_string, trim_text,
    trimmed, views,
};
use crate::types::{BackendMode, BusConfig};
use vstd::prelude::*;

verus! {

/// A kind of backend.
#[derive(Debug, Clone, Copy, PartialEq, Eq, Structural)]
pub enum BackendKind {
    /// The native library, linked into the process
    Native,
    /// The bus running in a Docker container
    Docker,
}

/// Which backend to create first, and whether a failure to create it falls
/// back to Docker.
#[derive(Debug, Clone, Copy, PartialEq, Eq, Structural)]
pub struct BackendPlan {
    pub first: BackendKind,
    pub fallback_to_docker: bool,
}

/// The error when the native backend was not built.
pub open spec fn native_unavailable_text() -> Seq<char> {
    "Native backend not available (compile with 'native' feature)"@
}

/// The error when the Docker backend was not built.
pub open spec fn docker_unavailable_text() -> Seq<char> {
    "Docker backend not available (compile with 'docker' feature)"@
}

/// The plan for a backend mode: `Docker` uses Docker; `Native` uses the
/// native library; `Auto` uses Docker on Windows, and elsewhere the native
/// library when it was built (falling back to Docker if it cannot be
/// created), else Docker. A backend that was not built is an error.
pub open spec fn backend_plan(mode: BackendMode, on_windows: bool, native_built: bool, docker_built: bool) -> Result<
    BackendPlan,
    Seq<char>,
> {
    let docker_only = if docker_built {
        Ok(BackendPlan { first: BackendKind::Docker, fallback_to_docker: false })
    } else {
        Err(docker_unavailable_text())
    };
    match mode {
        BackendMode::Auto => if on_windows {
            docker_only
        } else if native_built {
            Ok(BackendPlan { first: BackendKind::Native, fallback_to_docker: true })
        } else {
            docker_only
        },
        BackendMode::Native => if native_built {
            Ok(BackendPlan { first: BackendKind::Native, fallback_to_docker: false })
        } else {
            Err(native_unavailable_text())
        },
        BackendMode::Docker => docker_only,
    }
}

/// Choosing a backend explicitly does not depend on the platform: Docker
/// mode plans the Docker backend, without fallback, on Windows and
/// elsewhere whenever the Docker backend is built, and is refused only when
/// it is not; native mode plans the native backend whenever it is built.
/// Only automatic selection looks at the platform, and it never plans the
/// native library on Windows.
pub proof fn lemma_explicit_modes_ignore_platform(
    on_windows: bool,
    native_built: bool,
    docker_built: bool,
    other_platform: bool,
    other_native: bool,
)
    ensures
        docker_built ==> backend_plan(BackendMode::Docker, on_windows, native_built, docker_built)
            == Ok::<BackendPlan, Seq<char>>(
            BackendPlan { first: BackendKind::Docker, fallback_to_docker: false },
        ),
        !docker_built ==> backend_plan(BackendMode::Docker, on_windows, native_built, docker_built)
            is Err,
        backend_plan(BackendMode::Docker, on_windows, native_built, docker_built) == backend_plan(
            BackendMode::Docker,
            other_platform,
            other_native,
            docker_built,
        ),
        native_built ==> backend_plan(BackendMode::Native, on_windows, native_built, docker_built)
            == Ok::<BackendPlan, Seq<char>>(
            BackendPlan { first: BackendKind::Native, fallback_to_docker: false },
        ),
        on_windows ==> backend_plan(BackendMode::Auto, on_windows, native_built, docker_built)
            == backend_plan(BackendMode::Docker, on_windows, native_built, docker_built),
        !on_windows && native_built ==> backend_plan(
            BackendMode::Auto,
            on_windows,
            native_built,
            docker_built,
        ) == Ok::<BackendPlan, Seq<char>>(
            BackendPlan { first: BackendKind::Native, fallback_to_docker: true },
        ),
{
}

fn docker_backend_only(built: bool) -> (r: Result<BackendPlan, Error>)
    ensures
        built ==> r == Ok::<BackendPlan, Error>(
            BackendPlan { first: BackendKind::Docker, fallback_to_docker: false },
        ),
        !built ==> (r matches Err(Error::InvalidArgument { message }) && message@
            == docker_unavailable_text()),
{
    if built {
        Ok(BackendPlan { first: BackendKind::Docker, fallback_to_docker: false })
    } else {
        Err(
            Error::InvalidArgument {
                message: "Docker backend not available (compile with 'docker' feature)".to_string(),
            },
        )
    }
}

/// Resolve which backend to create for a mode on this platform.
pub fn resolve_backend(mode: BackendMode, on_windows: bool, native_built: bool, docker_built: bool) -> (r:
    Result<BackendPlan, Error>)
    ensures
        match backend_plan(mode, on_windows, native_built, docker_built) {
            Ok(p) => r == Ok::<BackendPlan, Error>(p),
            Err(m) => r matches Err(Error::InvalidArgument { message }) && message@ == m,
        },
{
    match mode {
        BackendMode::Auto => {
            if on_windows {
                docker_backend_only(docker_built)
            } else if native_built {
                Ok(BackendPlan { first: BackendKind::Native, fallback_to_docker: true })
            } else {
                docker_backend_only(docker_built)
            }
        },
        BackendMode::Native => {
            if native_built {
                Ok(BackendPlan { first: BackendKind::Native, fallback_to_docker: false })
            } else {
                Err(
                    Error::InvalidArgument {
                        message: "Native backend not available (compile with 'native' feature)".to_string(),
                    },
                )
            }
        },
        BackendMode::Docker => docker_backend_only(docker_built),
    }
}

// ---------------------------------------------------------------------------
// Docker backend
// ---------------------------------------------------------------------------

/// The name of the temporary file a configuration value is written to for
/// the Docker backend: `stdiobus-{pid}.json`.
pub fn temp_config_file_name(pid: u32) -> (r: String)
    ensures
        r@ == "stdiobus-"@ + decimal(pid as nat) + ".json"@,
{
    let digits = decimal_string(pid as u128);
    let mut r = "stdiobus-".to_string();
    r.append(digits.as_str());
    r.append(".json");
    r
}

/// Renders a configuration value for the Docker backend, which reads it
/// from a file. A rendering failure would become an invalid-argument error
/// that starts with `Failed to serialize config: `; rendering a
/// configuration never fails, so the text always comes back.
pub fn config_file_text(config: &BusConfig) -> (r: Result<String, Error>)
    ensures
        r is Ok,
        r matches Ok(t) ==> t@ == crate::types::config_json(*config),
{
    match config.to_json() {
        Ok(t) => Ok(t),
        Err(e) => {
            let detail = e.to_string();
            let mut message = "Failed to serialize config: ".to_string();
            message.append(detail.as_str());
            Err(Error::InvalidArgument { message })
        },
    }
}

/// The Docker backend needs its configuration file to exist.
pub fn require_config_file(path: &str, exists: bool) -> (r: Result<(), Error>)
    ensures
        exists ==> r is Ok,
        !exists ==> (r matches Err(Error::InvalidArgument { message }) && message@
            == "Config file not found: "@ + path@),
{
    if exists {
        Ok(())
    } else {
        let mut message = "Config file not found: ".to_string();
        message.append(path);
        Err(Error::InvalidArgument { message })
    }
}

/// The first step of making the image available.
#[derive(Debug, Clone, Copy, PartialEq, Eq, Structural)]
pub enum PullStep {
    /// Never pull
    Skip,
    /// Look for the image locally, and pull it only when it is missing
    InspectFirst,
    /// Pull unconditionally
    Pull,
}

/// The first step for a pull policy: `never` skips, `if-missing` inspects
/// first, anything else pulls.
pub fn pull_step(policy: &str) -> (r: PullStep)
    ensures
        policy@ == "never"@ ==> r == PullStep::Skip,
        policy@ == "if-missing"@ ==> r == PullStep::InspectFirst,
        policy@ != "never"@ && policy@ != "if-missing"@ ==> r == PullStep::Pull,
{
    proof {
        reveal_strlit("never");
        reveal_strlit("if-missing");
        assert("never"@.len() == 5 && "if-missing"@.len() == 10);
    }
    let p = policy.to_string();
    if p == "never".to_string() {
        PullStep::Skip
    } else if p == "if-missing".to_string() {
        PullStep::InspectFirst
    } else {
        PullStep::Pull
    }
}

/// After inspecting the image locally: a pull is needed exactly when it was
/// not found.
pub fn needs_pull(found: bool) -> (r: bool)
    ensures
        r == !found,
{
    !found
}

/// The outcome of `docker pull`.
pub fn pull_result(success: bool, image: &str) -> (r: Result<(), Error>)
    ensures
        success ==> r is Ok,
        !success ==> (r matches Err(Error::TransportError { message }) && message@
            == "Failed to pull image: "@ + image@),
{
    if success {
        Ok(())
    } else {
        let mut message = "Failed to pull image: ".to_string();
        message.append(image);
        Err(Error::TransportError { message })
    }
}

/// A container name: `{prefix}-{token}`.
pub fn container_name(prefix: &str, token: &str) -> (r: String)
    ensures
        r@ == prefix@ + "-"@ + token@,
{
    let mut r = prefix.to_string();
    r.append("-");
    r.append(token);
    r
}

/// A fresh container name, with a random UUID as token.
pub fn fresh_container_name(prefix: &str) -> (r: String)
    ensures
        exists|u: Seq<char>| crate::ids::is_v4_uuid_text(u) && r@ == prefix@ + "-"@ + u,
{
    let u = crate::ids::fresh_uuid();
    container_name(prefix, u.as_str())
}

/// The mount of the configuration file: `{path}:/config.json:ro`.
pub fn config_mount(path: &str) -> (r: String)
    ensures
        r@ == path@ + ":/config.json:ro"@,
{
    let mut r = path.to_string();
    r.append(":/config.json:ro");
    r
}

/// The loopback address of a local port: `127.0.0.1:{port}`.
pub fn local_address(port: u16) -> (r: String)
    ensures
        r@ == "127.0.0.1:"@ + decimal(port as nat),
{
    let digits = decimal_string(port as u128);
    let mut r = "127.0.0.1:".to_string();
    r.append(digits.as_str());
    r
}

/// The arguments of one environment variable: `-e` and `{key}={value}`.
pub open spec fn env_args(env: Seq<(String, String)>) -> Seq<Seq<char>>
    decreases env.len(),
{
    if env.len() == 0 {
        Seq::empty()
    } else {
        env_args(env.drop_last()) + seq!["-e"@, env.last().0@ + "="@ + env.last().1@]
    }
}

/// The arguments of `docker run` that start the bus container: detached,
/// removed on exit, named, with the configuration mounted read-only and the
/// bus port 8080 published on the given local port, then the environment
/// variables, the extra arguments, the image and the bus's own arguments.
pub open spec fn run_args(
    name: Seq<char>,
    mount: Seq<char>,
    port: u16,
    env: Seq<(String, String)>,
    extra: Seq<Seq<char>>,
    image: Seq<char>,
) -> Seq<Seq<char>> {
    seq![
        "run"@,
        "-d"@,
        "--rm"@,
        "--name"@,
        name,
        "-v"@,
        mount,
        "-p"@,
        "127.0.0.1:"@ + decimal(port as nat) + ":8080"@,
    ] + env_args(env) + extra + seq![
        image,
        "--config"@,
        "/config.json"@,
        "--tcp"@,
        "0.0.0.0:8080"@,
    ]
}

fn push_str(v: &mut Vec<String>, s: &str)
    ensures
        views(final(v)@) == views(old(v)@).push(s@),
{
    v.push(s.to_string());
    assert(views(v@) =~= views(old(v)@).push(s@));
}

/// Builds the `docker run` arguments.
pub fn docker_run_args(
    name: &str,
    mount: &str,
    port: u16,
    env: &Vec<(String, String)>,
    extra: &Vec<String>,
    image: &str,
) -> (r: Vec<String>)
    ensures
        views(r@) == run_args(name@, mount@, port, env@, views(extra@), image@),
{
    let mut args: Vec<String> = Vec::new();
    push_str(&mut args, "run");
    push_str(&mut args, "-d");
    push_str(&mut args, "--rm");
    push_str(&mut args, "--name");
    push_str(&mut args, name);
    push_str(&mut args, "-v");
    push_str(&mut args, mount);
    push_str(&mut args, "-p");
    let mut publish = local_address(port);
    publish.append(":8080");
    push_str(&mut args, publish.as_str());
    let ghost head = views(args@);
    let mut i: usize = 0;
    while i < env.len()
        invariant
            i <= env.len(),
            views(args@) == head + env_args(env@.take(i as int)),
        decreases env.len() - i,
    {
        assert(env@.take(i as int + 1).drop_last() =~= env@.take(i as int));
        let mut pair = env[i].0.clone();
        pair.append("=");
        pair.append(env[i].1.as_str());
        push_str(&mut args, "-e");
        push_str(&mut args, pair.as_str());
        i = i + 1;
        assert(views(args@) =~= head + env_args(env@.take(i as int)));
    }
    assert(env@.take(env.len() as int) =~= env@);
    let ghost mid = views(args@);
    let mut j: usize = 0;
    while j < extra.len()
        invariant
            j <= extra.len(),
            views(args@) == mid + views(extra@.take(j as int)),
        decreases extra.len() - j,
    {
        push_str(&mut args, extra[j].as_str());
        j = j + 1;
        assert(views(args@) =~= mid + views(extra@.take(j as int)));
    }
    assert(extra@.take(extra.len() as int) =~= extra@);
    push_str(&mut args, image);
    push_str(&mut args, "--config");
    push_str(&mut args, "/config.json");
    push_str(&mut args, "--tcp");
    push_str(&mut args, "0.0.0.0:8080");
    proof {
        reveal_strlit("127.0.0.1:");
        reveal_strlit(":8080");
        assert(views(args@) =~= run_args(name@, mount@, port, env@, views(extra@), image@));
    }
    args
}

/// The outcome of `docker run`: a failure reports what the command wrote to
/// its error stream.
pub fn container_start_result(success: bool, stderr: &str) -> (r: Result<(), Error>)
    ensures
        success ==> r is Ok,
        !success ==> (r matches Err(Error::TransportError { message }) && message@
            == "Failed to start container: "@ + stderr@),
{
    if success {
        Ok(())
    } else {
        let mut message = "Failed to start container: ".to_string();
        message.append(stderr);
        Err(Error::TransportError { message })
    }
}

/// The id of a started container: what `docker run -d` printed, without
/// surrounding white space.
pub fn container_id(stdout: &str) -> (r: String)
    ensures
        r@ == trimmed(stdout@),
{
    trim_text(stdout)
}

/// The message carried by a line read from the container: the line without
/// surrounding white space, and nothing when that leaves no text.
pub fn incoming_line(line: &str) -> (r: Option<String>)
    ensures
        trimmed(line@).len() == 0 ==> r is None,
        trimmed(line@).len() > 0 ==> (r matches Some(t) && t@ == trimmed(line@)),
{
    let t = trim_text(line);
    if t.as_str().unicode_len() == 0 {
        None
    } else {
        Some(t)
    }
}

/// Connection attempts that fail are retried thirty times.
pub open spec fn max_connect_retries() -> u32 {
    30
}

/// After a failed connection attempt, whether to wait and try again: yes
/// while fewer than thirty retries were made.
pub fn should_retry_connect(retries: u32) -> (r: bool)
    ensures
        r == (retries < max_connect_retries()),
{
    retries < 30
}

/// The error when the container cannot be reached.
pub fn connect_failure(addr: &str, detail: &str) -> (r: Error)
    ensures
        r matches Error::TransportError { message } && message@ == "Failed to connect to "@
            + addr@ + ": "@ + detail@,
{
    let mut message = "Failed to connect to ".to_string();
    message.append(addr);
    message.append(": ");
    message.append(detail);
    Error::TransportError { message }
}

/// The error when the container could not be reached within the startup
/// timeout.
pub fn startup_timeout_error(timeout: std::time::Duration) -> (r: Error)
    ensures
        r matches Error::Timeout { timeout_ms } && timeout_ms as int
            == crate::duration::duration_millis(timeout) % 0x1_0000_0000_0000_0000,
{
    let ms: u128 = timeout.as_millis();
    let timeout_ms: u64 = #[verifier::truncate] (ms as u64);
    assert(timeout_ms == ms % 0x1_0000_0000_0000_0000) by (bit_vector)
        requires
            timeout_ms == #[verifier::truncate] (ms as u64),
    ;
    Error::Timeout { timeout_ms }
}

/// The error when the Docker backend sends with no connection open.
pub fn docker_not_connected() -> (r: Error)
    ensures
        r matches Error::InvalidState { expected, actual } && expected@
            == "RUNNING with active connection"@ && actual@ == "no connection"@,
{
    Error::InvalidState {
        expected: "RUNNING with active connection".to_string(),
        actual: "no connection".to_string(),
    }
}

/// A line written by the bus with its trailing newline: what is sent for a
/// message.
pub fn framed_line(message: &str) -> (r: String)
    ensures
        r@ == message@ + "\n"@,
{
    let mut r = message.to_string();
    r.append("\n");
    r
}

/// The arguments of `docker stop` for a container: `stop -t {secs} {id}`.
pub fn docker_stop_args(timeout_secs: u32, id: &str) -> (r: Vec<String>)
    ensures
        views(r@) == seq!["stop"@, "-t"@, decimal(timeout_secs as nat), id@],
{
    let mut args: Vec<String> = Vec::new();
    push_str(&mut args, "stop");
    push_str(&mut args, "-t");
    let secs = decimal_string(timeout_secs as u128);
    push_str(&mut args, secs.as_str());
    push_str(&mut args, id);
    assert(views(args@) =~= seq!["stop"@, "-t"@, decimal(timeout_secs as nat), id@]);
    args
}

// ---------------------------------------------------------------------------
// Native backend
// ---------------------------------------------------------------------------

/// The error text for a failing return code: `{what}: error code {code}`.
pub open spec fn code_failure_text(what: Seq<char>, code: i32) -> Seq<char> {
    what + ": error code "@ + signed_decimal(code as int)
}

fn code_failure_message(what: &str, code: i32) -> (r: String)
    ensures
        r@ == code_failure_text(what@, code),
{
    let digits = signed_decimal_string(code as i64);
    let mut r = what.to_string();
    r.append(": error code ");
    r.append(digits.as_str());
    r
}

/// The outcome of starting the native bus: any code but `STDIO_BUS_OK` is an
/// internal error.
pub fn native_start_result(code: i32) -> (r: Result<(), Error>)
    ensures
        code == 0 ==> r is Ok,
        code != 0 ==> (r matches Err(Error::InternalError { message }) && message@
            == code_failure_text("Failed to start bus"@, code)),
{
    if code == STDIO_BUS_OK {
        Ok(())
    } else {
        Err(Error::InternalError { message: code_failure_message("Failed to start bus", code) })
    }
}

/// The outcome of handing a message to the native bus: any code but
/// `STDIO_BUS_OK` is a transport error.
pub fn native_ingest_result(code: i32) -> (r: Result<(), Error>)
    ensures
        code == 0 ==> r is Ok,
        code != 0 ==> (r matches Err(Error::TransportError { message }) && message@
            == code_failure_text("Failed to send message"@, code)),
{
    if code == STDIO_BUS_OK {
        Ok(())
    } else {
        Err(
            Error::TransportError { message: code_failure_message("Failed to send message", code) },
        )
    }
}

/// Whether a text holds a NUL character.
pub open spec fn has_nul(s: Seq<char>) -> bool {
    exists|i: int| 0 <= i < s.len() && s[i] == '\0'
}

fn contains_nul(s: &str) -> (r: bool)
    ensures
        r == has_nul(s@),
{
    let n = s.unicode_len();
    let mut i: usize = 0;
    while i < n
        invariant
            n == s@.len(),
            i <= n,
            forall|j: int| 0 <= j < i ==> s@[j] != '\0',
        decreases n - i,
    {
        if s.get_char(i) == '\0' {
            return true;
        }
        i = i + 1;
    }
    false
}

/// A configuration path goes to the native library as a C string, so it
/// must hold no NUL character.
pub fn native_config_path_check(path: &str) -> (r: Result<(), Error>)
    ensures
        !has_nul(path@) ==> r is Ok,
        has_nul(path@) ==> (r matches Err(Error::InvalidArgument { message }) && message@
            == "Invalid config path"@),
{
    if contains_nul(path) {
        Err(Error::InvalidArgument { message: "Invalid config path".to_string() })
    } else {
        Ok(())
    }
}

/// A configuration document goes to the native library as a C string, so
/// it must hold no NUL character.
pub fn native_config_json_check(json: &str) -> (r: Result<(), Error>)
    ensures
        !has_nul(json@) ==> r is Ok,
        has_nul(json@) ==> (r matches Err(Error::InvalidArgument { message }) && message@
            == "Invalid config JSON"@),
{
    if contains_nul(json) {
        Err(Error::InvalidArgument { message: "Invalid config JSON".to_string() })
    } else {
        Ok(())
    }
}

/// The error when the native library could not create a bus.
pub fn native_create_failure() -> (r: Error)
    ensures
        r matches Error::InternalError { message } && message@ == "Failed to create bus"@,
{
    Error::InternalError { message: "Failed to create bus".to_string() }
}

/// The bus a message is sent to: the stored handle, or an invalid-state
/// error when the bus was never started or was stopped.
pub fn native_send_target(bus: &BusPtr) -> (r: Result<usize, Error>)
    ensures
        match bus@ {
            Some(a) => r == Ok::<usize, Error>(a),
            None => r matches Err(Error::InvalidState { expected, actual }) && expected@
                == "RUNNING"@ && actual@ == "not initialized"@,
        },
{
    match bus.get() {
        Some(a) => Ok(a),
        None => Err(
            Error::InvalidState {
                expected: "RUNNING".to_string(),
                actual: "not initialized".to_string(),
            },
        ),
    }
}

/// Worker count reported by the native backend: unknown (`-1`) without a
/// bus handle.
pub fn native_worker_count(reported: Option<i32>) -> (r: i32)
    ensures
        r == match reported {
            Some(n) => n,
            None => -1i32,
        },
{
    match reported {
        Some(n) => n,
        None => -1,
    }
}

/// Client count reported by the native backend: zero without a bus handle.
pub fn native_client_count(reported: Option<i32>) -> (r: i32)
    ensures
        r == match reported {
            Some(n) => n,
            None => 0i32,
        },
{
    match reported {
        Some(n) => n,
        None => 0,
    }
}

} // verus!
