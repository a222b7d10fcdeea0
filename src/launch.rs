use vstd::prelude::*;
use vstd::string::*;

verus! {

/// Port on which the supervised server is told to listen.
pub const SERVER_PORT: u16 = 8880;

/// How long startup pauses after a successful launch, so the server can bind its port.
pub const STARTUP_DELAY_MS: u64 = 500;

/// The family of operating system the application was built for.
#[derive(Clone, Copy, Debug, PartialEq, Eq, Structural)]
pub enum Platform {
    Windows,
    Other,
}

/// File name of the bundled server executable on the given platform.
pub open spec fn binary_name_spec(platform: Platform) -> Seq<char> {
    match platform {
        Platform::Windows => "server.exe"@,
        Platform::Other => "server"@,
    }
}

/// Name of the bundled server executable: `server.exe` on Windows, `server` elsewhere.
pub fn binary_name(platform: Platform) -> (r: String)
    ensures
        r@ == binary_name_spec(platform),
{
    match platform {
        Platform::Windows => String::from_str("server.exe"),
        Platform::Other => String::from_str("server"),
    }
}

/// The separator written between path components on the given platform.
pub open spec fn separator_spec(platform: Platform) -> char {
    match platform {
        Platform::Windows => '\\',
        Platform::Other => '/',
    }
}

/// Whether `c` ends a path component on the given platform.
pub open spec fn is_separator_spec(c: char, platform: Platform) -> bool {
    c == '/' || (platform == Platform::Windows && c == '\\')
}

/// `dir` followed by the relative component `part`, with one separator between them
/// unless `dir` is empty or already ends in a separator.
pub open spec fn join_spec(dir: Seq<char>, part: Seq<char>, platform: Platform) -> Seq<char> {
    if dir.len() == 0 || is_separator_spec(dir.last(), platform) {
        dir + part
    } else {
        dir + seq![separator_spec(platform)] + part
    }
}

/// Where the server executable is expected: `<dir>/bin/<binary name>`.
pub open spec fn server_path_spec(resource_dir: Seq<char>, platform: Platform) -> Seq<char> {
    join_spec(join_spec(resource_dir, "bin"@, platform), binary_name_spec(platform), platform)
}

fn separator(platform: Platform) -> (r: &'static str)
    ensures
        r@ == seq![separator_spec(platform)],
{
    match platform {
        Platform::Windows => {
            proof {
                reveal_strlit("\\");
            }
            "\\"
        },
        Platform::Other => {
            proof {
                reveal_strlit("/");
            }
            "/"
        },
    }
}

fn is_separator(c: char, platform: Platform) -> (r: bool)
    ensures
        r == is_separator_spec(c, platform),
{
    match platform {
        Platform::Windows => c == '/' || c == '\\',
        Platform::Other => c == '/',
    }
}

/// Appends the relative component `part` to the path `dir`.
pub fn join(dir: &str, part: &str, platform: Platform) -> (r: String)
    ensures
        r@ == join_spec(dir@, part@, platform),
{
    let n = dir.unicode_len();
    let mut r = String::from_str(dir);
    if n != 0 && !is_separator(dir.get_char(n - 1), platform) {
        r.append(separator(platform));
    }
    r.append(part);
    proof {
        if !(dir@.len() == 0 || is_separator_spec(dir@.last(), platform)) {
            assert(r@ == dir@ + seq![separator_spec(platform)] + part@);
        }
    }
    r
}

/// Path of the bundled server executable under the application's resource directory.
pub fn server_path(resource_dir: &str, platform: Platform) -> (r: String)
    ensures
        r@ == server_path_spec(resource_dir@, platform),
{
    let bin_dir = join(resource_dir, "bin", platform);
    let name = binary_name(platform);
    join(bin_dir.as_str(), name.as_str(), platform)
}

/// Text of the port value handed to the server.
pub open spec fn port_text_spec() -> Seq<char> {
    "8880"@
}

/// The environment the server is started with, as (name, value) pairs in order.
pub open spec fn server_env_spec() -> Seq<(Seq<char>, Seq<char>)> {
    seq![("PORT"@, port_text_spec()), ("ENV"@, "desktop"@)]
}

/// Name and value of one environment variable.
pub struct EnvVar {
    pub name: String,
    pub value: String,
}

/// The (name, value) pairs that a list of environment variables holds.
pub open spec fn env_view(env: Seq<EnvVar>) -> Seq<(Seq<char>, Seq<char>)> {
    env.map_values(|e: EnvVar| (e.name@, e.value@))
}

/// Everything needed to start the server: the program and its environment.
pub struct LaunchPlan {
    pub program: String,
    pub env: Vec<EnvVar>,
}

fn env_var(name: &str, value: &str) -> (r: EnvVar)
    ensures
        r.name@ == name@,
        r.value@ == value@,
{
    EnvVar { name: String::from_str(name), value: String::from_str(value) }
}

/// The environment for the server: `PORT=8880` and `ENV=desktop`, whatever the platform.
pub fn server_env() -> (r: Vec<EnvVar>)
    ensures
        env_view(r@) == server_env_spec(),
{
    let mut r: Vec<EnvVar> = Vec::new();
    proof {
        reveal_strlit("PORT");
        reveal_strlit("8880");
        reveal_strlit("ENV");
        reveal_strlit("desktop");
    }
    r.push(env_var("PORT", "8880"));
    r.push(env_var("ENV", "desktop"));
    assert(env_view(r@) =~= server_env_spec());
    r
}

/// How to start the server bundled under `resource_dir` on `platform`.
pub fn launch_plan(resource_dir: &str, platform: Platform) -> (r: LaunchPlan)
    ensures
        r.program@ == server_path_spec(resource_dir@, platform),
        env_view(r.env@) == server_env_spec(),
{
    LaunchPlan { program: server_path(resource_dir, platform), env: server_env() }
}

/// Address at which the server answers once started.
pub open spec fn server_url_spec() -> Seq<char> {
    "http://localhost:"@ + port_text_spec()
}

/// Diagnostic printed after the server was started.
pub open spec fn started_message_spec() -> Seq<char> {
    "Go server started on "@ + server_url_spec()
}

/// Diagnostic printed when the server could not be started, for the given reason.
pub open spec fn not_started_message_spec(reason: Seq<char>) -> Seq<char> {
    "Note: Go server not started ("@ + reason + "). Run it separately in dev mode."@
}

/// Diagnostic printed after the server was told to stop.
pub open spec fn stopped_message_spec() -> Seq<char> {
    "Go server stopped"@
}

/// The address of the server.
pub fn server_url() -> (r: String)
    ensures
        r@ == server_url_spec(),
{
    let mut r = String::from_str("http://localhost:");
    r.append("8880");
    r
}

/// Diagnostic for a successful launch; it names the server's address.
pub fn started_message() -> (r: String)
    ensures
        r@ == started_message_spec(),
{
    let mut r = String::from_str("Go server started on ");
    let url = server_url();
    r.append(url.as_str());
    r
}

/// Diagnostic for a failed launch.
pub fn not_started_message(reason: &str) -> (r: String)
    ensures
        r@ == not_started_message_spec(reason@),
{
    let mut r = String::from_str("Note: Go server not started (");
    r.append(reason);
    r.append("). Run it separately in dev mode.");
    r
}

/// Diagnostic for a stopped server.
pub fn stopped_message() -> (r: String)
    ensures
        r@ == stopped_message_spec(),
{
    String::from_str("Go server stopped")
}

} // verus!
