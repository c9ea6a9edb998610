//! Deployment orchestration: event filtering, artifact-to-service resolution,
//! command planning, and the exit-code-driven outcome of a delivery.
//!
//! The orchestrator itself is pure: it decides which external commands to run
//! and how to answer, while an outer runner performs the commands and hands
//! back their exit statuses.

use vstd::prelude::*;
use vstd::string::StringSliceAdditionalSpecFns;
use vstd::string::StringExecFns;

verus! {

pub const STATUS_OK: u16 = 200;

pub const STATUS_UNAUTHORIZED: u16 = 401;

pub const STATUS_INTERNAL_SERVER_ERROR: u16 = 500;

/// String equality decided on the UTF-8 bytes of the two strings.
pub fn str_eq(a: &str, b: &str) -> (r: bool)
    ensures
        r == (a@ == b@),
{
    let r = crate::signature::constant_time_eq(a.as_bytes(), b.as_bytes());
    proof {
        if a.spec_bytes() == b.spec_bytes() {
            vstd::utf8::encode_utf8_decode_utf8(a@);
            vstd::utf8::encode_utf8_decode_utf8(b@);
        }
    }
    r
}

/// Which stack definition to deploy, and under what stack name.
pub struct ServiceTarget {
    pub service_name: String,
    pub docker_stack_file: String,
}

/// No two entries may claim the same artifact name.
pub open spec fn unique_names(entries: Seq<(String, ServiceTarget)>) -> bool {
    forall|i: int, j: int|
        0 <= i < entries.len() && 0 <= j < entries.len() && i != j ==> entries[i].0@
            != entries[j].0@
}

/// The artifact-to-service mapping, immutable for the duration of a request.
pub struct Config {
    pub image_to_service: Vec<(String, ServiceTarget)>,
}

impl Config {
    /// Well-formed: artifact names are unique, so each resolves to at most
    /// one target.
    pub open spec fn wf(self) -> bool {
        unique_names(self.image_to_service@)
    }

    pub open spec fn contains_image(self, name: Seq<char>) -> bool {
        exists|i: int|
            0 <= i < self.image_to_service@.len() && self.image_to_service@[i].0@ == name
    }

    pub open spec fn index_of(self, name: Seq<char>) -> int {
        choose|i: int|
            0 <= i < self.image_to_service@.len() && self.image_to_service@[i].0@ == name
    }

    /// The one target mapped to `name` (meaningful when `contains_image` holds
    /// of a well-formed mapping).
    pub open spec fn target_for(self, name: Seq<char>) -> ServiceTarget {
        self.image_to_service@[self.index_of(name)].1
    }

    /// Builds a mapping after checking that no artifact name repeats; a
    /// repeated name yields `None`.
    pub fn from_entries(entries: Vec<(String, ServiceTarget)>) -> (r: Option<Config>)
        ensures
            r matches Some(c) ==> c.wf() && c.image_to_service@ == entries@,
            r is Some <==> unique_names(entries@),
    {
        let n = entries.len();
        let mut i: usize = 0;
        while i < n
            invariant
                n == entries@.len(),
                i <= n,
                forall|a: int, b: int|
                    0 <= a < i && a < b < n ==> entries@[a].0@ != entries@[b].0@,
            decreases n - i,
        {
            let mut j: usize = i + 1;
            while j < n
                invariant
                    n == entries@.len(),
                    i < j <= n,
                    forall|a: int, b: int|
                        0 <= a < i && a < b < n ==> entries@[a].0@ != entries@[b].0@,
                    forall|b: int| i < b < j ==> entries@[i as int].0@ != entries@[b].0@,
                decreases n - j,
            {
                if str_eq(entries[i].0.as_str(), entries[j].0.as_str()) {
                    return None;
                }
                j = j + 1;
            }
            i = i + 1;
        }
        Some(Config { image_to_service: entries })
    }

    /// Exact-string-match lookup of an artifact name; no fuzzy or prefix
    /// matching.
    pub fn lookup_service(&self, name: &str) -> (r: Option<&ServiceTarget>)
        requires
            self.wf(),
        ensures
            r is Some <==> self.contains_image(name@),
            r matches Some(t) ==> *t == self.target_for(name@),
    {
        let n = self.image_to_service.len();
        let mut i: usize = 0;
        while i < n
            invariant
                self.wf(),
                n == self.image_to_service@.len(),
                i <= n,
                forall|j: int| 0 <= j < i ==> self.image_to_service@[j].0@ != name@,
            decreases n - i,
        {
            if str_eq(self.image_to_service[i].0.as_str(), name) {
                proof {
                    let k = self.index_of(name@);
                    assert(self.image_to_service@[i as int].0@ == name@);
                    assert(self.contains_image(name@));
                    assert(0 <= k < n && self.image_to_service@[k].0@ == name@);
                    assert(k == i as int);
                }
                return Some(&self.image_to_service[i].1);
            }
            i = i + 1;
        }
        None
    }
}

/// The process-wide configuration, read once at startup and passed in.
pub struct DeployConfig {
    pub registry: String,
    pub username: String,
    pub password: String,
    pub docker_path: String,
    pub infra_repo_path: String,
}

fn or_default(v: Option<String>, default: &str) -> (r: String)
    ensures
        v matches Some(s) ==> r@ == s@,
        v is None ==> r@ == default@,
{
    match v {
        Some(s) => s,
        None => default.to_owned(),
    }
}

/// The deployment executable to run: the configured path, or
/// `/usr/bin/docker` when none is set.
pub fn get_docker_path(docker_path: Option<String>) -> (r: String)
    ensures
        docker_path matches Some(s) ==> r@ == s@,
        docker_path is None ==> r@ == "/usr/bin/docker"@,
{
    or_default(docker_path, "/usr/bin/docker")
}

impl DeployConfig {
    /// Applies the documented defaults: registry `ghcr.io`, empty
    /// credentials, executable `/usr/bin/docker`, empty infrastructure root.
    pub fn from_env_values(
        registry: Option<String>,
        username: Option<String>,
        password: Option<String>,
        docker_path: Option<String>,
        infra_repo_path: Option<String>,
    ) -> (r: DeployConfig)
        ensures
            registry matches Some(s) ==> r.registry@ == s@,
            registry is None ==> r.registry@ == "ghcr.io"@,
            username matches Some(s) ==> r.username@ == s@,
            username is None ==> r.username@ == ""@,
            password matches Some(s) ==> r.password@ == s@,
            password is None ==> r.password@ == ""@,
            docker_path matches Some(s) ==> r.docker_path@ == s@,
            docker_path is None ==> r.docker_path@ == "/usr/bin/docker"@,
            infra_repo_path matches Some(s) ==> r.infra_repo_path@ == s@,
            infra_repo_path is None ==> r.infra_repo_path@ == ""@,
    {
        DeployConfig {
            registry: or_default(registry, "ghcr.io"),
            username: or_default(username, ""),
            password: or_default(password, ""),
            docker_path: get_docker_path(docker_path),
            infra_repo_path: or_default(infra_repo_path, ""),
        }
    }
}

/// The fully-qualified stack definition path: the infrastructure root, the
/// service name and the stack file name joined with `/`.
pub fn stack_file_path(infra_repo_path: &str, service_name: &str, stack_file: &str) -> (r: String)
    ensures
        r@ == infra_repo_path@ + "/"@ + service_name@ + "/"@ + stack_file@,
{
    let mut r = infra_repo_path.to_owned();
    r.append("/");
    r.append(service_name);
    r.append("/");
    r.append(stack_file);
    r
}

/// The versioned unit inside a package payload; carried but not consulted.
pub struct PackageVersion {
    pub id: u32,
    pub version: String,
    pub name: String,
}

/// The published artifact. Orchestration consults `name` alone; the other
/// fields are accepted for forward compatibility.
pub struct Package {
    pub name: String,
    pub namespace: String,
    pub ecosystem: String,
    pub package_type: String,
    pub created_at: String,
    pub updated_at: String,
    pub package_version: PackageVersion,
}

/// The inbound release-event payload.
pub struct PackageWebhook {
    pub action: String,
    pub package: Package,
}

/// The registry login to run first; the password travels on the command's
/// standard input, never as an argument.
pub struct LoginCommand {
    pub docker_path: String,
    pub registry: String,
    pub username: String,
    pub password_stdin: String,
}

/// The stack deployment to run after a successful login, with registry
/// authentication forwarded.
pub struct DeployCommand {
    pub docker_path: String,
    pub compose_file: String,
    pub service_name: String,
}

/// Both commands of one deployment, in their required order.
pub struct DeployPlan {
    pub login: LoginCommand,
    pub deploy: DeployCommand,
}

/// What a delivery calls for once the event filter and the mapping have been
/// consulted.
pub enum ReleaseDecision {
    /// Wrong or absent event type: expected traffic, no action.
    Irrelevant,
    /// The artifact is not managed by this deployer: no action.
    Unmanaged,
    /// A mapped artifact of a `package` event: run the plan.
    Deploy(DeployPlan),
}

/// The single recognized event type is `package`.
pub open spec fn is_package_event(event_type: Option<&str>) -> bool {
    event_type matches Some(e) && e@ == "package"@
}

/// The event-type filter, first in the pipeline: it gates every later step,
/// so an irrelevant event costs nothing downstream.
pub fn is_relevant_event(event_type: Option<&str>) -> (r: bool)
    ensures
        r == is_package_event(event_type),
{
    match event_type {
        Some(e) => str_eq(e, "package"),
        None => false,
    }
}

/// Every field the plan must carry for configuration `dc` and target `t`.
pub open spec fn plan_matches(p: DeployPlan, dc: DeployConfig, t: ServiceTarget) -> bool {
    &&& p.login.docker_path@ == dc.docker_path@
    &&& p.login.registry@ == dc.registry@
    &&& p.login.username@ == dc.username@
    &&& p.login.password_stdin@ == dc.password@
    &&& p.deploy.docker_path@ == dc.docker_path@
    &&& p.deploy.compose_file@ == dc.infra_repo_path@ + "/"@ + t.service_name@ + "/"@
        + t.docker_stack_file@
    &&& p.deploy.service_name@ == t.service_name@
}

/// The strictly ordered decision pipeline of one delivery: event-type filter,
/// then target resolution, then the two-command plan. Pure: consulting it
/// runs nothing.
pub fn plan_release(
    event_type: Option<&str>,
    payload: &PackageWebhook,
    config: &Config,
    deploy_config: &DeployConfig,
) -> (r: ReleaseDecision)
    requires
        config.wf(),
    ensures
        !is_package_event(event_type) ==> r is Irrelevant,
        is_package_event(event_type) && !config.contains_image(payload.package.name@)
            ==> r is Unmanaged,
        is_package_event(event_type) && config.contains_image(payload.package.name@) ==> (r matches
            ReleaseDecision::Deploy(p) && plan_matches(
            p,
            *deploy_config,
            config.target_for(payload.package.name@),
        )),
{
    if !is_relevant_event(event_type) {
        return ReleaseDecision::Irrelevant;
    }
    match config.lookup_service(payload.package.name.as_str()) {
        None => ReleaseDecision::Unmanaged,
        Some(t) => {
            let compose_file = stack_file_path(
                deploy_config.infra_repo_path.as_str(),
                t.service_name.as_str(),
                t.docker_stack_file.as_str(),
            );
            ReleaseDecision::Deploy(
                DeployPlan {
                    login: LoginCommand {
                        docker_path: deploy_config.docker_path.as_str().to_owned(),
                        registry: deploy_config.registry.as_str().to_owned(),
                        username: deploy_config.username.as_str().to_owned(),
                        password_stdin: deploy_config.password.as_str().to_owned(),
                    },
                    deploy: DeployCommand {
                        docker_path: deploy_config.docker_path.as_str().to_owned(),
                        compose_file,
                        service_name: t.service_name.as_str().to_owned(),
                    },
                },
            )
        },
    }
}

/// Outcome of one delivery, one variant per branch of the error taxonomy.
#[derive(PartialEq, Eq, Structural, Clone, Copy, Debug)]
pub enum DeployOutcome {
    /// Signature absent or invalid; nothing downstream ran.
    Unauthorized,
    /// Wrong or absent event type; expected traffic.
    Irrelevant,
    /// Artifact not in the mapping; not managed here.
    Unmanaged,
    /// The deploy command exited zero.
    Deployed,
    /// Registry login exited nonzero: fatal, no deployment was attempted.
    LoginFailed,
    /// A command could not be started at all: a configuration fault.
    LaunchFailed,
    /// The deploy command ran and exited nonzero; the sender may retry.
    DeployFailed,
}

/// The HTTP status answering each outcome.
pub open spec fn response_status_spec(outcome: DeployOutcome) -> u16 {
    match outcome {
        DeployOutcome::Unauthorized => 401,
        DeployOutcome::Irrelevant => 200,
        DeployOutcome::Unmanaged => 200,
        DeployOutcome::Deployed => 200,
        DeployOutcome::LoginFailed => 500,
        DeployOutcome::LaunchFailed => 500,
        DeployOutcome::DeployFailed => 500,
    }
}

pub fn response_status(outcome: DeployOutcome) -> (r: u16)
    ensures
        r == response_status_spec(outcome),
{
    match outcome {
        DeployOutcome::Unauthorized => STATUS_UNAUTHORIZED,
        DeployOutcome::Irrelevant => STATUS_OK,
        DeployOutcome::Unmanaged => STATUS_OK,
        DeployOutcome::Deployed => STATUS_OK,
        DeployOutcome::LoginFailed => STATUS_INTERNAL_SERVER_ERROR,
        DeployOutcome::LaunchFailed => STATUS_INTERNAL_SERVER_ERROR,
        DeployOutcome::DeployFailed => STATUS_INTERNAL_SERVER_ERROR,
    }
}

/// Registry login gates deployment: a nonzero login exit aborts the request
/// before any deploy command is issued.
pub fn after_login(login_exit_ok: bool) -> (r: Option<DeployOutcome>)
    ensures
        login_exit_ok <==> r is None,
        !login_exit_ok ==> r == Some(DeployOutcome::LoginFailed),
{
    if login_exit_ok {
        None
    } else {
        Some(DeployOutcome::LoginFailed)
    }
}

/// The deploy command's exit status is the sole success signal: exit code
/// zero deploys, anything else (a nonzero code, or none at all) fails.
pub fn deploy_outcome(exit_code: Option<i32>) -> (r: DeployOutcome)
    ensures
        (r == DeployOutcome::Deployed) == (exit_code == Some(0i32)),
        r == DeployOutcome::Deployed || r == DeployOutcome::DeployFailed,
{
    match exit_code {
        Some(code) => {
            if code == 0 {
                DeployOutcome::Deployed
            } else {
                DeployOutcome::DeployFailed
            }
        },
        None => DeployOutcome::DeployFailed,
    }
}

} // verus!
