//! The `cloudflared` process that carries a session's tunnel.
use vstd::prelude::*;
use vstd::string::StringExecFns;
use crate::services::{ProcessInfo, ServiceId, carries, find_service_pid, service_env_entry_spec};
use crate::paths::{join_path, push_path};
use crate::update::{decimal, decimal_string};

verus! {

/// The service id of the tunnel process.
pub open spec fn tunnel_service_id() -> Seq<char> {
    "cloudflare-tunnel"@
}

/// The id the tunnel's processes are marked with.
pub fn service_id() -> (r: ServiceId)
    ensures
        r.0@ == tunnel_service_id(),
{
    ServiceId(String::from_str("cloudflare-tunnel"))
}

/// Stopping the tunnel: the pid to interrupt, the first process in the order
/// given that carries the tunnel's id; `None` where none runs.
pub fn stop(processes: &[ProcessInfo]) -> (r: Option<u32>)
    ensures
        match r {
            Some(pid) => exists|i: int| 0 <= i < processes@.len() && processes@[i].pid == pid
                && carries(processes@[i], service_env_entry_spec(tunnel_service_id()))
                && forall|k: int| 0 <= k < i ==> !carries(#[trigger] processes@[k], service_env_entry_spec(tunnel_service_id())),
            None => forall|k: int| 0 <= k < processes@.len() ==> !carries(#[trigger] processes@[k], service_env_entry_spec(tunnel_service_id())),
        },
{
    let id = service_id();
    find_service_pid(processes, &id)
}

/// What `cloudflared` is started with: the URL it forwards to, the tunnel,
/// and the file with the tunnel's credentials.
pub struct TunnelConfig {
    pub url: String,
    pub tunnel: String,
    pub credentials_file: String,
}

/// The file of the tunnel's credentials in the linkup directory.
pub open spec fn credentials_path_spec(linkup_dir: Seq<char>) -> Seq<char> {
    join_path(linkup_dir, "cloudflared-creds.json"@)
}

/// The file of the tunnel's config in the linkup directory.
pub open spec fn config_path_spec(linkup_dir: Seq<char>) -> Seq<char> {
    join_path(linkup_dir, "cloudflared-config.yml"@)
}

/// The path of the tunnel's credentials file, kept in the linkup directory
/// so that each linkup home has its own tunnel identity.
pub fn credentials_path(linkup_dir: &str) -> (r: String)
    ensures
        r@ == credentials_path_spec(linkup_dir@),
{
    push_path(linkup_dir, "cloudflared-creds.json")
}

/// The path of the tunnel's config file in the linkup directory.
pub fn config_path(linkup_dir: &str) -> (r: String)
    ensures
        r@ == config_path_spec(linkup_dir@),
{
    push_path(linkup_dir, "cloudflared-config.yml")
}

/// The tunnel config for the tunnel `tunnel_id`: traffic goes to the local
/// server on `local_server_port`, the credentials are read from the linkup
/// directory.
pub fn tunnel_config(tunnel_id: &str, local_server_port: u16, linkup_dir: &str) -> (r: TunnelConfig)
    ensures
        r.url@ == "http://localhost:"@ + decimal(local_server_port as nat),
        r.tunnel@ == tunnel_id@,
        r.credentials_file@ == credentials_path_spec(linkup_dir@),
{
    let mut url = String::from_str("http://localhost:");
    url.append(decimal_string(local_server_port).as_str());
    TunnelConfig { url, tunnel: String::from_str(tunnel_id), credentials_file: credentials_path(linkup_dir) }
}

} // verus!
