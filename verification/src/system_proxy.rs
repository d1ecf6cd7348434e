//! The Windows system proxy, set through the registry with `reg add`.
use vstd::prelude::*;
use crate::node::{host_port, host_port_spec};

verus! {

/// One `reg` invocation: its arguments, and the error to report when it fails.
#[derive(Clone, Debug, PartialEq, Eq)]
pub struct RegistryCommand {
    pub args: Vec<String>,
    pub failure_message: String,
}

/// The registry key of the Internet settings of the current user.
pub open spec fn internet_settings_key() -> Seq<char> {
    "HKCU\\Software\\Microsoft\\Windows\\CurrentVersion\\Internet Settings"@
}

/// The arguments of `reg add` that set value `name` of type `ty` to `data`.
pub open spec fn reg_add_args(name: Seq<char>, ty: Seq<char>, data: Seq<char>) -> Seq<Seq<char>> {
    seq!["add"@, internet_settings_key(), "/v"@, name, "/t"@, ty, "/d"@, data, "/f"@]
}

/// `cmd` runs `reg` with the given arguments and failure message.
pub open spec fn command_is(cmd: RegistryCommand, args: Seq<Seq<char>>, failure: Seq<char>) -> bool {
    &&& cmd.args@.map_values(|s: String| s@) == args
    &&& cmd.failure_message@ == failure
}

/// A `reg add` command for the Internet settings.
fn reg_add(name: &str, ty: &str, data: &str, failure: &str) -> (res: RegistryCommand)
    ensures
        command_is(res, reg_add_args(name@, ty@, data@), failure@),
{
    let mut args: Vec<String> = Vec::new();
    args.push("add".to_owned());
    args.push("HKCU\\Software\\Microsoft\\Windows\\CurrentVersion\\Internet Settings".to_owned());
    args.push("/v".to_owned());
    args.push(name.to_owned());
    args.push("/t".to_owned());
    args.push(ty.to_owned());
    args.push("/d".to_owned());
    args.push(data.to_owned());
    args.push("/f".to_owned());
    assert(args@.map_values(|s: String| s@) =~= reg_add_args(name@, ty@, data@));
    RegistryCommand { args, failure_message: failure.to_owned() }
}

/// The commands that point the system proxy at `host:port`: enable the
/// proxy, then set its server; each must succeed before the next runs.
pub fn set_system_proxy(host: &str, port: u16) -> (res: Vec<RegistryCommand>)
    ensures
        res@.len() == 2,
        command_is(
            res@[0],
            reg_add_args("ProxyEnable"@, "REG_DWORD"@, "1"@),
            "Failed to enable proxy in registry"@,
        ),
        command_is(
            res@[1],
            reg_add_args("ProxyServer"@, "REG_SZ"@, host_port_spec(host@, port as nat)),
            "Failed to set proxy server in registry"@,
        ),
{
    let proxy = host_port(host, port as u64);
    let mut cmds: Vec<RegistryCommand> = Vec::new();
    cmds.push(reg_add("ProxyEnable", "REG_DWORD", "1", "Failed to enable proxy in registry"));
    cmds.push(
        reg_add("ProxyServer", "REG_SZ", proxy.as_str(), "Failed to set proxy server in registry"),
    );
    cmds
}

/// The command that turns the system proxy off.
pub fn clear_system_proxy() -> (res: Vec<RegistryCommand>)
    ensures
        res@.len() == 1,
        command_is(
            res@[0],
            reg_add_args("ProxyEnable"@, "REG_DWORD"@, "0"@),
            "Failed to disable proxy in registry"@,
        ),
{
    let mut cmds: Vec<RegistryCommand> = Vec::new();
    cmds.push(reg_add("ProxyEnable", "REG_DWORD", "0", "Failed to disable proxy in registry"));
    cmds
}

}
