//! The option rules of the per-noun entity commands.

use vstd::prelude::*;

use crate::error::{self, WatcherError};

use super::args::{EntityAddArgs, EntityImportArgs};

verus! {

/// `--ip` is allowed only where `allow_ip` (port import) and `--bind-ip`
/// only where `allow_bind_ip` (name import).
pub fn ensure_entity_import_options(args: &EntityImportArgs, allow_ip: bool, allow_bind_ip: bool) -> (r:
    Result<(), WatcherError>)
    ensures
        !allow_ip && args.ip is Some ==> (r matches Err(e) && e.is_invalid_with(
            "--ip is only supported by port import"@,
        )),
        (allow_ip || args.ip is None) && !allow_bind_ip && args.bind_ip is Some ==> (r matches Err(e)
            && e.is_invalid_with("--bind-ip is only supported by name import"@)),
        (allow_ip || args.ip is None) && (allow_bind_ip || args.bind_ip is None) ==> r is Ok,
{
    if !allow_ip && args.ip.is_some() {
        return Err(error::invalid("--ip is only supported by port import"));
    }
    if !allow_bind_ip && args.bind_ip.is_some() {
        return Err(error::invalid("--bind-ip is only supported by name import"));
    }
    Ok(())
}

/// `--ip` is allowed only where `allow_ip` (port add) and `--bind-ip` only
/// where `allow_bind_ip` (name add).
pub fn ensure_entity_add_options(args: &EntityAddArgs, allow_ip: bool, allow_bind_ip: bool) -> (r:
    Result<(), WatcherError>)
    ensures
        !allow_ip && args.ip is Some ==> (r matches Err(e) && e.is_invalid_with(
            "--ip is only supported by port add"@,
        )),
        (allow_ip || args.ip is None) && !allow_bind_ip && args.bind_ip is Some ==> (r matches Err(e)
            && e.is_invalid_with("--bind-ip is only supported by name add"@)),
        (allow_ip || args.ip is None) && (allow_bind_ip || args.bind_ip is None) ==> r is Ok,
{
    if !allow_ip && args.ip.is_some() {
        return Err(error::invalid("--ip is only supported by port add"));
    }
    if !allow_bind_ip && args.bind_ip.is_some() {
        return Err(error::invalid("--bind-ip is only supported by name add"));
    }
    Ok(())
}

} // verus!
