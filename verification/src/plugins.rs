//! Hooks for the plugins of a datanode.
use vstd::prelude::*;

verus! {

/// Sets up the plugins of a datanode. None is built in, so nothing is added to `plugins`.
pub fn setup_datanode_plugins<P, O, D, E>(
    plugins: &mut P,
    plugin_options: &[O],
    dn_opts: &D,
) -> (result: Result<(), E>)
    ensures
        *final(plugins) == *old(plugins),
        result == Ok::<(), E>(()),
{
    Ok(())
}

/// Starts the plugins of a datanode. None is built in, so there is nothing to start.
pub fn start_datanode_plugins<P, E>(_plugins: P) -> (result: Result<(), E>)
    ensures
        result == Ok::<(), E>(()),
{
    Ok(())
}

} // verus!
