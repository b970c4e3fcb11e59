use vstd::prelude::*;

verus! {

/// Status of the engine: whether it runs, where it can be reached, and the
/// directory it serves. Replaced as a whole on every update.
#[derive(Debug, Clone, PartialEq, Eq)]
pub struct OpencodeServiceInfo {
    pub running: bool,
    pub base_url: Option<String>,
    pub port: Option<u16>,
    pub project_dir: Option<String>,
}

fn copy_text(s: &Option<String>) -> (r: Option<String>)
    ensures
        r == *s,
{
    match s {
        Some(t) => Some(t.clone()),
        None => None,
    }
}

impl OpencodeServiceInfo {
    /// The status of an engine that is not running and has no address.
    pub open spec fn stopped_spec() -> OpencodeServiceInfo {
        OpencodeServiceInfo { running: false, base_url: None, port: None, project_dir: None }
    }

    /// A status of an engine that is not running, with every optional field absent.
    pub fn stopped() -> (r: OpencodeServiceInfo)
        ensures
            r == OpencodeServiceInfo::stopped_spec(),
    {
        OpencodeServiceInfo { running: false, base_url: None, port: None, project_dir: None }
    }

    /// A field-for-field copy.
    pub fn duplicate(&self) -> (r: OpencodeServiceInfo)
        ensures
            r == *self,
    {
        OpencodeServiceInfo {
            running: self.running,
            base_url: copy_text(&self.base_url),
            port: self.port,
            project_dir: copy_text(&self.project_dir),
        }
    }
}

/// The single authoritative in-memory snapshot of the engine's status.
///
/// Exclusive access for writers comes from `&mut self`; a host that shares
/// the register between threads keeps it behind a mutual-exclusion lock.
pub struct StatusRegister {
    status: OpencodeServiceInfo,
}

impl StatusRegister {
    /// The snapshot the register currently holds.
    pub closed spec fn view_status(&self) -> OpencodeServiceInfo {
        self.status
    }

    /// A register created at process start: not running, all fields absent.
    pub fn new() -> (r: StatusRegister)
        ensures
            r.view_status() == OpencodeServiceInfo::stopped_spec(),
    {
        StatusRegister { status: OpencodeServiceInfo::stopped() }
    }

    /// A copy of the current snapshot.
    pub fn get_status(&self) -> (r: OpencodeServiceInfo)
        ensures
            r == self.view_status(),
    {
        self.status.duplicate()
    }

    /// Replaces the whole snapshot with `new`; no field of the old one survives.
    pub fn set_status(&mut self, new: OpencodeServiceInfo)
        ensures
            final(self).view_status() == new,
    {
        self.status = new;
    }
}

/// The status the register reports to the host's own command layer: a copy of
/// its snapshot.
pub fn get_opencode_service_info(register: &StatusRegister) -> (r: OpencodeServiceInfo)
    ensures
        r == register.view_status(),
{
    register.get_status()
}

/// Exposure of the status over HTTP. No such endpoint is provided yet: the
/// call does nothing and reports success, and the register is left as it is.
pub fn start_bridge_server(register: &StatusRegister) -> (r: Result<(), String>)
    ensures
        r is Ok,
{
    Ok(())
}

/// The snapshot held after `set_status` has been called with each of
/// `updates` in turn, starting from a register that holds `start`.
pub open spec fn after_updates(
    start: OpencodeServiceInfo,
    updates: Seq<OpencodeServiceInfo>,
) -> OpencodeServiceInfo
    decreases updates.len(),
{
    if updates.len() == 0 {
        start
    } else {
        after_updates(updates[0], updates.subrange(1, updates.len() as int))
    }
}

/// Last write wins: after any non-empty sequence of updates, the register
/// reports exactly the last status that was set, whatever it held before and
/// whatever came in between.
pub proof fn lemma_last_update_wins(start: OpencodeServiceInfo, updates: Seq<OpencodeServiceInfo>)
    requires
        updates.len() > 0,
    ensures
        after_updates(start, updates) == updates.last(),
    decreases updates.len(),
{
    if updates.len() > 1 {
        let rest = updates.subrange(1, updates.len() as int);
        lemma_last_update_wins(updates[0], rest);
        assert(rest.last() == updates.last());
    } else {
        let rest = updates.subrange(1, updates.len() as int);
        assert(rest.len() == 0);
        assert(after_updates(updates[0], rest) == updates[0]);
    }
}

} // verus!
