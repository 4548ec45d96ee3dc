//! The application's node session: the running node, the client talking to it, the
//! node's id, and whether a download was ever started.
//!
//! The node and client are the application's own handles (`N`, `C`); the session only
//! holds them and decides, for each command, what is used, kept or released.
use vstd::prelude::*;
use crate::download::{ProgressReport, ReportView, TransferStatus};
use crate::text::{occurs_in, text_contains};

verus! {

/// The mathematical content of a [`Session`].
pub struct SessionView<N, C> {
    pub node: Option<N>,
    pub client: Option<C>,
    pub node_id: Option<Seq<char>>,
    pub download_active: bool,
}

/// Node, client, node id and download flag of the application.
pub struct Session<N, C> {
    node: Option<N>,
    client: Option<C>,
    node_id: Option<String>,
    download_active: bool,
}

impl<N, C> View for Session<N, C> {
    type V = SessionView<N, C>;

    closed spec fn view(&self) -> SessionView<N, C> {
        SessionView {
            node: self.node,
            client: self.client,
            node_id: match self.node_id {
                Some(s) => Some(s@),
                None => None,
            },
            download_active: self.download_active,
        }
    }
}

/// The error of a command that needs the node while it is not started.
pub open spec fn not_started_message() -> Seq<char> {
    "iroh节点未启动"@
}

/// The session once its node and client were released for shutdown: neither is kept.
pub open spec fn after_release<N, C>(s: SessionView<N, C>) -> SessionView<N, C> {
    SessionView { node: None, client: None, ..s }
}

/// The session once the node id was forgotten.
pub open spec fn after_forget<N, C>(s: SessionView<N, C>) -> SessionView<N, C> {
    SessionView { node_id: None, ..s }
}

/// The session after a complete stop: no node, no client, no id.
pub open spec fn after_stop<N, C>(s: SessionView<N, C>) -> SessionView<N, C> {
    after_forget(after_release(s))
}

/// The session after a node was launched with this client and id.
pub open spec fn after_launch<N, C>(s: SessionView<N, C>, node: N, client: C, id: Seq<char>) -> SessionView<N, C> {
    SessionView { node: Some(node), client: Some(client), node_id: Some(id), ..s }
}

/// The session after the running node's id was read again.
pub open spec fn after_id<N, C>(s: SessionView<N, C>, id: Seq<char>) -> SessionView<N, C> {
    SessionView { node_id: Some(id), ..s }
}

/// The session once a download was requested.
pub open spec fn after_download_request<N, C>(s: SessionView<N, C>) -> SessionView<N, C> {
    SessionView { download_active: true, ..s }
}

/// The node id a sent file is labelled with: the recorded id, or empty.
pub open spec fn id_or_empty<N, C>(s: SessionView<N, C>) -> Seq<char> {
    match s.node_id {
        Some(id) => id,
        None => seq![],
    }
}

/// The status report a download status query answers with.
pub open spec fn status_report<N, C>(s: SessionView<N, C>) -> ReportView {
    ReportView {
        status: if s.download_active {
            TransferStatus::Downloading
        } else {
            TransferStatus::Idle
        },
        downloaded_size: 0,
        total_size: 0,
        error: None,
        save_path: None,
    }
}

/// How a node start begins.
pub enum StartPlan<C> {
    /// A client is already connected: read the node id through this copy of it.
    Reuse(C),
    /// No client: launch a node.
    Launch,
}

fn not_started() -> (m: String)
    ensures
        m@ == not_started_message(),
{
    String::from_str("iroh节点未启动")
}

impl<N, C: Clone> Session<N, C> {
    /// A session with nothing started.
    pub fn new() -> (s: Self)
        ensures
            s@.node is None,
            s@.client is None,
            s@.node_id is None,
            !s@.download_active,
    {
        Session { node: None, client: None, node_id: None, download_active: false }
    }

    /// How a start request proceeds: through the connected client where there is one,
    /// else by launching a node.
    pub fn start_plan(&self) -> (plan: StartPlan<C>)
        ensures
            match plan {
                StartPlan::Reuse(c) => self@.client matches Some(cur) && cloned::<C>(cur, c),
                StartPlan::Launch => self@.client is None,
            },
    {
        match &self.client {
            Some(c) => StartPlan::Reuse(c.clone()),
            None => StartPlan::Launch,
        }
    }

    /// Records the id read through the connected client.
    pub fn record_node_id(&mut self, id: String)
        ensures
            final(self)@ == after_id(old(self)@, id@),
    {
        self.node_id = Some(id);
    }

    /// Keeps a freshly launched node, its client and its id.
    pub fn install(&mut self, node: N, client: C, id: String)
        ensures
            final(self)@ == after_launch(old(self)@, node, client, id@),
    {
        self.node = Some(node);
        self.client = Some(client);
        self.node_id = Some(id);
    }

    /// First half of a stop: drops the client and hands back the node, if any, to be
    /// shut down; the node id is kept until [`Session::forget_node_id`].
    pub fn release_node(&mut self) -> (node: Option<N>)
        ensures
            node == old(self)@.node,
            final(self)@ == after_release(old(self)@),
    {
        self.client = None;
        self.node.take()
    }

    /// Second half of a stop, once the node was shut down: forgets its id.
    pub fn forget_node_id(&mut self)
        ensures
            final(self)@ == after_forget(old(self)@),
    {
        self.node_id = None;
    }

    /// What sending a file needs: a copy of the client and the node id (or empty);
    /// refused while no client is connected.
    pub fn send_context(&self) -> (res: Result<(C, String), String>)
        ensures
            res is Ok == self@.client is Some,
            res matches Ok((c, id)) ==> cloned::<C>(self@.client->0, c) && id@ == id_or_empty(self@),
            res matches Err(m) ==> m@ == not_started_message(),
    {
        match &self.client {
            Some(c) => {
                let id = match &self.node_id {
                    Some(id) => id.clone(),
                    None => String::new(),
                };
                Ok((c.clone(), id))
            },
            None => Err(not_started()),
        }
    }

    /// Marks a download as requested, then hands out a copy of the client; refused while
    /// no client is connected (the download stays marked).
    pub fn begin_download(&mut self) -> (res: Result<C, String>)
        ensures
            final(self)@ == after_download_request(old(self)@),
            res is Ok == old(self)@.client is Some,
            res matches Ok(c) ==> cloned::<C>(old(self)@.client->0, c),
            res matches Err(m) ==> m@ == not_started_message(),
    {
        self.download_active = true;
        match &self.client {
            Some(c) => Ok(c.clone()),
            None => Err(not_started()),
        }
    }

    /// The answer to a download status query.
    pub fn download_status(&self) -> (r: ProgressReport)
        ensures
            r@ == status_report(self@),
    {
        ProgressReport {
            status: if self.download_active {
                TransferStatus::Downloading
            } else {
                TransferStatus::Idle
            },
            downloaded_size: 0,
            total_size: 0,
            error: None,
            save_path: None,
        }
    }

    /// The node id last recorded.
    pub fn node_id(&self) -> (id: Option<String>)
        ensures
            match id {
                Some(t) => self@.node_id == Some(t@),
                None => self@.node_id is None,
            },
    {
        match &self.node_id {
            Some(t) => Some(t.clone()),
            None => None,
        }
    }
}

/// Whether an error enabling the node's RPC endpoint says that a lock left by an earlier
/// run is in the way (then the lock file is removed and the launch retried once).
pub fn rpc_lock_stale(message: &str) -> (b: bool)
    ensures
        b == (occurs_in(message@, "already running"@) || occurs_in(message@, "rpc.lock"@)),
{
    text_contains(message, "already running") || text_contains(message, "rpc.lock")
}

/// Stopping (releasing the node, then forgetting its id) leaves no node, client or id,
/// keeps the download flag, and stopping twice is stopping once; once the node is
/// released, sending and downloading are refused.
pub proof fn law_stop_releases<N, C>(s: SessionView<N, C>)
    ensures
        after_stop(s).node is None,
        after_stop(s).client is None,
        after_stop(s).node_id is None,
        after_stop(s).download_active == s.download_active,
        after_stop(after_stop(s)) == after_stop(s),
        after_release(s).client is None,
{
}

/// After a launch, sending uses the launched client and the launched node's id.
pub proof fn law_launch_then_send<N, C>(s: SessionView<N, C>, node: N, client: C, id: Seq<char>)
    ensures
        after_launch(s, node, client, id).client == Some(client),
        after_launch(s, node, client, id).node == Some(node),
        after_launch(s, node, client, id).node_id == Some(id),
        id_or_empty(after_launch(s, node, client, id)) == id,
        after_launch(s, node, client, id).download_active == s.download_active,
        not_started_message() == "iroh节点未启动"@,
{
}

/// Once a download was requested the status query answers "downloading", whatever
/// the session goes through afterwards (stopping, launching, reading the id again).
pub proof fn law_download_status_sticky<N, C>(s: SessionView<N, C>, node: N, client: C, id: Seq<char>)
    requires
        s.download_active,
    ensures
        status_report(after_download_request(s)).status == TransferStatus::Downloading,
        status_report(s).status == TransferStatus::Downloading,
        after_stop(s).download_active,
        after_launch(s, node, client, id).download_active,
        after_id(s, id).download_active,
        after_download_request(s).download_active,
{
}

/// A session in which nothing was downloaded answers "idle" with zero sizes.
pub proof fn law_idle_status<N, C>(s: SessionView<N, C>)
    requires
        !s.download_active,
    ensures
        status_report(s).status == TransferStatus::Idle,
        status_report(s).downloaded_size == 0,
        status_report(s).total_size == 0,
{
}

/// One command's effect on the session.
pub enum SessionOp<N, C> {
    /// A node was launched with this client and id.
    Launch { node: N, client: C, id: Seq<char> },
    /// The running node's id was read again.
    RecordId { id: Seq<char> },
    /// The node and client were released for shutdown.
    Release,
    /// The node id was forgotten after shutdown.
    ForgetId,
    /// A download was requested.
    RequestDownload,
}

/// The session after one command.
pub open spec fn apply<N, C>(s: SessionView<N, C>, op: SessionOp<N, C>) -> SessionView<N, C> {
    match op {
        SessionOp::Launch { node, client, id } => after_launch(s, node, client, id),
        SessionOp::RecordId { id } => after_id(s, id),
        SessionOp::Release => after_release(s),
        SessionOp::ForgetId => after_forget(s),
        SessionOp::RequestDownload => after_download_request(s),
    }
}

/// The session after a sequence of commands.
pub open spec fn run_ops<N, C>(s: SessionView<N, C>, ops: Seq<SessionOp<N, C>>) -> SessionView<N, C>
    decreases ops.len(),
{
    if ops.len() == 0 {
        s
    } else {
        apply(run_ops(s, ops.drop_last()), ops.last())
    }
}

/// Over any sequence of commands, the status query answers "downloading" exactly when a
/// download was requested before or during the sequence, and "idle" otherwise: nothing
/// sets the flag back.
pub proof fn law_status_over_commands<N, C>(s: SessionView<N, C>, ops: Seq<SessionOp<N, C>>)
    ensures
        run_ops(s, ops).download_active == (s.download_active || exists|k: int|
            0 <= k < ops.len() && #[trigger] ops[k] is RequestDownload),
        status_report(run_ops(s, ops)).status == (if run_ops(s, ops).download_active {
            TransferStatus::Downloading
        } else {
            TransferStatus::Idle
        }),
    decreases ops.len(),
{
    if ops.len() > 0 {
        let init = ops.drop_last();
        law_status_over_commands(s, init);
        if ops.last() is RequestDownload {
            assert(ops[ops.len() - 1] is RequestDownload);
        }
        if exists|k: int| 0 <= k < init.len() && #[trigger] init[k] is RequestDownload {
            let k = choose|k: int| 0 <= k < init.len() && #[trigger] init[k] is RequestDownload;
            assert(ops[k] == init[k]);
        }
        if exists|k: int| 0 <= k < ops.len() && #[trigger] ops[k] is RequestDownload {
            let k = choose|k: int| 0 <= k < ops.len() && #[trigger] ops[k] is RequestDownload;
            if k < init.len() {
                assert(init[k] == ops[k]);
            }
        }
    }
}

/// After a launch, as long as no release and no other launch happens, the session keeps
/// the launched node and client, so a second start goes through that client (the id it
/// then reports is what the node answers); without a new id read, the launched id stays.
pub proof fn law_start_again_reuses_client<N, C>(
    s: SessionView<N, C>,
    node: N,
    client: C,
    id: Seq<char>,
    ops: Seq<SessionOp<N, C>>,
)
    requires
        forall|k: int|
            0 <= k < ops.len() ==> !(#[trigger] ops[k] is Release) && !(ops[k] is Launch),
    ensures
        run_ops(after_launch(s, node, client, id), ops).client == Some(client),
        run_ops(after_launch(s, node, client, id), ops).node == Some(node),
        (forall|k: int| 0 <= k < ops.len() ==> !(#[trigger] ops[k] is RecordId) && !(ops[k] is ForgetId))
            ==> run_ops(after_launch(s, node, client, id), ops).node_id == Some(id),
    decreases ops.len(),
{
    if ops.len() > 0 {
        let init = ops.drop_last();
        assert forall|k: int| 0 <= k < init.len() implies !(#[trigger] init[k] is Release) && !(init[k] is Launch) by {
            assert(init[k] == ops[k]);
        }
        law_start_again_reuses_client(s, node, client, id, init);
        assert(ops[ops.len() - 1] == ops.last());
        if forall|k: int| 0 <= k < ops.len() ==> !(#[trigger] ops[k] is RecordId) && !(ops[k] is ForgetId) {
            assert forall|k: int| 0 <= k < init.len() implies !(#[trigger] init[k] is RecordId) && !(init[k] is ForgetId) by {
                assert(init[k] == ops[k]);
            }
        }
    }
}

/// Sending with no recorded node id labels the file with an empty id; reading the id
/// again replaces it and keeps everything else.
pub proof fn law_node_id_label<N, C>(s: SessionView<N, C>, id: Seq<char>)
    ensures
        s.node_id is None ==> id_or_empty(s) == Seq::<char>::empty(),
        after_id(s, id).node_id == Some(id),
        after_id(s, id).node == s.node,
        after_id(s, id).client == s.client,
        after_id(s, id).download_active == s.download_active,
        after_download_request(s).download_active,
        after_download_request(s).node == s.node && after_download_request(s).client == s.client
            && after_download_request(s).node_id == s.node_id,
{
}

} // verus!
