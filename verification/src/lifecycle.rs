//! Agent lifecycle: identity construction, option negotiation, log
//! opening, privilege drop, transport binding, table initialization,
//! connection and serving, in that order and no other.
//!
//! The manager is a state machine; every transition method requires the
//! state it leaves and ensures the state it enters, each one step up a
//! fixed ladder. The outside work of a step — opening the log file,
//! switching the process identity, the transport handshake, blocking
//! for the next request — is performed by the surrounding runtime,
//! which the methods hand the decided values to.

use vstd::prelude::*;
use crate::atom::AtomValue;
use crate::fetch::{spec_resolve, FetchError, RequestStep};
use crate::model::Metric;
use crate::options::{
    parse_options, select_transport, spec_parse_from, spec_transport, view_opt_string, OptionsV,
    PmdaOptions, Transport,
};
use crate::table::{spec_unique_keys, ConfigError, DispatchTable};

verus! {

/// The interface revision the agent registers with the collector
/// runtime.
pub const PMDA_INTERFACE_2: u32 = 2;

/// The stations of one agent process, first to last.
#[derive(Clone, Copy, PartialEq, Eq, Structural, Debug)]
pub enum LifecycleState {
    Unconfigured,
    IdentityBound,
    OptionsResolved,
    LogOpen,
    PrivilegeDropped,
    TransportBound,
    TableInitialized,
    Connected,
    Serving,
    Terminated,
}

/// Position of a state on the ladder.
pub open spec fn spec_rank(s: LifecycleState) -> int {
    match s {
        LifecycleState::Unconfigured => 0,
        LifecycleState::IdentityBound => 1,
        LifecycleState::OptionsResolved => 2,
        LifecycleState::LogOpen => 3,
        LifecycleState::PrivilegeDropped => 4,
        LifecycleState::TransportBound => 5,
        LifecycleState::TableInitialized => 6,
        LifecycleState::Connected => 7,
        LifecycleState::Serving => 8,
        LifecycleState::Terminated => 9,
    }
}

/// A transition the manager allows: exactly one step up the ladder.
pub open spec fn spec_step_allowed(pre: LifecycleState, post: LifecycleState) -> bool {
    spec_rank(post) == spec_rank(pre) + 1
}

/// A run of the manager: it starts unconfigured and every move is an
/// allowed transition.
pub open spec fn spec_trace_valid(tr: Seq<LifecycleState>) -> bool {
    &&& tr.len() > 0
    &&& tr[0] == LifecycleState::Unconfigured
    &&& forall|k: int| 0 <= k < tr.len() - 1 ==> spec_step_allowed(#[trigger] tr[k], tr[k + 1])
}

proof fn lemma_trace_rank(tr: Seq<LifecycleState>, k: int)
    requires
        spec_trace_valid(tr),
        0 <= k < tr.len(),
    ensures
        spec_rank(tr[k]) == k,
    decreases k,
{
    if k > 0 {
        lemma_trace_rank(tr, k - 1);
    }
}

/// Lifecycle ordering: in every valid run, the transport is bound
/// strictly after the privilege drop — the listening transport never
/// exists while the process still holds its starting privilege.
pub proof fn lemma_privilege_drop_precedes_transport(tr: Seq<LifecycleState>, j: int)
    requires
        spec_trace_valid(tr),
        0 <= j < tr.len(),
        tr[j] == LifecycleState::TransportBound,
    ensures
        exists|i: int| 0 <= i < j && tr[i] == LifecycleState::PrivilegeDropped,
{
    lemma_trace_rank(tr, j);
    assert(j == 5);
    lemma_trace_rank(tr, 4);
    assert(tr[4] == LifecycleState::PrivilegeDropped);
}

/// The same one step further: a connected agent passed the privilege
/// drop before it bound its transport.
pub proof fn lemma_connected_after_drop(tr: Seq<LifecycleState>, j: int)
    requires
        spec_trace_valid(tr),
        0 <= j < tr.len(),
        tr[j] == LifecycleState::Connected,
    ensures
        exists|i: int, k: int|
            0 <= i < k < j && tr[i] == LifecycleState::PrivilegeDropped && tr[k]
                == LifecycleState::TransportBound,
{
    lemma_trace_rank(tr, j);
    assert(j == 7);
    lemma_trace_rank(tr, 4);
    lemma_trace_rank(tr, 5);
    assert(tr[4] == LifecycleState::PrivilegeDropped);
    assert(tr[5] == LifecycleState::TransportBound);
}

/// Empty or holding a NUL: unusable as an agent name or base directory.
pub open spec fn spec_valid_name(s: Seq<char>) -> bool {
    s.len() > 0 && (forall|i: int| 0 <= i < s.len() ==> s[i] != '\0')
}

fn valid_name(s: &str) -> (r: bool)
    ensures
        r == spec_valid_name(s@),
{
    let n = s.unicode_len();
    if n == 0 {
        return false;
    }
    let mut k: usize = 0;
    while k < n
        invariant
            n == s@.len(),
            k <= n,
            forall|i: int| 0 <= i < k ==> s@[i] != '\0',
        decreases n - k,
    {
        if s.get_char(k) == '\0' {
            return false;
        }
        k = k + 1;
    }
    true
}

/// The agent's identity: its name, the paths derived from it, and the
/// unprivileged account it drops to. Constructed once at startup,
/// immutable afterward.
#[derive(Clone, Debug)]
pub struct Pmda {
    pub prog_name: String,
    pub log_file: String,
    pub help_path: String,
    pub username: String,
}

impl Pmda {
    /// Build the identity from the agent name, the configuration-supplied
    /// base directory and the unprivileged account: the log path is
    /// `<base>/<name>.log`, the help text path `<base>/<name>/help`.
    /// An empty name or base, or one holding a NUL, is a fatal
    /// configuration error.
    pub fn new(prog_name: &str, base_dir: &str, username: &str) -> (r: Result<Pmda, ConfigError>)
        ensures
            r is Ok <==> spec_valid_name(prog_name@) && spec_valid_name(base_dir@),
            r matches Ok(p) ==> {
                &&& p.prog_name@ == prog_name@
                &&& p.log_file@ == base_dir@ + ("/")@ + prog_name@ + (".log")@
                &&& p.help_path@ == base_dir@ + ("/")@ + prog_name@ + ("/help")@
                &&& p.username@ == username@
            },
            r is Err ==> r == Err::<Pmda, ConfigError>(ConfigError::BadIdentity),
    {
        if !valid_name(prog_name) || !valid_name(base_dir) {
            return Err(ConfigError::BadIdentity);
        }
        let mut log_file = String::from_str(base_dir);
        log_file.append("/");
        log_file.append(prog_name);
        log_file.append(".log");
        let mut help_path = String::from_str(base_dir);
        help_path.append("/");
        help_path.append(prog_name);
        help_path.append("/help");
        Ok(
            Pmda {
                prog_name: String::from_str(prog_name),
                log_file,
                help_path,
                username: String::from_str(username),
            },
        )
    }

    /// The program name the surrounding runtime installs as the
    /// process-global name before anything is logged.
    pub fn init(&self) -> (name: String)
        ensures
            name@ == self.prog_name@,
    {
        self.prog_name.clone()
    }

    /// Register the identity with the dispatch manager under the given
    /// metrics domain, at the daemon-default transport.
    pub fn set_daemon(&self, dispatch: &mut Interface, domain: u32)
        requires
            old(dispatch).state == LifecycleState::Unconfigured,
        ensures
            dispatch_identity_bound(
                *final(dispatch),
                *old(dispatch),
                PMDA_INTERFACE_2,
                self.prog_name@,
                domain,
                self.log_file@,
                self.help_path@,
            ),
    {
        dispatch.set_daemon(
            PMDA_INTERFACE_2,
            &self.prog_name,
            domain,
            &self.log_file,
            &self.help_path,
        )
    }

    /// Decide the account the process identity switches to: the
    /// negotiated override if one was given, this identity's account
    /// otherwise. The surrounding runtime performs the switch — a
    /// one-way transition, never reverted — before any transport is
    /// bound.
    pub fn set_uid(&self, dispatch: &mut Interface) -> (user: String)
        requires
            old(dispatch).state == LifecycleState::LogOpen,
        ensures
            final(dispatch).state == LifecycleState::PrivilegeDropped,
            *final(dispatch) == (Interface {
                state: LifecycleState::PrivilegeDropped,
                ..*old(dispatch)
            }),
            user@ == (match view_opt_string(old(dispatch).username_override) {
                Some(u) => u,
                None => self.username@,
            }),
    {
        dispatch.state = LifecycleState::PrivilegeDropped;
        match &dispatch.username_override {
            Some(u) => u.clone(),
            None => self.username.clone(),
        }
    }
}

/// What `set_daemon` establishes.
pub open spec fn dispatch_identity_bound(
    post: Interface,
    pre: Interface,
    interface: u32,
    name: Seq<char>,
    domain: u32,
    log_file: Seq<char>,
    help_path: Seq<char>,
) -> bool {
    &&& post.state == LifecycleState::IdentityBound
    &&& post.interface_version == interface
    &&& post.name@ == name
    &&& post.domain == domain
    &&& post.log_file@ == log_file
    &&& post.help_path@ == help_path
    &&& post.transport == Transport::Daemon
    &&& post.username_override is None
    &&& post.callback_registered == pre.callback_registered
    &&& post.table == pre.table
}

/// What `get_options` establishes when no error was counted: the
/// manager adopts the negotiated overrides and the transport selection,
/// and everything else stays as it was.
pub open spec fn options_resolved(post: Interface, pre: Interface, p: OptionsV) -> bool {
    &&& post.state == LifecycleState::OptionsResolved
    &&& post.interface_version == pre.interface_version
    &&& post.name == pre.name
    &&& post.domain == (match p.domain {
        Some(d) => d,
        None => pre.domain,
    })
    &&& post.log_file@ == (match p.logfile {
        Some(l) => l,
        None => pre.log_file@,
    })
    &&& post.help_path@ == (match p.helptext {
        Some(h) => h,
        None => pre.help_path@,
    })
    &&& view_opt_string(post.username_override) == p.username
    &&& post.transport == spec_transport(p)
    &&& post.callback_registered == pre.callback_registered
    &&& post.table == pre.table
}

/// The dispatch manager: the lifecycle state, the values each station
/// decided, and — once initialized — the immutable dispatch table.
pub struct Interface {
    pub state: LifecycleState,
    pub interface_version: u32,
    pub name: String,
    pub domain: u32,
    pub log_file: String,
    pub help_path: String,
    pub transport: Transport,
    pub username_override: Option<String>,
    pub callback_registered: bool,
    pub table: Option<DispatchTable>,
}

impl Default for Interface {
    /// An unconfigured manager: no identity, no table, no callback.
    fn default() -> (r: Interface)
        ensures
            r.state == LifecycleState::Unconfigured,
            !r.callback_registered,
            r.table is None,
            r.username_override is None,
    {
        Interface {
            state: LifecycleState::Unconfigured,
            interface_version: 0,
            name: String::new(),
            domain: 0,
            log_file: String::new(),
            help_path: String::new(),
            transport: Transport::Daemon,
            username_override: None,
            callback_registered: false,
            table: None,
        }
    }
}

impl Interface {
    /// Bind the agent identity under the given interface revision and
    /// metrics domain.
    pub fn set_daemon(
        &mut self,
        interface: u32,
        name: &String,
        domain: u32,
        logfile: &String,
        help_text: &String,
    )
        requires
            old(self).state == LifecycleState::Unconfigured,
        ensures
            dispatch_identity_bound(
                *final(self),
                *old(self),
                interface,
                name@,
                domain,
                logfile@,
                help_text@,
            ),
    {
        self.state = LifecycleState::IdentityBound;
        self.interface_version = interface;
        self.name = name.clone();
        self.domain = domain;
        self.log_file = logfile.clone();
        self.help_path = help_text.clone();
        self.transport = Transport::Daemon;
        self.username_override = None;
    }

    /// Merge the canonical option sequences against the process
    /// arguments and, when no error was counted, adopt what was
    /// negotiated: domain override, log and help path overrides,
    /// account override, transport selection. On any parse error the
    /// manager is left exactly as it was — startup never proceeds
    /// partially — and the error count is returned for the caller to
    /// print the usage text.
    pub fn get_options(&mut self, args: &Vec<String>, opts: &mut PmdaOptions) -> (errors: usize)
        requires
            old(self).state == LifecycleState::IdentityBound,
            old(opts).errors + args@.len() <= usize::MAX,
        ensures
            final(opts).short_options == old(opts).short_options,
            final(opts).long_options == old(opts).long_options,
            args@.len() >= 1 ==> final(opts)@ == spec_parse_from(
                old(opts).short_options@,
                old(opts).long_options@,
                args@.skip(1),
                old(opts)@,
            ),
            args@.len() == 0 ==> *final(opts) == *old(opts),
            errors == final(opts)@.errors,
            errors > 0 ==> *final(self) == *old(self),
            errors == 0 ==> options_resolved(*final(self), *old(self), final(opts)@),
    {
        parse_options(opts, args);
        let errors = opts.errors;
        if errors == 0 {
            self.state = LifecycleState::OptionsResolved;
            match &opts.domain {
                Some(d) => {
                    self.domain = *d;
                },
                None => {},
            }
            match &opts.logfile {
                Some(l) => {
                    self.log_file = l.clone();
                },
                None => {},
            }
            match &opts.helptext {
                Some(h) => {
                    self.help_path = h.clone();
                },
                None => {},
            }
            match &opts.username {
                Some(u) => {
                    self.username_override = Some(u.clone());
                },
                None => {
                    self.username_override = None;
                },
            }
            self.transport = select_transport(opts);
        }
        errors
    }

    /// Decide the path of the log sink and move to it being open; the
    /// surrounding runtime opens the file and treats failure as fatal —
    /// the agent never runs un-logged.
    pub fn open_log(&mut self) -> (path: String)
        requires
            old(self).state == LifecycleState::OptionsResolved,
        ensures
            *final(self) == (Interface { state: LifecycleState::LogOpen, ..*old(self) }),
            path@ == old(self).log_file@,
    {
        self.state = LifecycleState::LogOpen;
        self.log_file.clone()
    }

    /// Bind the negotiated transport. This station stands strictly
    /// after the privilege drop, so the listening endpoint never exists
    /// under elevated privilege; the returned selector tells the
    /// surrounding runtime what to bind.
    pub fn bind_transport(&mut self) -> (t: Transport)
        requires
            old(self).state == LifecycleState::PrivilegeDropped,
        ensures
            *final(self) == (Interface { state: LifecycleState::TransportBound, ..*old(self) }),
            t == old(self).transport,
    {
        self.state = LifecycleState::TransportBound;
        self.transport
    }

    /// Record that the surrounding runtime installed its fetch
    /// handler; requests are routed only once one is present.
    pub fn set_fetch_callback(&mut self)
        requires
            old(self).state == LifecycleState::TransportBound,
        ensures
            *final(self) == (Interface { callback_registered: true, ..*old(self) }),
    {
        self.callback_registered = true;
    }

    /// Build the dispatch table from the caller-supplied metric
    /// sequence: the commit point, after which the table is immutable.
    /// Two metrics with the same (cluster, item) coordinates make the
    /// whole initialization fail — a fatal configuration error — and
    /// leave the manager as it was.
    pub fn init(&mut self, metrics: Vec<Metric>) -> (r: Result<(), ConfigError>)
        requires
            old(self).state == LifecycleState::TransportBound,
            old(self).callback_registered,
        ensures
            r is Ok <==> spec_unique_keys(metrics@),
            r matches Ok(_) ==> {
                &&& final(self).state == LifecycleState::TableInitialized
                &&& final(self).table matches Some(t) && t@ == metrics@ && t.wf()
                &&& *final(self) == (Interface {
                    state: LifecycleState::TableInitialized,
                    table: final(self).table,
                    ..*old(self)
                })
            },
            r is Err ==> *final(self) == *old(self) && r == Err::<(), ConfigError>(
                ConfigError::DuplicateMetric,
            ),
    {
        match DispatchTable::new(metrics) {
            Ok(t) => {
                self.table = Some(t);
                self.state = LifecycleState::TableInitialized;
                Ok(())
            },
            Err(e) => Err(e),
        }
    }

    /// Perform the collector handshake's decision side; the surrounding
    /// runtime carries the transport-specific exchange.
    pub fn connect(&mut self)
        requires
            old(self).state == LifecycleState::TableInitialized,
        ensures
            *final(self) == (Interface { state: LifecycleState::Connected, ..*old(self) }),
    {
        self.state = LifecycleState::Connected;
    }

    /// Enter the serve loop: from here the surrounding runtime blocks
    /// for requests and hands each one to `handle_request`.
    pub fn begin_serving(&mut self)
        requires
            old(self).state == LifecycleState::Connected,
        ensures
            *final(self) == (Interface { state: LifecycleState::Serving, ..*old(self) }),
    {
        self.state = LifecycleState::Serving;
    }

    /// Route one fetch request: resolve it against the table and either
    /// answer the router's own error at once — the callback is never
    /// reached — or hand back the resolved metric together with the
    /// empty carrier the callback must fill.
    pub fn handle_request(&self, pmid: u32, inst: u32) -> (step: RequestStep)
        requires
            self.state == LifecycleState::Serving,
            self.table is Some,
        ensures
            self.table matches Some(t) ==> step == (match spec_resolve(t@, pmid, inst) {
                Err(e) => RequestStep::Respond(e.spec_code()),
                Ok(m) => RequestStep::Invoke(m, AtomValue { expected: m.desc.value_type, slot: None }),
            }),
    {
        match &self.table {
            Some(t) => {
                match crate::fetch::resolve(t, pmid, inst) {
                    Err(e) => RequestStep::Respond(e.code()),
                    Ok(m) => {
                        let carrier = crate::fetch::new_carrier(&m);
                        RequestStep::Invoke(m, carrier)
                    },
                }
            },
            None => RequestStep::Respond(FetchError::UnknownMetric.code()),
        }
    }

    /// Leave the serve loop for the clean process exit; the read-only
    /// table needs no teardown.
    pub fn terminate(&mut self)
        requires
            old(self).state == LifecycleState::Serving,
        ensures
            *final(self) == (Interface { state: LifecycleState::Terminated, ..*old(self) }),
    {
        self.state = LifecycleState::Terminated;
    }
}

} // verus!
