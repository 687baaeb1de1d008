//! The agent: its settings, and the decisions that keep its running
//! collectors in line with the configuration.
use vstd::prelude::*;
use crate::resolver::{ConfigResolver, LocationView, location_of};
use crate::text::str_eq;
use crate::config::SenderConfig;
use crate::error::AgentError;
use crate::sender::{sender_check, FileChecks, Sender};
use crate::label::{Label, LabelMap, LabelView, Labels, items_of};

verus! {

/// A collector instance that is running, with the hash of the
/// configuration it was started from.
pub struct RunningCollector {
    pub id: String,
    pub config_hash: u64,
}

impl RunningCollector {
    /// Whether a configuration with hash `hash` differs from the one the
    /// collector runs with.
    pub fn is_changed(&self, hash: u64) -> (r: bool)
        ensures
            r == (self.config_hash != hash),
    {
        self.config_hash != hash
    }
}

/// A running collector: its identifier and configuration hash.
pub type RunView = (Seq<char>, u64);

pub open spec fn run_views(v: Seq<RunningCollector>) -> Seq<RunView> {
    v.map_values(|r: RunningCollector| (r.id@, r.config_hash))
}

/// One collector configuration as the agent weighs it: its identifier,
/// whether it is disabled, the hash of the whole configuration, and
/// whether a collector can be started from it.
pub struct CollectorPlan {
    pub id: String,
    pub disabled: bool,
    pub config_hash: u64,
    pub startable: bool,
}

pub struct PlanView {
    pub id: Seq<char>,
    pub disabled: bool,
    pub hash: u64,
    pub startable: bool,
}

pub open spec fn plan_views(v: Seq<CollectorPlan>) -> Seq<PlanView> {
    v.map_values(|c: CollectorPlan| PlanView { id: c.id@, disabled: c.disabled, hash: c.config_hash, startable: c.startable })
}

/// What the agent does to bring its collectors in line.
#[derive(Debug)]
pub enum CollectorAction {
    /// Stop the running collector with this identifier.
    Stop(String),
    /// Start a collector from the configuration at this position.
    Start(usize),
}

pub enum ActionView {
    Stop(Seq<char>),
    Start(int),
}

pub open spec fn action_views(v: Seq<CollectorAction>) -> Seq<ActionView> {
    v.map_values(|a: CollectorAction| match a {
        CollectorAction::Stop(id) => ActionView::Stop(id@),
        CollectorAction::Start(i) => ActionView::Start(i as int),
    })
}

/// The configuration hash of the first running collector named `id`.
pub open spec fn find_run(rs: Seq<RunView>, id: Seq<char>) -> Option<u64>
    decreases rs.len(),
{
    if rs.len() == 0 {
        None
    } else if rs[0].0 == id {
        Some(rs[0].1)
    } else {
        find_run(rs.drop_first(), id)
    }
}

/// `rs` without its first collector named `id`.
pub open spec fn remove_run(rs: Seq<RunView>, id: Seq<char>) -> Seq<RunView>
    decreases rs.len(),
{
    if rs.len() == 0 {
        rs
    } else if rs[0].0 == id {
        rs.drop_first()
    } else {
        seq![rs[0]] + remove_run(rs.drop_first(), id)
    }
}

/// No two running collectors share an identifier.
pub open spec fn ids_unique(rs: Seq<RunView>) -> bool {
    forall|i: int, j: int| 0 <= i < j < rs.len() ==> (#[trigger] rs[i]).0 != (#[trigger] rs[j]).0
}

/// The decision for the configuration at position `i`: a disabled one
/// stops its collector; an enabled one starts its collector when none
/// runs, restarts it when the configuration changed, and leaves it
/// otherwise. A collector that cannot be started is not started.
pub open spec fn plan_step(rs: Seq<RunView>, c: PlanView, i: int) -> (Seq<RunView>, Seq<ActionView>) {
    if c.disabled {
        match find_run(rs, c.id) {
            Some(_) => (remove_run(rs, c.id), seq![ActionView::Stop(c.id)]),
            None => (rs, Seq::empty()),
        }
    } else {
        match find_run(rs, c.id) {
            Some(h) => if h != c.hash {
                if c.startable {
                    (remove_run(rs, c.id).push((c.id, c.hash)), seq![ActionView::Stop(c.id), ActionView::Start(i)])
                } else {
                    (remove_run(rs, c.id), seq![ActionView::Stop(c.id)])
                }
            } else {
                (rs, Seq::empty())
            },
            None => if c.startable {
                (rs.push((c.id, c.hash)), seq![ActionView::Start(i)])
            } else {
                (rs, Seq::empty())
            },
        }
    }
}

/// The decisions for the configurations in order.
pub open spec fn plan_prefix(rs: Seq<RunView>, cs: Seq<PlanView>) -> (Seq<RunView>, Seq<ActionView>)
    decreases cs.len(),
{
    if cs.len() == 0 {
        (rs, Seq::empty())
    } else {
        let p = plan_prefix(rs, cs.drop_last());
        let q = plan_step(p.0, cs.last(), cs.len() - 1);
        (q.0, p.1 + q.1)
    }
}

/// Whether some enabled configuration has the identifier `id`.
pub open spec fn enabled_id(cs: Seq<PlanView>, id: Seq<char>) -> bool {
    exists|i: int| 0 <= i < cs.len() && !(#[trigger] cs[i]).disabled && cs[i].id == id
}

/// Applying a configuration: the decisions for each collector
/// configuration in turn, then every running collector that no enabled
/// configuration names is stopped.
pub open spec fn apply_plan(rs: Seq<RunView>, cs: Seq<PlanView>) -> (Seq<RunView>, Seq<ActionView>) {
    let p = plan_prefix(rs, cs);
    (
        p.0.filter(|r: RunView| enabled_id(cs, r.0)),
        p.1 + p.0.filter(|r: RunView| !enabled_id(cs, r.0)).map_values(|r: RunView| ActionView::Stop(r.0)),
    )
}

proof fn lemma_find_run_at(rs: Seq<RunView>, id: Seq<char>, k: int)
    requires
        0 <= k < rs.len(),
        rs[k].0 == id,
        forall|j: int| 0 <= j < k ==> (#[trigger] rs[j]).0 != id,
    ensures
        find_run(rs, id) == Some(rs[k].1),
        remove_run(rs, id) == rs.remove(k),
    decreases rs.len(),
{
    if k > 0 {
        let t = rs.drop_first();
        assert forall|j: int| 0 <= j < k - 1 implies (#[trigger] t[j]).0 != id by {
            assert(t[j] == rs[j + 1]);
        }
        lemma_find_run_at(t, id, k - 1);
        assert(rs.remove(k) =~= seq![rs[0]] + t.remove(k - 1));
    } else {
        assert(rs.remove(0) =~= rs.drop_first());
    }
}

proof fn lemma_find_run_none(rs: Seq<RunView>, id: Seq<char>)
    requires
        forall|j: int| 0 <= j < rs.len() ==> (#[trigger] rs[j]).0 != id,
    ensures
        find_run(rs, id).is_none(),
    decreases rs.len(),
{
    if rs.len() > 0 {
        let t = rs.drop_first();
        assert forall|j: int| 0 <= j < t.len() implies (#[trigger] t[j]).0 != id by {
            assert(t[j] == rs[j + 1]);
        }
        lemma_find_run_none(t, id);
    }
}

/// Builds an `Agent`.
pub struct AgentBuilder {
    pub cert_validation: bool,
    pub dump_metrics: bool,
    pub config: Option<String>,
    pub hostname: Option<String>,
}

impl Default for AgentBuilder {
    fn default() -> (r: AgentBuilder)
        ensures
            !r.cert_validation,
            !r.dump_metrics,
            r.config.is_none(),
            r.hostname.is_none(),
    {
        AgentBuilder { cert_validation: false, dump_metrics: false, config: None, hostname: None }
    }
}

/// `gethostname::gethostname` turned into a `String` by
/// `OsString::into_string`: the machine's host name where it is valid
/// UTF-8, `None` otherwise. The name rests on the machine, so the contract
/// says nothing of it.
#[verifier::external_body]
fn system_hostname() -> (r: Option<String>) {
    gethostname::gethostname().into_string().ok()
}

/// The host name the agent reports: the configured one, else the system's
/// name (given where it is valid UTF-8), else `localhost`.
pub open spec fn hostname_choice(configured: Option<Seq<char>>, system: Option<Seq<char>>) -> Seq<char> {
    match configured {
        Some(h) => h,
        None => match system {
            Some(s) => s,
            None => "localhost"@,
        },
    }
}

/// The view of an optional string.
pub open spec fn opt_view(s: Option<String>) -> Option<Seq<char>> {
    match s {
        Some(x) => Some(x@),
        None => None,
    }
}

/// The host name the agent reports (see `hostname_choice`), from the
/// configured name and the system's.
pub fn choose_hostname(configured: &Option<String>, system: Option<String>) -> (r: String)
    ensures
        r@ == hostname_choice(opt_view(*configured), opt_view(system)),
{
    match configured {
        Some(h) => h.clone(),
        None => match system {
            Some(s) => s,
            None => "localhost".to_owned(),
        },
    }
}

impl AgentBuilder {
    /// Sets whether certificates are validated.
    pub fn set_cert_validation(&mut self, status: bool) -> (r: &mut Self)
        ensures
            r.cert_validation == status,
            r.dump_metrics == old(self).dump_metrics,
            r.config == old(self).config,
            r.hostname == old(self).hostname,
            *final(self) == *final(r),
    {
        self.cert_validation = status;
        self
    }

    /// Sets the configuration URL.
    pub fn set_config(&mut self, config: Option<String>) -> (r: &mut Self)
        ensures
            r.config == config,
            r.cert_validation == old(self).cert_validation,
            r.dump_metrics == old(self).dump_metrics,
            r.hostname == old(self).hostname,
            *final(self) == *final(r),
    {
        self.config = config;
        self
    }

    /// Sets whether every update of the metrics is printed.
    pub fn set_dump_metrics(&mut self, status: bool) -> (r: &mut Self)
        ensures
            r.dump_metrics == status,
            r.cert_validation == old(self).cert_validation,
            r.config == old(self).config,
            r.hostname == old(self).hostname,
            *final(self) == *final(r),
    {
        self.dump_metrics = status;
        self
    }

    /// Sets the host name reported in place of the system's.
    pub fn set_hostname(&mut self, hostname: Option<String>) -> (r: &mut Self)
        ensures
            r.hostname == hostname,
            r.cert_validation == old(self).cert_validation,
            r.dump_metrics == old(self).dump_metrics,
            r.config == old(self).config,
            *final(self) == *final(r),
    {
        self.hostname = hostname;
        self
    }

    /// The agent: its configuration found at the configured URL, no
    /// collector running, and the configured host name, else the system's,
    /// else `localhost`.
    pub fn build(&self) -> (r: Agent)
        ensures
            r.resolver@ == (match self.config {
                Some(u) => location_of(u@),
                None => LocationView::Unknown,
            }),
            r.running@.len() == 0,
            !r.sender_configured,
            r.dump_metrics == self.dump_metrics,
            self.hostname matches Some(h) ==> r.hostname@ == h@,
    {
        let mut b = ConfigResolver::builder();
        b.set_cert_validation(self.cert_validation).set_url(self.config.clone());
        let system = match &self.hostname {
            Some(_) => None,
            None => system_hostname(),
        };
        let hostname = choose_hostname(&self.hostname, system);
        Agent {
            resolver: b.build(),
            running: Vec::new(),
            sender_configured: false,
            hostname,
            dump_metrics: self.dump_metrics,
        }
    }
}

/// The agent's state: where its configuration comes from, which
/// collectors run, and whether its sender runs.
pub struct Agent {
    pub resolver: ConfigResolver,
    pub running: Vec<RunningCollector>,
    pub sender_configured: bool,
    pub hostname: String,
    pub dump_metrics: bool,
}

impl Agent {
    /// A builder with default settings.
    pub fn builder() -> (r: AgentBuilder)
        ensures
            !r.cert_validation,
            !r.dump_metrics,
            r.config.is_none(),
            r.hostname.is_none(),
    {
        AgentBuilder::default()
    }

    /// The agent's labels for the sender: the configured labels, then
    /// `host` with the agent's host name (left out when that is empty).
    pub fn sender_labels(&self, labels: &Option<LabelMap>) -> (r: Labels)
        requires
            labels matches Some(m) ==> m.wf(),
        ensures
            ({
                let base = match labels {
                    Some(m) => Some(m.entry_views()),
                    None => None::<Seq<LabelView>>,
                };
                r@ == if self.hostname@.len() > 0 {
                    Some(items_of(base).push(("host"@, self.hostname@)))
                } else {
                    base
                }
            }),
    {
        let mut r = Labels::from_config(labels);
        r.push(Label::new("host", self.hostname.as_str()));
        r
    }

    /// Position of the running collector `id`.
    fn find_running(&self, id: &String) -> (r: Option<usize>)
        ensures
            match r {
                Some(k) => k < self.running@.len() && run_views(self.running@)[k as int].0 == id@
                    && forall|j: int| 0 <= j < k ==> (#[trigger] run_views(self.running@)[j]).0 != id@,
                None => forall|j: int| 0 <= j < self.running@.len() ==> (#[trigger] run_views(self.running@)[j]).0 != id@,
            },
    {
        let ghost rs = run_views(self.running@);
        let mut k: usize = 0;
        while k < self.running.len()
            invariant
                k <= self.running.len(),
                rs == run_views(self.running@),
                forall|j: int| 0 <= j < k ==> (#[trigger] rs[j]).0 != id@,
            decreases self.running.len() - k,
        {
            if str_eq(self.running[k].id.as_str(), id.as_str()) {
                return Some(k);
            }
            k = k + 1;
        }
        None
    }

    /// The decision for one collector configuration at position `i`.
    fn plan_collector(&mut self, c: &CollectorPlan, i: usize) -> (r: Vec<CollectorAction>)
        requires
            ids_unique(run_views(old(self).running@)),
        ensures
            ids_unique(run_views(final(self).running@)),
            (run_views(final(self).running@), action_views(r@)) == plan_step(
                run_views(old(self).running@),
                PlanView { id: c.id@, disabled: c.disabled, hash: c.config_hash, startable: c.startable },
                i as int,
            ),
            final(self).resolver == old(self).resolver,
            final(self).sender_configured == old(self).sender_configured,
            final(self).hostname == old(self).hostname,
            final(self).dump_metrics == old(self).dump_metrics,
    {
        let ghost rs = run_views(self.running@);
        let mut actions: Vec<CollectorAction> = Vec::new();
        let pos = self.find_running(&c.id);
        match pos {
            Some(k) => {
                proof { lemma_find_run_at(rs, c.id@, k as int); }
                let h = self.running[k].config_hash;
                if c.disabled || self.running[k].is_changed(c.config_hash) {
                    self.running.remove(k);
                    assert(run_views(self.running@) =~= rs.remove(k as int));
                    actions.push(CollectorAction::Stop(c.id.clone()));
                    if !c.disabled && c.startable {
                        let ghost r1 = run_views(self.running@);
                        self.running.push(RunningCollector { id: c.id.clone(), config_hash: c.config_hash });
                        assert(run_views(self.running@) =~= r1.push((c.id@, c.config_hash)));
                        actions.push(CollectorAction::Start(i));
                        assert forall|a: int, b: int| 0 <= a < b < run_views(self.running@).len() implies
                            (#[trigger] run_views(self.running@)[a]).0 != (#[trigger] run_views(self.running@)[b]).0 by {
                            if b == r1.len() {
                                assert(r1[a] == rs.remove(k as int)[a]);
                                if a < k {
                                } else {
                                    assert(rs.remove(k as int)[a] == rs[a + 1]);
                                }
                            } else {
                                assert(r1[a] == rs.remove(k as int)[a] && r1[b] == rs.remove(k as int)[b]);
                                if a >= k {
                                    assert(rs.remove(k as int)[a] == rs[a + 1]);
                                }
                                if b >= k {
                                    assert(rs.remove(k as int)[b] == rs[b + 1]);
                                }
                            }
                        }
                        assert(action_views(actions@) =~= seq![ActionView::Stop(c.id@), ActionView::Start(i as int)]);
                    } else {
                        assert forall|a: int, b: int| 0 <= a < b < run_views(self.running@).len() implies
                            (#[trigger] run_views(self.running@)[a]).0 != (#[trigger] run_views(self.running@)[b]).0 by {
                            if a >= k {
                                assert(rs.remove(k as int)[a] == rs[a + 1]);
                            }
                            if b >= k {
                                assert(rs.remove(k as int)[b] == rs[b + 1]);
                            }
                        }
                        assert(action_views(actions@) =~= seq![ActionView::Stop(c.id@)]);
                    }
                } else {
                    assert(action_views(actions@) =~= Seq::<ActionView>::empty());
                }
            }
            None => {
                proof { lemma_find_run_none(rs, c.id@); }
                if !c.disabled && c.startable {
                    self.running.push(RunningCollector { id: c.id.clone(), config_hash: c.config_hash });
                    assert(run_views(self.running@) =~= rs.push((c.id@, c.config_hash)));
                    actions.push(CollectorAction::Start(i));
                    assert(action_views(actions@) =~= seq![ActionView::Start(i as int)]);
                } else {
                    assert(action_views(actions@) =~= Seq::<ActionView>::empty());
                }
            }
        }
        actions
    }

    /// Starts the sender on the agent's first configuration: the sender
    /// for the settings, with the agent's metric dump setting; refused
    /// settings are a `ConfigurationError` (see `sender_check`) and leave
    /// the agent as it was. Once a sender runs, nothing is started.
    pub fn configure_sender(&mut self, value: &SenderConfig, files: &FileChecks) -> (r: Result<Option<Sender>, AgentError>)
        ensures
            final(self).running == old(self).running,
            final(self).resolver == old(self).resolver,
            final(self).hostname == old(self).hostname,
            final(self).dump_metrics == old(self).dump_metrics,
            old(self).sender_configured ==> (r matches Ok(None) && final(self).sender_configured),
            !old(self).sender_configured ==> (match sender_check(*value, *files) {
                Ok(st) => r matches Ok(Some(s)) && s.settings() == st && s.db.wf() && s.db@.families.len() == 0
                    && s.db@.labels.is_none() && s.dump_metrics == old(self).dump_metrics
                    && final(self).sender_configured,
                Err(m) => r matches Err(AgentError::ConfigurationError(e)) && e@ == m && !final(self).sender_configured,
            }),
    {
        if self.sender_configured {
            return Ok(None);
        }
        let mut sender = match Sender::try_from(value, files) {
            Ok(s) => s,
            Err(e) => return Err(e),
        };
        sender.set_dump_metrics(self.dump_metrics);
        self.sender_configured = true;
        Ok(Some(sender))
    }

    /// Applies a configuration: first the sender (see `configure_sender`),
    /// whose refusal is the result and leaves the agent as it was; then
    /// the collectors (see `apply_collectors`), whose actions are returned
    /// with the sender to start, if any.
    pub fn apply(&mut self, sender: &SenderConfig, files: &FileChecks, cs: &Vec<CollectorPlan>)
        -> (r: Result<(Option<Sender>, Vec<CollectorAction>), AgentError>)
        requires
            ids_unique(run_views(old(self).running@)),
        ensures
            ids_unique(run_views(final(self).running@)),
            final(self).resolver == old(self).resolver,
            final(self).hostname == old(self).hostname,
            final(self).dump_metrics == old(self).dump_metrics,
            match r {
                Err(e) => !old(self).sender_configured && (sender_check(*sender, *files) matches Err(m)
                    && e matches AgentError::ConfigurationError(t) && t@ == m)
                    && final(self).running == old(self).running && !final(self).sender_configured,
                Ok((s, actions)) => final(self).sender_configured
                    && (s is Some <==> !old(self).sender_configured)
                    && (run_views(final(self).running@), action_views(actions@))
                        == apply_plan(run_views(old(self).running@), plan_views(cs@)),
            },
            (old(self).sender_configured || sender_check(*sender, *files) is Ok) <==> r is Ok,
    {
        let s = match self.configure_sender(sender, files) {
            Ok(s) => s,
            Err(e) => return Err(e),
        };
        let actions = self.apply_collectors(cs);
        Ok((s, actions))
    }

    /// Applies the collector configurations: the decision for each in
    /// turn, then every running collector that no enabled configuration
    /// names is stopped. Returns the actions to carry out, in order.
    pub fn apply_collectors(&mut self, cs: &Vec<CollectorPlan>) -> (r: Vec<CollectorAction>)
        requires
            ids_unique(run_views(old(self).running@)),
        ensures
            ids_unique(run_views(final(self).running@)),
            (run_views(final(self).running@), action_views(r@)) == apply_plan(run_views(old(self).running@), plan_views(cs@)),
            final(self).resolver == old(self).resolver,
            final(self).sender_configured == old(self).sender_configured,
            final(self).hostname == old(self).hostname,
            final(self).dump_metrics == old(self).dump_metrics,
    {
        let ghost rs0 = run_views(self.running@);
        let ghost ps = plan_views(cs@);
        let mut actions: Vec<CollectorAction> = Vec::new();
        let mut i: usize = 0;
        assert(ps.take(0) =~= Seq::<PlanView>::empty());
        while i < cs.len()
            invariant
                i <= cs.len(),
                ps == plan_views(cs@),
                ids_unique(run_views(self.running@)),
                (run_views(self.running@), action_views(actions@)) == plan_prefix(rs0, ps.take(i as int)),
                self.resolver == old(self).resolver,
                self.sender_configured == old(self).sender_configured,
                self.hostname == old(self).hostname,
                self.dump_metrics == old(self).dump_metrics,
            decreases cs.len() - i,
        {
            let step = self.plan_collector(&cs[i], i);
            proof {
                assert(ps.take(i + 1).drop_last() =~= ps.take(i as int));
                assert(ps.take(i + 1).last() == ps[i as int]);
            }
            append_actions(&mut actions, step);
            i = i + 1;
        }
        assert(ps.take(i as int) =~= ps);
        let ghost p = plan_prefix(rs0, ps);
        let ghost keep = |x: RunView| enabled_id(ps, x.0);
        let ghost drop = |x: RunView| !enabled_id(ps, x.0);
        let ghost a0 = action_views(actions@);
        let mut kept: Vec<RunningCollector> = Vec::new();
        let mut k: usize = 0;
        while k < self.running.len()
            invariant
                k <= self.running.len(),
                ps == plan_views(cs@),
                p.0 == run_views(self.running@),
                keep == (|x: RunView| enabled_id(ps, x.0)),
                drop == (|x: RunView| !enabled_id(ps, x.0)),
                run_views(kept@) == p.0.take(k as int).filter(keep),
                action_views(actions@) == a0 + p.0.take(k as int).filter(drop).map_values(|x: RunView| ActionView::Stop(x.0)),
            decreases self.running.len() - k,
        {
            let en = has_enabled(cs, &self.running[k].id);
            proof {
                assert(p.0.take(k + 1).drop_last() =~= p.0.take(k as int));
                reveal(Seq::filter);
                assert(p.0[k as int] == (self.running@[k as int].id@, self.running@[k as int].config_hash));
            }
            if en {
                let ghost k0 = kept@;
                kept.push(RunningCollector { id: self.running[k].id.clone(), config_hash: self.running[k].config_hash });
                assert(run_views(kept@) =~= run_views(k0).push(p.0[k as int]));
                assert(run_views(kept@) =~= p.0.take(k + 1).filter(keep));
                assert(p.0.take(k + 1).filter(drop) =~= p.0.take(k as int).filter(drop));
            } else {
                let ghost b0 = actions@;
                actions.push(CollectorAction::Stop(self.running[k].id.clone()));
                assert(p.0.take(k + 1).filter(drop) =~= p.0.take(k as int).filter(drop).push(p.0[k as int]));
                assert(action_views(actions@) =~= action_views(b0).push(ActionView::Stop(p.0[k as int].0)));
                assert(action_views(actions@) =~= a0 + p.0.take(k + 1).filter(drop).map_values(|x: RunView| ActionView::Stop(x.0)));
                assert(run_views(kept@) =~= p.0.take(k + 1).filter(keep));
            }
            k = k + 1;
        }
        assert(p.0.take(k as int) =~= p.0);
        proof { lemma_filter_unique(p.0, keep); }
        self.running = kept;
        actions
    }
}


/// Appends `more` to `actions`.
fn append_actions(actions: &mut Vec<CollectorAction>, more: Vec<CollectorAction>)
    ensures
        action_views(final(actions)@) == action_views(old(actions)@) + action_views(more@),
{
    let ghost a0 = actions@;
    let mut more = more;
    let ghost m = more@;
    actions.append(&mut more);
    assert(action_views(actions@) =~= action_views(a0) + action_views(m));
}

/// Whether an enabled configuration in `cs` has the identifier `id`.
fn has_enabled(cs: &Vec<CollectorPlan>, id: &String) -> (r: bool)
    ensures
        r == enabled_id(plan_views(cs@), id@),
{
    let ghost ps = plan_views(cs@);
    let mut i: usize = 0;
    while i < cs.len()
        invariant
            i <= cs.len(),
            ps == plan_views(cs@),
            forall|j: int| 0 <= j < i ==> !(!(#[trigger] ps[j]).disabled && ps[j].id == id@),
        decreases cs.len() - i,
    {
        if !cs[i].disabled && str_eq(cs[i].id.as_str(), id.as_str()) {
            assert(!ps[i as int].disabled && ps[i as int].id == id@);
            return true;
        }
        i = i + 1;
    }
    false
}

/// Keeping only some running collectors keeps their identifiers distinct.
proof fn lemma_filter_unique(s: Seq<RunView>, p: spec_fn(RunView) -> bool)
    requires
        ids_unique(s),
    ensures
        ids_unique(s.filter(p)),
    decreases s.len(),
{
    reveal(Seq::filter);
    if s.len() > 0 {
        let pre = s.drop_last();
        assert(ids_unique(pre));
        lemma_filter_unique(pre, p);
        let f = pre.filter(p);
        if p(s.last()) {
            assert forall|x: int| 0 <= x < f.len() implies (#[trigger] f[x]).0 != s.last().0 by {
                assert(f.contains(f[x]));
                pre.lemma_filter_contains_rev(p, f[x]);
                let j = choose|j: int| 0 <= j < pre.len() && pre[j] == f[x];
                assert(s[j] == pre[j]);
            }
            assert(s.filter(p) =~= f.push(s.last()));
        }
    }
}

/// The last configuration in `cs` with the identifier `id`.
pub open spec fn last_config(cs: Seq<PlanView>, id: Seq<char>) -> Option<PlanView>
    decreases cs.len(),
{
    if cs.len() == 0 {
        None
    } else if cs.last().id == id {
        Some(cs.last())
    } else {
        last_config(cs.drop_last(), id)
    }
}

/// A running collector agrees with the configurations seen so far: the
/// last configuration with its identifier is enabled and has its hash, or,
/// when none has its identifier, it ran before.
pub open spec fn run_agrees(rs0: Seq<RunView>, cs: Seq<PlanView>, x: RunView) -> bool {
    match last_config(cs, x.0) {
        Some(c) => !c.disabled && c.hash == x.1,
        None => rs0.contains(x),
    }
}

/// The last configuration with the identifier `id` is enabled and a
/// collector can be started from it.
pub open spec fn starts_last(cs: Seq<PlanView>, id: Seq<char>) -> bool {
    last_config(cs, id) matches Some(c) && !c.disabled && c.startable
}

pub open spec fn plan_invariant(rs0: Seq<RunView>, cs: Seq<PlanView>, r: Seq<RunView>) -> bool {
    &&& ids_unique(r)
    &&& forall|j: int| 0 <= j < r.len() ==> run_agrees(rs0, cs, #[trigger] r[j])
    &&& forall|id: Seq<char>| #[trigger] starts_last(cs, id) ==> r.contains((id, last_config(cs, id).unwrap().hash))
}

/// Where the first collector named `id` is, or -1.
proof fn lemma_find(rs: Seq<RunView>, id: Seq<char>) -> (k: int)
    ensures
        k == -1 ==> find_run(rs, id).is_none() && forall|j: int| 0 <= j < rs.len() ==> (#[trigger] rs[j]).0 != id,
        k != -1 ==> 0 <= k < rs.len() && rs[k].0 == id && find_run(rs, id) == Some(rs[k].1)
            && remove_run(rs, id) == rs.remove(k) && forall|j: int| 0 <= j < k ==> (#[trigger] rs[j]).0 != id,
{
    if exists|j: int| 0 <= j < rs.len() && (#[trigger] rs[j]).0 == id {
        let k = choose|j: int| 0 <= j < rs.len() && (#[trigger] rs[j]).0 == id && forall|i: int| 0 <= i < j ==> (#[trigger] rs[i]).0 != id;
        // the first such index exists
        let j0 = choose|j: int| 0 <= j < rs.len() && (#[trigger] rs[j]).0 == id;
        lemma_first_index(rs, id, j0);
        lemma_find_run_at(rs, id, k);
        k
    } else {
        lemma_find_run_none(rs, id);
        -1
    }
}

proof fn lemma_first_index(rs: Seq<RunView>, id: Seq<char>, j0: int)
    requires
        0 <= j0 < rs.len(),
        rs[j0].0 == id,
    ensures
        exists|j: int| 0 <= j < rs.len() && (#[trigger] rs[j]).0 == id && forall|i: int| 0 <= i < j ==> (#[trigger] rs[i]).0 != id,
    decreases j0,
{
    if exists|i: int| 0 <= i < j0 && (#[trigger] rs[i]).0 == id {
        let i = choose|i: int| 0 <= i < j0 && (#[trigger] rs[i]).0 == id;
        lemma_first_index(rs, id, i);
    } else {
        assert(rs[j0].0 == id && forall|i: int| 0 <= i < j0 ==> (#[trigger] rs[i]).0 != id);
    }
}

/// One decision keeps the agreement between the running collectors and
/// the configurations seen.
proof fn lemma_plan_step(rs0: Seq<RunView>, cs: Seq<PlanView>, r: Seq<RunView>, c: PlanView, i: int)
    requires
        plan_invariant(rs0, cs, r),
    ensures
        plan_invariant(rs0, cs.push(c), plan_step(r, c, i).0),
{
    let cs2 = cs.push(c);
    assert(cs2.drop_last() =~= cs);
    assert forall|id: Seq<char>| last_config(cs2, id) == (if id == c.id { Some(c) } else { last_config(cs, id) }) by {
    }
    let r2 = plan_step(r, c, i).0;
    let k = lemma_find(r, c.id);
    if k != -1 {
        let rm = r.remove(k);
        // what removal keeps
        assert forall|j: int| 0 <= j < rm.len() implies (#[trigger] rm[j]).0 != c.id && run_agrees(rs0, cs2, rm[j]) && (rm[j] == r[if j < k { j } else { j + 1 }]) by {
            if j < k {
                assert(rm[j] == r[j]);
            } else {
                assert(rm[j] == r[j + 1]);
            }
            let jj = if j < k { j } else { j + 1 };
            assert(run_agrees(rs0, cs, r[jj]));
        }
        assert(ids_unique(rm)) by {
            assert forall|a: int, b: int| 0 <= a < b < rm.len() implies (#[trigger] rm[a]).0 != (#[trigger] rm[b]).0 by {
                let aa = if a < k { a } else { a + 1 };
                let bb = if b < k { b } else { b + 1 };
                assert(rm[a] == r[aa] && rm[b] == r[bb]);
            }
        }
        assert forall|y: RunView| r.contains(y) && y.0 != c.id implies rm.contains(y) by {
            let j = choose|j: int| 0 <= j < r.len() && r[j] == y;
            if j < k {
                assert(rm[j] == y);
            } else {
                assert(j != k);
                assert(rm[j - 1] == y);
            }
        }
        let h = r[k].1;
        if c.disabled || h != c.hash {
            if !c.disabled && c.startable {
                assert(r2 == rm.push((c.id, c.hash)));
                assert(ids_unique(r2)) by {
                    assert forall|a: int, b: int| 0 <= a < b < r2.len() implies (#[trigger] r2[a]).0 != (#[trigger] r2[b]).0 by {
                        if b == rm.len() {
                            assert(r2[a] == rm[a]);
                        } else {
                            assert(r2[a] == rm[a] && r2[b] == rm[b]);
                        }
                    }
                }
                assert forall|j: int| 0 <= j < r2.len() implies run_agrees(rs0, cs2, #[trigger] r2[j]) by {
                    if j < rm.len() {
                        assert(r2[j] == rm[j]);
                    }
                }
                assert forall|id: Seq<char>| #[trigger] starts_last(cs2, id) implies r2.contains((id, last_config(cs2, id).unwrap().hash)) by {
                    if id == c.id {
                        assert(r2[rm.len() as int] == (c.id, c.hash));
                    } else {
                        let cc = last_config(cs, id).unwrap();
                        assert(starts_last(cs, id));
                        assert(r.contains((id, cc.hash)));
                        assert(rm.contains((id, cc.hash)));
                        let j = choose|j: int| 0 <= j < rm.len() && rm[j] == (id, cc.hash);
                        assert(r2[j] == rm[j]);
                    }
                }
            } else {
                assert(r2 == rm);
                assert forall|id: Seq<char>| #[trigger] starts_last(cs2, id) implies r2.contains((id, last_config(cs2, id).unwrap().hash)) by {
                    if id != c.id {
                        let cc = last_config(cs, id).unwrap();
                        assert(starts_last(cs, id));
                        assert(r.contains((id, cc.hash)));
                    }
                }
            }
        } else {
            assert(r2 == r);
            assert forall|j: int| 0 <= j < r2.len() implies run_agrees(rs0, cs2, #[trigger] r2[j]) by {
                assert(run_agrees(rs0, cs, r[j]));
                if r[j].0 == c.id {
                    if j != k {
                        assert(r[j].0 != r[k].0);
                    }
                }
            }
            assert forall|id: Seq<char>| #[trigger] starts_last(cs2, id) implies r2.contains((id, last_config(cs2, id).unwrap().hash)) by {
                if id == c.id {
                    assert(r[k] == (c.id, c.hash));
                } else {
                    let cc = last_config(cs, id).unwrap();
                    assert(starts_last(cs, id));
                        assert(r.contains((id, cc.hash)));
                }
            }
        }
    } else {
        if !c.disabled && c.startable {
            assert(r2 == r.push((c.id, c.hash)));
            assert(ids_unique(r2)) by {
                assert forall|a: int, b: int| 0 <= a < b < r2.len() implies (#[trigger] r2[a]).0 != (#[trigger] r2[b]).0 by {
                    if b == r.len() {
                        assert(r2[a] == r[a]);
                    } else {
                        assert(r2[a] == r[a] && r2[b] == r[b]);
                    }
                }
            }
            assert forall|j: int| 0 <= j < r2.len() implies run_agrees(rs0, cs2, #[trigger] r2[j]) by {
                if j < r.len() {
                    assert(r2[j] == r[j]);
                    assert(run_agrees(rs0, cs, r[j]));
                }
            }
            assert forall|id: Seq<char>| #[trigger] starts_last(cs2, id) implies r2.contains((id, last_config(cs2, id).unwrap().hash)) by {
                if id == c.id {
                    assert(r2[r.len() as int] == (c.id, c.hash));
                } else {
                    let cc = last_config(cs, id).unwrap();
                    assert(starts_last(cs, id));
                        assert(r.contains((id, cc.hash)));
                    let j = choose|j: int| 0 <= j < r.len() && r[j] == (id, cc.hash);
                    assert(r2[j] == r[j]);
                }
            }
        } else {
            assert(r2 == r);
            assert forall|j: int| 0 <= j < r2.len() implies run_agrees(rs0, cs2, #[trigger] r2[j]) by {
                assert(run_agrees(rs0, cs, r[j]));
            }
            assert forall|id: Seq<char>| #[trigger] starts_last(cs2, id) implies r2.contains((id, last_config(cs2, id).unwrap().hash)) by {
                if id != c.id {
                    let cc = last_config(cs, id).unwrap();
                    assert(starts_last(cs, id));
                        assert(r.contains((id, cc.hash)));
                }
            }
        }
    }
}

proof fn lemma_plan_prefix(rs0: Seq<RunView>, cs: Seq<PlanView>)
    requires
        ids_unique(rs0),
    ensures
        plan_invariant(rs0, cs, plan_prefix(rs0, cs).0),
    decreases cs.len(),
{
    if cs.len() == 0 {
        assert forall|j: int| 0 <= j < rs0.len() implies run_agrees(rs0, cs, #[trigger] rs0[j]) by {
            assert(rs0.contains(rs0[j]));
        }
    } else {
        lemma_plan_prefix(rs0, cs.drop_last());
        lemma_plan_step(rs0, cs.drop_last(), plan_prefix(rs0, cs.drop_last()).0, cs.last(), cs.len() - 1);
        assert(cs.drop_last().push(cs.last()) =~= cs);
    }
}

proof fn lemma_last_config_some(cs: Seq<PlanView>, id: Seq<char>)
    ensures
        last_config(cs, id) matches Some(c) ==> exists|i: int| 0 <= i < cs.len() && cs[i] == c && c.id == id,
        last_config(cs, id).is_none() ==> forall|i: int| 0 <= i < cs.len() ==> (#[trigger] cs[i]).id != id,
    decreases cs.len(),
{
    if cs.len() > 0 {
        lemma_last_config_some(cs.drop_last(), id);
        if cs.last().id != id {
            if let Some(c) = last_config(cs.drop_last(), id) {
                let i = choose|i: int| 0 <= i < cs.drop_last().len() && cs.drop_last()[i] == c && c.id == id;
                assert(cs[i] == c);
            } else {
                assert forall|i: int| 0 <= i < cs.len() implies (#[trigger] cs[i]).id != id by {
                    if i < cs.len() - 1 {
                        assert(cs[i] == cs.drop_last()[i]);
                    }
                }
            }
        } else {
            assert(cs[cs.len() - 1] == cs.last());
        }
    }
}

/// After a configuration is applied, a collector runs exactly when the
/// last configuration with its identifier is enabled: every running
/// collector has the hash of that configuration, every such collector
/// that could be started runs, and no two share an identifier.
pub proof fn lemma_apply_running(rs: Seq<RunView>, cs: Seq<PlanView>)
    requires
        ids_unique(rs),
    ensures
        ids_unique(apply_plan(rs, cs).0),
        forall|j: int| 0 <= j < apply_plan(rs, cs).0.len() ==> (last_config(cs, (#[trigger] apply_plan(rs, cs).0[j]).0) matches Some(c)
            && !c.disabled && c.hash == apply_plan(rs, cs).0[j].1),
        forall|id: Seq<char>| #[trigger] starts_last(cs, id) ==> apply_plan(rs, cs).0.contains((id, last_config(cs, id).unwrap().hash)),
{
    let p = plan_prefix(rs, cs).0;
    lemma_plan_prefix(rs, cs);
    let keep = |x: RunView| enabled_id(cs, x.0);
    let f = p.filter(keep);
    assert(apply_plan(rs, cs).0 == f);
    lemma_filter_unique(p, keep);
    assert forall|j: int| 0 <= j < f.len() implies (last_config(cs, (#[trigger] f[j]).0) matches Some(c) && !c.disabled && c.hash == f[j].1) by {
        assert(f.contains(f[j]));
        p.lemma_filter_contains_rev(keep, f[j]);
        let jj = choose|jj: int| 0 <= jj < p.len() && p[jj] == f[j];
        assert(run_agrees(rs, cs, p[jj]));
        assert(enabled_id(cs, f[j].0));
        let w = choose|i: int| 0 <= i < cs.len() && !(#[trigger] cs[i]).disabled && cs[i].id == f[j].0;
        lemma_last_config_some(cs, f[j].0);
        assert(cs[w].id == f[j].0);
    }
    assert forall|id: Seq<char>| #[trigger] starts_last(cs, id) implies f.contains((id, last_config(cs, id).unwrap().hash)) by {
        let c = last_config(cs, id).unwrap();
        assert(p.contains((id, c.hash)));
        lemma_last_config_some(cs, id);
        let i = choose|i: int| 0 <= i < cs.len() && cs[i] == c && c.id == id;
        assert(!cs[i].disabled && cs[i].id == id);
        assert(enabled_id(cs, id));
        let j = choose|j: int| 0 <= j < p.len() && p[j] == (id, c.hash);
        p.lemma_filter_contains(keep, j);
    }
}
} // verus!
