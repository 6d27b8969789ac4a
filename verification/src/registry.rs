//! The listener registry and its all-or-nothing construction.
//!
//! The registry maps multiplexer tokens to listener entries. Tokens are
//! assigned in order starting at 1; token [`CONTROL_TOKEN`] is permanently
//! reserved for the control channel and never assigned to a listener.
//!
//! Binding a socket is an operating-system call, so construction is driven
//! by the host program through [`RegistryBuilder`]: for each record the
//! builder either rejects it or asks for a bind, the host reports the bind's
//! outcome, and on any failure the builder prescribes the release of every
//! socket bound so far, so that a failed startup leaves nothing bound.

use vstd::prelude::*;

use crate::config::ConfigRecord;
use crate::error::Error;

verus! {

/// The multiplexer token reserved for the control channel.
pub const CONTROL_TOKEN: usize = 0;

/// One registered listener: its token, its bound port, and the command line
/// launched for each connection accepted on that port.
#[derive(Debug, Clone)]
pub struct ListenerEntry {
    pub token: usize,
    pub port: u16,
    pub command: String,
}

impl ListenerEntry {
    /// An entry is valid when its port and command would make a valid record.
    pub open spec fn valid(self) -> bool {
        &&& 1 <= self.port
        &&& self.command@.len() > 0
    }
}

/// The registry contents that a successful startup over `records` yields:
/// entry `i` carries token `i + 1` and record `i`'s port and command.
pub open spec fn built_entries(records: Seq<ConfigRecord>) -> Seq<ListenerEntry> {
    Seq::new(records.len(), |i: int| ListenerEntry {
        token: (i + 1) as usize,
        port: records[i].port,
        command: records[i].command,
    })
}

/// Read-only mapping from token to listener entry, built once at startup.
#[derive(Debug)]
pub struct ListenerRegistry {
    entries: Vec<ListenerEntry>,
}

impl View for ListenerRegistry {
    type V = Seq<ListenerEntry>;

    closed spec fn view(&self) -> Seq<ListenerEntry> {
        self.entries@
    }
}

impl ListenerRegistry {
    /// Well-formedness: entry `i` holds token `i + 1`, so tokens are unique,
    /// strictly positive, and never the reserved control token.
    pub open spec fn wf(self) -> bool {
        forall|i: int| 0 <= i < self@.len() ==>
            (#[trigger] self@[i]).token == i + 1 && self@[i].valid()
    }

    /// Number of registered listeners.
    pub fn len(&self) -> (n: usize)
        ensures
            n == self@.len(),
    {
        self.entries.len()
    }

    /// The registered listeners in token order, for registering each
    /// listener's readable-readiness with the multiplexer.
    pub fn all_entries(&self) -> (r: &Vec<ListenerEntry>)
        ensures
            r@ == self@,
    {
        &self.entries
    }

    /// Resolves a token delivered by the multiplexer. Succeeds exactly for
    /// the tokens that were assigned to listeners; in particular it never
    /// resolves the reserved control token.
    pub fn lookup(&self, token: usize) -> (r: Option<&ListenerEntry>)
        requires
            self.wf(),
        ensures
            1 <= token <= self@.len() ==> (r matches Some(e) && *e == self@[token - 1]),
            !(1 <= token <= self@.len()) ==> r is None,
    {
        if 1 <= token && token <= self.entries.len() {
            Some(&self.entries[token - 1])
        } else {
            None
        }
    }
}

/// In a well-formed registry the listeners' tokens are pairwise distinct and
/// none equals the reserved control token.
pub proof fn lemma_tokens_distinct_and_reserved(r: ListenerRegistry)
    requires
        r.wf(),
    ensures
        forall|i: int, j: int|
            0 <= i < r@.len() && 0 <= j < r@.len() && i != j ==>
                (#[trigger] r@[i]).token != (#[trigger] r@[j]).token,
        forall|i: int| 0 <= i < r@.len() ==> (#[trigger] r@[i]).token != CONTROL_TOKEN,
{
}

/// Phase of a startup in progress.
#[derive(Debug, Clone, Copy, PartialEq, Eq, Structural)]
pub enum BuildPhase {
    /// Ready for the next record, or for completion.
    Collecting,
    /// A record was admitted; its port's bind outcome is awaited.
    AwaitingBind,
    /// Startup failed; every socket bound so far must be released.
    Releasing { err: Error },
    /// Startup failed and every bound socket has been released.
    Failed { err: Error },
}

/// Builder for the registry, driven by the host program.
///
/// The host feeds it records one at a time through [`offer_record`], performs
/// the bind it asks for and reports the outcome, and finishes with
/// [`finish`]. On the first invalid record, failed bind, or missing
/// configuration source, the builder moves to a failure phase; the host then
/// releases exactly the ports of [`release_request`] and confirms with
/// [`released`], after which nothing remains bound.
///
/// [`offer_record`]: RegistryBuilder::offer_record
/// [`finish`]: RegistryBuilder::finish
/// [`release_request`]: RegistryBuilder::release_request
/// [`released`]: RegistryBuilder::released
pub struct RegistryBuilder {
    pub entries: Vec<ListenerEntry>,
    pub pending: Option<ConfigRecord>,
    pub phase: BuildPhase,
    /// The records admitted and bound so far, in order.
    pub history: Ghost<Seq<ConfigRecord>>,
}

/// A bind the host program must perform: listen on the wildcard address at
/// `port`, to be registered with the multiplexer under `token`.
#[derive(Debug, Clone, Copy, PartialEq, Eq, Structural)]
pub struct BindRequest {
    pub port: u16,
    pub token: usize,
}

impl RegistryBuilder {
    /// The ports whose sockets are currently bound: one per completed entry.
    pub open spec fn bound_ports(self) -> Seq<u16> {
        self.entries@.map(|i: int, e: ListenerEntry| e.port)
    }

    /// Well-formedness: the completed entries are exactly those a successful
    /// startup over the admitted records yields, and a record is pending
    /// exactly while its bind outcome is awaited.
    pub open spec fn wf(self) -> bool {
        &&& self.entries@ =~= built_entries(self.history@)
        &&& forall|i: int| 0 <= i < self.history@.len() ==> (#[trigger] self.history@[i]).valid()
        &&& (self.pending is Some <==> self.phase is AwaitingBind)
        &&& (self.pending matches Some(r) ==> r.valid())
        &&& (self.phase matches BuildPhase::Failed { .. } ==> self.entries@.len() == 0)
    }

    /// Starts a build: no entries, nothing bound, ready for records.
    pub fn new() -> (b: Self)
        ensures
            b.wf(),
            b.phase == BuildPhase::Collecting,
            b.entries@.len() == 0,
            b.bound_ports() =~= Seq::<u16>::empty(),
    {
        Self {
            entries: Vec::new(),
            pending: None,
            phase: BuildPhase::Collecting,
            history: Ghost(Seq::empty()),
        }
    }

    /// Records that the configuration source is absent. This is discovered
    /// before any record is read, so nothing is bound: startup fails with
    /// `EnvironmentError` and zero listening sockets are left bound.
    pub fn source_missing(&mut self) -> (e: Error)
        requires
            old(self).wf(),
            old(self).phase == BuildPhase::Collecting,
            old(self).entries@.len() == 0,
        ensures
            e == Error::EnvironmentError,
            final(self).phase == (BuildPhase::Failed { err: Error::EnvironmentError }),
            final(self).bound_ports() =~= Seq::<u16>::empty(),
            final(self).wf(),
    {
        self.phase = BuildPhase::Failed { err: Error::EnvironmentError };
        Error::EnvironmentError
    }

    /// Offers the next record. A valid record is admitted and its bind
    /// requested under the next token; an invalid one fails the startup with
    /// `ConfigError` and moves to the releasing phase, so that every socket
    /// bound for earlier records is released.
    pub fn offer_record(&mut self, record: ConfigRecord) -> (r: Result<BindRequest, Error>)
        requires
            old(self).wf(),
            old(self).phase == BuildPhase::Collecting,
            old(self).entries@.len() < usize::MAX,
        ensures
            final(self).wf(),
            final(self).entries@ == old(self).entries@,
            record.valid() ==> {
                &&& r == Ok::<BindRequest, Error>(BindRequest {
                    port: record.port,
                    token: (old(self).entries@.len() + 1) as usize,
                })
                &&& final(self).phase == BuildPhase::AwaitingBind
                &&& final(self).pending == Some(record)
                &&& final(self).history@ == old(self).history@
            },
            !record.valid() ==> {
                &&& r == Err::<BindRequest, Error>(Error::ConfigError)
                &&& final(self).phase == (BuildPhase::Releasing { err: Error::ConfigError })
                &&& final(self).bound_ports() == old(self).bound_ports()
            },
    {
        if record.is_valid() {
            let token = self.entries.len() + 1;
            let port = record.port;
            self.pending = Some(record);
            self.phase = BuildPhase::AwaitingBind;
            Ok(BindRequest { port, token })
        } else {
            self.phase = BuildPhase::Releasing { err: Error::ConfigError };
            Err(Error::ConfigError)
        }
    }

    /// Reports that the requested bind succeeded: the pending record becomes
    /// the next entry, under the next token.
    pub fn bind_succeeded(&mut self)
        requires
            old(self).wf(),
            old(self).phase == BuildPhase::AwaitingBind,
            old(self).entries@.len() < usize::MAX,
        ensures
            final(self).wf(),
            final(self).phase == BuildPhase::Collecting,
            final(self).entries@ =~= old(self).entries@.push(ListenerEntry {
                token: (old(self).entries@.len() + 1) as usize,
                port: old(self).pending->Some_0.port,
                command: old(self).pending->Some_0.command,
            }),
            final(self).entries@.len() == old(self).entries@.len() + 1,
            final(self).history@ == old(self).history@.push(old(self).pending->Some_0),
    {
        let record = self.pending.take().unwrap();
        let token = self.entries.len() + 1;
        let ghost old_history = self.history@;
        self.history = Ghost(old_history.push(record));
        self.entries.push(ListenerEntry { token, port: record.port, command: record.command });
        self.phase = BuildPhase::Collecting;
        proof {
            assert(self.entries@ =~= built_entries(self.history@));
        }
    }

    /// Reports that the requested bind failed: startup fails with
    /// `BindError` for the pending record's port, and every socket bound for
    /// earlier records must now be released.
    pub fn bind_failed(&mut self) -> (e: Error)
        requires
            old(self).wf(),
            old(self).phase == BuildPhase::AwaitingBind,
        ensures
            final(self).wf(),
            e == (Error::BindError { port: old(self).pending->Some_0.port }),
            final(self).phase == (BuildPhase::Releasing { err: e }),
            final(self).entries@ == old(self).entries@,
            final(self).bound_ports() == old(self).bound_ports(),
    {
        let record = self.pending.take().unwrap();
        let err = Error::BindError { port: record.port };
        self.phase = BuildPhase::Releasing { err };
        err
    }

    /// The ports whose sockets the host must now release: exactly those
    /// bound so far, so that a failed startup is all-or-nothing.
    pub fn release_request(&self) -> (ports: Vec<u16>)
        requires
            self.wf(),
            self.phase is Releasing,
        ensures
            ports@ =~= self.bound_ports(),
    {
        let mut ports: Vec<u16> = Vec::new();
        let mut i: usize = 0;
        while i < self.entries.len()
            invariant
                0 <= i <= self.entries@.len(),
                ports@ =~= self.entries@.take(i as int).map(|j: int, e: ListenerEntry| e.port),
            decreases self.entries@.len() - i,
        {
            ports.push(self.entries[i].port);
            proof {
                assert(self.entries@.take(i as int + 1).map(|j: int, e: ListenerEntry| e.port)
                    =~= self.entries@.take(i as int).map(|j: int, e: ListenerEntry| e.port)
                        .push(self.entries@[i as int].port));
            }
            i = i + 1;
        }
        proof {
            assert(self.entries@.take(self.entries@.len() as int) =~= self.entries@);
        }
        ports
    }

    /// Confirms that every requested socket was released: the startup ends
    /// in its failure state with zero sockets bound.
    pub fn released(&mut self) -> (e: Error)
        requires
            old(self).wf(),
            old(self).phase matches BuildPhase::Releasing { err: _ },
        ensures
            final(self).wf(),
            old(self).phase == (BuildPhase::Releasing { err: e }),
            final(self).phase == (BuildPhase::Failed { err: e }),
            final(self).bound_ports() =~= Seq::<u16>::empty(),
            final(self).entries@.len() == 0,
    {
        let err = match self.phase {
            BuildPhase::Releasing { err } => err,
            _ => unreached(),
        };
        self.entries = Vec::new();
        self.history = Ghost(Seq::empty());
        self.phase = BuildPhase::Failed { err };
        err
    }

    /// Completes a successful startup: for the N admitted records the
    /// registry holds exactly N listeners.
    ///
    /// Entry `i` carries token `i + 1` and record `i`'s port and command.
    pub fn finish(self) -> (r: ListenerRegistry)
        requires
            self.wf(),
            self.phase == BuildPhase::Collecting,
        ensures
            r.wf(),
            r@ == self.entries@,
            r@ =~= built_entries(self.history@),
            r@.len() == self.history@.len(),
    {
        let n = self.entries.len();
        let r = ListenerRegistry { entries: self.entries };
        proof {
            assert forall|i: int| 0 <= i < r@.len() implies
                (#[trigger] r@[i]).token == i + 1 && r@[i].valid() by {
                assert(0 <= i + 1 <= n <= usize::MAX);
                assert(r@[i] == built_entries(self.history@)[i]);
                assert(self.history@[i].valid());
            }
        }
        r
    }
}

/// A failed startup is all-or-nothing: once the builder has reached its
/// failure state — over a missing source, an invalid record, or a failed
/// bind — no socket remains bound on any port from the records processed so
/// far.
pub proof fn lemma_failed_startup_leaves_nothing_bound(b: RegistryBuilder)
    requires
        b.wf(),
        b.phase matches BuildPhase::Failed { .. },
    ensures
        b.bound_ports() =~= Seq::<u16>::empty(),
{
}

} // verus!
