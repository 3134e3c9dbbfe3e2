//! The pool-facing connection manager: it owns the descriptor, knows whether
//! the address must be resolved by named-instance discovery, and hands the
//! pool the three operations of the connection-management contract — start a
//! creation attempt, record a validation probe, answer the fast broken
//! check. The pool's own scheduling, and the transport and driver that
//! perform the actions, stay with the caller.

use vstd::prelude::*;

use crate::connect::ConnAction;
use crate::connect::ConnState;
use crate::connect::start_spec;
use crate::connect::wf_state;
use crate::descriptor::Descriptor;
use crate::descriptor::DescriptorView;
use crate::error::Error;
use crate::handle::Handle;
use crate::handle::HandleStatus;
use crate::parse::from_ado_string;
use crate::parse::parse_ado;

verus! {

/// A source of connection configuration: either a ready descriptor or an
/// ADO-style connection string.
pub trait IntoConfig: Sized {
    /// What the source denotes: a descriptor, or a configuration error.
    spec fn config_spec(self) -> Result<DescriptorView, ()>;

    /// Turns the source into a descriptor, failing with a configuration
    /// error exactly when the source is malformed.
    fn into_config(self) -> (r: Result<Descriptor, Error>)
        ensures
            match r {
                Ok(d) => self.config_spec() matches Ok(v) && d@ == v,
                Err(e) => self.config_spec() is Err && e@ is Config,
            },
    ;
}

impl IntoConfig for Descriptor {
    /// A descriptor already is its own configuration.
    open spec fn config_spec(self) -> Result<DescriptorView, ()> {
        Ok(self@)
    }

    fn into_config(self) -> (r: Result<Descriptor, Error>) {
        Ok(self)
    }
}

impl<'a> IntoConfig for &'a str {
    /// A connection string means whatever it parses to.
    open spec fn config_spec(self) -> Result<DescriptorView, ()> {
        parse_ado(self@)
    }

    fn into_config(self) -> (r: Result<Descriptor, Error>) {
        from_ado_string(self)
    }
}

/// Implements the pool's connection-management contract over one immutable
/// descriptor.
#[derive(Debug)]
pub struct ConnectionManager {
    /// The descriptor every creation attempt starts from.
    pub config: Descriptor,
    /// Resolve the address through the named-instance discovery sub-protocol
    /// when opening the first transport of an attempt.
    pub use_named_connection: bool,
}

impl ConnectionManager {
    /// A manager around a ready descriptor; discovery is off until
    /// [`ConnectionManager::using_named_connection`] asks for it.
    pub fn new(config: Descriptor) -> (r: Self)
        ensures
            r.config == config,
            !r.use_named_connection,
    {
        ConnectionManager { config, use_named_connection: false }
    }

    /// A manager built from any configuration source, e.g. an ADO-style
    /// connection string; fails with the source's configuration error.
    pub fn build<I: IntoConfig>(config: I) -> (r: Result<Self, Error>)
        ensures
            match r {
                Ok(m) => {
                    &&& config.config_spec() matches Ok(v) && m.config@ == v
                    &&& !m.use_named_connection
                },
                Err(e) => config.config_spec() is Err && e@ is Config,
            },
    {
        match config.into_config() {
            Ok(d) => Ok(Self::new(d)),
            Err(e) => Err(e),
        }
    }

    /// Ask for named-instance discovery when establishing transports.
    pub fn using_named_connection(self) -> (r: Self)
        ensures
            r.config == self.config,
            r.use_named_connection,
    {
        ConnectionManager { use_named_connection: true, ..self }
    }

    /// Begin one creation attempt: the connector's initial state and first
    /// action, an `Open` of the descriptor's address with discovery as
    /// configured. The caller drives the attempt with [`crate::connect::step`]
    /// and reads the outcome with [`crate::connect::finish`].
    pub fn start_connect(&self) -> (r: (ConnState, ConnAction))
        ensures
            (r.0@, r.1@) == start_spec(self.config@, self.use_named_connection),
            wf_state(r.0@),
    {
        crate::connect::start_connect(self.config.clone(), self.use_named_connection)
    }

    /// The fast, probe-free eviction check of the pool contract; see
    /// [`Handle::has_broken`].
    pub fn has_broken(&self, conn: &mut Handle) -> (r: bool)
        ensures
            *final(conn) == *old(conn),
            r == (old(conn)@.status != HandleStatus::Live),
    {
        conn.has_broken()
    }

    /// Record the outcome of a validation probe the caller ran; see
    /// [`Handle::record_probe`].
    pub fn validate(&self, conn: &mut Handle, probe: Result<(), Error>) -> (r: Result<(), Error>)
        requires
            old(conn)@.status == HandleStatus::Live,
        ensures
            final(conn)@ == crate::handle::after_probe(old(conn)@, probe is Ok),
            match probe {
                Ok(()) => r is Ok && *final(conn) == *old(conn),
                Err(e) => r == Err::<(), Error>(e),
            },
    {
        conn.record_probe(probe)
    }
}

} // verus!
