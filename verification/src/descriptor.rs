//! The immutable connection descriptor: where the server is, how to
//! authenticate, and whether the address is a named instance that needs
//! discovery. A redirect never mutates a descriptor; it produces a new one.

use vstd::prelude::*;

verus! {

/// The port dialled when the connection string names neither a port nor an
/// instance.
pub const DEFAULT_PORT: u16 = 1433;

/// The port recorded for a named instance with no explicit port: the
/// discovery (browser) service's port, from which the real port is learned.
pub const BROWSER_PORT: u16 = 1434;

/// Transport encryption requested for the connection.
#[derive(Clone, Copy, Debug, PartialEq, Eq, Structural)]
pub enum EncryptionMode {
    /// Only the login exchange is encrypted.
    Off,
    /// The whole stream must be encrypted. The default when nothing says
    /// otherwise.
    Required,
    /// No encryption at all, even for the login exchange.
    NotSupported,
    /// Encryption starts before the protocol prelude (strict mode).
    Strict,
}

/// The descriptor that a `Routing { host, port }` signal redirects to:
/// identical to the original except host and port, which the signalled
/// values replace. Every other field — the named instance included — is
/// kept; only the discovery round is not repeated, since the signal already
/// names the exact address to dial.
pub open spec fn redirect_view(d: DescriptorView, host: Seq<char>, port: u16) -> DescriptorView {
    DescriptorView { host, port, ..d }
}

/// Mathematical image of a [`Descriptor`].
pub ghost struct DescriptorView {
    pub host: Seq<char>,
    pub port: u16,
    pub instance: Option<Seq<char>>,
    pub user: Seq<char>,
    pub password: Seq<char>,
    pub encrypt: EncryptionMode,
}

/// Immutable connection configuration. Built once, read many times; a
/// server-directed redirect yields a fresh descriptor via [`Descriptor::redirected`]
/// rather than mutating this one.
#[derive(Debug)]
pub struct Descriptor {
    /// Host name or address of the server.
    pub host: String,
    /// TCP port, meaningful when no named instance is given.
    pub port: u16,
    /// Named instance to resolve through the discovery sub-protocol, if any.
    pub instance: Option<String>,
    /// User name; empty when unset.
    pub user: String,
    /// Password; empty when unset.
    pub password: String,
    /// Requested encryption mode.
    pub encrypt: EncryptionMode,
}

impl View for Descriptor {
    type V = DescriptorView;

    open spec fn view(&self) -> DescriptorView {
        DescriptorView {
            host: self.host@,
            port: self.port,
            instance: match self.instance {
                Some(ref i) => Some(i@),
                None => None,
            },
            user: self.user@,
            password: self.password@,
            encrypt: self.encrypt,
        }
    }
}

impl Descriptor {
    /// A descriptor for `host:port` with no credentials, no named instance
    /// and encryption required (the default stance; opt out by setting the
    /// field); the structured starting point that field updates refine.
    pub fn new(host: String, port: u16) -> (r: Self)
        ensures
            r@.host == host@,
            r@.port == port,
            r@.instance is None,
            r@.user == Seq::<char>::empty(),
            r@.password == Seq::<char>::empty(),
            r@.encrypt == EncryptionMode::Required,
    {
        Descriptor {
            host,
            port,
            instance: None,
            user: String::new(),
            password: String::new(),
            encrypt: EncryptionMode::Required,
        }
    }

    /// Whether the descriptor points at a named instance, so that opening a
    /// transport must first resolve the real address by discovery.
    pub fn named_instance(&self) -> (r: bool)
        ensures
            r == (self@.instance is Some),
    {
        self.instance.is_some()
    }

    /// The descriptor to use after a `Routing { host, port }` signal; see
    /// [`redirect_view`].
    pub fn redirected(self, host: String, port: u16) -> (r: Self)
        ensures
            r@ == redirect_view(self@, host@, port),
    {
        Descriptor {
            host,
            port,
            instance: self.instance,
            user: self.user,
            password: self.password,
            encrypt: self.encrypt,
        }
    }
}

impl Clone for Descriptor {
    /// An exact copy.
    fn clone(&self) -> (r: Self)
        ensures
            r == *self,
    {
        Descriptor {
            host: self.host.clone(),
            port: self.port,
            instance: match &self.instance {
                Some(i) => Some(i.clone()),
                None => None,
            },
            user: self.user.clone(),
            password: self.password.clone(),
            encrypt: self.encrypt,
        }
    }
}

} // verus!
