//! An environment that a network service might run in, exposing its host, its
//! port and its verbosity as components.
use vstd::prelude::*;
use crate::Has;

verus! {

/// The host name that a service binds to.
#[derive(Debug, Clone)]
pub struct Host(pub String);

/// The port that a service listens on.
#[derive(Debug, Clone, Copy, PartialEq, Eq, Structural)]
pub struct Port(pub u16);

/// How much a service reports of what it does.
#[derive(Debug, Clone, Copy, PartialEq, Eq, Structural)]
pub enum Verbosity {
    /// Only what goes wrong.
    Low,
    /// Everything.
    High,
}

/// Whether a service enforces its policy or only reports violations.
#[derive(Debug, Clone, Copy, PartialEq, Eq, Structural)]
pub enum Restriction {
    /// Violations are reported and let through.
    Permissive,
    /// Violations are refused.
    Enforcing,
}

/// A concrete environment. It lends out its host, its port and its verbosity,
/// each from the field of that name; its restriction it keeps to itself.
#[derive(Debug, Clone)]
pub struct Env {
    /// Where to bind.
    pub host: Host,
    /// Where to listen.
    pub port: Port,
    /// How much to report.
    pub verbosity: Verbosity,
    /// What to enforce.
    pub restriction: Restriction,
}

impl Has<Host> for Env {
    open spec fn component(&self) -> Host {
        self.host
    }

    fn access(&self) -> (r: &Host) {
        &self.host
    }
}

impl Has<Port> for Env {
    open spec fn component(&self) -> Port {
        self.port
    }

    fn access(&self) -> (r: &Port) {
        &self.port
    }
}

impl Has<Verbosity> for Env {
    open spec fn component(&self) -> Verbosity {
        self.verbosity
    }

    fn access(&self) -> (r: &Verbosity) {
        &self.verbosity
    }
}

/// The host that `e` lends out.
pub open spec fn host_of(e: Env) -> Host {
    <Env as Has<Host>>::component(&e)
}

/// The port that `e` lends out.
pub open spec fn port_of(e: Env) -> Port {
    <Env as Has<Port>>::component(&e)
}

/// The verbosity that `e` lends out.
pub open spec fn verbosity_of(e: Env) -> Verbosity {
    <Env as Has<Verbosity>>::component(&e)
}

/// Each component of an environment is lent from the field declared for it,
/// as it stands.
pub proof fn lemma_components_are_their_fields(e: Env)
    ensures
        host_of(e) == e.host,
        port_of(e) == e.port,
        verbosity_of(e) == e.verbosity,
{
}

/// The components are lent from distinct fields: giving the environment a new
/// port changes the port that it lends, to exactly the new one, and leaves the
/// host and the verbosity that it lends as they were.
pub proof fn lemma_components_do_not_alias(e: Env, p: Port)
    ensures
        port_of((Env { port: p, ..e })) == p,
        host_of((Env { port: p, ..e })) == host_of(e),
        verbosity_of((Env { port: p, ..e })) == verbosity_of(e),
{
}

} // verus!
