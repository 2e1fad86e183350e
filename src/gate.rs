//! The readiness cell: a write-once cell for the port the server bound.
use vstd::prelude::*;

verus! {

#[verifier::external_type_specification]
#[verifier::external_body]
#[verifier::reject_recursive_types(T)]
pub struct ExOnceCell<T>(tokio::sync::OnceCell<T>);

/// What a `tokio::sync::OnceCell<u16>` holds: `None` until a value is set.
pub uninterp spec fn cell_value(c: tokio::sync::OnceCell<u16>) -> Option<u16>;

/// Relies on `tokio::sync::OnceCell::new`: the new cell holds no value.
#[verifier::external_body]
fn cell_new() -> (r: tokio::sync::OnceCell<u16>)
    ensures
        cell_value(r) == None::<u16>,
{
    tokio::sync::OnceCell::new()
}

/// Relies on `tokio::sync::OnceCell::get`: the value held, if any.
#[verifier::external_body]
fn cell_get(c: &tokio::sync::OnceCell<u16>) -> (r: Option<u16>)
    ensures
        r == cell_value(*c),
{
    c.get().copied()
}

/// Relies on `tokio::sync::OnceCell::set`: an empty cell takes the value and
/// reports `Ok`; a cell that holds a value keeps it and reports an error.
/// With the cell borrowed exclusively no other task can be initializing it.
#[verifier::external_body]
fn cell_set(c: &mut tokio::sync::OnceCell<u16>, value: u16) -> (r: bool)
    ensures
        cell_value(*old(c)) is None ==> r && cell_value(*final(c)) == Some(value),
        cell_value(*old(c)) is Some ==> !r && cell_value(*final(c)) == cell_value(*old(c)),
{
    c.set(value).is_ok()
}

/// The readiness cell was read before the server reported its port.
#[derive(Debug, Clone, Copy, PartialEq, Eq, Structural)]
pub struct NotReady;

impl NotReady {
    /// The text shown to the user interface for this condition.
    pub fn message(&self) -> (r: String)
        ensures
            r@ == not_ready_text(),
    {
        "Server not ready yet".to_owned()
    }
}

/// The text that reports a read of the readiness cell before the port is known.
pub open spec fn not_ready_text() -> Seq<char> {
    "Server not ready yet"@
}

/// The readiness cell after a `set(port)` on a readiness cell in state `s`: only the first port sticks.
pub open spec fn set_result(s: Option<u16>, port: u16) -> Option<u16> {
    match s {
        Some(p) => Some(p),
        None => Some(port),
    }
}

/// What `get` reports on a readiness cell in state `s`.
pub open spec fn get_result(s: Option<u16>) -> Result<u16, NotReady> {
    match s {
        Some(p) => Ok(p),
        None => Err(NotReady),
    }
}

/// The readiness cell after a series of `set` calls, in order, from state `s`.
pub open spec fn after_sets(s: Option<u16>, ports: Seq<u16>) -> Option<u16>
    decreases ports.len(),
{
    if ports.len() == 0 {
        s
    } else {
        after_sets(set_result(s, ports[0]), ports.drop_first())
    }
}

/// A single-assignment cell for the server's port: unset until the first
/// `set`, and unchanged by every later one.
pub struct ReadinessGate {
    cell: tokio::sync::OnceCell<u16>,
}

impl View for ReadinessGate {
    type V = Option<u16>;

    closed spec fn view(&self) -> Option<u16> {
        cell_value(self.cell)
    }
}

impl ReadinessGate {
    /// An unset readiness cell.
    pub fn new() -> (r: ReadinessGate)
        ensures
            r@ == None::<u16>,
    {
        ReadinessGate { cell: cell_new() }
    }

    /// Stores `port` if the readiness cell is unset; otherwise leaves it as it is.
    /// Returns whether this call stored the port.
    pub fn set(&mut self, port: u16) -> (stored: bool)
        ensures
            final(self)@ == set_result(old(self)@, port),
            stored == (old(self)@ is None),
    {
        cell_set(&mut self.cell, port)
    }

    /// The port, or `NotReady` while the readiness cell is unset.
    pub fn get(&self) -> (r: Result<u16, NotReady>)
        ensures
            r == get_result(self@),
    {
        match cell_get(&self.cell) {
            Some(p) => Ok(p),
            None => Err(NotReady),
        }
    }

    /// Whether the port is known.
    pub fn is_ready(&self) -> (r: bool)
        ensures
            r == (self@ is Some),
    {
        cell_get(&self.cell).is_some()
    }
}

/// Single assignment: after any series of `set` calls on an unset readiness cell, the
/// readiness cell holds the first call's port; once set, further calls change nothing.
pub proof fn lemma_first_set_wins(s: Option<u16>, ports: Seq<u16>)
    ensures
        s is Some ==> after_sets(s, ports) == s,
        s is None && ports.len() > 0 ==> after_sets(s, ports) == Some(ports[0]),
    decreases ports.len(),
{
    if ports.len() > 0 {
        lemma_first_set_wins(set_result(s, ports[0]), ports.drop_first());
    }
}

/// A read before any `set` fails with `NotReady`; a read after a series of
/// `set` calls, the first with port `p`, returns `p`.
pub proof fn lemma_get_after_set(ports: Seq<u16>)
    ensures
        get_result(None) == Err::<u16, NotReady>(NotReady),
        ports.len() > 0 ==> get_result(after_sets(None, ports)) == Ok::<u16, NotReady>(ports[0]),
{
    lemma_first_set_wins(None, ports);
}

} // verus!
