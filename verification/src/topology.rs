//! The screen-topology registry: the configured spatial arrangement of
//! client screens a server validates placement against and uses to resolve
//! which neighbor owns a given screen edge.
//!
//! Entries are partitioned into planes: the root plane holds entries placed
//! absolutely, and each registered client anchors a plane of entries placed
//! relative to it.  Within any one plane each direction occurs at most once,
//! and a relative entry may only name a client registered before it; the
//! registry enforces both invariants on every insertion.

use vstd::prelude::*;

verus! {

/// A direction an entry is placed in, either absolutely (root plane) or
/// relative to another client.
#[derive(Debug, Clone, Copy, PartialEq, Eq, Structural, Hash)]
pub enum Position {
    Left,
    Right,
    Above,
    Below,
}

/// Why an entry was refused by the registry.
#[derive(Debug, Clone, Copy, PartialEq, Eq, Structural)]
pub enum TopologyError {
    /// The direction is already taken in the root plane.
    DuplicatePosition,
    /// A relative entry names a client that is not registered.
    UnknownReferenceClient,
    /// The direction is already taken among the entries relative to the same
    /// reference client.
    DuplicateRelativePosition,
}

/// One configured client screen: its identity, its placement (absolute, or
/// relative to a previously registered client), and its screen geometry.
#[derive(Debug, Clone)]
pub struct ClientConfig {
    /// Client name, matched against the name a connecting peer announces.
    pub name: String,
    /// The direction of this screen within its plane.
    pub position: Position,
    /// The client this entry is placed relative to; `None` places it in the
    /// root plane.
    pub relative_to: Option<String>,
    /// Screen width in pixels.
    pub width: u16,
    /// Screen height in pixels.
    pub height: u16,
    /// Current pointer X coordinate.
    pub pointer_x: u16,
    /// Current pointer Y coordinate.
    pub pointer_y: u16,
}

/// Abstraction of a [`ClientConfig`] over character sequences.
pub struct ClientConfigV {
    pub name: Seq<char>,
    pub position: Position,
    pub relative_to: Option<Seq<char>>,
    pub width: u16,
    pub height: u16,
    pub pointer_x: u16,
    pub pointer_y: u16,
}

impl View for ClientConfig {
    type V = ClientConfigV;

    open spec fn view(&self) -> ClientConfigV {
        ClientConfigV {
            name: self.name@,
            position: self.position,
            relative_to: match self.relative_to {
                Some(ref s) => Some(s@),
                None => None,
            },
            width: self.width,
            height: self.height,
            pointer_x: self.pointer_x,
            pointer_y: self.pointer_y,
        }
    }
}

/// Whether a new entry's reference client is already registered (always
/// true for root-plane entries).
pub open spec fn ref_known(entries: Seq<ClientConfigV>, c: ClientConfigV) -> bool {
    match c.relative_to {
        Some(r) => exists|j: int| 0 <= j < entries.len() && entries[j].name == r,
        None => true,
    }
}

/// Whether a new entry's direction is still free within its plane.
pub open spec fn position_free(entries: Seq<ClientConfigV>, c: ClientConfigV) -> bool {
    forall|j: int| 0 <= j < entries.len() ==> !(#[trigger] entries[j].relative_to
        == c.relative_to && entries[j].position == c.position)
}

/// The exact outcome of adding an entry to a registry holding `entries`.
pub open spec fn spec_add(entries: Seq<ClientConfigV>, c: ClientConfigV) -> Result<
    (),
    TopologyError,
> {
    if !ref_known(entries, c) {
        Err(TopologyError::UnknownReferenceClient)
    } else if !position_free(entries, c) {
        if c.relative_to is Some {
            Err(TopologyError::DuplicateRelativePosition)
        } else {
            Err(TopologyError::DuplicatePosition)
        }
    } else {
        Ok(())
    }
}

/// Every plane holds each direction at most once.
pub open spec fn planes_disjoint(entries: Seq<ClientConfigV>) -> bool {
    forall|i: int, j: int| 0 <= i < j < entries.len() ==> !(#[trigger] entries[i].relative_to
        == #[trigger] entries[j].relative_to && entries[i].position == entries[j].position)
}

/// Every relative entry names a client registered before it.
pub open spec fn refs_resolved(entries: Seq<ClientConfigV>) -> bool {
    forall|i: int| 0 <= i < entries.len() ==> ref_known(entries.take(i), #[trigger] entries[i])
}

/// The registry of configured client screens.  Built before a server starts
/// accepting connections and read-only afterwards.
#[derive(Debug)]
pub struct ScreenTopology {
    entries: Vec<ClientConfig>,
}

impl View for ScreenTopology {
    type V = Seq<ClientConfigV>;

    closed spec fn view(&self) -> Seq<ClientConfigV> {
        Seq::new(self.entries@.len(), |i: int| self.entries@[i]@)
    }
}

/// The view of an optional name.
pub open spec fn opt_view(o: &Option<String>) -> Option<Seq<char>> {
    match o {
        Some(s) => Some(s@),
        None => None,
    }
}

/// Whether two optional names are the same plane tag.
fn plane_eq(a: &Option<String>, b: &Option<String>) -> (r: bool)
    ensures
        r == (opt_view(a) == opt_view(b)),
{
    match (a, b) {
        (Some(x), Some(y)) => {
            let r = *x == *y;
            proof {
                assert(opt_view(a) == Some(x@));
                assert(opt_view(b) == Some(y@));
            }
            r
        },
        (None, None) => true,
        _ => {
            proof {
                assert(opt_view(a) != opt_view(b));
            }
            false
        },
    }
}

impl ScreenTopology {
    /// Whether this registry satisfies its invariants: within each plane a
    /// direction occurs at most once, and every relative entry names a
    /// client registered before it.
    pub open spec fn wf(&self) -> bool {
        planes_disjoint(self@) && refs_resolved(self@)
    }

    /// An empty registry.
    pub fn new() -> (r: Self)
        ensures
            r@ == Seq::<ClientConfigV>::empty(),
            r.wf(),
    {
        let r = ScreenTopology { entries: Vec::new() };
        proof {
            assert(r@ =~= Seq::<ClientConfigV>::empty());
        }
        r
    }

    /// The number of registered entries.
    pub fn len(&self) -> (r: usize)
        ensures
            r == self@.len(),
    {
        self.entries.len()
    }

    /// The entry registered at `index`.
    pub fn get(&self, index: usize) -> (r: &ClientConfig)
        requires
            index < self@.len(),
        ensures
            r@ == self@[index as int],
    {
        &self.entries[index]
    }

    /// Whether some registered entry bears `name`.
    pub fn contains_name(&self, name: &String) -> (r: bool)
        ensures
            r == exists|j: int| 0 <= j < self@.len() && #[trigger] self@[j].name == name@,
    {
        let mut i: usize = 0;
        while i < self.entries.len()
            invariant
                0 <= i <= self@.len(),
                self@.len() == self.entries@.len(),
                forall|j: int| 0 <= j < i ==> #[trigger] self@[j].name != name@,
            decreases self.entries@.len() - i,
        {
            if self.entries[i].name == *name {
                proof {
                    assert(self@[i as int].name == name@);
                }
                return true;
            }
            proof {
                assert(self@[i as int].name != name@);
            }
            i = i + 1;
        }
        false
    }

    /// Whether the plane and direction of `config` are already taken.
    fn position_taken(&self, config: &ClientConfig) -> (r: bool)
        ensures
            r == !position_free(self@, config@),
    {
        let mut i: usize = 0;
        while i < self.entries.len()
            invariant
                0 <= i <= self@.len(),
                self@.len() == self.entries@.len(),
                forall|j: int| 0 <= j < i ==> !(#[trigger] self@[j].relative_to
                    == config@.relative_to && self@[j].position == config.position),
            decreases self.entries@.len() - i,
        {
            let e = &self.entries[i];
            proof {
                assert(self@[i as int] == e@);
            }
            if plane_eq(&e.relative_to, &config.relative_to) && e.position == config.position {
                proof {
                    assert(e@.relative_to == opt_view(&e.relative_to));
                    assert(config@.relative_to == opt_view(&config.relative_to));
                    assert(self@[i as int].relative_to == config@.relative_to
                        && self@[i as int].position == config@.position);
                    assert(!position_free(self@, config@));
                }
                return true;
            }
            i = i + 1;
        }
        false
    }

    /// Registers one more client screen.  Fails with
    /// `UnknownReferenceClient` when a relative entry names a client not yet
    /// registered, with `DuplicatePosition` when the direction is already
    /// taken in the root plane, and with `DuplicateRelativePosition` when it
    /// is already taken among the entries relative to the same reference;
    /// on failure the registry is unchanged.
    pub fn add(&mut self, config: ClientConfig) -> (r: Result<(), TopologyError>)
        requires
            old(self).wf(),
        ensures
            final(self).wf(),
            r == spec_add(old(self)@, config@),
            match r {
                Ok(()) => final(self)@ == old(self)@.push(config@),
                Err(_) => final(self)@ == old(self)@,
            },
    {
        let ghost entries = self@;
        let ghost cv = config@;
        match &config.relative_to {
            Some(r) => {
                if !self.contains_name(r) {
                    return Err(TopologyError::UnknownReferenceClient);
                }
            },
            None => {},
        }
        if self.position_taken(&config) {
            if config.relative_to.is_some() {
                return Err(TopologyError::DuplicateRelativePosition);
            } else {
                return Err(TopologyError::DuplicatePosition);
            }
        }
        self.entries.push(config);
        proof {
            assert(self@ =~= entries.push(cv));
            assert(entries.push(cv).take(entries.len() as int) =~= entries);
            assert forall|k: int| 0 <= k < self@.len() implies ref_known(
                self@.take(k),
                #[trigger] self@[k],
            ) by {
                if k < entries.len() {
                    assert(self@.take(k) =~= entries.take(k));
                    assert(ref_known(entries.take(k), entries[k]));
                }
            }
        }
        Ok(())
    }

    /// The neighbor occupying `direction` in the plane tagged by
    /// `reference`: the root plane when `reference` is `None`, else the
    /// plane of entries placed relative to the named client.  Returns `None`
    /// when that edge leads off all configured screens.
    pub fn neighbor_at(&self, reference: &Option<String>, direction: Position) -> (r: Option<
        &ClientConfig,
    >)
        requires
            self.wf(),
        ensures
            match r {
                Some(c) => exists|j: int| 0 <= j < self@.len() && #[trigger] self@[j] == c@
                    && c@.relative_to == opt_view(reference) && c@.position == direction,
                None => forall|j: int| 0 <= j < self@.len() ==> !(#[trigger] self@[j].relative_to
                    == opt_view(reference) && self@[j].position == direction),
            },
    {
        let mut i: usize = 0;
        while i < self.entries.len()
            invariant
                0 <= i <= self@.len(),
                self@.len() == self.entries@.len(),
                forall|j: int| 0 <= j < i ==> !(#[trigger] self@[j].relative_to
                    == opt_view(reference) && self@[j].position == direction),
            decreases self.entries@.len() - i,
        {
            let e = &self.entries[i];
            proof {
                assert(self@[i as int] == e@);
            }
            if plane_eq(&e.relative_to, reference) && e.position == direction {
                proof {
                    assert(self@[i as int] == e@ && e@.relative_to == opt_view(reference)
                        && e@.position == direction);
                }
                return Some(e);
            }
            i = i + 1;
        }
        None
    }
}

} // verus!
