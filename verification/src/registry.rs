//! The signal registry: the kind that is declared for each signal name.
//!
//! The registry is built once, from the stored definitions, and only read
//! afterwards.

use crate::text::same_text;
use vstd::hash_map::StringHashMap;
use vstd::prelude::*;

verus! {

/// The declared wire encoding of a signal.
#[derive(Debug, Clone, Copy, PartialEq, Eq, Structural)]
pub enum SignalKind {
    /// An integer that is either 0 or 1.
    Digital,
    /// A floating-point number between 1.0 and 65535.0.
    Analog,
}

/// One stored definition of a signal: its name and the label of its kind.
#[derive(Debug, Clone, PartialEq, Eq)]
pub struct SignalRow {
    pub signal_name: String,
    pub signal_type: String,
}

/// The kind that a stored label stands for: `digital` is digital, and every
/// other label is analog.
pub open spec fn kind_of_label(label: Seq<char>) -> SignalKind {
    if label == "digital"@ {
        SignalKind::Digital
    } else {
        SignalKind::Analog
    }
}

/// The mapping that a sequence of rows defines.  Where a name occurs more
/// than once, its last row decides.
pub open spec fn registry_of(rows: Seq<SignalRow>) -> Map<Seq<char>, SignalKind>
    decreases rows.len(),
{
    if rows.len() == 0 {
        Map::empty()
    } else {
        registry_of(rows.drop_last()).insert(
            rows.last().signal_name@,
            kind_of_label(rows.last().signal_type@),
        )
    }
}

/// The mapping from signal names to kinds.
pub struct SignalRegistry {
    kinds: StringHashMap<SignalKind>,
}

impl View for SignalRegistry {
    type V = Map<Seq<char>, SignalKind>;

    closed spec fn view(&self) -> Map<Seq<char>, SignalKind> {
        self.kinds@
    }
}

impl SignalKind {
    /// Reads the kind from its stored label.
    pub fn from_label(label: &str) -> (kind: SignalKind)
        ensures
            kind == kind_of_label(label@),
    {
        if same_text(label, "digital") {
            SignalKind::Digital
        } else {
            SignalKind::Analog
        }
    }
}

impl SignalRegistry {
    /// A registry that knows no signal.
    fn new() -> (registry: SignalRegistry)
        ensures
            registry@ == Map::<Seq<char>, SignalKind>::empty(),
    {
        SignalRegistry { kinds: StringHashMap::new() }
    }

    /// Declares `kind` for `name`, in place of what was declared before.
    fn declare(&mut self, name: &str, kind: SignalKind)
        ensures
            final(self)@ == old(self)@.insert(name@, kind),
    {
        self.kinds.insert(name.to_owned(), kind);
    }

    /// The kind declared for `name`, or `None` where the name is unknown.
    pub fn lookup(&self, name: &str) -> (kind: Option<SignalKind>)
        ensures
            kind == self@.get(name@),
    {
        match self.kinds.get(name) {
            Some(kind) => Some(*kind),
            None => None,
        }
    }

    /// The number of signals that the registry knows.
    pub fn len(&self) -> (n: usize)
        ensures
            n == self@.len(),
    {
        broadcast use vstd::hash_map::group_hash_map_axioms;

        self.kinds.len()
    }
}

/// Builds the registry from the stored definitions.
pub fn load_signal_registry(rows: &Vec<SignalRow>) -> (registry: SignalRegistry)
    ensures
        registry@ == registry_of(rows@),
{
    let mut registry = SignalRegistry::new();
    let mut i: usize = 0;
    while i < rows.len()
        invariant
            i <= rows.len(),
            registry@ == registry_of(rows@.take(i as int)),
        decreases rows.len() - i,
    {
        let kind = SignalKind::from_label(rows[i].signal_type.as_str());
        registry.declare(rows[i].signal_name.as_str(), kind);
        proof {
            assert(rows@.take(i + 1).drop_last() =~= rows@.take(i as int));
            assert(rows@.take(i + 1).last() == rows@[i as int]);
        }
        i += 1;
    }
    proof {
        assert(rows@.take(rows.len() as int) =~= rows@);
    }
    registry
}

/// A name is known exactly when some row declares it, and then its kind is
/// that of the last such row.
pub proof fn registry_of_rows(rows: Seq<SignalRow>, name: Seq<char>)
    ensures
        registry_of(rows).contains_key(name) <==> exists|i: int|
            0 <= i < rows.len() && #[trigger] rows[i].signal_name@ == name,
        forall|i: int|
            0 <= i < rows.len() && #[trigger] rows[i].signal_name@ == name && (forall|j: int|
                i < j < rows.len() ==> #[trigger] rows[j].signal_name@ != name) ==> registry_of(
                rows,
            )[name] == kind_of_label(rows[i].signal_type@),
    decreases rows.len(),
{
    if rows.len() > 0 {
        registry_of_rows(rows.drop_last(), name);
        let last = rows.len() - 1;
        if rows.last().signal_name@ == name {
            assert(rows[last].signal_name@ == name);
        } else {
            assert forall|i: int|
                0 <= i < rows.len() && #[trigger] rows[i].signal_name@ == name implies 0 <= i
                < rows.drop_last().len() && rows.drop_last()[i].signal_name@ == name by {}
        }
        assert forall|i: int|
            0 <= i < rows.len() && #[trigger] rows[i].signal_name@ == name && (forall|j: int|
                i < j < rows.len() ==> #[trigger] rows[j].signal_name@ != name) implies registry_of(
            rows,
        )[name] == kind_of_label(rows[i].signal_type@) by {
            if i < last {
                assert(rows[last].signal_name@ != name);
                assert(rows.drop_last()[i].signal_name@ == name);
                assert forall|j: int| i < j < rows.drop_last().len() implies #[trigger] rows.drop_last()[j]
                    .signal_name@ != name by {
                    assert(rows[j].signal_name@ != name);
                }
            }
        }
    }
}

} // verus!
