//! Window identifiers, named atoms, errors, and the atom-resolution
//! capability that the connection layer must supply.
use vstd::prelude::*;

verus! {

/// An opaque identifier for a window or drawable on the display server.
/// The server owns identity; this layer treats the value as an opaque key.
pub type Xid = u32;

/// Atom names that this layer needs when lowering a
/// [`crate::event::ClientMessageKind`] into a wire-ready message.
///
/// Resolution from a name to its runtime identifier is delegated to an
/// [`XAtomQuerier`]; this layer never interns atoms itself.
#[derive(Debug, Clone, Copy, PartialEq, Eq, Hash)]
pub enum Atom {
    /// WM_PROTOCOLS
    WmProtocols,
    /// WM_DELETE_WINDOW
    WmDeleteWindow,
    /// WM_TAKE_FOCUS
    WmTakeFocus,
    /// MANAGER
    Manager,
    /// _NET_SYSTEM_TRAY_S0
    NetSystemTrayS0,
    /// _XEMBED
    XEmbed,
}

impl Atom {
    /// The characters of this atom's interned name.
    pub open spec fn name(self) -> Seq<char> {
        match self {
            Atom::WmProtocols => "WM_PROTOCOLS"@,
            Atom::WmDeleteWindow => "WM_DELETE_WINDOW"@,
            Atom::WmTakeFocus => "WM_TAKE_FOCUS"@,
            Atom::Manager => "MANAGER"@,
            Atom::NetSystemTrayS0 => "_NET_SYSTEM_TRAY_S0"@,
            Atom::XEmbed => "_XEMBED"@,
        }
    }

    /// The interned name of this atom as it is sent to the resolver.
    pub fn as_str(self) -> (r: &'static str)
        ensures
            r@ == self.name(),
    {
        match self {
            Atom::WmProtocols => "WM_PROTOCOLS",
            Atom::WmDeleteWindow => "WM_DELETE_WINDOW",
            Atom::WmTakeFocus => "WM_TAKE_FOCUS",
            Atom::Manager => "MANAGER",
            Atom::NetSystemTrayS0 => "_NET_SYSTEM_TRAY_S0",
            Atom::XEmbed => "_XEMBED",
        }
    }
}

/// Everything that can go wrong in this layer.
///
/// Every failure is returned as a value: no operation here panics, and no
/// partially-constructed message is ever observable.
#[derive(Debug, Clone, PartialEq, Eq, Hash)]
pub enum XError {
    /// A general-purpose message constructor was given a payload whose
    /// length is not exactly the fixed word count; carries the offending
    /// length.
    InvalidClientMessageData(usize),
    /// The atom-resolution capability could not resolve a required name;
    /// carries the name that was asked for and the cause of the failure.
    AtomResolutionFailed(String, String),
}

/// Holds when `r` is an atom-resolution failure for `name` with the given
/// `cause`, compared character for character.
pub open spec fn resolution_failed<T>(r: Result<T, XError>, name: Seq<char>, cause: Seq<char>) -> bool {
    match r {
        Result::Err(XError::AtomResolutionFailed(n, c)) => n@ == name && c@ == cause,
        _ => false,
    }
}

/// The atom-resolution capability: one fallible operation mapping an atom
/// name to its resolved numeric identifier.
///
/// The connection/transport layer supplies the implementation; this layer
/// never caches or interns atoms itself. The model function
/// [`XAtomQuerier::atom_id_spec`] lets callers state exactly how a built
/// message depends on the resolver's answers.
pub trait XAtomQuerier {
    /// Model of the resolver's answer for a given name: the resolved id,
    /// or the characters of the cause of the failure.
    spec fn atom_id_spec(&self, name: Seq<char>) -> Result<u32, Seq<char>>;

    /// Resolve an atom name to its numeric server-side identifier.
    ///
    /// On failure the error is [`XError::AtomResolutionFailed`], carrying
    /// the name that was asked for.
    fn atom_id(&self, name: &str) -> (r: Result<u32, XError>)
        ensures
            (match self.atom_id_spec(name@) {
                Ok(id) => r == Ok::<u32, XError>(id),
                Err(cause) => resolution_failed(r, name@, cause),
            }),
    ;
}

/// The cause an [`AtomTable`] reports for a name it does not hold.
pub open spec fn unknown_atom_cause() -> Seq<char> {
    "unknown atom"@
}

/// What a lookup in `entries` starting at position `i` answers: the id of
/// the first entry at or after `i` whose name matches, or the cause of the
/// failure.
pub open spec fn table_lookup_from(entries: Seq<(String, u32)>, name: Seq<char>, i: int) -> Result<u32, Seq<char>>
    decreases entries.len() - i,
{
    if i < 0 || i >= entries.len() {
        Err(unknown_atom_cause())
    } else if entries[i].0@ == name {
        Ok(entries[i].1)
    } else {
        table_lookup_from(entries, name, i + 1)
    }
}

/// What a lookup over the whole table answers: the id of the first entry
/// whose name matches, or the cause of the failure.
pub open spec fn table_lookup(entries: Seq<(String, u32)>, name: Seq<char>) -> Result<u32, Seq<char>> {
    table_lookup_from(entries, name, 0)
}

/// A deterministic, in-memory atom resolver: a table of name/id pairs,
/// answered by first match. A live connection layer will usually supply a
/// resolver of its own; this one keeps the builder usable with
/// deterministic ids and is the reference implementation of the
/// capability.
pub struct AtomTable {
    entries: Vec<(String, u32)>,
}

impl AtomTable {
    /// The name/id pairs this table holds, in insertion order.
    pub closed spec fn table(&self) -> Seq<(String, u32)> {
        self.entries@
    }

    /// Build an empty table; it resolves nothing.
    pub fn new() -> (r: AtomTable)
        ensures
            r.table().len() == 0,
    {
        AtomTable { entries: Vec::new() }
    }

    /// Append a name/id pair. Earlier entries take precedence on lookup.
    pub fn define(&mut self, name: &str, id: u32)
        ensures
            final(self).table().len() == old(self).table().len() + 1,
            final(self).table()[old(self).table().len() as int].0@ == name@,
            final(self).table()[old(self).table().len() as int].1 == id,
            forall|j: int| 0 <= j < old(self).table().len()
                ==> final(self).table()[j] == old(self).table()[j],
    {
        self.entries.push((name.to_owned(), id));
    }
}

impl XAtomQuerier for AtomTable {
    open spec fn atom_id_spec(&self, name: Seq<char>) -> Result<u32, Seq<char>> {
        table_lookup(self.table(), name)
    }

    fn atom_id(&self, name: &str) -> (r: Result<u32, XError>) {
        let key: String = name.to_owned();
        let mut i: usize = 0;
        while i < self.entries.len()
            invariant
                i <= self.entries@.len(),
                key@ == name@,
                table_lookup_from(self.entries@, name@, 0)
                    == table_lookup_from(self.entries@, name@, i as int),
            decreases self.entries@.len() - i,
        {
            let entry = &self.entries[i];
            if entry.0 == key {
                return Ok(entry.1);
            }
            i = i + 1;
        }
        Err(XError::AtomResolutionFailed(key, "unknown atom".to_owned()))
    }
}

} // verus!
