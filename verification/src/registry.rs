//! The connection registry of one room: an in-memory mapping, kept in
//! registration order, from peer identifier to an open connection, the latter
//! stood for by a numeric handle owned by the caller.

use vstd::prelude::*;

verus! {

/// One registered connection: the caller's handle for the channel and the
/// peer identifier it was registered under.
pub struct PeerEntry {
    pub conn: u64,
    pub peer_id: String,
}

impl View for PeerEntry {
    type V = (u64, Seq<char>);

    open spec fn view(&self) -> (u64, Seq<char>) {
        (self.conn, self.peer_id@)
    }
}

impl DeepView for PeerEntry {
    type V = (u64, Seq<char>);

    open spec fn deep_view(&self) -> (u64, Seq<char>) {
        self@
    }
}

/// The channel that a lookup of `id` resolves to: the most recent
/// registration under `id` wins; a peer that was never registered resolves
/// to nothing.
pub open spec fn lookup_in(entries: Seq<(u64, Seq<char>)>, id: Seq<char>) -> Option<u64>
    decreases entries.len(),
{
    if entries.len() == 0 {
        None
    } else if entries.last().1 == id {
        Some(entries.last().0)
    } else {
        lookup_in(entries.drop_last(), id)
    }
}

/// The identifier a connection handle was registered under, the most recent
/// registration winning.
pub open spec fn id_of_conn(entries: Seq<(u64, Seq<char>)>, conn: u64) -> Option<Seq<char>>
    decreases entries.len(),
{
    if entries.len() == 0 {
        None
    } else if entries.last().0 == conn {
        Some(entries.last().1)
    } else {
        id_of_conn(entries.drop_last(), conn)
    }
}

/// The registry after a connection handle is removed, registration order
/// otherwise kept.
pub open spec fn remove_conn(entries: Seq<(u64, Seq<char>)>, conn: u64) -> Seq<(u64, Seq<char>)>
    decreases entries.len(),
{
    if entries.len() == 0 {
        Seq::empty()
    } else {
        let rest = remove_conn(entries.drop_last(), conn);
        if entries.last().0 == conn {
            rest
        } else {
            rest.push(entries.last())
        }
    }
}

/// The registered identifiers, in registration order.
pub open spec fn ids_of(entries: Seq<(u64, Seq<char>)>) -> Seq<Seq<char>> {
    entries.map_values(|e: (u64, Seq<char>)| e.1)
}

/// The per-room connection registry.
pub struct Registry {
    pub entries: Vec<PeerEntry>,
}

impl View for Registry {
    type V = Seq<(u64, Seq<char>)>;

    open spec fn view(&self) -> Seq<(u64, Seq<char>)> {
        self.entries.deep_view()
    }
}

impl Registry {
    /// An empty registry: a freshly created room knows no peer.
    pub fn new() -> (r: Registry)
        ensures
            r@ == Seq::<(u64, Seq<char>)>::empty(),
    {
        let r = Registry { entries: Vec::new() };
        proof {
            assert(r@ =~= Seq::<(u64, Seq<char>)>::empty());
        }
        r
    }

    pub fn len(&self) -> (n: usize)
        ensures
            n == self@.len(),
    {
        self.entries.len()
    }

    /// The entry at a position of the registration order.
    pub fn entry_at(&self, i: usize) -> (e: &PeerEntry)
        requires
            i < self@.len(),
        ensures
            e@ == self@[i as int],
    {
        &self.entries[i]
    }

    /// Appends a registration. A second registration under the same
    /// identifier is not deduplicated: it supersedes the first for future
    /// lookups while the first entry stays until its own connection closes.
    pub fn register(&mut self, conn: u64, peer_id: String)
        ensures
            final(self)@ == old(self)@.push((conn, peer_id@)),
    {
        let ghost prev = self@;
        let ghost pushed = (conn, peer_id@);
        self.entries.push(PeerEntry { conn, peer_id });
        proof {
            assert(self@ =~= prev.push(pushed));
        }
    }

    /// Removes every entry registered for the given connection handle;
    /// a no-op if the handle is absent.
    pub fn unregister(&mut self, conn: u64)
        ensures
            final(self)@ == remove_conn(old(self)@, conn),
    {
        let mut kept: Vec<PeerEntry> = Vec::new();
        let mut i: usize = 0;
        while i < self.entries.len()
            invariant
                i <= self.entries.len(),
                self@ == old(self)@,
                self@.len() == self.entries.len(),
                kept.deep_view() == remove_conn(self@.take(i as int), conn),
            decreases self.entries.len() - i,
        {
            let ghost prev = kept.deep_view();
            if self.entries[i].conn != conn {
                kept.push(PeerEntry {
                    conn: self.entries[i].conn,
                    peer_id: self.entries[i].peer_id.clone(),
                });
                proof {
                    assert(kept.deep_view() =~= prev.push(self@[i as int]));
                }
            }
            i = i + 1;
            proof {
                assert(self@.take(i as int).drop_last() =~= self@.take(i as int - 1));
                assert(self@.take(i as int).last() == self@[i as int - 1]);
            }
        }
        proof {
            assert(self@.take(self@.len() as int) =~= self@);
        }
        self.entries = kept;
    }

    /// Resolves a peer identifier to its registered connection handle; the
    /// most recent registration wins; absence is not an error.
    pub fn lookup(&self, peer_id: &String) -> (r: Option<u64>)
        ensures
            r == lookup_in(self@, peer_id@),
    {
        let mut found: Option<u64> = None;
        let mut i: usize = 0;
        while i < self.entries.len()
            invariant
                i <= self.entries.len(),
                self@.len() == self.entries.len(),
                found == lookup_in(self@.take(i as int), peer_id@),
            decreases self.entries.len() - i,
        {
            if self.entries[i].peer_id == *peer_id {
                found = Some(self.entries[i].conn);
            }
            i = i + 1;
            proof {
                assert(self@.take(i as int).drop_last() =~= self@.take(i as int - 1));
                assert(self@.take(i as int).last() == self@[i as int - 1]);
            }
        }
        proof {
            assert(self@.take(self@.len() as int) =~= self@);
        }
        found
    }

    /// The identifier a connection handle was registered under, if any.
    pub fn peer_id_of(&self, conn: u64) -> (r: Option<String>)
        ensures
            r.deep_view() == id_of_conn(self@, conn),
    {
        let mut found: Option<String> = None;
        let mut i: usize = 0;
        while i < self.entries.len()
            invariant
                i <= self.entries.len(),
                self@.len() == self.entries.len(),
                found.deep_view() == id_of_conn(self@.take(i as int), conn),
            decreases self.entries.len() - i,
        {
            if self.entries[i].conn == conn {
                found = Some(self.entries[i].peer_id.clone());
            }
            i = i + 1;
            proof {
                assert(self@.take(i as int).drop_last() =~= self@.take(i as int - 1));
                assert(self@.take(i as int).last() == self@[i as int - 1]);
            }
        }
        proof {
            assert(self@.take(self@.len() as int) =~= self@);
        }
        found
    }

    /// A snapshot, in registration order, of all registered identifiers.
    pub fn list_ids(&self) -> (r: Vec<String>)
        ensures
            r.deep_view() == ids_of(self@),
    {
        let mut out: Vec<String> = Vec::new();
        let mut i: usize = 0;
        while i < self.entries.len()
            invariant
                i <= self.entries.len(),
                self@.len() == self.entries.len(),
                out.deep_view() == ids_of(self@.take(i as int)),
            decreases self.entries.len() - i,
        {
            let ghost prev = out.deep_view();
            out.push(self.entries[i].peer_id.clone());
            i = i + 1;
            proof {
                assert(out.deep_view() =~= prev.push(self@[i as int - 1].1));
                assert(prev.push(self@[i as int - 1].1) =~= ids_of(self@.take(i as int)));
            }
        }
        proof {
            assert(self@.take(self@.len() as int) =~= self@);
        }
        out
    }
}

} // verus!
