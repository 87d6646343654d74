//! The connections of a server, by client id.
//!
//! The table is a `DashMap`, declared in `utils::concurrent`. Every
//! operation here takes it by `&mut`, so the server that owns the table is
//! the only one that changes it.

use crate::server::state::{Connection, ConnectionView};
use dashmap::DashMap;
use vstd::prelude::*;

verus! {

/// The connections that the map holds, by the text of their client id.
pub uninterp spec fn connections_of(map: DashMap<String, Connection>) -> Map<Seq<char>, ConnectionView>;

/// `DashMap::new`: a map that holds nothing.
#[verifier::external_body]
fn connections_new() -> (map: DashMap<String, Connection>)
    ensures
        connections_of(map) =~= Map::empty(),
{
    DashMap::new()
}

/// `DashMap::insert`: the map then holds `connection` under `id`, in place
/// of what it held there, and everything else as before.
#[verifier::external_body]
fn connections_insert(map: &mut DashMap<String, Connection>, id: String, connection: Connection)
    ensures
        connections_of(*final(map)) == connections_of(*old(map)).insert(id@, connection@),
{
    map.insert(id, connection);
}

/// `DashMap::remove`: the map no longer holds the key; the call returns the
/// value that was held under it, if any.
#[verifier::external_body]
fn connections_remove(map: &mut DashMap<String, Connection>, id: &str) -> (connection: Option<Connection>)
    ensures
        connections_of(*final(map)) == connections_of(*old(map)).remove(id@),
        match connection {
            Some(c) => connections_of(*old(map)).contains_key(id@) && connections_of(*old(map))[id@] == c@,
            None => !connections_of(*old(map)).contains_key(id@),
        },
{
    map.remove(id).map(|entry| entry.1)
}

/// `DashMap::get`, with a copy made of what the guard refers to: the
/// connection held under the key, if any.
#[verifier::external_body]
fn connections_get(map: &DashMap<String, Connection>, id: &str) -> (connection: Option<Connection>)
    ensures
        match connection {
            Some(c) => connections_of(*map).contains_key(id@) && connections_of(*map)[id@] == c@,
            None => !connections_of(*map).contains_key(id@),
        },
{
    map.get(id).map(|entry| entry.value().clone())
}

/// `DashMap::contains_key`.
#[verifier::external_body]
fn connections_contains(map: &DashMap<String, Connection>, id: &str) -> (held: bool)
    ensures
        held == connections_of(*map).contains_key(id@),
{
    map.contains_key(id)
}

/// `DashMap::clear`: the map then holds nothing.
#[verifier::external_body]
fn connections_clear(map: &mut DashMap<String, Connection>)
    ensures
        connections_of(*final(map)) =~= Map::empty(),
{
    map.clear()
}

/// The connections of a server.
pub struct ConnectionTable {
    connections: DashMap<String, Connection>,
}

impl View for ConnectionTable {
    type V = Map<Seq<char>, ConnectionView>;

    closed spec fn view(&self) -> Map<Seq<char>, ConnectionView> {
        connections_of(self.connections)
    }
}

impl ConnectionTable {
    /// A table without connections.
    pub fn new() -> (t: ConnectionTable)
        ensures
            t@ == Map::<Seq<char>, ConnectionView>::empty(),
    {
        ConnectionTable { connections: connections_new() }
    }

    /// Whether the client is connected.
    pub fn contains(&self, id: &str) -> (r: bool)
        ensures
            r == self@.contains_key(id@),
    {
        connections_contains(&self.connections, id)
    }

    /// A copy of the connection of the client.
    pub fn get(&self, id: &str) -> (connection: Option<Connection>)
        ensures
            match connection {
                Some(c) => self@.contains_key(id@) && self@[id@] == c@,
                None => !self@.contains_key(id@),
            },
    {
        connections_get(&self.connections, id)
    }

    /// Puts the connection under the id, in place of any that was there.
    pub fn insert(&mut self, id: &str, connection: Connection)
        ensures
            final(self)@ == old(self)@.insert(id@, connection@),
    {
        connections_insert(&mut self.connections, id.to_owned(), connection);
    }

    /// Takes the connection of the client out of the table.
    pub fn remove(&mut self, id: &str) -> (connection: Option<Connection>)
        ensures
            final(self)@ == old(self)@.remove(id@),
            match connection {
                Some(c) => old(self)@.contains_key(id@) && old(self)@[id@] == c@,
                None => !old(self)@.contains_key(id@),
            },
    {
        connections_remove(&mut self.connections, id)
    }

    /// Removes every connection.
    pub fn clear(&mut self)
        ensures
            final(self)@ == Map::<Seq<char>, ConnectionView>::empty(),
    {
        connections_clear(&mut self.connections);
    }
}

} // verus!
