//! The registry of live connections, grouped by the match they follow.

use vstd::prelude::*;

verus! {

/// One live connection: its identity, the match it follows, and the handle
/// through which a message reaches it.
pub struct Client<H> {
    pub user_id: String,
    pub match_id: String,
    pub sender: H,
}

/// The connections that are to hear of each match. No connection stands
/// twice under one match.
pub struct ConnectionRegistry<H> {
    members: Vec<Client<H>>,
}

/// One message on its way to one connection.
pub struct Delivery<'a, H, M> {
    pub client: &'a Client<H>,
    pub message: &'a M,
}

/// Whether `out` carries `message` to the connections that `registry` holds
/// under `match_id`: every delivery goes to one of them, through its own
/// handle; no two go to the same one; and each of them gets one.
pub open spec fn is_broadcast_of<H, M>(
    out: Seq<Delivery<H, M>>,
    registry: Map<(Seq<char>, Seq<char>), H>,
    match_id: Seq<char>,
    message: &M,
) -> bool {
    &&& forall|i: int|
        0 <= i < out.len() ==> {
            &&& (#[trigger] out[i]).message == message
            &&& out[i].client.match_id@ == match_id
            &&& registry.contains_key((match_id, out[i].client.user_id@))
            &&& out[i].client.sender == registry[(match_id, out[i].client.user_id@)]
        }
    &&& forall|i: int, j: int| 0 <= i < j < out.len() ==> out[i].client.user_id@ != out[j].client.user_id@
    &&& forall|c: Seq<char>| #[trigger]
        registry.contains_key((match_id, c)) ==> exists|i: int| 0 <= i < out.len() && out[i].client.user_id@ == c
}

/// The identities of the connections that `registry` holds under `match_id`.
pub open spec fn connections_under<H>(registry: Map<(Seq<char>, Seq<char>), H>, match_id: Seq<char>) -> Set<
    Seq<char>,
> {
    Set::new(|c: Seq<char>| registry.contains_key((match_id, c)))
}

/// A broadcast makes as many deliveries as the match has connections: one
/// for each.
pub proof fn broadcast_counts_connections<H, M>(
    out: Seq<Delivery<H, M>>,
    registry: Map<(Seq<char>, Seq<char>), H>,
    match_id: Seq<char>,
    message: &M,
)
    requires
        is_broadcast_of(out, registry, match_id, message),
    ensures
        connections_under(registry, match_id).finite(),
        out.len() == connections_under(registry, match_id).len(),
        forall|i: int| 0 <= i < out.len() ==> (#[trigger] out[i]).message == message,
{
    let ids = Seq::new(out.len(), |i: int| out[i].client.user_id@);
    assert forall|i: int, j: int| 0 <= i < ids.len() && 0 <= j < ids.len() && i != j implies ids[i] != ids[j] by {
        if i < j {
            assert(out[i].client.user_id@ != out[j].client.user_id@);
        } else {
            assert(out[j].client.user_id@ != out[i].client.user_id@);
        }
    }
    assert(ids.no_duplicates());
    ids.unique_seq_to_set();
    assert forall|c: Seq<char>| ids.to_set().contains(c) == connections_under(registry, match_id).contains(c) by {
        if ids.to_set().contains(c) {
            let i = choose|i: int| 0 <= i < ids.len() && ids[i] == c;
            assert(registry.contains_key((match_id, out[i].client.user_id@)));
        }
        if registry.contains_key((match_id, c)) {
            let i = choose|i: int| 0 <= i < out.len() && out[i].client.user_id@ == c;
            assert(ids[i] == c);
        }
    }
    assert(ids.to_set() =~= connections_under(registry, match_id));
}

/// A broadcast to one match reaches no connection that does not stand under
/// that match, wherever else it stands.
pub proof fn broadcast_stays_in_match<H, M>(
    out: Seq<Delivery<H, M>>,
    registry: Map<(Seq<char>, Seq<char>), H>,
    match_id: Seq<char>,
    message: &M,
    outsider: Seq<char>,
)
    requires
        is_broadcast_of(out, registry, match_id, message),
        !registry.contains_key((match_id, outsider)),
    ensures
        forall|i: int| 0 <= i < out.len() ==> (#[trigger] out[i]).client.user_id@ != outsider,
{
}

/// Putting a connection under one match, or taking it out, leaves who
/// stands under every other match as it was.
pub proof fn other_matches_keep_their_connections<H>(
    registry: Map<(Seq<char>, Seq<char>), H>,
    match_id: Seq<char>,
    connection_id: Seq<char>,
    handle: H,
    other: Seq<char>,
)
    requires
        other != match_id,
    ensures
        connections_under(registry.insert((match_id, connection_id), handle), other) == connections_under(
            registry,
            other,
        ),
        connections_under(registry.remove((match_id, connection_id)), other) == connections_under(registry, other),
{
    assert(connections_under(registry.insert((match_id, connection_id), handle), other) =~= connections_under(
        registry,
        other,
    ));
    assert(connections_under(registry.remove((match_id, connection_id)), other) =~= connections_under(
        registry,
        other,
    ));
}

impl<H> ConnectionRegistry<H> {
    spec fn key_at(self, i: int) -> (Seq<char>, Seq<char>) {
        (self.members[i].match_id@, self.members[i].user_id@)
    }

    spec fn holds(self, key: (Seq<char>, Seq<char>)) -> bool {
        exists|i: int| 0 <= i < self.members.len() && self.key_at(i) == key
    }

    spec fn position(self, key: (Seq<char>, Seq<char>)) -> int {
        choose|i: int| 0 <= i < self.members.len() && self.key_at(i) == key
    }

    spec fn distinct(self) -> bool {
        forall|i: int, j: int| 0 <= i < j < self.members.len() ==> self.key_at(i) != self.key_at(j)
    }

    /// The invariant of the registry: no connection stands twice under one
    /// match.
    pub closed spec fn wf(&self) -> bool {
        self.distinct()
    }

    /// The registry as a map: the pair of a match identifier and a
    /// connection identity leads to that connection's handle.
    pub closed spec fn view(&self) -> Map<(Seq<char>, Seq<char>), H> {
        Map::new(
            |key: (Seq<char>, Seq<char>)| self.holds(key),
            |key: (Seq<char>, Seq<char>)| self.members[self.position(key)].sender,
        )
    }

    proof fn member_is_mapped(self, i: int)
        requires
            self.distinct(),
            0 <= i < self.members.len(),
        ensures
            self@.contains_key(self.key_at(i)),
            self@[self.key_at(i)] == self.members[i].sender,
            self.position(self.key_at(i)) == i,
    {
        let key = self.key_at(i);
        assert(self.holds(key));
        let p = self.position(key);
        assert(0 <= p < self.members.len() && self.key_at(p) == key);
        if p != i {
            if p < i {
                assert(self.key_at(p) != self.key_at(i));
            } else {
                assert(self.key_at(i) != self.key_at(p));
            }
        }
    }

    /// A registry with nobody in it.
    pub fn new() -> (registry: Self)
        ensures
            registry.wf(),
            registry@ == Map::<(Seq<char>, Seq<char>), H>::empty(),
    {
        let registry = ConnectionRegistry { members: Vec::new() };
        assert(registry@ =~= Map::<(Seq<char>, Seq<char>), H>::empty());
        registry
    }

    fn find(&self, match_id: &String, connection_id: &String) -> (at: Option<usize>)
        ensures
            match at {
                Some(i) => i < self.members.len() && self.key_at(i as int) == (match_id@, connection_id@),
                None => !self.holds((match_id@, connection_id@)),
            },
    {
        let mut i: usize = 0;
        while i < self.members.len()
            invariant
                i <= self.members.len(),
                forall|k: int| 0 <= k < i ==> self.key_at(k) != (match_id@, connection_id@),
            decreases self.members.len() - i,
        {
            if self.members[i].match_id == *match_id && self.members[i].user_id == *connection_id {
                return Some(i);
            }
            i += 1;
        }
        None
    }

    /// Whether the connection stands under the match.
    pub fn is_registered(&self, match_id: &String, connection_id: &String) -> (yes: bool)
        ensures
            yes == self@.contains_key((match_id@, connection_id@)),
    {
        self.find(match_id, connection_id).is_some()
    }

    /// Puts the connection under the match. Where it stands there already,
    /// the new handle takes the place of the old one.
    pub fn register(&mut self, match_id: &String, connection_id: &String, handle: H)
        requires
            old(self).wf(),
        ensures
            final(self).wf(),
            final(self)@ == old(self)@.insert((match_id@, connection_id@), handle),
    {
        let ghost key = (match_id@, connection_id@);
        let ghost before = *self;
        let at = self.find(match_id, connection_id);
        let member = Client { user_id: connection_id.clone(), match_id: match_id.clone(), sender: handle };
        match at {
            Some(i) => {
                self.members.set(i, member);
                proof {
                    assert forall|a: int, b: int| 0 <= a < b < self.members.len() implies self.key_at(a)
                        != self.key_at(b) by {
                        assert(self.key_at(a) == before.key_at(a));
                        assert(self.key_at(b) == before.key_at(b));
                    }
                    assert forall|k: (Seq<char>, Seq<char>)| self.holds(k) == before.holds(k) by {
                        if self.holds(k) {
                            let w = self.position(k);
                            assert(before.key_at(w) == k);
                        }
                        if before.holds(k) {
                            let w = before.position(k);
                            assert(self.key_at(w) == k);
                        }
                    }
                    assert forall|k: (Seq<char>, Seq<char>)| self.holds(k) implies #[trigger] self@[k]
                        == before@.insert(key, handle)[k] by {
                        let w = self.position(k);
                        assert(before.key_at(w) == k);
                        self.member_is_mapped(w);
                        before.member_is_mapped(w);
                    }
                    before.member_is_mapped(i as int);
                    assert(self@ =~= before@.insert(key, handle));
                }
            },
            None => {
                self.members.push(member);
                proof {
                    let n = before.members.len() as int;
                    assert forall|a: int, b: int| 0 <= a < b < self.members.len() implies self.key_at(a)
                        != self.key_at(b) by {
                        assert(self.key_at(a) == before.key_at(a));
                        if b < n {
                            assert(self.key_at(b) == before.key_at(b));
                        } else {
                            assert(self.key_at(b) == key);
                        }
                    }
                    assert(self.key_at(n) == key);
                    assert forall|k: (Seq<char>, Seq<char>)| self.holds(k) == (before.holds(k) || k == key) by {
                        if self.holds(k) {
                            let w = self.position(k);
                            if w < n {
                                assert(before.key_at(w) == k);
                            }
                        }
                        if before.holds(k) {
                            let w = before.position(k);
                            assert(self.key_at(w) == k);
                        }
                    }
                    assert forall|k: (Seq<char>, Seq<char>)| self.holds(k) implies #[trigger] self@[k]
                        == before@.insert(key, handle)[k] by {
                        let w = self.position(k);
                        self.member_is_mapped(w);
                        if w < n {
                            assert(before.key_at(w) == k);
                            before.member_is_mapped(w);
                        }
                    }
                    assert(self@ =~= before@.insert(key, handle));
                }
            },
        }
    }

    /// Takes the connection out from under the match and hands its handle
    /// back, where it stood there.
    pub fn unregister(&mut self, match_id: &String, connection_id: &String) -> (handle: Option<H>)
        requires
            old(self).wf(),
        ensures
            final(self).wf(),
            final(self)@ == old(self)@.remove((match_id@, connection_id@)),
            handle == if old(self)@.contains_key((match_id@, connection_id@)) {
                Some(old(self)@[(match_id@, connection_id@)])
            } else {
                None
            },
    {
        let ghost key = (match_id@, connection_id@);
        let ghost before = *self;
        match self.find(match_id, connection_id) {
            Some(i) => {
                let member = self.members.remove(i);
                proof {
                    let gone = i as int;
                    before.member_is_mapped(gone);
                    assert forall|a: int| 0 <= a < self.members.len() implies self.key_at(a) == before.key_at(
                        if a < gone { a } else { a + 1 },
                    ) && self.members[a].sender == before.members[if a < gone { a } else { a + 1 }].sender by {}
                    assert forall|a: int, b: int| 0 <= a < b < self.members.len() implies self.key_at(a)
                        != self.key_at(b) by {
                        let a0 = if a < gone { a } else { a + 1 };
                        let b0 = if b < gone { b } else { b + 1 };
                        assert(before.key_at(a0) != before.key_at(b0));
                    }
                    assert forall|k: (Seq<char>, Seq<char>)| self.holds(k) == (before.holds(k) && k != key) by {
                        if self.holds(k) {
                            let w = self.position(k);
                            let w0 = if w < gone { w } else { w + 1 };
                            assert(before.key_at(w0) == k);
                            if w0 < gone {
                                assert(before.key_at(w0) != before.key_at(gone));
                            } else {
                                assert(before.key_at(gone) != before.key_at(w0));
                            }
                        }
                        if before.holds(k) && k != key {
                            let w0 = before.position(k);
                            let w = if w0 < gone { w0 } else { w0 - 1 };
                            assert(self.key_at(w) == k);
                        }
                    }
                    assert forall|k: (Seq<char>, Seq<char>)| self.holds(k) implies #[trigger] self@[k]
                        == before@[k] by {
                        let w = self.position(k);
                        let w0 = if w < gone { w } else { w + 1 };
                        self.member_is_mapped(w);
                        before.member_is_mapped(w0);
                    }
                    assert(self@ =~= before@.remove(key));
                }
                Some(member.sender)
            },
            None => {
                assert(self@ =~= before@.remove(key));
                None
            },
        }
    }

    /// The deliveries that carry `message` to the connections under the
    /// match: one for each of them, none for anyone else, each with the
    /// connection's own handle and with `message` itself.
    pub fn broadcast<'a, M>(&'a self, match_id: &String, message: &'a M) -> (out: Vec<Delivery<'a, H, M>>)
        requires
            self.wf(),
        ensures
            is_broadcast_of(out@, self@, match_id@, message),
    {
        let mut out: Vec<Delivery<'a, H, M>> = Vec::new();
        let ghost mut from: Seq<int> = Seq::empty();
        let mut i: usize = 0;
        while i < self.members.len()
            invariant
                i <= self.members.len(),
                self.distinct(),
                from.len() == out.len(),
                forall|k: int| 0 <= k < out.len() ==> {
                    &&& 0 <= #[trigger] from[k] < i
                    &&& self.members[from[k]].match_id@ == match_id@
                    &&& *out[k].client == self.members[from[k]]
                    &&& out[k].message == message
                },
                forall|k: int, l: int| 0 <= k < l < out.len() ==> from[k] < from[l],
                forall|m: int| 0 <= m < i && self.members[m].match_id@ == match_id@ ==> exists|k: int| 0 <= k < out.len() && from[k] == m,
            decreases self.members.len() - i,
        {
            if self.members[i].match_id == *match_id {
                let ghost seen = out.len() as int;
                out.push(Delivery { client: &self.members[i], message });
                proof {
                    let earlier = from;
                    from = from.push(i as int);
                    assert forall|m: int| 0 <= m < i + 1 && self.members[m].match_id@ == match_id@ implies exists|k: int| 0 <= k < out.len() && from[k] == m by {
                        if m < i {
                            let k = choose|k: int| 0 <= k < seen && earlier[k] == m;
                            assert(from[k] == m);
                        } else {
                            assert(from[seen] == m);
                        }
                    }
                }
            }
            i += 1;
        }
        proof {
            assert forall|k: int| 0 <= k < out.len() implies {
                &&& (#[trigger] out[k]).message == message
                &&& out[k].client.match_id@ == match_id@
                &&& self@.contains_key((match_id@, out[k].client.user_id@))
                &&& out[k].client.sender == self@[(match_id@, out[k].client.user_id@)]
            } by {
                self.member_is_mapped(from[k]);
            }
            assert forall|k: int, l: int| 0 <= k < l < out.len() implies out[k].client.user_id@ != out[l].client.user_id@ by {
                assert(from[k] < from[l]);
                assert(self.key_at(from[k]) != self.key_at(from[l]));
            }
            assert forall|c: Seq<char>| #[trigger] self@.contains_key((match_id@, c)) implies exists|k: int| 0 <= k < out.len() && out[k].client.user_id@ == c by {
                let m = self.position((match_id@, c));
                assert(self.key_at(m) == (match_id@, c));
                let k = choose|k: int| 0 <= k < out.len() && from[k] == m;
                assert(out[k].client.user_id@ == c);
            }
        }
        out
    }
}

} // verus!
