//! The client registry: the set of open client connections shared by the
//! listeners and the broadcast loop, and the decisions that start and stop
//! that loop.
//!
//! The registry does no I/O itself. The broadcast loop writes a line to each
//! connection, hands the per-client outcomes to [`ClientSet::complete_pass`],
//! and stops when that call reports that no client is left.
use vstd::prelude::*;

verus! {

/// The transport a client is connected over.
#[derive(Clone, Copy, Debug, PartialEq, Eq, Structural)]
pub enum Transport {
    /// A TCP connection.
    Network,
    /// A connection over a local (Unix domain) socket.
    Local,
}

/// What writing one line to a client reported.
#[derive(Clone, Copy, Debug, PartialEq, Eq, Structural)]
pub enum WriteOutcome {
    /// The write accepted this many bytes.
    Written(usize),
    /// The write failed.
    Failed,
}

impl WriteOutcome {
    /// A write that accepted at least one byte; zero bytes means the peer has
    /// closed the connection.
    pub open spec fn delivered(self) -> bool {
        match self {
            WriteOutcome::Written(n) => n > 0,
            WriteOutcome::Failed => false,
        }
    }

    /// Whether the client that reported this outcome stays registered.
    pub fn is_delivered(&self) -> (r: bool)
        ensures
            r == self.delivered(),
    {
        match self {
            WriteOutcome::Written(n) => *n > 0,
            WriteOutcome::Failed => false,
        }
    }
}

/// A registered receiver of the relayed lines.
pub struct Client<C> {
    pub conn: C,
    pub transport: Transport,
}

/// A registered client together with what the registry knows of its history.
pub struct Member<C> {
    pub client: Client<C>,
    /// The lines whose write to this client succeeded, in order.
    pub received: Seq<Seq<u8>>,
    /// How many lines had been broadcast when the client was registered.
    pub joined: nat,
}

/// The abstract state of a [`ClientSet`].
pub struct RegistryModel<C> {
    /// The registered clients, in order of registration.
    pub members: Seq<Member<C>>,
    /// Every line broadcast so far, in the order the source produced them.
    pub produced: Seq<Seq<u8>>,
    /// Whether a broadcast loop is running.
    pub running: bool,
}

/// The elements of `s` whose outcome (same index in `o`) is a delivery.
pub open spec fn kept<T>(s: Seq<T>, o: Seq<WriteOutcome>) -> Seq<T>
    decreases s.len(),
{
    if s.len() == 0 {
        Seq::empty()
    } else if o[0].delivered() {
        seq![s[0]] + kept(s.drop_first(), o.drop_first())
    } else {
        kept(s.drop_first(), o.drop_first())
    }
}

/// `m` after the line was written to it successfully.
pub open spec fn with_line<C>(m: Member<C>, line: Seq<u8>) -> Member<C> {
    Member { client: m.client, received: m.received.push(line), joined: m.joined }
}

/// Every member after the line was written to it successfully.
pub open spec fn all_with_line<C>(members: Seq<Member<C>>, line: Seq<u8>) -> Seq<Member<C>> {
    members.map_values(|m: Member<C>| with_line(m, line))
}

impl<C> RegistryModel<C> {
    /// A broadcast loop runs exactly while some client is registered, and each
    /// client has been handed exactly the lines produced since it joined.
    pub open spec fn wf(self) -> bool {
        &&& self.running == (self.members.len() > 0)
        &&& forall|i: int|
            0 <= i < self.members.len() ==> {
                &&& #[trigger] self.members[i].joined <= self.produced.len()
                &&& self.members[i].received == self.produced.subrange(
                    self.members[i].joined as int,
                    self.produced.len() as int,
                )
            }
    }

    /// Whether registering a client in this state must start a broadcast loop.
    pub open spec fn starts_worker(self) -> bool {
        !self.running
    }

    /// The state after registering `c`.
    pub open spec fn insert(self, c: Client<C>) -> RegistryModel<C> {
        RegistryModel {
            members: self.members.push(Member { client: c, received: Seq::empty(), joined: self.produced.len() }),
            produced: self.produced,
            running: true,
        }
    }

    /// The state after one broadcast pass of `line`, where `o[i]` is what the
    /// write to the `i`-th client reported.
    pub open spec fn pass(self, line: Seq<u8>, o: Seq<WriteOutcome>) -> RegistryModel<C> {
        let members = kept(all_with_line(self.members, line), o);
        RegistryModel { members, produced: self.produced.push(line), running: members.len() > 0 }
    }
}

/// The open client connections, shared by the listeners and the broadcast loop.
pub struct ClientSet<C> {
    clients: Vec<Client<C>>,
    running: bool,
    members: Ghost<Seq<Member<C>>>,
    produced: Ghost<Seq<Seq<u8>>>,
}

impl<C> View for ClientSet<C> {
    type V = RegistryModel<C>;

    closed spec fn view(&self) -> RegistryModel<C> {
        RegistryModel { members: self.members@, produced: self.produced@, running: self.running }
    }
}

proof fn lemma_kept_step<T>(s: Seq<T>, o: Seq<WriteOutcome>, i: int)
    requires
        0 <= i < s.len(),
        s.len() == o.len(),
    ensures
        kept(s.subrange(i, s.len() as int), o.subrange(i, o.len() as int)) == if o[i].delivered() {
            seq![s[i]] + kept(s.subrange(i + 1, s.len() as int), o.subrange(i + 1, o.len() as int))
        } else {
            kept(s.subrange(i + 1, s.len() as int), o.subrange(i + 1, o.len() as int))
        },
{
    assert(s.subrange(i, s.len() as int).drop_first() =~= s.subrange(i + 1, s.len() as int));
    assert(o.subrange(i, o.len() as int).drop_first() =~= o.subrange(i + 1, o.len() as int));
}

proof fn lemma_kept_from<T>(s: Seq<T>, o: Seq<WriteOutcome>)
    requires
        s.len() == o.len(),
    ensures
        kept(s, o).len() <= s.len(),
        forall|j: int| 0 <= j < kept(s, o).len() ==> s.contains(#[trigger] kept(s, o)[j]),
    decreases s.len(),
{
    if s.len() > 0 {
        lemma_kept_from(s.drop_first(), o.drop_first());
        let rest = kept(s.drop_first(), o.drop_first());
        assert forall|j: int| 0 <= j < rest.len() implies s.contains(#[trigger] rest[j]) by {
            let k = choose|k: int| 0 <= k < s.drop_first().len() && s.drop_first()[k] == rest[j];
            assert(s[k + 1] == rest[j]);
        }
        if o[0].delivered() {
            assert forall|j: int| 0 <= j < kept(s, o).len() implies s.contains(
                #[trigger] kept(s, o)[j],
            ) by {
                if j == 0 {
                    assert(s[0] == kept(s, o)[j]);
                } else {
                    assert(kept(s, o)[j] == rest[j - 1]);
                }
            }
        }
    }
}

impl<C> ClientSet<C> {
    /// The registry's internal consistency, which every operation keeps.
    pub closed spec fn wf(&self) -> bool {
        &&& self@.wf()
        &&& self.clients@.len() == self.members@.len()
        &&& forall|i: int|
            0 <= i < self.clients@.len() ==> #[trigger] self.clients@[i] == self.members@[i].client
    }

    /// An empty registry, with no broadcast loop running.
    pub fn new() -> (s: Self)
        ensures
            s.wf(),
            s@.wf(),
            s@.members.len() == 0,
            s@.produced.len() == 0,
            !s@.running,
    {
        ClientSet {
            clients: Vec::new(),
            running: false,
            members: Ghost(Seq::empty()),
            produced: Ghost(Seq::empty()),
        }
    }

    /// The number of registered clients.
    pub fn len(&self) -> (n: usize)
        requires
            self.wf(),
        ensures
            n == self@.members.len(),
    {
        self.clients.len()
    }

    /// Whether no client is registered.
    pub fn is_empty(&self) -> (r: bool)
        requires
            self.wf(),
        ensures
            r == (self@.members.len() == 0),
    {
        self.clients.len() == 0
    }

    /// The `i`-th registered client.
    pub fn client(&self, i: usize) -> (c: &Client<C>)
        requires
            self.wf(),
            i < self@.members.len(),
        ensures
            *c == self@.members[i as int].client,
    {
        &self.clients[i]
    }

    /// Registers a newly accepted connection. The result says whether the
    /// caller must start a broadcast loop: it is `true` exactly when no loop
    /// was running, which is when the registry was empty. The check and the
    /// insertion happen in one step, so one loop is started per refill.
    pub fn insert(&mut self, conn: C, transport: Transport) -> (start_worker: bool)
        requires
            old(self).wf(),
        ensures
            final(self).wf(),
            final(self)@.wf(),
            final(self)@ == old(self)@.insert(Client { conn, transport }),
            start_worker == old(self)@.starts_worker(),
            start_worker == (old(self)@.members.len() == 0),
    {
        let start_worker = !self.running;
        let ghost c = Client { conn, transport };
        let ghost before = self@;
        self.clients.push(Client { conn, transport });
        self.members = Ghost(before.insert(c).members);
        self.running = true;
        proof {
            lemma_insert_wf(before, c);
        }
        start_worker
    }

    /// Ends a broadcast pass of `line`: `outcomes[i]` is what writing the line
    /// to the `i`-th client reported. Every client whose write failed or
    /// accepted no bytes is removed, in descending index order; the others stay,
    /// in order. The result says whether the broadcast loop goes on, which is
    /// whether any client is left.
    pub fn complete_pass(&mut self, line: &[u8], outcomes: &Vec<WriteOutcome>) -> (keep_running:
        bool)
        requires
            old(self).wf(),
            outcomes@.len() == old(self)@.members.len(),
        ensures
            final(self).wf(),
            final(self)@.wf(),
            final(self)@ == old(self)@.pass(line@, outcomes@),
            keep_running == final(self)@.running,
            keep_running == (final(self)@.members.len() > 0),
    {
        let ghost old_model = self@;
        let ghost pre = all_with_line(self.members@, line@);
        let ghost n = pre.len() as int;
        let ghost o = outcomes@;
        let ghost old_clients = self.clients@;
        self.members = Ghost(pre);
        proof {
            assert(pre.subrange(0, n) + kept(pre.subrange(n, n), o.subrange(n, n)) =~= pre);
        }
        let mut i = self.clients.len();
        while i > 0
            invariant
                0 <= i <= n,
                n == old_clients.len(),
                n == o.len(),
                pre.len() == n,
                forall|k: int| 0 <= k < n ==> #[trigger] pre[k].client == old_clients[k],
                self.members@ == pre.subrange(0, i as int) + kept(
                    pre.subrange(i as int, n),
                    o.subrange(i as int, n),
                ),
                self.clients@.len() == self.members@.len(),
                forall|k: int|
                    0 <= k < self.clients@.len() ==> #[trigger] self.clients@[k]
                        == self.members@[k].client,
                outcomes@ == o,
                self.produced@ == old_model.produced,
            decreases i,
        {
            let k = i - 1;
            proof {
                lemma_kept_step(pre, o, k as int);
                assert(pre.subrange(0, i as int) =~= pre.subrange(0, k as int).push(pre[k as int]));
            }
            if !outcomes[k].is_delivered() {
                let ghost before = self.members@;
                self.clients.remove(k);
                self.members = Ghost(before.remove(k as int));
                proof {
                    assert(self.members@ =~= pre.subrange(0, k as int) + kept(
                        pre.subrange(i as int, n),
                        o.subrange(i as int, n),
                    ));
                }
            } else {
                proof {
                    assert(self.members@ =~= pre.subrange(0, k as int) + kept(
                        pre.subrange(k as int, n),
                        o.subrange(k as int, n),
                    ));
                }
            }
            i = k;
        }
        proof {
            assert(pre.subrange(0, 0) + kept(pre.subrange(0, n), o.subrange(0, n)) =~= kept(pre, o))
                by {
                assert(pre.subrange(0, n) =~= pre);
                assert(o.subrange(0, n) =~= o);
            }
        }
        self.produced = Ghost(self.produced@.push(line@));
        self.running = self.clients.len() > 0;
        proof {
            lemma_pass_wf(old_model, line@, o);
        }
        self.running
    }
}

/// The registry's consistency survives a broadcast pass.
proof fn lemma_pass_wf<C>(m: RegistryModel<C>, line: Seq<u8>, o: Seq<WriteOutcome>)
    requires
        m.wf(),
        o.len() == m.members.len(),
    ensures
        m.pass(line, o).wf(),
{
    let pre = all_with_line(m.members, line);
    let after = m.pass(line, o);
    lemma_kept_from(pre, o);
    assert forall|j: int| 0 <= j < after.members.len() implies {
        &&& #[trigger] after.members[j].joined <= after.produced.len()
        &&& after.members[j].received == after.produced.subrange(
            after.members[j].joined as int,
            after.produced.len() as int,
        )
    } by {
        let k = choose|k: int| 0 <= k < pre.len() && pre[k] == after.members[j];
        let mk = m.members[k];
        assert(mk.joined <= m.produced.len());
        assert(m.produced.push(line).subrange(mk.joined as int, m.produced.len() as int + 1) =~= m.produced.subrange(
            mk.joined as int,
            m.produced.len() as int,
        ).push(line));
    }
}

proof fn lemma_kept_all<T>(s: Seq<T>, o: Seq<WriteOutcome>)
    requires
        s.len() == o.len(),
        forall|j: int| 0 <= j < o.len() ==> #[trigger] o[j].delivered(),
    ensures
        kept(s, o) == s,
    decreases s.len(),
{
    if s.len() > 0 {
        assert(o[0].delivered());
        assert forall|j: int| 0 <= j < o.drop_first().len() implies #[trigger] o.drop_first()[j].delivered() by {
            assert(o.drop_first()[j] == o[j + 1]);
        }
        lemma_kept_all(s.drop_first(), o.drop_first());
        assert(seq![s[0]] + s.drop_first() =~= s);
    }
}

proof fn lemma_kept_none<T>(s: Seq<T>, o: Seq<WriteOutcome>)
    requires
        s.len() == o.len(),
        forall|j: int| 0 <= j < o.len() ==> !#[trigger] o[j].delivered(),
    ensures
        kept(s, o).len() == 0,
    decreases s.len(),
{
    if s.len() > 0 {
        assert(!o[0].delivered());
        assert forall|j: int| 0 <= j < o.drop_first().len() implies !#[trigger] o.drop_first()[j].delivered() by {
            assert(o.drop_first()[j] == o[j + 1]);
        }
        lemma_kept_none(s.drop_first(), o.drop_first());
    }
}

proof fn lemma_kept_all_but<T>(s: Seq<T>, o: Seq<WriteOutcome>, i: int)
    requires
        s.len() == o.len(),
        0 <= i < s.len(),
        !o[i].delivered(),
        forall|j: int| 0 <= j < o.len() && j != i ==> #[trigger] o[j].delivered(),
    ensures
        kept(s, o) == s.remove(i),
    decreases s.len(),
{
    assert forall|j: int| 0 <= j < o.drop_first().len() && j != i - 1 implies #[trigger] o.drop_first()[j].delivered() by {
        assert(o.drop_first()[j] == o[j + 1]);
    }
    if i == 0 {
        lemma_kept_all(s.drop_first(), o.drop_first());
        assert(s.remove(0) =~= s.drop_first());
    } else {
        assert(o.drop_first()[i - 1] == o[i]);
        lemma_kept_all_but(s.drop_first(), o.drop_first(), i - 1);
        assert(seq![s[0]] + s.drop_first().remove(i - 1) =~= s.remove(i));
    }
}

proof fn lemma_insert_wf<C>(m: RegistryModel<C>, c: Client<C>)
    requires
        m.wf(),
    ensures
        m.insert(c).wf(),
{
    assert(m.produced.subrange(m.produced.len() as int, m.produced.len() as int) =~= Seq::<
        Seq<u8>,
    >::empty());
    let after = m.insert(c);
    assert forall|i: int| 0 <= i < after.members.len() implies {
        &&& #[trigger] after.members[i].joined <= after.produced.len()
        &&& after.members[i].received == after.produced.subrange(
            after.members[i].joined as int,
            after.produced.len() as int,
        )
    } by {
        if i < m.members.len() {
            assert(after.members[i] == m.members[i]);
        }
    }
}

/// Lines reach every registered client in the order the source produced them,
/// each exactly once: a client has always been handed exactly the lines
/// broadcast since it registered, registering a client and running a pass keep
/// that so, and after a pass every client left has received that pass's line
/// as its latest, appended to what it held before.
pub proof fn lemma_delivery_in_order<C>(
    m: RegistryModel<C>,
    c: Client<C>,
    line: Seq<u8>,
    o: Seq<WriteOutcome>,
)
    requires
        m.wf(),
        o.len() == m.members.len(),
    ensures
        m.insert(c).wf(),
        m.pass(line, o).wf(),
        forall|j: int|
            0 <= j < m.pass(line, o).members.len() ==> exists|k: int|
                0 <= k < m.members.len() && #[trigger] m.pass(line, o).members[j] == with_line(
                    m.members[k],
                    line,
                ),
{
    lemma_insert_wf(m, c);
    lemma_pass_wf(m, line, o);
    let pre = all_with_line(m.members, line);
    lemma_kept_from(pre, o);
    assert forall|j: int| 0 <= j < m.pass(line, o).members.len() implies exists|k: int|
        0 <= k < m.members.len() && #[trigger] m.pass(line, o).members[j] == with_line(
            m.members[k],
            line,
        ) by {
        let k = choose|k: int| 0 <= k < pre.len() && pre[k] == m.pass(line, o).members[j];
        assert(pre[k] == with_line(m.members[k], line));
    }
}

/// A client whose peer closed the connection (its write accepted no bytes or
/// failed) is gone after that one pass, and every other client received the
/// line and stays, in its place.
pub proof fn lemma_closed_peer_removed<C>(
    m: RegistryModel<C>,
    line: Seq<u8>,
    o: Seq<WriteOutcome>,
    i: int,
)
    requires
        m.wf(),
        o.len() == m.members.len(),
        0 <= i < o.len(),
        !o[i].delivered(),
        forall|j: int| 0 <= j < o.len() && j != i ==> #[trigger] o[j].delivered(),
    ensures
        m.pass(line, o).members == all_with_line(m.members, line).remove(i),
        m.pass(line, o).members.len() == m.members.len() - 1,
{
    lemma_kept_all_but(all_with_line(m.members, line), o, i);
}

/// One broadcast loop per refill: registering a client starts a loop exactly
/// when the registry was empty, and once a client is registered a further
/// registration starts none.
pub proof fn lemma_one_worker_per_refill<C>(m: RegistryModel<C>, a: Client<C>, b: Client<C>)
    requires
        m.wf(),
    ensures
        m.starts_worker() <==> m.members.len() == 0,
        !m.insert(a).starts_worker(),
        !m.insert(a).insert(b).starts_worker(),
        m.insert(a).insert(b).running,
{
}

/// When a pass leaves no client, the broadcast loop ends, and the next
/// registration starts a fresh one.
pub proof fn lemma_worker_restarts<C>(
    m: RegistryModel<C>,
    line: Seq<u8>,
    o: Seq<WriteOutcome>,
    c: Client<C>,
)
    requires
        m.wf(),
        o.len() == m.members.len(),
        forall|j: int| 0 <= j < o.len() ==> !#[trigger] o[j].delivered(),
    ensures
        m.pass(line, o).members.len() == 0,
        !m.pass(line, o).running,
        m.pass(line, o).starts_worker(),
        m.pass(line, o).insert(c).running,
        m.pass(line, o).insert(c).members.len() == 1,
{
    lemma_kept_none(all_with_line(m.members, line), o);
}

/// `x` is the element of `s` at some index whose outcome in `o` is a delivery.
pub open spec fn delivered_at<T>(s: Seq<T>, o: Seq<WriteOutcome>, x: T) -> bool {
    exists|j: int| 0 <= j < s.len() && #[trigger] o[j].delivered() && s[j] == x
}

proof fn lemma_kept_exactly<T>(s: Seq<T>, o: Seq<WriteOutcome>)
    requires
        s.len() == o.len(),
    ensures
        forall|k: int| 0 <= k < kept(s, o).len() ==> delivered_at(s, o, #[trigger] kept(s, o)[k]),
        forall|j: int| 0 <= j < s.len() && #[trigger] o[j].delivered() ==> kept(s, o).contains(s[j]),
    decreases s.len(),
{
    if s.len() > 0 {
        let s1 = s.drop_first();
        let o1 = o.drop_first();
        lemma_kept_exactly(s1, o1);
        let rest = kept(s1, o1);
        let all = kept(s, o);
        assert(all == if o[0].delivered() { seq![s[0]] + rest } else { rest });
        assert forall|k: int| 0 <= k < all.len() implies delivered_at(s, o, #[trigger] all[k]) by {
            if o[0].delivered() && k == 0 {
                assert(all[k] == s[0]);
                assert(o[0].delivered() && s[0] == all[k]);
            } else {
                let kk = if o[0].delivered() { k - 1 } else { k };
                assert(all[k] == rest[kk]);
                assert(delivered_at(s1, o1, rest[kk]));
                let j1 = choose|j: int| 0 <= j < s1.len() && #[trigger] o1[j].delivered() && s1[j] == rest[kk];
                assert(s[j1 + 1] == s1[j1] && o[j1 + 1] == o1[j1]);
                assert(o[j1 + 1].delivered() && s[j1 + 1] == all[k]);
            }
        }
        assert forall|j: int| 0 <= j < s.len() && #[trigger] o[j].delivered() implies all.contains(
            s[j],
        ) by {
            if j == 0 {
                assert(all[0] == s[0]);
            } else {
                assert(s1[j - 1] == s[j] && o1[j - 1] == o[j]);
                assert(rest.contains(s1[j - 1]));
                let k = choose|k: int| 0 <= k < rest.len() && rest[k] == s1[j - 1];
                if o[0].delivered() {
                    assert(all[k + 1] == rest[k]);
                } else {
                    assert(all[k] == rest[k]);
                }
            }
        }
    }
}

/// A broadcast pass keeps exactly the clients whose write delivered, whatever
/// the number of failures: every client left is one whose write of the line
/// succeeded, now holding that line, and every such client is left. A client
/// whose write failed or accepted no bytes is gone after the pass, so it is
/// never written to again, and the failure changes nothing for the others.
pub proof fn lemma_pass_keeps_delivered<C>(m: RegistryModel<C>, line: Seq<u8>, o: Seq<WriteOutcome>)
    requires
        o.len() == m.members.len(),
    ensures
        forall|k: int|
            0 <= k < m.pass(line, o).members.len() ==> delivered_at(
                all_with_line(m.members, line),
                o,
                #[trigger] m.pass(line, o).members[k],
            ),
        forall|j: int|
            0 <= j < m.members.len() && #[trigger] o[j].delivered() ==> m.pass(
                line,
                o,
            ).members.contains(with_line(m.members[j], line)),
{
    let pre = all_with_line(m.members, line);
    lemma_kept_exactly(pre, o);
    assert forall|j: int| 0 <= j < m.members.len() && #[trigger] o[j].delivered() implies m.pass(
        line,
        o,
    ).members.contains(with_line(m.members[j], line)) by {
        assert(pre[j] == with_line(m.members[j], line));
    }
}

/// Clients registered at the same point (before the same line) have received
/// identical lines: the same ones, in the same order.
pub proof fn lemma_same_join_same_lines<C>(m: RegistryModel<C>, i: int, j: int)
    requires
        m.wf(),
        0 <= i < m.members.len(),
        0 <= j < m.members.len(),
        m.members[i].joined == m.members[j].joined,
    ensures
        m.members[i].received == m.members[j].received,
{
}

} // verus!
