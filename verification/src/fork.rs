//! The network as the scenarios assume it behaves: every node holds a chain of blocks on
//! top of the shared genesis, and a node that meets a peer takes the peer's chain, as far as
//! it verifies, when that part is longer than its own chain; a peer that offers more blocks
//! than verify is banned.
use vstd::prelude::*;

verus! {

/// A block of a chain: a number that tells it from every other block, and whether it
/// passes verification.
#[derive(Clone, Copy, PartialEq, Eq, Structural, Debug)]
pub struct ChainBlock {
    pub id: u64,
    pub valid: bool,
}

/// The chains of the nodes (each the blocks after genesis, the tip last) and the number the
/// next mined block gets.
pub struct Network {
    pub chains: Vec<Vec<ChainBlock>>,
    pub next_id: u64,
}

/// The part of a chain that verifies: its blocks up to the first that does not.
pub open spec fn verified_part(chain: Seq<ChainBlock>) -> Seq<ChainBlock>
    decreases chain.len(),
{
    if chain.len() == 0 || !chain[0].valid {
        Seq::empty()
    } else {
        seq![chain[0]] + verified_part(chain.drop_first())
    }
}

/// Whether every block of a chain verifies.
pub open spec fn all_valid(chain: Seq<ChainBlock>) -> bool {
    forall|i: int| 0 <= i < chain.len() ==> #[trigger] chain[i].valid
}

/// The chain a node holds after it met a peer offering `offered`: the verified part of
/// `offered` where it is longer than `own`, else `own`.
pub open spec fn adopt(own: Seq<ChainBlock>, offered: Seq<ChainBlock>) -> Seq<ChainBlock> {
    if verified_part(offered).len() > own.len() {
        verified_part(offered)
    } else {
        own
    }
}

/// Whether a node holding `own` after meeting a peer that offered `offered` bans the peer:
/// the peer offered blocks beyond what the node took, so one of them failed verification.
pub open spec fn bans(own: Seq<ChainBlock>, offered: Seq<ChainBlock>) -> bool {
    offered.len() > own.len()
}

/// The blocks `first`, `first + 1`, ... mined in a row, `count` of them, all valid.
pub open spec fn fresh_blocks(first: u64, count: nat) -> Seq<ChainBlock> {
    Seq::new(count, |i: int| ChainBlock { id: (first + i) as u64, valid: true })
}

/// Whether node `best` holds the longest verified part, and no node before it as long a one.
pub open spec fn is_best(chains: Seq<Seq<ChainBlock>>, best: int) -> bool {
    &&& 0 <= best < chains.len()
    &&& forall|i: int|
        0 <= i < chains.len() ==> verified_part(#[trigger] chains[i]).len() <= verified_part(
            chains[best],
        ).len()
    &&& forall|i: int|
        0 <= i < best ==> verified_part(#[trigger] chains[i]).len() < verified_part(
            chains[best],
        ).len()
}

proof fn lemma_verified_part_is_prefix(chain: Seq<ChainBlock>, k: int)
    requires
        0 <= k <= chain.len(),
        forall|j: int| 0 <= j < k ==> #[trigger] chain[j].valid,
        k == chain.len() || !chain[k].valid,
    ensures
        verified_part(chain) == chain.take(k),
    decreases k,
{
    if k == 0 {
        assert(chain.take(0) =~= Seq::<ChainBlock>::empty());
    } else {
        let rest = chain.drop_first();
        assert forall|j: int| 0 <= j < k - 1 implies #[trigger] rest[j].valid by {
            assert(rest[j] == chain[j + 1]);
        }
        lemma_verified_part_is_prefix(rest, k - 1);
        assert(chain.take(k) =~= seq![chain[0]] + rest.take(k - 1));
    }
}

/// The verified part of a chain is a prefix of it, and all of it verifies.
pub proof fn verified_part_is_a_valid_prefix(chain: Seq<ChainBlock>)
    ensures
        verified_part(chain).len() <= chain.len(),
        verified_part(chain) == chain.take(verified_part(chain).len() as int),
        all_valid(verified_part(chain)),
        all_valid(chain) ==> verified_part(chain) == chain,
        !all_valid(chain) ==> verified_part(chain).len() < chain.len(),
    decreases chain.len(),
{
    if chain.len() == 0 || !chain[0].valid {
        assert(chain.take(0) =~= Seq::<ChainBlock>::empty());
    } else {
        let rest = chain.drop_first();
        verified_part_is_a_valid_prefix(rest);
        let v = verified_part(chain);
        assert(v == seq![chain[0]] + verified_part(rest));
        assert(chain.take(v.len() as int) =~= seq![chain[0]] + rest.take(
            verified_part(rest).len() as int,
        ));
        assert forall|i: int| 0 <= i < v.len() implies #[trigger] v[i].valid by {
            if i > 0 {
                assert(v[i] == verified_part(rest)[i - 1]);
            }
        }
        if all_valid(chain) {
            assert forall|i: int| 0 <= i < rest.len() implies #[trigger] rest[i].valid by {
                assert(rest[i] == chain[i + 1]);
            }
            assert(chain =~= seq![chain[0]] + rest);
        }
        if !all_valid(chain) {
            if all_valid(rest) {
                let j = choose|j: int| 0 <= j < chain.len() && !#[trigger] chain[j].valid;
                assert(j > 0);
                assert(rest[j - 1] == chain[j]);
            }
        }
    }
}

impl Network {
    /// Whether the chains fit the count of mined blocks.
    pub open spec fn wf(&self) -> bool {
        forall|i: int| 0 <= i < self.chains@.len() ==> #[trigger] self.chains@[i]@.len() <= self.next_id
    }

    /// The chains as sequences.
    pub open spec fn chain_seqs(&self) -> Seq<Seq<ChainBlock>> {
        self.chains@.map_values(|c: Vec<ChainBlock>| c@)
    }

    /// A network of `num_nodes` nodes, all at genesis.
    pub fn new(num_nodes: usize) -> (r: Network)
        ensures
            r.wf(),
            r.next_id == 0,
            r.chains@.len() == num_nodes,
            forall|i: int| 0 <= i < num_nodes ==> #[trigger] r.chains@[i]@.len() == 0,
    {
        let mut chains: Vec<Vec<ChainBlock>> = Vec::new();
        let mut i: usize = 0;
        while i < num_nodes
            invariant
                i <= num_nodes,
                chains@.len() == i,
                forall|j: int| 0 <= j < i ==> #[trigger] chains@[j]@.len() == 0,
            decreases num_nodes - i,
        {
            chains.push(Vec::new());
            i = i + 1;
        }
        Network { chains, next_id: 0 }
    }

    /// The height of the tip of `node`.
    pub fn tip_number(&self, node: usize) -> (r: u64)
        requires
            self.wf(),
            node < self.chains@.len(),
        ensures
            r == self.chains@[node as int]@.len(),
    {
        self.chains[node].len() as u64
    }

    /// `node` mines `count` blocks on its tip.
    pub fn generate_blocks(&mut self, node: usize, count: u64)
        requires
            old(self).wf(),
            node < old(self).chains@.len(),
            old(self).next_id + count <= u64::MAX,
        ensures
            final(self).wf(),
            final(self).next_id == old(self).next_id + count,
            final(self).chains@.len() == old(self).chains@.len(),
            final(self).chains@[node as int]@ == old(self).chains@[node as int]@ + fresh_blocks(
                old(self).next_id,
                count as nat,
            ),
            forall|i: int|
                0 <= i < old(self).chains@.len() && i != node ==> #[trigger] final(self).chains@[i]
                    == old(self).chains@[i],
    {
        let ghost start = self.next_id;
        let ghost before = self.chains@[node as int]@;
        let mut k: u64 = 0;
        while k < count
            invariant
                k <= count,
                start + count <= u64::MAX,
                self.next_id == start + k,
                self.chains@.len() == old(self).chains@.len(),
                node < self.chains@.len(),
                self.chains@[node as int]@ == before + fresh_blocks(start, k as nat),
                forall|i: int|
                    0 <= i < old(self).chains@.len() && i != node ==> #[trigger] self.chains@[i]
                        == old(self).chains@[i],
                forall|i: int|
                    0 <= i < self.chains@.len() && i != node ==> #[trigger] self.chains@[i]@.len()
                        <= start,
                before.len() <= start,
            decreases count - k,
        {
            let id = self.next_id;
            self.chains[node].push(ChainBlock { id, valid: true });
            self.next_id = self.next_id + 1;
            k = k + 1;
            assert(self.chains@[node as int]@ =~= before + fresh_blocks(start, k as nat));
        }
    }

    /// `node` takes, without verifying it, a block on its tip that fails verification.
    pub fn process_invalid_block(&mut self, node: usize)
        requires
            old(self).wf(),
            node < old(self).chains@.len(),
            old(self).next_id < u64::MAX,
        ensures
            final(self).wf(),
            final(self).next_id == old(self).next_id + 1,
            final(self).chains@.len() == old(self).chains@.len(),
            final(self).chains@[node as int]@ == old(self).chains@[node as int]@.push(
                ChainBlock { id: old(self).next_id, valid: false },
            ),
            forall|i: int|
                0 <= i < old(self).chains@.len() && i != node ==> #[trigger] final(self).chains@[i]
                    == old(self).chains@[i],
    {
        let id = self.next_id;
        self.chains[node].push(ChainBlock { id, valid: false });
        self.next_id = self.next_id + 1;
    }

    /// The first node mines a block and every node is given it; the nodes that hold the
    /// first node's chain take it.
    pub fn exit_ibd_mode(&mut self)
        requires
            old(self).wf(),
            old(self).chains@.len() > 0,
            old(self).next_id < u64::MAX,
        ensures
            final(self).wf(),
            final(self).next_id == old(self).next_id + 1,
            final(self).chains@.len() == old(self).chains@.len(),
            forall|i: int|
                0 <= i < old(self).chains@.len() ==> #[trigger] final(self).chains@[i]@ == (if old(
                    self,
                ).chains@[i]@ == old(self).chains@[0]@ {
                    old(self).chains@[0]@.push(ChainBlock { id: old(self).next_id, valid: true })
                } else {
                    old(self).chains@[i]@
                }),
    {
        let block = ChainBlock { id: self.next_id, valid: true };
        let first_chain = self.chains[0].clone();
        let ghost first = self.chains@[0]@;
        let ghost before = self.chains@;
        assert(first_chain@ =~= first);
        let mut i: usize = 0;
        while i < self.chains.len()
            invariant
                i <= self.chains@.len(),
                self.chains@.len() == before.len(),
                self.next_id == old(self).next_id,
                before == old(self).chains@,
                first == before[0]@,
                first_chain@ == first,
                forall|j: int|
                    0 <= j < i ==> #[trigger] self.chains@[j]@ == (if before[j]@ == first {
                        first.push(block)
                    } else {
                        before[j]@
                    }),
                forall|j: int| i <= j < before.len() ==> #[trigger] self.chains@[j] == before[j],
            decreases before.len() - i,
        {
            if same_chain(&self.chains[i], &first_chain) {
                self.chains[i].push(block);
            }
            i = i + 1;
        }
        self.next_id = self.next_id + 1;
    }

    /// Whether node `best` holds the longest verified part, and no node before it as long a
    /// one.
    pub open spec fn is_best_node(&self, best: int) -> bool {
        is_best(self.chain_seqs(), best)
    }

    /// `node` and `peer` meet: each takes the other's chain as far as it verifies where that
    /// part is longer than its own chain. Returns whether `node` bans `peer`.
    pub fn sync_pair(&mut self, node: usize, peer: usize) -> (node_bans_peer: bool)
        requires
            old(self).wf(),
            node < old(self).chains@.len(),
            peer < old(self).chains@.len(),
            node != peer,
        ensures
            final(self).wf(),
            final(self).next_id == old(self).next_id,
            final(self).chains@.len() == old(self).chains@.len(),
            final(self).chains@[node as int]@ == adopt(
                old(self).chains@[node as int]@,
                old(self).chains@[peer as int]@,
            ),
            final(self).chains@[peer as int]@ == adopt(
                old(self).chains@[peer as int]@,
                old(self).chains@[node as int]@,
            ),
            forall|i: int|
                0 <= i < old(self).chains@.len() && i != node && i != peer
                    ==> #[trigger] final(self).chains@[i] == old(self).chains@[i],
            node_bans_peer == bans(final(self).chains@[node as int]@, old(self).chains@[peer as int]@),
    {
        let own = self.chains[node].clone();
        let offered = self.chains[peer].clone();
        assert(own@ =~= old(self).chains@[node as int]@);
        assert(offered@ =~= old(self).chains@[peer as int]@);
        let from_peer = verified_prefix(&offered);
        let from_node = verified_prefix(&own);
        proof {
            verified_part_is_a_valid_prefix(own@);
            verified_part_is_a_valid_prefix(offered@);
        }
        if from_peer.len() > own.len() {
            self.chains[node] = from_peer;
        }
        if from_node.len() > offered.len() {
            self.chains[peer] = from_node;
        }
        offered.len() > self.chains[node].len()
    }

    /// Every node meets the node with the longest verified part (the first such node), and
    /// takes its chain as far as it verifies where that part is longer than its own chain.
    /// Returns that node.
    pub fn sync_all(&mut self) -> (best: usize)
        requires
            old(self).wf(),
            old(self).chains@.len() > 0,
        ensures
            final(self).wf(),
            final(self).next_id == old(self).next_id,
            final(self).chains@.len() == old(self).chains@.len(),
            old(self).is_best_node(best as int),
            forall|i: int|
                0 <= i < old(self).chains@.len() ==> #[trigger] final(self).chains@[i]@ == adopt(
                    old(self).chains@[i]@,
                    old(self).chains@[best as int]@,
                ),
    {
        let ghost before = self.chain_seqs();
        assert forall|i: int| 0 <= i < self.chains@.len() implies #[trigger] before[i]
            == self.chains@[i]@ by {}
        let mut best: usize = 0;
        let mut best_len: usize = verified_prefix(&self.chains[0]).len();
        let mut i: usize = 1;
        while i < self.chains.len()
            invariant
                1 <= i <= self.chains@.len(),
                self.chains@ == old(self).chains@,
                before == old(self).chain_seqs(),
                best < i,
                best_len == verified_part(before[best as int]).len(),
                forall|j: int|
                    0 <= j < i ==> verified_part(#[trigger] before[j]).len() <= best_len,
                forall|j: int| 0 <= j < best ==> verified_part(#[trigger] before[j]).len() < best_len,
            decreases self.chains@.len() - i,
        {
            let len = verified_prefix(&self.chains[i]).len();
            if len > best_len {
                best = i;
                best_len = len;
            }
            i = i + 1;
        }
        let offered = verified_prefix(&self.chains[best]);
        proof {
            verified_part_is_a_valid_prefix(before[best as int]);
        }
        let mut k: usize = 0;
        while k < self.chains.len()
            invariant
                k <= self.chains@.len(),
                self.chains@.len() == old(self).chains@.len(),
                self.next_id == old(self).next_id,
                old(self).wf(),
                before == old(self).chain_seqs(),
                offered@ == verified_part(before[best as int]),
                best < self.chains@.len(),
                verified_part(before[best as int]).len() <= before[best as int].len(),
                forall|j: int|
                    0 <= j < k ==> #[trigger] self.chains@[j]@ == adopt(before[j], before[best as int]),
                forall|j: int| k <= j < self.chains@.len() ==> #[trigger] self.chains@[j] == old(self).chains@[j],
            decreases self.chains@.len() - k,
        {
            if offered.len() > self.chains[k].len() {
                self.chains[k] = offered.clone();
                assert(self.chains@[k as int]@ =~= offered@);
            }
            k = k + 1;
        }
        assert forall|j: int| 0 <= j < self.chains@.len() implies #[trigger] self.chains@[j]@.len()
            <= self.next_id by {
            verified_part_is_a_valid_prefix(before[j]);
        }
        best
    }


    /// `node` is given the blocks of `from` up to height `number`, and takes them as far as
    /// they verify where that part is longer than its own chain.
    pub fn receive_blocks(&mut self, node: usize, from: usize, number: u64)
        requires
            old(self).wf(),
            node < old(self).chains@.len(),
            from < old(self).chains@.len(),
            number <= old(self).chains@[from as int]@.len(),
        ensures
            final(self).wf(),
            final(self).next_id == old(self).next_id,
            final(self).chains@.len() == old(self).chains@.len(),
            final(self).chains@[node as int]@ == adopt(
                old(self).chains@[node as int]@,
                old(self).chains@[from as int]@.take(number as int),
            ),
            forall|i: int|
                0 <= i < old(self).chains@.len() && i != node ==> #[trigger] final(self).chains@[i]
                    == old(self).chains@[i],
    {
        let mut given: Vec<ChainBlock> = Vec::new();
        let mut i: usize = 0;
        let from_len = self.chains[from].len();
        assert(number <= from_len);
        let n = number as usize;
        while i < n
            invariant
                i <= n,
                n == number,
                n <= self.chains@[from as int]@.len(),
                from < self.chains@.len(),
                given@ == self.chains@[from as int]@.take(i as int),
            decreases n - i,
        {
            given.push(self.chains[from][i]);
            i = i + 1;
            assert(given@ =~= self.chains@[from as int]@.take(i as int));
        }
        let taken = verified_prefix(&given);
        proof {
            verified_part_is_a_valid_prefix(given@);
        }
        if taken.len() > self.chains[node].len() {
            self.chains[node] = taken;
        }
    }

}

/// Whether two chains hold the same blocks.
fn same_chain(a: &Vec<ChainBlock>, b: &Vec<ChainBlock>) -> (r: bool)
    ensures
        r == (a@ == b@),
{
    if a.len() != b.len() {
        return false;
    }
    let mut i: usize = 0;
    while i < a.len()
        invariant
            i <= a@.len(),
            a@.len() == b@.len(),
            forall|j: int| 0 <= j < i ==> a@[j] == b@[j],
        decreases a@.len() - i,
    {
        if a[i] != b[i] {
            return false;
        }
        i = i + 1;
    }
    assert(a@ =~= b@);
    true
}


/// The verified part of a chain.
fn verified_prefix(chain: &Vec<ChainBlock>) -> (r: Vec<ChainBlock>)
    ensures
        r@ == verified_part(chain@),
{
    let mut k: usize = 0;
    while k < chain.len() && chain[k].valid
        invariant
            k <= chain@.len(),
            forall|j: int| 0 <= j < k ==> #[trigger] chain@[j].valid,
        decreases chain@.len() - k,
    {
        k = k + 1;
    }
    proof {
        lemma_verified_part_is_prefix(chain@, k as int);
    }
    let mut r: Vec<ChainBlock> = Vec::new();
    let mut i: usize = 0;
    while i < k
        invariant
            i <= k <= chain@.len(),
            r@ == chain@.take(i as int),
        decreases k - i,
    {
        r.push(chain[i]);
        i = i + 1;
        assert(r@ =~= chain@.take(i as int));
    }
    r
}


/// A node whose chain verifies keeps a chain that verifies, whatever a peer offers: no block
/// that fails verification is ever taken from a peer.
pub proof fn honest_nodes_never_take_invalid_blocks(own: Seq<ChainBlock>, offered: Seq<ChainBlock>)
    requires
        all_valid(own),
    ensures
        all_valid(adopt(own, offered)),
{
    verified_part_is_a_valid_prefix(offered);
}

/// Meeting a peer never lowers a node's tip.
pub proof fn tips_never_fall(own: Seq<ChainBlock>, offered: Seq<ChainBlock>)
    ensures
        adopt(own, offered).len() >= own.len(),
{
}

/// A node takes a longer fork that verifies as it is: nodes on different forks converge on
/// the longer one.
pub proof fn longer_valid_fork_is_taken(own: Seq<ChainBlock>, offered: Seq<ChainBlock>)
    requires
        all_valid(offered),
        offered.len() > own.len(),
    ensures
        adopt(own, offered) == offered,
{
    verified_part_is_a_valid_prefix(offered);
}

/// A peer offering a fork longer than the node's chain, with a block in it that fails
/// verification, is banned.
pub proof fn longer_invalid_fork_gets_peer_banned(own: Seq<ChainBlock>, offered: Seq<ChainBlock>)
    requires
        !all_valid(offered),
        offered.len() > own.len(),
    ensures
        bans(adopt(own, offered), offered),
{
    verified_part_is_a_valid_prefix(offered);
}

/// A peer whose chain verifies is never banned.
pub proof fn valid_peers_are_not_banned(own: Seq<ChainBlock>, offered: Seq<ChainBlock>)
    requires
        all_valid(offered),
    ensures
        !bans(adopt(own, offered), offered),
{
    verified_part_is_a_valid_prefix(offered);
}

/// Meeting the same peer again changes nothing.
pub proof fn meeting_again_changes_nothing(own: Seq<ChainBlock>, offered: Seq<ChainBlock>)
    ensures
        adopt(adopt(own, offered), offered) == adopt(own, offered),
{
}

/// After every node met the node with the longest verified part, on chains that all verify,
/// every tip is at that node's height, and every node that was lower holds that node's chain.
pub proof fn sync_all_converges(chains: Seq<Seq<ChainBlock>>, best: int)
    requires
        is_best(chains, best),
        forall|i: int| 0 <= i < chains.len() ==> all_valid(#[trigger] chains[i]),
    ensures
        forall|i: int|
            0 <= i < chains.len() ==> #[trigger] adopt(chains[i], chains[best]).len()
                == chains[best].len(),
        forall|i: int|
            0 <= i < chains.len() && chains[i].len() < chains[best].len() ==> #[trigger] adopt(
                chains[i],
                chains[best],
            ) == chains[best],
{
    assert forall|i: int| 0 <= i < chains.len() implies #[trigger] adopt(chains[i], chains[best]).len()
        == chains[best].len() by {
        verified_part_is_a_valid_prefix(chains[i]);
        verified_part_is_a_valid_prefix(chains[best]);
    }
    assert forall|i: int| 0 <= i < chains.len() && chains[i].len() < chains[best].len() implies #[trigger] adopt(
        chains[i],
        chains[best],
    ) == chains[best] by {
        verified_part_is_a_valid_prefix(chains[best]);
    }
}

} // verus!
