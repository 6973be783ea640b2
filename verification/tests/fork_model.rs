use chain_forks::fork::ChainBlock;
use chain_forks::fork::Network;

fn ids(net: &Network, node: usize) -> Vec<u64> {
    net.chains[node].iter().map(|b| b.id).collect()
}

#[test]
fn generate_blocks_extends_the_chain() {
    let mut net = Network::new(2);
    net.generate_blocks(0, 3);
    assert_eq!(ids(&net, 0), vec![0, 1, 2]);
    assert_eq!(net.tip_number(0), 3);
    assert_eq!(net.tip_number(1), 0);
    assert_eq!(net.next_id, 3);
}

#[test]
fn exit_ibd_mode_gives_every_node_at_genesis_the_block() {
    let mut net = Network::new(3);
    net.exit_ibd_mode();
    for node in 0..3 {
        assert_eq!(ids(&net, node), vec![0]);
    }
}

#[test]
fn longer_valid_fork_is_taken() {
    let mut net = Network::new(2);
    net.generate_blocks(0, 2);
    net.generate_blocks(1, 3);
    let banned = net.sync_pair(0, 1);
    assert!(!banned);
    assert_eq!(ids(&net, 0), vec![2, 3, 4]);
    assert_eq!(ids(&net, 1), vec![2, 3, 4]);
}

#[test]
fn equal_forks_stay_apart() {
    let mut net = Network::new(2);
    net.generate_blocks(0, 2);
    net.generate_blocks(1, 2);
    net.sync_pair(0, 1);
    assert_eq!(ids(&net, 0), vec![0, 1]);
    assert_eq!(ids(&net, 1), vec![2, 3]);
}

#[test]
fn invalid_longer_fork_gets_the_peer_banned() {
    let mut net = Network::new(2);
    net.generate_blocks(0, 1);
    net.generate_blocks(1, 2);
    net.process_invalid_block(1);
    let banned = net.sync_pair(0, 1);
    assert!(banned);
    assert_eq!(ids(&net, 0), vec![1, 2]);
    assert!(net.chains[0].iter().all(|b| b.valid));
    assert_eq!(net.chains[1][2], ChainBlock { id: 3, valid: false });
}

#[test]
fn meeting_again_changes_nothing() {
    let mut net = Network::new(2);
    net.generate_blocks(1, 2);
    net.process_invalid_block(1);
    net.sync_pair(0, 1);
    let first = ids(&net, 0);
    net.sync_pair(0, 1);
    assert_eq!(ids(&net, 0), first);
}

#[test]
fn sync_all_converges_on_the_longest_chain() {
    let mut net = Network::new(3);
    net.generate_blocks(0, 1);
    net.generate_blocks(1, 4);
    net.generate_blocks(2, 2);
    let best = net.sync_all();
    assert_eq!(best, 1);
    for node in 0..3 {
        assert_eq!(ids(&net, node), vec![1, 2, 3, 4]);
    }
}

#[test]
fn receive_blocks_takes_a_prefix_of_the_sender() {
    let mut net = Network::new(2);
    net.generate_blocks(0, 1);
    net.generate_blocks(1, 5);
    net.receive_blocks(0, 1, 3);
    assert_eq!(ids(&net, 0), vec![1, 2, 3]);
    assert_eq!(ids(&net, 1), vec![1, 2, 3, 4, 5]);
    net.receive_blocks(1, 0, 3);
    assert_eq!(ids(&net, 1), vec![1, 2, 3, 4, 5]);
}
