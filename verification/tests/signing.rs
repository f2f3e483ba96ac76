use std::collections::BTreeMap;

use frost_ed25519 as frost;
use raft_frost::ids::{cluster_peers, BASE_PORT, LOOPBACK_IP};
use raft_frost::node::Node;
use raft_frost::signing::{signing_result, signing_threshold, FrostError};
use raft_frost::types::{Address, NodeConfig};

const MESSAGE: &[u8] = b"Test message for distributed signing";

fn make_node(i: u16, count: u16) -> Node {
    let config = NodeConfig { id: i as u64 + 1, election_timeout: 1000, heartbeat_interval: 1000 };
    Node::new(config, Address { ip: LOOPBACK_IP, port: BASE_PORT + i }, cluster_peers(count, i))
}

struct Cluster {
    nodes: Vec<Node>,
    public_key_package: Vec<u8>,
    min_signers: u16,
}

fn cluster(count: u16) -> Cluster {
    let mut rng = rand::thread_rng();
    let min_signers = signing_threshold(count);
    let (shares, pubkeys) =
        frost::keys::generate_with_dealer(count, min_signers, frost::keys::IdentifierList::Default, &mut rng)
            .unwrap();
    let mut nodes = Vec::new();
    for (i, (_id, share)) in shares.iter().enumerate() {
        let mut node = make_node(i as u16, count);
        node.set_frost_key(Some(share.serialize().unwrap()));
        nodes.push(node);
    }
    Cluster { nodes, public_key_package: pubkeys.serialize().unwrap(), min_signers }
}

/// Round one for the first `signers` nodes: their nonces and the signing package.
fn round_one(c: &Cluster, signers: usize) -> (Vec<Vec<u8>>, Vec<u8>) {
    let mut rng = rand::thread_rng();
    let mut nonces = Vec::new();
    let mut commitments = BTreeMap::new();
    for node in c.nodes.iter().take(signers) {
        let share = frost::keys::SecretShare::deserialize(node.frost_key.as_ref().unwrap()).unwrap();
        let key_package = frost::keys::KeyPackage::try_from(share).unwrap();
        let (n, commitment) = frost::round1::commit(key_package.signing_share(), &mut rng);
        nonces.push(n.serialize().unwrap());
        commitments.insert(*key_package.identifier(), commitment);
    }
    let package = frost::SigningPackage::new(commitments, MESSAGE);
    (nonces, package.serialize().unwrap())
}

fn aggregate(c: &Cluster, signers: usize) -> Vec<u8> {
    let (nonces, package_bytes) = round_one(c, signers);
    let mut shares = BTreeMap::new();
    for (node, n) in c.nodes.iter().take(signers).zip(nonces.iter()) {
        let share_bytes = node.sign_message(MESSAGE, n, &package_bytes).unwrap();
        let share = frost::round2::SignatureShare::deserialize(&share_bytes).unwrap();
        let key_share = frost::keys::SecretShare::deserialize(node.frost_key.as_ref().unwrap()).unwrap();
        shares.insert(*key_share.identifier(), share);
    }
    let package = frost::SigningPackage::deserialize(&package_bytes).unwrap();
    let pubkeys = frost::keys::PublicKeyPackage::deserialize(&c.public_key_package).unwrap();
    frost::aggregate(&package, &shares, &pubkeys).unwrap().serialize().unwrap()
}

#[test]
fn threshold_signature_verifies_at_every_node() {
    let c = cluster(7);
    assert_eq!(c.min_signers, 4);
    let signature = aggregate(&c, c.min_signers as usize);
    for node in &c.nodes {
        assert!(node.verify_signature(MESSAGE, &signature, &c.public_key_package));
    }
}

#[test]
fn signature_of_another_message_is_rejected() {
    let c = cluster(5);
    let signature = aggregate(&c, 3);
    assert!(!c.nodes[0].verify_signature(b"another message", &signature, &c.public_key_package));
    let mut tampered = signature.clone();
    tampered[40] ^= 1;
    assert!(!c.nodes[0].verify_signature(MESSAGE, &tampered, &c.public_key_package));
}

#[test]
fn garbage_signature_or_key_is_rejected() {
    let c = cluster(3);
    let signature = aggregate(&c, 2);
    assert!(!c.nodes[1].verify_signature(MESSAGE, &[1, 2, 3], &c.public_key_package));
    assert!(!c.nodes[1].verify_signature(MESSAGE, &signature, &[0u8; 5]));
}

fn frost_error(e: frost::Error) -> FrostError {
    FrostError { description: format!("{:?}", e) }
}

#[test]
fn node_without_key_cannot_sign() {
    let c = cluster(3);
    let (nonces, package) = round_one(&c, 2);
    let mut node = make_node(0, 3);
    assert_eq!(node.sign_message(MESSAGE, &nonces[0], &package), Err(frost_error(frost::Error::InvalidSignature)));
    assert_eq!(
        node.sign_message(MESSAGE, &nonces[0], &package).unwrap_err().description,
        "InvalidSignature"
    );
    node.set_frost_key(None);
    assert_eq!(node.sign_message(MESSAGE, &nonces[0], &package), Err(frost_error(frost::Error::InvalidSignature)));
}

#[test]
fn broken_key_share_reports_frosts_error() {
    let c = cluster(3);
    let (nonces, package) = round_one(&c, 2);
    let mut node = make_node(0, 3);
    let garbage = vec![7u8; 40];
    let expected = frost::keys::SecretShare::deserialize(&garbage).unwrap_err();
    node.set_frost_key(Some(garbage));
    assert_eq!(node.sign_message(MESSAGE, &nonces[0], &package), Err(frost_error(expected)));
}

#[test]
fn unverifiable_key_share_reports_frosts_error() {
    let c = cluster(3);
    let (nonces, package) = round_one(&c, 2);
    // a share whose commitment belongs to another dealing
    let other = cluster(3);
    let mine = frost::keys::SecretShare::deserialize(c.nodes[0].frost_key.as_ref().unwrap()).unwrap();
    let theirs = frost::keys::SecretShare::deserialize(other.nodes[0].frost_key.as_ref().unwrap()).unwrap();
    let forged = frost::keys::SecretShare::new(*mine.identifier(), *mine.signing_share(), theirs.commitment().clone());
    let expected = frost::keys::KeyPackage::try_from(forged.clone()).unwrap_err();
    let mut node = make_node(0, 3);
    node.set_frost_key(Some(forged.serialize().unwrap()));
    assert_eq!(node.sign_message(MESSAGE, &nonces[0], &package), Err(frost_error(expected)));
}

#[test]
fn mismatched_nonces_report_frosts_error() {
    let c = cluster(3);
    let (nonces, package) = round_one(&c, 2);
    // node 0 signing with node 1's nonces
    let r = c.nodes[0].sign_message(MESSAGE, &nonces[1], &package);
    assert_eq!(r, Err(frost_error(frost::Error::IncorrectCommitment)));
    let expected = frost::round1::SigningNonces::deserialize(&[1, 2]).unwrap_err();
    assert_eq!(c.nodes[0].sign_message(MESSAGE, &[1, 2], &package), Err(frost_error(expected)));
    // a node that is not among the signers
    assert_eq!(
        c.nodes[2].sign_message(MESSAGE, &nonces[0], &package),
        Err(frost_error(frost::Error::MissingCommitment))
    );
}

#[test]
fn signing_result_maps_outcomes() {
    assert_eq!(
        signing_result(Err("IncorrectCommitment".to_string())),
        Err(FrostError { description: "IncorrectCommitment".to_string() })
    );
    assert_eq!(signing_result(Ok(vec![1, 2, 3])), Ok(vec![1, 2, 3]));
}

#[test]
fn signature_share_is_what_frost_computes() {
    let c = cluster(3);
    let (nonces, package_bytes) = round_one(&c, 2);
    let ours = c.nodes[0].sign_message(MESSAGE, &nonces[0], &package_bytes).unwrap();
    let share = frost::keys::SecretShare::deserialize(c.nodes[0].frost_key.as_ref().unwrap()).unwrap();
    let key_package = frost::keys::KeyPackage::try_from(share).unwrap();
    let n = frost::round1::SigningNonces::deserialize(&nonces[0]).unwrap();
    let package = frost::SigningPackage::deserialize(&package_bytes).unwrap();
    let theirs = frost::round2::sign(&package, &n, &key_package).unwrap().serialize();
    assert_eq!(ours, theirs);
}
