use vstd::prelude::*;
use vstd::string::StringExecFns;
use crate::types::{Address, Peer};

verus! {

/// The character that writes the decimal digit `d`.
pub open spec fn digit_char(d: nat) -> char {
    if d == 0 { '0' }
    else if d == 1 { '1' }
    else if d == 2 { '2' }
    else if d == 3 { '3' }
    else if d == 4 { '4' }
    else if d == 5 { '5' }
    else if d == 6 { '6' }
    else if d == 7 { '7' }
    else if d == 8 { '8' }
    else { '9' }
}

/// `n` written in decimal, without leading zeros.
pub open spec fn decimal(n: nat) -> Seq<char>
    decreases n,
{
    if n < 10 {
        seq![digit_char(n)]
    } else {
        decimal(n / 10).push(digit_char(n % 10))
    }
}

/// The name of the server with number `n`: `server_` followed by `n` in decimal.
pub open spec fn server_name(n: nat) -> Seq<char> {
    "server_"@ + decimal(n)
}

/// The loopback address 127.0.0.1.
pub const LOOPBACK_IP: u32 = 0x7f00_0001;

/// The port on which server 1 listens; server `k` listens `k - 1` ports above it.
pub const BASE_PORT: u16 = 55000;

fn digit_str(d: u64) -> (s: &'static str)
    requires
        d < 10,
    ensures
        s@ == seq![digit_char(d as nat)],
{
    proof {
        reveal_strlit("0");
        reveal_strlit("1");
        reveal_strlit("2");
        reveal_strlit("3");
        reveal_strlit("4");
        reveal_strlit("5");
        reveal_strlit("6");
        reveal_strlit("7");
        reveal_strlit("8");
        reveal_strlit("9");
    }
    if d == 0 { "0" }
    else if d == 1 { "1" }
    else if d == 2 { "2" }
    else if d == 3 { "3" }
    else if d == 4 { "4" }
    else if d == 5 { "5" }
    else if d == 6 { "6" }
    else if d == 7 { "7" }
    else if d == 8 { "8" }
    else { "9" }
}

/// Appends `n` in decimal to `s`.
fn push_decimal(s: &mut String, n: u64)
    ensures
        final(s)@ == old(s)@ + decimal(n as nat),
    decreases n,
{
    if n >= 10 {
        push_decimal(s, n / 10);
    }
    s.append(digit_str(n % 10));
}

/// The name of server number `n`, as nodes call each other.
pub fn server_id(n: u64) -> (s: String)
    ensures
        s@ == server_name(n as nat),
{
    let mut s = String::from_str("server_");
    push_decimal(&mut s, n);
    s
}

/// The peer that listens on `port` of the loopback address: the one whose
/// number is `port - BASE_PORT + 1`.
pub fn peer_from_port(port: u16) -> (p: Peer)
    requires
        port >= BASE_PORT,
    ensures
        p.id@ == server_name((port - BASE_PORT + 1) as nat),
        p.address == (Address { ip: LOOPBACK_IP, port }),
{
    let n: u16 = port - BASE_PORT + 1;
    Peer { id: server_id(n as u64), address: Address { ip: LOOPBACK_IP, port } }
}

proof fn lemma_decimal_nonempty(n: nat)
    ensures
        decimal(n).len() >= 1,
    decreases n,
{
    if n >= 10 {
        lemma_decimal_nonempty(n / 10);
    }
}

/// Different numbers are written differently in decimal.
pub proof fn lemma_decimal_injective(n: nat, m: nat)
    requires
        decimal(n) == decimal(m),
    ensures
        n == m,
    decreases n,
{
    if n < 10 && m < 10 {
        let (cn, cm) = (digit_char(n), digit_char(m));
        assert(decimal(n) == seq![cn] && decimal(m) == seq![cm]);
        assert(seq![cn][0] == cn && seq![cm][0] == cm);
    } else if n < 10 {
        lemma_decimal_nonempty(m / 10);
        assert(decimal(m).len() >= 2);
    } else if m < 10 {
        lemma_decimal_nonempty(n / 10);
        assert(decimal(n).len() >= 2);
    } else {
        // equal last digits, and equal numbers of tens
        let (a, b) = (decimal(n), decimal(m));
        assert(a.last() == b.last());
        assert(digit_char(n % 10) == digit_char(m % 10));
        assert(a.drop_last() =~= decimal(n / 10));
        assert(b.drop_last() =~= decimal(m / 10));
        lemma_decimal_injective(n / 10, m / 10);
    }
}

/// Different servers have different names: `server_id` gives distinct
/// numbers distinct names.
pub proof fn lemma_server_name_injective(n: nat, m: nat)
    requires
        server_name(n) == server_name(m),
    ensures
        n == m,
{
    reveal_strlit("server_");
    let prefix = "server_"@;
    assert(decimal(n) =~= server_name(n).subrange(prefix.len() as int, server_name(n).len() as int));
    assert(decimal(m) =~= server_name(m).subrange(prefix.len() as int, server_name(m).len() as int));
    lemma_decimal_injective(n, m);
}

/// The peer at position `j` of a local cluster: server `j + 1`, listening
/// on loopback port `BASE_PORT + j`.
pub open spec fn cluster_member(j: int) -> (Seq<char>, Address) {
    (server_name((j + 1) as nat), Address { ip: LOOPBACK_IP, port: (BASE_PORT + j) as u16 })
}

/// The peers of the node at position `index` in a local cluster of
/// `node_count` nodes: every other member, in order of position.
pub fn cluster_peers(node_count: u16, index: u16) -> (peers: Vec<Peer>)
    requires
        BASE_PORT + node_count <= 65536,
    ensures
        peers@.len() == (if index < node_count { node_count - 1 } else { node_count as int }),
        forall|k: int| 0 <= k < peers@.len() ==> {
            let j = if k < index { k } else { k + 1 };
            (#[trigger] peers@[k]).id@ == cluster_member(j).0 && peers@[k].address == cluster_member(j).1
        },
{
    let mut peers: Vec<Peer> = Vec::new();
    let mut j: u16 = 0;
    while j < node_count
        invariant
            j <= node_count,
            BASE_PORT + node_count <= 65536,
            peers@.len() == (if index < j { j - 1 } else { j as int }),
            forall|k: int| 0 <= k < peers@.len() ==> {
                let jj = if k < index { k } else { k + 1 };
                (#[trigger] peers@[k]).id@ == cluster_member(jj).0 && peers@[k].address == cluster_member(jj).1
            },
        decreases node_count - j,
    {
        if j != index {
            let port: u16 = BASE_PORT + j;
            peers.push(Peer { id: server_id(j as u64 + 1), address: Address { ip: LOOPBACK_IP, port } });
        }
        j = j + 1;
    }
    peers
}

} // verus!
