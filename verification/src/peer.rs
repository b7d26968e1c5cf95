use vstd::prelude::*;
use vstd::string::*;

verus! {

/// The lowercase hexadecimal digit for a value below sixteen.
pub open spec fn hex_digit(n: int) -> char
    recommends
        0 <= n < 16,
{
    if n < 10 {
        ('0' as int + n) as char
    } else {
        ('a' as int + (n - 10)) as char
    }
}

/// Lowercase hexadecimal text of a byte string: two digits per byte, high half first.
pub open spec fn hex_lower(bytes: Seq<u8>) -> Seq<char>
    decreases bytes.len(),
{
    if bytes.len() == 0 {
        Seq::empty()
    } else {
        seq![hex_digit(bytes[0] as int / 16), hex_digit(bytes[0] as int % 16)] + hex_lower(bytes.drop_first())
    }
}

/// The decimal digit for a value below ten.
pub open spec fn decimal_digit(n: int) -> char
    recommends
        0 <= n < 10,
{
    ('0' as int + n) as char
}

/// Decimal text of a natural number, without leading zeros.
pub open spec fn decimal(n: nat) -> Seq<char>
    decreases n,
{
    if n < 10 {
        seq![decimal_digit(n as int)]
    } else {
        decimal(n / 10).push(decimal_digit((n % 10) as int))
    }
}

/// The separator between a listen address and the peer id in a seed address.
pub open spec fn p2p_separator() -> Seq<char> {
    seq!['/', 'p', '2', 'p', '/']
}

/// The prefix of a local TCP listen address: `/ip4/127.0.0.1/tcp/`.
pub open spec fn local_tcp_prefix() -> Seq<char> {
    seq!['/', 'i', 'p', '4', '/', '1', '2', '7', '.', '0', '.', '0', '.', '1', '/', 't', 'c', 'p', '/']
}

/// The seed address under which a peer listening on `listen` is reached.
pub open spec fn seed_address(listen: Seq<char>, peer_id: Seq<u8>) -> Seq<char> {
    listen + p2p_separator() + hex_lower(peer_id)
}

/// Whether a character is a lowercase hexadecimal digit: `0`-`9` or `a`-`f`.
pub open spec fn is_lower_hex_char(c: char) -> bool {
    ('0' as int <= c as int <= '9' as int) || ('a' as int <= c as int <= 'f' as int)
}

/// The value of a hexadecimal digit character.
pub open spec fn hex_value(c: char) -> int {
    if '0' as int <= c as int <= '9' as int {
        c as int - '0' as int
    } else {
        c as int - 'a' as int + 10
    }
}

/// Whether the two characters of `text` at `pos` and `pos + 1` are lowercase hex
/// digits that spell the byte `b`, high half first.
pub open spec fn hex_pair_spells(text: Seq<char>, pos: int, b: u8) -> bool {
    &&& is_lower_hex_char(text[pos])
    &&& is_lower_hex_char(text[pos + 1])
    &&& 16 * hex_value(text[pos]) + hex_value(text[pos + 1]) == b as int
}

/// Whether `text`, read from position `start` on in pairs of lowercase hex digits
/// (high half first), spells exactly the bytes `bytes`, and nothing follows.
pub open spec fn spells_bytes_in_hex(text: Seq<char>, start: int, bytes: Seq<u8>) -> bool {
    &&& 0 <= start
    &&& text.len() == start + 2 * bytes.len()
    &&& forall|i: int|
        #![trigger bytes[i]]
        0 <= i < bytes.len() ==> hex_pair_spells(text, start + 2 * i, bytes[i])
}

/// Whether a character is a decimal digit.
pub open spec fn is_decimal_char(c: char) -> bool {
    '0' as int <= c as int <= '9' as int
}

/// The number that a string of decimal digits spells, most significant digit first.
pub open spec fn decimal_value(text: Seq<char>) -> int
    decreases text.len(),
{
    if text.len() == 0 {
        0
    } else {
        10 * decimal_value(text.drop_last()) + (text.last() as int - '0' as int)
    }
}

/// Whether `text` is the canonical decimal text of `n`: digits only, no leading zero
/// (but for `0` itself), and spelling `n`.
pub open spec fn spells_number_in_decimal(text: Seq<char>, n: nat) -> bool {
    &&& text.len() >= 1
    &&& forall|i: int| 0 <= i < text.len() ==> is_decimal_char(#[trigger] text[i])
    &&& (text.len() > 1 ==> text[0] != '0')
    &&& decimal_value(text) == n
}

/// Calls `hex::encode`, which the crate documents as lowercase hex text, two digits
/// per byte, the high half of each byte first.
#[verifier::external_body]
fn hex_encode(data: &[u8]) -> (text: String)
    ensures
        text@ == hex_lower(data@),
{
    hex::encode(data)
}

/// Calls `ToString::to_string` on a `u16`, whose `Display` std documents as the
/// decimal representation without leading zeros.
#[verifier::external_body]
fn port_to_string(port: u16) -> (text: String)
    ensures
        text@ == decimal(port as nat),
{
    port.to_string()
}

/// The address a peer listening on `listen` with id `peer_id` is given as a seed to
/// other nodes: the listen address, `/p2p/`, and the id in lowercase hex.
pub fn peer_seed(listen: &str, peer_id: &[u8]) -> (seed: String)
    ensures
        seed@ == seed_address(listen@, peer_id@),
        seed@.subrange(0, listen@.len() as int) == listen@,
        seed@.subrange(listen@.len() as int, listen@.len() as int + 5) == seq!['/', 'p', '2', 'p', '/'],
        spells_bytes_in_hex(seed@, listen@.len() as int + 5, peer_id@),
{
    proof {
        lemma_seed_spells_peer_id(listen@, peer_id@);
    }
    let id = hex_encode(peer_id);
    let seed = String::from_str(listen).concat("/p2p/").concat(id.as_str());
    proof {
        reveal_strlit("/p2p/");
    }
    assert(seed@ == seed_address(listen@, peer_id@));
    seed
}

/// The listen address for a node on the local host at the given TCP port:
/// `/ip4/127.0.0.1/tcp/` followed by the port in decimal.
pub fn local_tcp_listen_address(port: u16) -> (address: String)
    ensures
        address@ == local_tcp_prefix() + decimal(port as nat),
        address@.subrange(0, 19) == seq![
            '/', 'i', 'p', '4', '/', '1', '2', '7', '.', '0', '.', '0', '.', '1', '/', 't', 'c', 'p', '/'
        ],
        spells_number_in_decimal(address@.skip(19), port as nat),
{
    proof {
        lemma_listen_address_spells_port(port);
    }
    let digits = port_to_string(port);
    let address = String::from_str("/ip4/127.0.0.1/tcp/").concat(digits.as_str());
    proof {
        reveal_strlit("/ip4/127.0.0.1/tcp/");
    }
    assert(address@ == local_tcp_prefix() + decimal(port as nat));
    address
}

/// Hex text is twice as long as the bytes it encodes.
pub proof fn lemma_hex_lower_len(bytes: Seq<u8>)
    ensures
        hex_lower(bytes).len() == 2 * bytes.len(),
    decreases bytes.len(),
{
    if bytes.len() > 0 {
        lemma_hex_lower_len(bytes.drop_first());
    }
}

proof fn lemma_hex_digit_injective(a: int, b: int)
    requires
        0 <= a < 16,
        0 <= b < 16,
        hex_digit(a) == hex_digit(b),
    ensures
        a == b,
{
    assert(hex_digit(a) as int == if a < 10 { '0' as int + a } else { 'a' as int + (a - 10) });
    assert(hex_digit(b) as int == if b < 10 { '0' as int + b } else { 'a' as int + (b - 10) });
}

/// Different byte strings have different hex text.
pub proof fn lemma_hex_lower_injective(a: Seq<u8>, b: Seq<u8>)
    requires
        hex_lower(a) == hex_lower(b),
    ensures
        a == b,
    decreases a.len(),
{
    lemma_hex_lower_len(a);
    lemma_hex_lower_len(b);
    if a.len() > 0 {
        let ha = hex_lower(a);
        let hb = hex_lower(b);
        assert(ha[0] == hb[0] && ha[1] == hb[1]);
        lemma_hex_digit_injective(a[0] as int / 16, b[0] as int / 16);
        lemma_hex_digit_injective(a[0] as int % 16, b[0] as int % 16);
        assert(a[0] == b[0]);
        assert(hex_lower(a.drop_first()) =~= ha.skip(2));
        assert(hex_lower(b.drop_first()) =~= hb.skip(2));
        lemma_hex_lower_injective(a.drop_first(), b.drop_first());
        assert(a =~= seq![a[0]] + a.drop_first());
        assert(b =~= seq![b[0]] + b.drop_first());
    } else {
        assert(a =~= b);
    }
}

/// Peers with different ids listening on the same address get different seeds.
pub proof fn lemma_seed_identifies_peer(listen: Seq<char>, a: Seq<u8>, b: Seq<u8>)
    requires
        seed_address(listen, a) == seed_address(listen, b),
    ensures
        a == b,
{
    let n: int = listen.len() + p2p_separator().len() as int;
    assert(seed_address(listen, a).skip(n) =~= hex_lower(a));
    assert(seed_address(listen, b).skip(n) =~= hex_lower(b));
    lemma_hex_lower_injective(a, b);
}

proof fn lemma_hex_digit_spells(n: int)
    requires
        0 <= n < 16,
    ensures
        is_lower_hex_char(hex_digit(n)),
        hex_value(hex_digit(n)) == n,
{
    assert(hex_digit(n) as int == if n < 10 { '0' as int + n } else { 'a' as int + (n - 10) });
}

/// Hex text read back in pairs gives the bytes it was made from, in order: character
/// `2i` is the high and character `2i + 1` the low digit of byte `i`.
pub proof fn lemma_hex_lower_spells_bytes(bytes: Seq<u8>)
    ensures
        spells_bytes_in_hex(hex_lower(bytes), 0, bytes),
    decreases bytes.len(),
{
    lemma_hex_lower_len(bytes);
    if bytes.len() > 0 {
        let rest = bytes.drop_first();
        lemma_hex_lower_spells_bytes(rest);
        let h = hex_lower(bytes);
        let hr = hex_lower(rest);
        let hi = hex_digit(bytes[0] as int / 16);
        let lo = hex_digit(bytes[0] as int % 16);
        assert(h == seq![hi, lo] + hr);
        lemma_hex_digit_spells(bytes[0] as int / 16);
        lemma_hex_digit_spells(bytes[0] as int % 16);
        assert forall|i: int| #![trigger bytes[i]] 0 <= i < bytes.len() implies hex_pair_spells(
            h,
            0 + 2 * i,
            bytes[i],
        ) by {
            if i == 0 {
                assert(h[0] == hi);
                assert(h[1] == lo);
                assert(bytes[0] as int == 16 * (bytes[0] as int / 16) + bytes[0] as int % 16);
            } else {
                let k = i - 1;
                assert(rest[k] == bytes[i]);
                assert(0 <= k < rest.len());
                assert(hex_pair_spells(hr, 0 + 2 * k, rest[k]));
                assert(h[0 + 2 * i] == hr[0 + 2 * k]);
                assert(h[0 + 2 * i + 1] == hr[0 + 2 * k + 1]);
            }
        }
    }
}

/// A peer's seed is its listen address, then `/p2p/`, then its id spelled in
/// lowercase hex, byte by byte in order, with nothing after it.
pub proof fn lemma_seed_spells_peer_id(listen: Seq<char>, peer_id: Seq<u8>)
    ensures
        seed_address(listen, peer_id).subrange(0, listen.len() as int) == listen,
        seed_address(listen, peer_id).subrange(listen.len() as int, listen.len() as int + 5)
            == seq!['/', 'p', '2', 'p', '/'],
        spells_bytes_in_hex(seed_address(listen, peer_id), listen.len() as int + 5, peer_id),
{
    let seed = seed_address(listen, peer_id);
    let h = hex_lower(peer_id);
    let pre = listen + p2p_separator();
    let start = listen.len() as int + 5;
    assert(seed == pre + h);
    assert(pre.len() == start);
    lemma_hex_lower_spells_bytes(peer_id);
    assert(seed.subrange(0, listen.len() as int) =~= listen);
    assert(seed.subrange(listen.len() as int, listen.len() as int + 5) =~= seq!['/', 'p', '2', 'p', '/']);
    assert forall|i: int| #![trigger peer_id[i]] 0 <= i < peer_id.len() implies hex_pair_spells(
        seed,
        start + 2 * i,
        peer_id[i],
    ) by {
        assert(hex_pair_spells(h, 0 + 2 * i, peer_id[i]));
        assert(seed[start + 2 * i] == h[2 * i]);
        assert(seed[start + 2 * i + 1] == h[2 * i + 1]);
    }
}

/// The decimal text of a number spells that number: digits only, no leading zero,
/// and read back it gives the number.
pub proof fn lemma_decimal_spells_number(n: nat)
    ensures
        spells_number_in_decimal(decimal(n), n),
        n >= 1 ==> decimal(n)[0] != '0',
    decreases n,
{
    let d = decimal(n);
    if n < 10 {
        let c = decimal_digit(n as int);
        assert(c as int == '0' as int + n);
        assert(d == seq![c]);
        assert(d.drop_last() =~= Seq::<char>::empty());
        assert(d.last() == c);
        assert(decimal_value(d) == 10 * decimal_value(d.drop_last()) + (c as int - '0' as int));
        assert(is_decimal_char(d[0]));
    } else {
        let q = (n / 10) as nat;
        lemma_decimal_spells_number(q);
        let dq = decimal(q);
        let c = decimal_digit((n % 10) as int);
        assert(c as int == '0' as int + n % 10);
        assert(d == dq.push(c));
        assert(d.drop_last() =~= dq);
        assert(d.last() == c);
        assert(decimal_value(d) == 10 * decimal_value(dq) + (c as int - '0' as int));
        assert(n == 10 * q + n % 10);
        assert(d[0] == dq[0]);
        assert forall|i: int| 0 <= i < d.len() implies is_decimal_char(#[trigger] d[i]) by {
            if i < dq.len() {
                assert(d[i] == dq[i]);
            }
        }
    }
}

/// The local listen address is `/ip4/127.0.0.1/tcp/` followed by the decimal text of
/// the port, which reads back as the port.
pub proof fn lemma_listen_address_spells_port(port: u16)
    ensures
        (local_tcp_prefix() + decimal(port as nat)).subrange(0, 19) == seq![
            '/', 'i', 'p', '4', '/', '1', '2', '7', '.', '0', '.', '0', '.', '1', '/', 't', 'c', 'p', '/'
        ],
        spells_number_in_decimal((local_tcp_prefix() + decimal(port as nat)).skip(19), port as nat),
{
    lemma_decimal_spells_number(port as nat);
    let a = local_tcp_prefix() + decimal(port as nat);
    assert(a.subrange(0, 19) =~= local_tcp_prefix());
    assert(a.skip(19) =~= decimal(port as nat));
}

} // verus!
