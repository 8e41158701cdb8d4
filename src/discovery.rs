//! The UDP discovery responder's answer: a datagram that is exactly the
//! probe gets the server's address and handshake port back; anything else
//! gets nothing.
use crate::actions::extend_bytes;
use vstd::prelude::*;
use vstd::string::StringSliceAdditionalSpecFns;
use vstd::utf8::encode_utf8;

verus! {

/// The UDP port the responder listens on.
pub const DISCOVERY_PORT: u16 = 7877;

/// The probe that clients broadcast.
pub const DISCOVERY_REQUEST: &'static str = "DISCOVER_MOBILE_CONTROLLER";

/// What every answer starts with; the address and the port follow, each
/// after a colon.
pub const DISCOVERY_RESPONSE_PREFIX: &'static str = "MOBILE_CONTROLLER";

/// The ASCII code of ':'.
pub const COLON: u8 = 58;

/// The ASCII code of '0'.
pub const DIGIT_ZERO: u8 = 48;

/// The decimal digits of `n`, most significant first, in ASCII.
pub open spec fn decimal(n: nat) -> Seq<u8>
    decreases n,
{
    if n < 10 {
        seq![(DIGIT_ZERO + n) as u8]
    } else {
        decimal(n / 10).push((DIGIT_ZERO + n % 10) as u8)
    }
}

/// The bytes of the probe.
pub open spec fn probe() -> Seq<u8> {
    encode_utf8(DISCOVERY_REQUEST@)
}

/// The answer for a server reachable at `ip` whose handshake port is `port`.
pub open spec fn answer(ip: Seq<u8>, port: nat) -> Seq<u8> {
    encode_utf8(DISCOVERY_RESPONSE_PREFIX@) + seq![COLON] + ip + seq![COLON] + decimal(port)
}

/// The decimal digits of `n` in ASCII.
pub fn decimal_digits(n: u16) -> (r: Vec<u8>)
    ensures
        r@ == decimal(n as nat),
{
    let mut reversed: Vec<u8> = Vec::new();
    reversed.push(DIGIT_ZERO + (n % 10) as u8);
    let mut m: u16 = n / 10;
    proof {
        assert(Seq::new(reversed@.len(), |i: int| reversed@[reversed@.len() - 1 - i]) =~= seq![(
        DIGIT_ZERO + n % 10) as u8]);
    }
    while m > 0
        invariant
            m > 0 ==> decimal(n as nat) == decimal(m as nat) + Seq::new(
                reversed@.len(),
                |i: int| reversed@[reversed@.len() - 1 - i],
            ),
            m == 0 ==> decimal(n as nat) == Seq::new(
                reversed@.len(),
                |i: int| reversed@[reversed@.len() - 1 - i],
            ),
        decreases m,
    {
        let ghost before = reversed@;
        reversed.push(DIGIT_ZERO + (m % 10) as u8);
        proof {
            let tail = Seq::new(before.len(), |i: int| before[before.len() - 1 - i]);
            let tail2 = Seq::new(reversed@.len(), |i: int| reversed@[reversed@.len() - 1 - i]);
            assert(tail2 =~= seq![(DIGIT_ZERO + m % 10) as u8] + tail);
            if m >= 10 {
                assert(decimal(m as nat) == decimal((m / 10) as nat).push((DIGIT_ZERO + m % 10) as u8));
                assert(decimal(m as nat) + tail =~= decimal((m / 10) as nat) + tail2);
            } else {
                assert(decimal(m as nat) =~= seq![(DIGIT_ZERO + m % 10) as u8]);
                assert(decimal(n as nat) =~= tail2);
            }
        }
        m = m / 10;
    }
    let mut out: Vec<u8> = Vec::new();
    let mut j: usize = reversed.len();
    while j > 0
        invariant
            j <= reversed@.len(),
            decimal(n as nat) == Seq::new(reversed@.len(), |i: int| reversed@[reversed@.len() - 1 - i]),
            out@ == Seq::new((reversed@.len() - j) as nat, |i: int| reversed@[reversed@.len() - 1 - i]),
        decreases j,
    {
        j -= 1;
        out.push(reversed[j]);
        assert(out@ =~= Seq::new((reversed@.len() - j) as nat, |i: int| reversed@[reversed@.len() - 1 - i]));
    }
    assert(out@ =~= decimal(n as nat));
    out
}

/// Whether a datagram is exactly the probe.
pub fn is_discovery_request(message: &[u8]) -> (r: bool)
    ensures
        r == (message@ == probe()),
{
    let expected = DISCOVERY_REQUEST.as_bytes();
    if message.len() != expected.len() {
        return false;
    }
    let mut i: usize = 0;
    while i < message.len()
        invariant
            message@.len() == expected@.len(),
            expected@ == probe(),
            i <= message@.len(),
            forall|j: int| 0 <= j < i ==> message@[j] == expected@[j],
        decreases message@.len() - i,
    {
        if message[i] != expected[i] {
            return false;
        }
        i += 1;
    }
    assert(message@ =~= expected@);
    true
}

/// The answer of a server reachable at `local_ip` whose handshake port is
/// `tcp_port`.
pub fn discovery_response(local_ip: &str, tcp_port: u16) -> (r: Vec<u8>)
    ensures
        r@ == answer(local_ip.spec_bytes(), tcp_port as nat),
{
    let mut out: Vec<u8> = Vec::new();
    extend_bytes(&mut out, DISCOVERY_RESPONSE_PREFIX.as_bytes());
    out.push(COLON);
    extend_bytes(&mut out, local_ip.as_bytes());
    out.push(COLON);
    let digits = decimal_digits(tcp_port);
    extend_bytes(&mut out, digits.as_slice());
    assert(out@ =~= answer(local_ip.spec_bytes(), tcp_port as nat));
    out
}

/// What the responder sends back for a datagram: the answer for the probe,
/// nothing for anything else.
pub fn answer_datagram(message: &[u8], local_ip: &str, tcp_port: u16) -> (r: Option<Vec<u8>>)
    ensures
        message@ == probe() ==> (r matches Some(a) && a@ == answer(local_ip.spec_bytes(), tcp_port as nat)),
        message@ != probe() ==> r is None,
{
    if is_discovery_request(message) {
        Some(discovery_response(local_ip, tcp_port))
    } else {
        None
    }
}

} // verus!
