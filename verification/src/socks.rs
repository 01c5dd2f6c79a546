//! SOCKS5 server-side handshake as a byte-driven machine.
//!
//! The proxy accepts only the no-authentication method and the CONNECT
//! command; the destination address is read and discarded, and the reply
//! claims a bound address of `0.0.0.0:0`.  The machine consumes input one
//! byte at a time, so what it concludes depends only on the bytes seen so
//! far, never on how the peer's writes were split; `lemma_feed_split` states
//! that exactly.  The caller performs the socket reads and writes: it feeds
//! bytes in, sends whatever `take_output` yields, and stops on `Done` or on a
//! failure.

use vstd::prelude::*;

verus! {

#[verifier::external_type_specification]
#[verifier::external_body]
pub struct ExIoError(std::io::Error);

/// Everything the handshake itself can hold against a peer.
#[derive(Clone, Copy, PartialEq, Eq, Structural, Debug)]
pub enum SocksFailure {
    /// The peer did not speak SOCKS version 5.
    BadVersion(u8),
    /// The peer offered no acceptable authentication method.
    NoAcceptableMethods,
    /// The peer asked for a command other than CONNECT.
    BadCommand(u8),
    /// The peer named an address type other than IPv4, domain or IPv6.
    BadAddressType(u8),
}

/// A failed handshake, either from the protocol or from the socket.
#[derive(Debug)]
pub enum SocksError {
    InvalidSocksVersion(u8),
    NoAcceptableMethods,
    CommandNotSupported(u8),
    AddressTypeNotSupported(u8),
    IOError(std::io::Error),
}

/// Where in the two client messages the machine stands.
#[derive(Clone, Copy, PartialEq, Eq, Structural, Debug)]
pub enum Phase {
    /// Greeting: expecting the version byte.
    GreetVersion,
    /// Greeting: expecting the method count.
    GreetMethodCount,
    /// Greeting: reading the method list.
    GreetMethods { remaining: u8, no_auth: bool },
    /// Request: expecting the version byte.
    RequestVersion,
    /// Request: expecting the command byte.
    RequestCommand,
    /// Request: expecting the reserved byte.
    RequestReserved,
    /// Request: expecting the address-type byte.
    RequestAddressType,
    /// Request: expecting the domain-name length.
    DomainLength,
    /// Request: discarding the address and port bytes.
    RequestRest { remaining: u16 },
    /// Handshake complete; the stream now belongs to the next layer.
    Done,
    /// Handshake failed; any reply owed has been queued.
    Failed(SocksFailure),
}

/// Mathematical model of the machine: its phase and the reply bytes queued
/// so far.
#[verifier::ext_equal]
pub ghost struct SocksView {
    pub phase: Phase,
    pub output: Seq<u8>,
}

/// The state a fresh handshake starts in.
pub open spec fn socks_init() -> SocksView {
    SocksView { phase: Phase::GreetVersion, output: Seq::empty() }
}

/// What one input byte does to the machine.
pub open spec fn socks_step(m: SocksView, b: u8) -> SocksView {
    match m.phase {
        Phase::GreetVersion => if b == 5 {
            SocksView { phase: Phase::GreetMethodCount, ..m }
        } else {
            SocksView { phase: Phase::Failed(SocksFailure::BadVersion(b)), ..m }
        },
        Phase::GreetMethodCount => if b == 0 {
            SocksView {
                phase: Phase::Failed(SocksFailure::NoAcceptableMethods),
                output: m.output + seq![5u8, 255u8],
            }
        } else {
            SocksView { phase: Phase::GreetMethods { remaining: b, no_auth: false }, ..m }
        },
        Phase::GreetMethods { remaining, no_auth } => {
            let accepted = no_auth || b == 0;
            if remaining <= 1 {
                if accepted {
                    SocksView { phase: Phase::RequestVersion, output: m.output + seq![5u8, 0u8] }
                } else {
                    SocksView {
                        phase: Phase::Failed(SocksFailure::NoAcceptableMethods),
                        output: m.output + seq![5u8, 255u8],
                    }
                }
            } else {
                SocksView {
                    phase: Phase::GreetMethods {
                        remaining: (remaining - 1) as u8,
                        no_auth: accepted,
                    },
                    ..m
                }
            }
        },
        Phase::RequestVersion => if b == 5 {
            SocksView { phase: Phase::RequestCommand, ..m }
        } else {
            SocksView { phase: Phase::Failed(SocksFailure::BadVersion(b)), ..m }
        },
        Phase::RequestCommand => if b == 1 {
            SocksView { phase: Phase::RequestReserved, ..m }
        } else {
            SocksView {
                phase: Phase::Failed(SocksFailure::BadCommand(b)),
                output: m.output + seq![5u8, 7u8],
            }
        },
        Phase::RequestReserved => SocksView { phase: Phase::RequestAddressType, ..m },
        Phase::RequestAddressType => if b == 1 {
            SocksView { phase: Phase::RequestRest { remaining: 6 }, ..m }
        } else if b == 3 {
            SocksView { phase: Phase::DomainLength, ..m }
        } else if b == 4 {
            SocksView { phase: Phase::RequestRest { remaining: 18 }, ..m }
        } else {
            SocksView {
                phase: Phase::Failed(SocksFailure::BadAddressType(b)),
                output: m.output + seq![5u8, 8u8],
            }
        },
        Phase::DomainLength => SocksView {
            phase: Phase::RequestRest { remaining: (b as u16 + 2) as u16 },
            ..m
        },
        Phase::RequestRest { remaining } => if remaining <= 1 {
            SocksView {
                phase: Phase::Done,
                output: m.output + seq![5u8, 0u8, 0u8, 1u8, 0u8, 0u8, 0u8, 0u8, 0u8, 0u8],
            }
        } else {
            SocksView { phase: Phase::RequestRest { remaining: (remaining - 1) as u16 }, ..m }
        },
        Phase::Done => m,
        Phase::Failed(_) => m,
    }
}

/// The machine after consuming `bytes`, one at a time.
pub open spec fn socks_feed(m: SocksView, bytes: Seq<u8>) -> SocksView
    decreases bytes.len(),
{
    if bytes.len() == 0 {
        m
    } else {
        socks_feed(socks_step(m, bytes[0]), bytes.skip(1))
    }
}

/// Feeding is split-blind: consuming `a` and then `b` is consuming their
/// concatenation.  However a peer fragments its writes, the machine's phase
/// and queued replies come out the same.
pub proof fn lemma_feed_split(m: SocksView, a: Seq<u8>, b: Seq<u8>)
    ensures
        socks_feed(socks_feed(m, a), b) == socks_feed(m, a + b),
    decreases a.len(),
{
    if a.len() == 0 {
        assert(a + b =~= b);
    } else {
        assert((a + b)[0] == a[0]);
        assert((a + b).skip(1) =~= a.skip(1) + b);
        lemma_feed_split(socks_step(m, a[0]), a.skip(1), b);
    }
}

/// Feeding one more byte steps the machine once.
pub proof fn lemma_feed_snoc(m: SocksView, bytes: Seq<u8>, i: int)
    requires
        0 <= i < bytes.len(),
    ensures
        socks_feed(m, bytes.take(i + 1)) == socks_step(socks_feed(m, bytes.take(i)), bytes[i]),
{
    reveal_with_fuel(socks_feed, 3);
    assert(bytes.take(i + 1) =~= bytes.take(i) + seq![bytes[i]]);
    lemma_feed_split(m, bytes.take(i), seq![bytes[i]]);
    assert(seq![bytes[i]].skip(1) =~= Seq::<u8>::empty());
    assert(socks_feed(socks_feed(m, bytes.take(i)), seq![bytes[i]]) == socks_step(
        socks_feed(m, bytes.take(i)),
        bytes[i],
    ));
}

/// A well-formed client greeting: version 5, a method count of at least
/// one, that many method bytes, and the no-authentication method among
/// them.
pub open spec fn valid_greeting(g: Seq<u8>) -> bool {
    &&& g.len() >= 3
    &&& g[0] == 5
    &&& g[1] as int == g.len() - 2
    &&& exists|i: int| 2 <= i < g.len() && g[i] == 0
}

/// A well-formed CONNECT request: version 5, command 1, any reserved byte,
/// and an IPv4, domain-name or IPv6 address followed by a two-byte port.
pub open spec fn valid_request(r: Seq<u8>) -> bool {
    &&& r.len() >= 4
    &&& r[0] == 5
    &&& r[1] == 1
    &&& {
        ||| (r[3] == 1 && r.len() == 10)
        ||| (r[3] == 3 && r.len() >= 5 && r.len() == 7 + r[4] as int)
        ||| (r[3] == 4 && r.len() == 22)
    }
}

/// The reply that accepts the no-authentication method.
pub open spec fn greeting_reply() -> Seq<u8> {
    seq![5u8, 0u8]
}

/// The success reply: bound to `0.0.0.0:0`.
pub open spec fn connect_reply() -> Seq<u8> {
    seq![5u8, 0u8, 0u8, 1u8, 0u8, 0u8, 0u8, 0u8, 0u8, 0u8]
}

/// Draining a method list that offers no-authentication accepts the
/// greeting.
proof fn lemma_feed_methods(m: SocksView, s: Seq<u8>, remaining: u8, no_auth: bool)
    requires
        m.phase == (Phase::GreetMethods { remaining, no_auth }),
        s.len() == remaining as int,
        remaining >= 1,
        no_auth || exists|i: int| 0 <= i < s.len() && s[i] == 0,
    ensures
        socks_feed(m, s) == (SocksView {
            phase: Phase::RequestVersion,
            output: m.output + greeting_reply(),
        }),
    decreases remaining,
{
    let accepted = no_auth || s[0] == 0;
    let m2 = socks_step(m, s[0]);
    if remaining == 1 {
        if !no_auth {
            let i = choose|i: int| 0 <= i < s.len() && s[i] == 0;
            assert(i == 0);
        }
        assert(s.skip(1) =~= Seq::<u8>::empty());
    } else {
        if !accepted {
            let i = choose|i: int| 0 <= i < s.len() && s[i] == 0;
            assert(s.skip(1)[i - 1] == 0);
        }
        lemma_feed_methods(m2, s.skip(1), (remaining - 1) as u8, accepted);
    }
}

/// Draining the address and port bytes completes the handshake.
proof fn lemma_feed_rest(m: SocksView, s: Seq<u8>, remaining: u16)
    requires
        m.phase == (Phase::RequestRest { remaining }),
        s.len() == remaining as int,
        remaining >= 1,
    ensures
        socks_feed(m, s) == (SocksView { phase: Phase::Done, output: m.output + connect_reply() }),
    decreases remaining,
{
    let m2 = socks_step(m, s[0]);
    if remaining == 1 {
        assert(s.skip(1) =~= Seq::<u8>::empty());
    } else {
        lemma_feed_rest(m2, s.skip(1), (remaining - 1) as u16);
    }
}

/// A well-formed greeting followed by a well-formed CONNECT request always
/// succeeds: the machine reaches `Done` having queued exactly the
/// no-authentication acceptance and the success reply.  Together with
/// `lemma_feed_split`, the handshake succeeds however the peer splits its
/// writes.
pub proof fn lemma_valid_handshake_succeeds(g: Seq<u8>, r: Seq<u8>)
    requires
        valid_greeting(g),
        valid_request(r),
    ensures
        socks_feed(socks_init(), g + r) == (SocksView {
            phase: Phase::Done,
            output: greeting_reply() + connect_reply(),
        }),
{
    lemma_feed_split(socks_init(), g, r);

    // The greeting: version, method count, then the method list.
    let m0 = socks_init();
    let m1 = socks_step(m0, g[0]);
    let m2 = socks_step(m1, g[1]);
    assert(m1.phase is GreetMethodCount);
    assert(g[1] >= 1);
    assert(m2.phase == (Phase::GreetMethods { remaining: g[1], no_auth: false }));
    let methods = g.skip(2);
    assert(methods.len() == g[1] as int);
    let i = choose|i: int| 2 <= i < g.len() && g[i] == 0;
    assert(methods[i - 2] == 0);
    lemma_feed_methods(m2, methods, g[1], false);
    assert(g.skip(1).skip(1) =~= g.skip(2));
    assert(socks_feed(m0, g) == socks_feed(m1, g.skip(1)));
    assert(socks_feed(m1, g.skip(1)) == socks_feed(m2, g.skip(2)));
    let after_greeting = SocksView { phase: Phase::RequestVersion, output: greeting_reply() };
    assert(socks_feed(m0, g) == after_greeting) by {
        assert(m2.output =~= Seq::<u8>::empty());
        assert(m2.output + greeting_reply() =~= greeting_reply());
    }

    // The request: version, command, reserved, address type, then the
    // address and port bytes.
    let n1 = socks_step(after_greeting, r[0]);
    let n2 = socks_step(n1, r[1]);
    let n3 = socks_step(n2, r[2]);
    let n4 = socks_step(n3, r[3]);
    assert(n1.phase is RequestCommand);
    assert(n2.phase is RequestReserved);
    assert(n3.phase is RequestAddressType);
    assert(socks_feed(after_greeting, r) == socks_feed(n1, r.skip(1)));
    assert(r.skip(1)[0] == r[1] && r.skip(1).skip(1) =~= r.skip(2));
    assert(socks_feed(n1, r.skip(1)) == socks_feed(n2, r.skip(2)));
    assert(r.skip(2)[0] == r[2] && r.skip(2).skip(1) =~= r.skip(3));
    assert(socks_feed(n2, r.skip(2)) == socks_feed(n3, r.skip(3)));
    assert(r.skip(3)[0] == r[3] && r.skip(3).skip(1) =~= r.skip(4));
    assert(socks_feed(n3, r.skip(3)) == socks_feed(n4, r.skip(4)));

    let done = SocksView { phase: Phase::Done, output: greeting_reply() + connect_reply() };
    if r[3] == 1 {
        assert(n4.phase == (Phase::RequestRest { remaining: 6u16 }));
        assert(r.skip(4).len() == 6);
        lemma_feed_rest(n4, r.skip(4), 6);
        assert(socks_feed(n4, r.skip(4)) == done);
    } else if r[3] == 3 {
        assert(n4.phase is DomainLength);
        let n5 = socks_step(n4, r[4]);
        assert(r.skip(4)[0] == r[4] && r.skip(4).skip(1) =~= r.skip(5));
        assert(socks_feed(n4, r.skip(4)) == socks_feed(n5, r.skip(5)));
        assert(n5.phase == (Phase::RequestRest { remaining: (r[4] as u16 + 2) as u16 }));
        assert(r.skip(5).len() == r[4] as int + 2);
        lemma_feed_rest(n5, r.skip(5), (r[4] as u16 + 2) as u16);
        assert(socks_feed(n5, r.skip(5)) == done);
    } else {
        assert(r[3] == 4);
        assert(n4.phase == (Phase::RequestRest { remaining: 18u16 }));
        assert(r.skip(4).len() == 18);
        lemma_feed_rest(n4, r.skip(4), 18);
        assert(socks_feed(n4, r.skip(4)) == done);
    }
    assert(socks_feed(socks_init(), g + r) == done);
}

/// Server side of one SOCKS5 handshake.
pub struct SocksHandshake {
    phase: Phase,
    output: Vec<u8>,
}

impl View for SocksHandshake {
    type V = SocksView;

    closed spec fn view(&self) -> SocksView {
        SocksView { phase: self.phase, output: self.output@ }
    }
}

impl SocksHandshake {
    pub fn new() -> (r: SocksHandshake)
        ensures
            r@ == socks_init(),
    {
        let r = SocksHandshake { phase: Phase::GreetVersion, output: Vec::new() };
        proof {
            assert(r@ =~= socks_init());
        }
        r
    }

    /// Consumes one byte from the peer.
    pub fn push_byte(&mut self, b: u8)
        ensures
            final(self)@ == socks_step(old(self)@, b),
    {
        match self.phase {
            Phase::GreetVersion => {
                if b == 5 {
                    self.phase = Phase::GreetMethodCount;
                } else {
                    self.phase = Phase::Failed(SocksFailure::BadVersion(b));
                }
            },
            Phase::GreetMethodCount => {
                if b == 0 {
                    self.phase = Phase::Failed(SocksFailure::NoAcceptableMethods);
                    self.output.push(5);
                    self.output.push(255);
                } else {
                    self.phase = Phase::GreetMethods { remaining: b, no_auth: false };
                }
            },
            Phase::GreetMethods { remaining, no_auth } => {
                let accepted = no_auth || b == 0;
                if remaining <= 1 {
                    if accepted {
                        self.phase = Phase::RequestVersion;
                        self.output.push(5);
                        self.output.push(0);
                    } else {
                        self.phase = Phase::Failed(SocksFailure::NoAcceptableMethods);
                        self.output.push(5);
                        self.output.push(255);
                    }
                } else {
                    self.phase = Phase::GreetMethods { remaining: remaining - 1, no_auth: accepted
                    };
                }
            },
            Phase::RequestVersion => {
                if b == 5 {
                    self.phase = Phase::RequestCommand;
                } else {
                    self.phase = Phase::Failed(SocksFailure::BadVersion(b));
                }
            },
            Phase::RequestCommand => {
                if b == 1 {
                    self.phase = Phase::RequestReserved;
                } else {
                    self.phase = Phase::Failed(SocksFailure::BadCommand(b));
                    self.output.push(5);
                    self.output.push(7);
                }
            },
            Phase::RequestReserved => {
                self.phase = Phase::RequestAddressType;
            },
            Phase::RequestAddressType => {
                if b == 1 {
                    self.phase = Phase::RequestRest { remaining: 6 };
                } else if b == 3 {
                    self.phase = Phase::DomainLength;
                } else if b == 4 {
                    self.phase = Phase::RequestRest { remaining: 18 };
                } else {
                    self.phase = Phase::Failed(SocksFailure::BadAddressType(b));
                    self.output.push(5);
                    self.output.push(8);
                }
            },
            Phase::DomainLength => {
                self.phase = Phase::RequestRest { remaining: b as u16 + 2 };
            },
            Phase::RequestRest { remaining } => {
                if remaining <= 1 {
                    self.phase = Phase::Done;
                    self.output.push(5);
                    self.output.push(0);
                    self.output.push(0);
                    self.output.push(1);
                    self.output.push(0);
                    self.output.push(0);
                    self.output.push(0);
                    self.output.push(0);
                    self.output.push(0);
                    self.output.push(0);
                } else {
                    self.phase = Phase::RequestRest { remaining: remaining - 1 };
                }
            },
            Phase::Done => {},
            Phase::Failed(_) => {},
        }
        proof {
            assert(final(self)@ =~= socks_step(old(self)@, b));
        }
    }

    /// Consumes one chunk of bytes from the peer, as read off the socket.
    pub fn push_bytes(&mut self, chunk: &[u8])
        ensures
            final(self)@ == socks_feed(old(self)@, chunk@),
    {
        let n = chunk.len();
        let mut i: usize = 0;
        proof {
            assert(chunk@.take(0) =~= Seq::<u8>::empty());
        }
        while i < n
            invariant
                0 <= i <= n,
                n == chunk@.len(),
                self@ == socks_feed(old(self)@, chunk@.take(i as int)),
            decreases n - i,
        {
            proof {
                lemma_feed_snoc(old(self)@, chunk@, i as int);
            }
            self.push_byte(chunk[i]);
            i = i + 1;
        }
        proof {
            assert(chunk@.take(n as int) =~= chunk@);
        }
    }

    /// Whether the handshake still wants bytes.
    pub fn needs_more(&self) -> (r: bool)
        ensures
            r == !(self@.phase is Done || self@.phase is Failed),
    {
        !(matches!(self.phase, Phase::Done | Phase::Failed(_)))
    }

    /// Whether the handshake finished successfully.
    pub fn is_done(&self) -> (r: bool)
        ensures
            r == (self@.phase is Done),
    {
        matches!(self.phase, Phase::Done)
    }

    /// The protocol failure, if the handshake has failed.
    pub fn failure(&self) -> (r: Option<SocksFailure>)
        ensures
            match self@.phase {
                Phase::Failed(f) => r == Some(f),
                _ => r is None,
            },
    {
        match self.phase {
            Phase::Failed(f) => Some(f),
            _ => None,
        }
    }

    /// The protocol failure as the error the caller surfaces.
    pub fn error(&self) -> (r: Option<SocksError>)
        ensures
            r is Some <==> self@.phase is Failed,
            match self@.phase {
                Phase::Failed(SocksFailure::BadVersion(v)) => r matches Some(
                    SocksError::InvalidSocksVersion(w),
                ) && w == v,
                Phase::Failed(SocksFailure::NoAcceptableMethods) => r matches Some(
                    SocksError::NoAcceptableMethods,
                ),
                Phase::Failed(SocksFailure::BadCommand(c)) => r matches Some(
                    SocksError::CommandNotSupported(d),
                ) && d == c,
                Phase::Failed(SocksFailure::BadAddressType(t)) => r matches Some(
                    SocksError::AddressTypeNotSupported(u),
                ) && u == t,
                _ => r is None,
            },
    {
        match self.phase {
            Phase::Failed(SocksFailure::BadVersion(v)) => Some(
                SocksError::InvalidSocksVersion(v),
            ),
            Phase::Failed(SocksFailure::NoAcceptableMethods) => Some(
                SocksError::NoAcceptableMethods,
            ),
            Phase::Failed(SocksFailure::BadCommand(c)) => Some(SocksError::CommandNotSupported(c)),
            Phase::Failed(SocksFailure::BadAddressType(t)) => Some(
                SocksError::AddressTypeNotSupported(t),
            ),
            _ => None,
        }
    }

    /// Hands the queued reply bytes to the caller for writing.
    pub fn take_output(&mut self) -> (r: Vec<u8>)
        ensures
            r@ == old(self)@.output,
            final(self)@ == (SocksView { output: Seq::empty(), ..old(self)@ }),
    {
        let mut out: Vec<u8> = Vec::new();
        std::mem::swap(&mut out, &mut self.output);
        out
    }
}

} // verus!
