use vstd::prelude::*;

use crate::laws::{distance, lemma_handshake_terminates, lemma_run_distance, lemma_run_extend, lemma_step_closer};

verus! {

/// The options negotiated for one handshake. Every flag defaults to `false`;
/// any combination is accepted.
#[derive(Debug, Copy, Clone)]
pub struct ProtocolOptions {
    /// Abbreviated handshake (session resumption) instead of a full one.
    pub resuming: bool,
    /// The server asks the client for a certificate.
    pub request_client_auth: bool,
    /// The client sends a certificate verification.
    pub perform_client_auth: bool,
    /// Anonymous Diffie-Hellman: the server sends no certificate.
    pub dh_anon: bool,
    /// The server certificate alone establishes the key: no key exchange follows it.
    pub rsa_kem: bool,
    /// The server issues a new session ticket.
    pub server_issues_ticket: bool,
}

impl ProtocolOptions {
    /// Every flag is off.
    pub open spec fn all_off(self) -> bool {
        &&& !self.resuming
        &&& !self.request_client_auth
        &&& !self.perform_client_auth
        &&& !self.dh_anon
        &&& !self.rsa_kem
        &&& !self.server_issues_ticket
    }
}

impl Default for ProtocolOptions {
    fn default() -> (r: Self)
        ensures
            r.all_off(),
    {
        ProtocolOptions {
            resuming: false,
            request_client_auth: false,
            perform_client_auth: false,
            dh_anon: false,
            rsa_kem: false,
            server_issues_ticket: false,
        }
    }
}

/// The kinds of handshake message.
#[derive(Debug, Copy, Clone, PartialEq, Eq, Structural)]
pub enum MessageType {
    ClientHello,
    ServerHello,
    Certificate,
    ServerKeyExchange,
    CertificateRequest,
    ServerHelloDone,
    ClientKeyExchange,
    CertificateVerify,
    NewSessionTicket,
    ChangeCipherSpec,
    Finished,
}

/// The endpoint that sends a message.
#[derive(Debug, Copy, Clone, PartialEq, Eq, Structural)]
pub enum Peer {
    Server,
    Client,
}

/// A point in the handshake: the message that is sent next, or `Term` once
/// the handshake is complete.
#[derive(Debug, Copy, Clone, PartialEq, Eq, Structural)]
pub enum State {
    ClientSendsClientHello,
    ServerSendsServerHello,
    ServerSendsCertificate,
    ServerSendsServerKeyExchange,
    ServerSendsCertificateRequest,
    ServerSendsServerHelloDone,
    ClientSendsCertificate,
    ClientSendsClientKeyExchange,
    ClientSendsCertificateVerify,
    ClientSendsChangeCipherSpec,
    ClientSendsFinished,
    ServerSendsNewSessionTicket,
    ServerSendsChangeCipherSpec,
    ServerSendsFinished,
    Term,
}

impl Default for State {
    /// Every handshake starts with the client's hello.
    fn default() -> (r: Self)
        ensures
            r == State::ClientSendsClientHello,
    {
        State::ClientSendsClientHello
    }
}

impl State {
    /// Who sends which message in a state other than `Term`.
    pub open spec fn spec_sends(self) -> (Peer, MessageType)
        recommends
            self != State::Term,
    {
        match self {
            State::ClientSendsClientHello => (Peer::Client, MessageType::ClientHello),
            State::ServerSendsServerHello => (Peer::Server, MessageType::ServerHello),
            State::ServerSendsCertificate => (Peer::Server, MessageType::Certificate),
            State::ServerSendsServerKeyExchange => (Peer::Server, MessageType::ServerKeyExchange),
            State::ServerSendsCertificateRequest => (Peer::Server, MessageType::CertificateRequest),
            State::ServerSendsServerHelloDone => (Peer::Server, MessageType::ServerHelloDone),
            State::ClientSendsCertificate => (Peer::Client, MessageType::Certificate),
            State::ClientSendsClientKeyExchange => (Peer::Client, MessageType::ClientKeyExchange),
            State::ClientSendsCertificateVerify => (Peer::Client, MessageType::CertificateVerify),
            State::ClientSendsChangeCipherSpec => (Peer::Client, MessageType::ChangeCipherSpec),
            State::ClientSendsFinished => (Peer::Client, MessageType::Finished),
            State::ServerSendsNewSessionTicket => (Peer::Server, MessageType::NewSessionTicket),
            State::ServerSendsChangeCipherSpec => (Peer::Server, MessageType::ChangeCipherSpec),
            State::ServerSendsFinished => (Peer::Server, MessageType::Finished),
            State::Term => arbitrary(),
        }
    }

    /// The peer and the message of this state. Asking this of `Term`, where
    /// nothing is left to send, is a misuse that callers must rule out.
    pub fn sends(self) -> (r: (Peer, MessageType))
        requires
            self != State::Term,
        ensures
            r == self.spec_sends(),
    {
        match self {
            State::ClientSendsClientHello => (Peer::Client, MessageType::ClientHello),
            State::ServerSendsServerHello => (Peer::Server, MessageType::ServerHello),
            State::ServerSendsCertificate => (Peer::Server, MessageType::Certificate),
            State::ServerSendsServerKeyExchange => (Peer::Server, MessageType::ServerKeyExchange),
            State::ServerSendsCertificateRequest => (Peer::Server, MessageType::CertificateRequest),
            State::ServerSendsServerHelloDone => (Peer::Server, MessageType::ServerHelloDone),
            State::ClientSendsCertificate => (Peer::Client, MessageType::Certificate),
            State::ClientSendsClientKeyExchange => (Peer::Client, MessageType::ClientKeyExchange),
            State::ClientSendsCertificateVerify => (Peer::Client, MessageType::CertificateVerify),
            State::ClientSendsChangeCipherSpec => (Peer::Client, MessageType::ChangeCipherSpec),
            State::ClientSendsFinished => (Peer::Client, MessageType::Finished),
            State::ServerSendsNewSessionTicket => (Peer::Server, MessageType::NewSessionTicket),
            State::ServerSendsChangeCipherSpec => (Peer::Server, MessageType::ChangeCipherSpec),
            State::ServerSendsFinished => (Peer::Server, MessageType::Finished),
            State::Term => vstd::pervasive::unreached(),
        }
    }
}

/// The transition rules: the state that follows `st` under `opts`.
pub open spec fn spec_step(st: State, opts: ProtocolOptions) -> State {
    match st {
        State::ClientSendsClientHello => State::ServerSendsServerHello,
        State::ServerSendsServerHello => if opts.resuming {
            if opts.server_issues_ticket {
                State::ServerSendsNewSessionTicket
            } else {
                State::ServerSendsFinished
            }
        } else if opts.dh_anon {
            State::ServerSendsServerKeyExchange
        } else {
            State::ServerSendsCertificate
        },
        State::ServerSendsCertificate => if opts.rsa_kem {
            if opts.request_client_auth {
                State::ServerSendsCertificateRequest
            } else {
                State::ServerSendsServerHelloDone
            }
        } else {
            State::ServerSendsServerKeyExchange
        },
        State::ServerSendsServerKeyExchange => if opts.request_client_auth {
            State::ServerSendsCertificateRequest
        } else {
            State::ServerSendsServerHelloDone
        },
        State::ServerSendsCertificateRequest => State::ServerSendsServerHelloDone,
        State::ServerSendsServerHelloDone => if opts.request_client_auth {
            State::ClientSendsCertificate
        } else {
            State::ClientSendsClientKeyExchange
        },
        State::ClientSendsCertificate => State::ClientSendsClientKeyExchange,
        State::ClientSendsClientKeyExchange => if opts.perform_client_auth {
            State::ClientSendsCertificateVerify
        } else {
            State::ClientSendsChangeCipherSpec
        },
        State::ClientSendsCertificateVerify => State::ClientSendsChangeCipherSpec,
        State::ClientSendsChangeCipherSpec => State::ClientSendsFinished,
        State::ClientSendsFinished => if opts.resuming {
            State::Term
        } else if opts.server_issues_ticket {
            State::ServerSendsNewSessionTicket
        } else {
            State::ServerSendsChangeCipherSpec
        },
        State::ServerSendsNewSessionTicket => State::ServerSendsChangeCipherSpec,
        State::ServerSendsChangeCipherSpec => State::ServerSendsFinished,
        State::ServerSendsFinished => if opts.resuming {
            State::ClientSendsChangeCipherSpec
        } else {
            State::Term
        },
        State::Term => State::Term,
    }
}

/// The state reached from `st` after `n` transitions under `opts`.
pub open spec fn run(st: State, opts: ProtocolOptions, n: nat) -> State
    decreases n,
{
    if n == 0 {
        st
    } else {
        run(spec_step(st, opts), opts, (n - 1) as nat)
    }
}

/// The next state of the handshake. Total and deterministic; `Term` is
/// absorbing.
pub fn step(st: State, opts: ProtocolOptions) -> (r: State)
    ensures
        r == spec_step(st, opts),
        st == State::Term ==> r == State::Term,
{
    match st {
        State::ClientSendsClientHello => State::ServerSendsServerHello,
        State::ServerSendsServerHello => {
            if opts.resuming {
                if opts.server_issues_ticket {
                    State::ServerSendsNewSessionTicket
                } else {
                    State::ServerSendsFinished
                }
            } else {
                if opts.dh_anon {
                    State::ServerSendsServerKeyExchange
                } else {
                    State::ServerSendsCertificate
                }
            }
        },
        State::ServerSendsCertificate => {
            if opts.rsa_kem {
                if opts.request_client_auth {
                    State::ServerSendsCertificateRequest
                } else {
                    State::ServerSendsServerHelloDone
                }
            } else {
                State::ServerSendsServerKeyExchange
            }
        },
        State::ServerSendsServerKeyExchange => {
            if opts.request_client_auth {
                State::ServerSendsCertificateRequest
            } else {
                State::ServerSendsServerHelloDone
            }
        },
        State::ServerSendsCertificateRequest => State::ServerSendsServerHelloDone,
        State::ServerSendsServerHelloDone => {
            if opts.request_client_auth {
                State::ClientSendsCertificate
            } else {
                State::ClientSendsClientKeyExchange
            }
        },
        State::ClientSendsCertificate => State::ClientSendsClientKeyExchange,
        State::ClientSendsClientKeyExchange => {
            if opts.perform_client_auth {
                State::ClientSendsCertificateVerify
            } else {
                State::ClientSendsChangeCipherSpec
            }
        },
        State::ClientSendsCertificateVerify => State::ClientSendsChangeCipherSpec,
        State::ClientSendsChangeCipherSpec => State::ClientSendsFinished,
        State::ClientSendsFinished => {
            if opts.resuming {
                State::Term
            } else {
                if opts.server_issues_ticket {
                    State::ServerSendsNewSessionTicket
                } else {
                    State::ServerSendsChangeCipherSpec
                }
            }
        },
        State::ServerSendsNewSessionTicket => State::ServerSendsChangeCipherSpec,
        State::ServerSendsChangeCipherSpec => State::ServerSendsFinished,
        State::ServerSendsFinished => {
            if opts.resuming {
                State::ClientSendsChangeCipherSpec
            } else {
                State::Term
            }
        },
        State::Term => State::Term,
    }
}

/// The states of a whole handshake under `opts`, from the client's hello up
/// to, and without, `Term`: the messages in the order they are sent.
pub fn handshake_states(opts: ProtocolOptions) -> (r: Vec<State>)
    ensures
        1 <= r@.len() <= 14,
        forall|i: int| 0 <= i < r@.len() ==> #[trigger] r@[i] == run(State::ClientSendsClientHello, opts, i as nat),
        forall|i: int| 0 <= i < r@.len() ==> #[trigger] r@[i] != State::Term,
        run(State::ClientSendsClientHello, opts, r@.len()) == State::Term,
{
    let ghost init = State::ClientSendsClientHello;
    let mut states: Vec<State> = Vec::new();
    let mut st = State::ClientSendsClientHello;
    proof {
        lemma_handshake_terminates(opts);
    }
    while st != State::Term
        invariant
            st == run(init, opts, states@.len() as nat),
            states@.len() + distance(st, opts) == distance(init, opts),
            distance(init, opts) <= 14,
            forall|i: int| 0 <= i < states@.len() ==> #[trigger] states@[i] == run(init, opts, i as nat),
            forall|i: int| 0 <= i < states@.len() ==> #[trigger] states@[i] != State::Term,
        decreases distance(st, opts),
    {
        proof {
            lemma_run_extend(init, opts, states@.len() as nat);
            lemma_step_closer(st, opts);
        }
        states.push(st);
        st = step(st, opts);
    }
    proof {
        lemma_step_closer(init, opts);
    }
    states
}

} // verus!
