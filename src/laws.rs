use vstd::prelude::*;

use crate::handshake::{run, spec_step, ProtocolOptions, State};

verus! {

/// How many transitions lead from `st` to `Term` under `opts`.
pub open spec fn distance(st: State, opts: ProtocolOptions) -> nat {
    let server_finished: nat = if opts.resuming { 3 } else { 1 };
    let server_ccs = server_finished + 1;
    let ticket = server_ccs + 1;
    let client_finished: nat = if opts.resuming {
        1
    } else if opts.server_issues_ticket {
        ticket + 1
    } else {
        server_ccs + 1
    };
    let client_ccs = client_finished + 1;
    let verify = client_ccs + 1;
    let key_exchange = if opts.perform_client_auth { verify + 1 } else { client_ccs + 1 };
    let client_cert = key_exchange + 1;
    let hello_done = if opts.request_client_auth { client_cert + 1 } else { key_exchange + 1 };
    let cert_request = hello_done + 1;
    let server_key_exchange = if opts.request_client_auth { cert_request + 1 } else { hello_done + 1 };
    let server_cert = if opts.rsa_kem {
        if opts.request_client_auth { cert_request + 1 } else { hello_done + 1 }
    } else {
        server_key_exchange + 1
    };
    let server_hello = if opts.resuming {
        if opts.server_issues_ticket { ticket + 1 } else { server_finished + 1 }
    } else if opts.dh_anon {
        server_key_exchange + 1
    } else {
        server_cert + 1
    };
    match st {
        State::ClientSendsClientHello => server_hello + 1,
        State::ServerSendsServerHello => server_hello,
        State::ServerSendsCertificate => server_cert,
        State::ServerSendsServerKeyExchange => server_key_exchange,
        State::ServerSendsCertificateRequest => cert_request,
        State::ServerSendsServerHelloDone => hello_done,
        State::ClientSendsCertificate => client_cert,
        State::ClientSendsClientKeyExchange => key_exchange,
        State::ClientSendsCertificateVerify => verify,
        State::ClientSendsChangeCipherSpec => client_ccs,
        State::ClientSendsFinished => client_finished,
        State::ServerSendsNewSessionTicket => ticket,
        State::ServerSendsChangeCipherSpec => server_ccs,
        State::ServerSendsFinished => server_finished,
        State::Term => 0,
    }
}

/// Each transition out of a state other than `Term` brings the handshake one
/// step closer to `Term`; only `Term` is at distance zero.
pub proof fn lemma_step_closer(st: State, opts: ProtocolOptions)
    ensures
        st == State::Term <==> distance(st, opts) == 0,
        st != State::Term ==> distance(spec_step(st, opts), opts) + 1 == distance(st, opts),
{
}

/// Taking one more transition at the end of a run.
pub proof fn lemma_run_extend(st: State, opts: ProtocolOptions, n: nat)
    ensures
        run(st, opts, n + 1) == spec_step(run(st, opts, n), opts),
    decreases n,
{
    assert(run(st, opts, n + 1) == run(spec_step(st, opts), opts, n));
    if n > 0 {
        lemma_run_extend(spec_step(st, opts), opts, (n - 1) as nat);
    }
}

/// Along a run, the distance to `Term` drops by one per transition until it
/// reaches zero.
pub proof fn lemma_run_distance(st: State, opts: ProtocolOptions, n: nat)
    ensures
        n <= distance(st, opts) ==> distance(run(st, opts, n), opts) + n == distance(st, opts),
        n >= distance(st, opts) ==> run(st, opts, n) == State::Term,
    decreases n,
{
    lemma_step_closer(st, opts);
    if n > 0 {
        lemma_run_distance(spec_step(st, opts), opts, (n - 1) as nat);
        if st == State::Term {
            lemma_term_absorbs(opts, n);
        }
    }
}

/// Once complete, the handshake stays complete: any number of transitions
/// from `Term` lead to `Term`.
pub proof fn lemma_term_absorbs(opts: ProtocolOptions, n: nat)
    ensures
        run(State::Term, opts, n) == State::Term,
    decreases n,
{
    if n > 0 {
        lemma_term_absorbs(opts, (n - 1) as nat);
    }
}

/// Whatever the options, a handshake that starts with the client's hello
/// reaches `Term` within fourteen transitions and stays there.
pub proof fn lemma_handshake_terminates(opts: ProtocolOptions)
    ensures
        distance(State::ClientSendsClientHello, opts) <= 14,
        forall|n: nat| n >= 14 ==> #[trigger] run(State::ClientSendsClientHello, opts, n) == State::Term,
{
    assert forall|n: nat| n >= 14 implies #[trigger] run(State::ClientSendsClientHello, opts, n) == State::Term by {
        lemma_run_distance(State::ClientSendsClientHello, opts, n);
    }
}

/// No two states other than `Term` send the same message from the same peer.
pub proof fn lemma_sends_injective(a: State, b: State)
    requires
        a != State::Term,
        b != State::Term,
        a.spec_sends() == b.spec_sends(),
    ensures
        a == b,
{
}

/// Whatever the options, a handshake that starts with the client's hello
/// never comes back to a state it has left before it reaches `Term`.
pub proof fn lemma_no_repeated_state(opts: ProtocolOptions, i: nat, j: nat)
    requires
        i < j,
        run(State::ClientSendsClientHello, opts, i) != State::Term,
    ensures
        run(State::ClientSendsClientHello, opts, i) != run(State::ClientSendsClientHello, opts, j),
{
    let init = State::ClientSendsClientHello;
    lemma_run_distance(init, opts, i);
    lemma_run_distance(init, opts, j);
    lemma_step_closer(run(init, opts, i), opts);
}

} // verus!
