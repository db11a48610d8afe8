use tls12::{step, ProtocolOptions, State};

fn print(opts: ProtocolOptions) {
    let mut state = State::default();
    loop {
        let send = state.sends();
        println!("{:?} sends {:?}", send.0, send.1);
        let next = step(state, opts);
        if next == State::Term {
            break;
        }
        state = next;
    }
}

#[test]
fn resume() {
    print(ProtocolOptions { resuming: true, ..Default::default() });
}

#[test]
fn full() {
    print(ProtocolOptions::default());
}

#[test]
fn request_client_auth() {
    print(ProtocolOptions { request_client_auth: true, ..Default::default() });
}

#[test]
fn perform_client_auth() {
    print(ProtocolOptions {
        request_client_auth: true,
        perform_client_auth: true,
        ..Default::default()
    });
}

#[test]
fn resumes_and_issues_ticket() {
    print(ProtocolOptions {
        resuming: true,
        server_issues_ticket: true,
        ..Default::default()
    });
}

fn linearise(opts: ProtocolOptions) {
    let mut state = State::default();
    let mut v = Vec::new();
    loop {
        let send = state.sends();
        v.push((state, send.0, send.1));
        let next = step(state, opts);
        if next == State::Term {
            break;
        }
        state = next;
    }

    let mut line = String::new();
    for (st, _peer, _msg) in v {
        line.push_str(&format!("{:?} < ", st));
    }
    println!("{}", line);
}

#[test]
fn rustls_subset() {
    for resume in &[true, false] {
        for ticket in &[true, false] {
            for (req_client_auth, do_client_auth) in &[(false, false), (true, false), (true, true)] {
                let opts = ProtocolOptions {
                    resuming: *resume,
                    server_issues_ticket: *ticket,
                    request_client_auth: *req_client_auth,
                    perform_client_auth: *do_client_auth,
                    ..Default::default()
                };
                linearise(opts);
            }
        }
    }
}
