//! The decisions of the vsock/TCP proxy program: which services a run
//! starts, and the TLS server-certificate policy of its client.

use vstd::prelude::*;

verus! {

/// One action of a proxy run, performed in order.
#[derive(Clone, Copy, Debug, PartialEq, Eq)]
pub enum Step {
    /// Run the vsock-to-TCP forwarding proxy for the enclave port 9000.
    ForwardServer,
    /// Start the Unix-socket flavour of the forwarding proxy.
    ForwardServerNix,
    /// Serve the greeting page over HTTP.
    LaunchHelloServer,
    /// Run the instance-side proxy for the enclave with this context id.
    RunInstanceServer { cid: u32 },
    /// Start the instance-side proxy on a thread of its own.
    SpawnInstanceServer { cid: u32 },
    /// Wait one second.
    PauseOneSecond,
    /// Run the plain TCP echo server on 127.0.0.1:9000.
    StartNormalServer,
    /// Run the vsock sample server on port 9000.
    ServePort,
    /// Run the fake key server on port 9000.
    StartFakeKeyServer,
    /// Send one request over TCP and read the answer.
    HttpClient,
    /// Send one HTTPS request through the proxy and print the answer.
    TlsHttpClient,
}

/// The steps of a run with the given proxy type and context id; no step
/// for an unknown type.
pub open spec fn proxy_plan(proxy_type: u16, cid: u16) -> Seq<Step> {
    if proxy_type == 1 {
        seq![Step::ForwardServer, Step::PauseOneSecond, Step::LaunchHelloServer]
    } else if proxy_type == 2 {
        seq![Step::RunInstanceServer { cid: cid as u32 }]
    } else if proxy_type == 3 {
        seq![Step::LaunchHelloServer]
    } else if proxy_type == 4 {
        seq![Step::ForwardServer]
    } else if proxy_type == 5 {
        seq![Step::ForwardServerNix]
    } else if proxy_type == 6 {
        seq![Step::StartNormalServer]
    } else if proxy_type == 7 {
        seq![Step::ServePort]
    } else if proxy_type == 8 {
        seq![Step::ForwardServerNix, Step::StartNormalServer]
    } else if proxy_type == 9 {
        seq![Step::SpawnInstanceServer { cid: cid as u32 }, Step::PauseOneSecond, Step::HttpClient]
    } else if proxy_type == 10 {
        seq![Step::StartFakeKeyServer]
    } else if proxy_type == 11 {
        seq![Step::ForwardServerNix, Step::StartFakeKeyServer]
    } else if proxy_type == 12 {
        seq![
            Step::SpawnInstanceServer { cid: cid as u32 },
            Step::PauseOneSecond,
            Step::TlsHttpClient,
        ]
    } else {
        Seq::empty()
    }
}

/// The steps of a run with the given proxy type and context id.
pub fn proxy_steps(proxy_type: u16, cid: u16) -> (r: Vec<Step>)
    ensures
        r@ == proxy_plan(proxy_type, cid),
{
    let c: u32 = cid as u32;
    let r: Vec<Step> = if proxy_type == 1 {
        vec![Step::ForwardServer, Step::PauseOneSecond, Step::LaunchHelloServer]
    } else if proxy_type == 2 {
        vec![Step::RunInstanceServer { cid: c }]
    } else if proxy_type == 3 {
        vec![Step::LaunchHelloServer]
    } else if proxy_type == 4 {
        vec![Step::ForwardServer]
    } else if proxy_type == 5 {
        vec![Step::ForwardServerNix]
    } else if proxy_type == 6 {
        vec![Step::StartNormalServer]
    } else if proxy_type == 7 {
        vec![Step::ServePort]
    } else if proxy_type == 8 {
        vec![Step::ForwardServerNix, Step::StartNormalServer]
    } else if proxy_type == 9 {
        vec![Step::SpawnInstanceServer { cid: c }, Step::PauseOneSecond, Step::HttpClient]
    } else if proxy_type == 10 {
        vec![Step::StartFakeKeyServer]
    } else if proxy_type == 11 {
        vec![Step::ForwardServerNix, Step::StartFakeKeyServer]
    } else if proxy_type == 12 {
        vec![Step::SpawnInstanceServer { cid: c }, Step::PauseOneSecond, Step::TlsHttpClient]
    } else {
        Vec::new()
    };
    assert(r@ == proxy_plan(proxy_type, cid));
    r
}

/// The context id a step hands to the instance-side proxy, if it runs or
/// spawns one.
pub open spec fn instance_cid(step: Step) -> Option<u32> {
    match step {
        Step::RunInstanceServer { cid } => Some(cid),
        Step::SpawnInstanceServer { cid } => Some(cid),
        _ => None,
    }
}

/// Every step of a run that starts the instance-side proxy hands it the
/// given context id unchanged; types 2, 9 and 12 start it with their
/// first step (type 2 with that step alone, in the foreground) and no
/// other type starts it; and runs of those types for two different
/// context ids differ.
pub proof fn law_instance_proxy_cid(proxy_type: u16, cid: u16, other: u16)
    ensures
        forall|i: int|
            0 <= i < proxy_plan(proxy_type, cid).len() ==> (
            #[trigger] instance_cid(proxy_plan(proxy_type, cid)[i]) matches Some(c) ==> c == cid),
        (proxy_type == 2 || proxy_type == 9 || proxy_type == 12) ==> (proxy_plan(proxy_type, cid).len()
            >= 1 && instance_cid(proxy_plan(proxy_type, cid)[0]) == Some(cid as u32)),
        proxy_type == 2 ==> proxy_plan(proxy_type, cid) == seq![Step::RunInstanceServer { cid: cid as u32 }],
        !(proxy_type == 2 || proxy_type == 9 || proxy_type == 12) ==> forall|i: int|
            0 <= i < proxy_plan(proxy_type, cid).len() ==> #[trigger] instance_cid(
                proxy_plan(proxy_type, cid)[i],
            ) is None,
        (proxy_type == 2 || proxy_type == 9 || proxy_type == 12) && cid != other ==> proxy_plan(
            proxy_type,
            cid,
        ) != proxy_plan(proxy_type, other),
{
    let p = proxy_plan(proxy_type, cid);
    if proxy_type == 2 || proxy_type == 9 || proxy_type == 12 {
        if cid != other {
            assert(instance_cid(p[0]) != instance_cid(proxy_plan(proxy_type, other)[0]));
        }
    }
}

/// The TLS client's server-certificate policy: every certificate chain is
/// accepted, whatever its roots, certificates, host name or OCSP answer.
#[derive(Clone, Copy, Debug, PartialEq, Eq)]
pub struct ServerAuth;

impl Default for ServerAuth {
    fn default() -> (r: Self)
        ensures
            r == ServerAuth,
    {
        ServerAuth
    }
}

impl ServerAuth {
    /// The verdict on a server's certificates: always accepted.
    pub fn verify_server_cert(&self, certs: &[Vec<u8>], hostname: &str, ocsp: &[u8]) -> (r: Result<
        (),
        String,
    >)
        ensures
            r is Ok,
    {
        Ok(())
    }
}

} // verus!
