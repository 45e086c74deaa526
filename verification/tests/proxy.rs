use nitro_ra::proxy::{proxy_steps, Step};
use nitro_ra::ServerAuth;

#[test]
fn forward_then_hello() {
    assert_eq!(
        proxy_steps(1, 3),
        vec![Step::ForwardServer, Step::PauseOneSecond, Step::LaunchHelloServer]
    );
}

#[test]
fn instance_server_takes_cid() {
    assert_eq!(proxy_steps(2, 16), vec![Step::RunInstanceServer { cid: 16 }]);
    assert_eq!(
        proxy_steps(12, 7),
        vec![Step::SpawnInstanceServer { cid: 7 }, Step::PauseOneSecond, Step::TlsHttpClient]
    );
    assert_eq!(
        proxy_steps(9, 65535),
        vec![Step::SpawnInstanceServer { cid: 65535 }, Step::PauseOneSecond, Step::HttpClient]
    );
}

#[test]
fn single_services() {
    assert_eq!(proxy_steps(3, 0), vec![Step::LaunchHelloServer]);
    assert_eq!(proxy_steps(4, 0), vec![Step::ForwardServer]);
    assert_eq!(proxy_steps(5, 0), vec![Step::ForwardServerNix]);
    assert_eq!(proxy_steps(6, 0), vec![Step::StartNormalServer]);
    assert_eq!(proxy_steps(7, 0), vec![Step::ServePort]);
    assert_eq!(proxy_steps(10, 0), vec![Step::StartFakeKeyServer]);
}

#[test]
fn combined_services() {
    assert_eq!(proxy_steps(8, 0), vec![Step::ForwardServerNix, Step::StartNormalServer]);
    assert_eq!(proxy_steps(11, 0), vec![Step::ForwardServerNix, Step::StartFakeKeyServer]);
}

#[test]
fn unknown_type_does_nothing() {
    assert_eq!(proxy_steps(0, 1), vec![]);
    assert_eq!(proxy_steps(13, 1), vec![]);
    assert_eq!(proxy_steps(u16::MAX, 1), vec![]);
}

#[test]
fn server_certificates_always_accepted() {
    let auth = ServerAuth::default();
    assert_eq!(auth, ServerAuth);
    assert_eq!(auth.verify_server_cert(&[], "baidu.com", &[]), Ok(()));
    assert_eq!(auth.verify_server_cert(&[vec![1, 2, 3]], "", &[9]), Ok(()));
}
