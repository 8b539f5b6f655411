use tunelo::authentication::{Authentication, AuthenticationManager, AuthenticationMethod};
use tunelo::common::utils::{safe_duration, Duration};
use tunelo::net::{Ipv4Address, SocketAddress};

#[test]
fn zero_duration_sets_no_limit() {
    assert_eq!(safe_duration(Duration::from_secs(0)), None);
    assert_eq!(safe_duration(Duration::zero()), None);
    assert_eq!(safe_duration(Duration::from_millis(1)), Some(Duration::from_millis(1)));
    assert_eq!(safe_duration(Duration::from_secs(3)), Some(Duration::new(2, 1_000_000_000)));
}

#[test]
fn durations() {
    let d = Duration::from_millis(2_500);
    assert_eq!(d.as_secs(), 2);
    assert_eq!(d.subsec_nanos(), 500_000_000);
    assert!(Duration::new(0, 0).is_zero());
    assert!(!Duration::new(0, 1).is_zero());
}

#[test]
fn authentication_manager() {
    let m = AuthenticationManager::new();
    assert!(!m.authenticate(Authentication::UsernamePassword {
        user_name: b"user".to_vec(),
        password: b"pass".to_vec()
    }));
    assert!(!m.authenticate(Authentication::Token { token: b"t".to_vec() }));
    let d = AuthenticationManager::default();
    let addr = SocketAddress::V4 { ip: Ipv4Address(127, 0, 0, 1), port: 1080 };
    assert_eq!(d.supported_method(&addr), AuthenticationMethod::NoAuthentication);
}
