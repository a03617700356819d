use hypr_overlay_wl::latency::{LatencyProbe, TcpPing};

#[test]
fn tcp_ping_label() {
    let p = TcpPing::new("discord.com:443");
    assert_eq!(p.label(), "TCP ping");
}

#[test]
fn tcp_ping_new_stores_host() {
    let p = TcpPing::new("example.com:80");
    assert_eq!(p.host, "example.com:80");
}

struct MockProbe {
    result: Option<u32>,
}

impl LatencyProbe for MockProbe {
    fn measure(&self) -> Option<u32> {
        self.result
    }
    fn label(&self) -> &str {
        "mock"
    }
}

#[test]
fn trait_object_returns_value() {
    let probe: Box<dyn LatencyProbe> = Box::new(MockProbe { result: Some(99) });
    assert_eq!(probe.measure(), Some(99));
    assert_eq!(probe.label(), "mock");
}

#[test]
fn trait_object_returns_none() {
    let probe: Box<dyn LatencyProbe> = Box::new(MockProbe { result: None });
    assert!(probe.measure().is_none());
}

#[test]
fn different_probes_satisfy_same_trait() {
    let probes: Vec<Box<dyn LatencyProbe>> = vec![
        Box::new(MockProbe { result: Some(10) }),
        Box::new(MockProbe { result: Some(20) }),
        Box::new(MockProbe { result: None }),
    ];
    assert_eq!(probes[0].measure(), Some(10));
    assert_eq!(probes[1].measure(), Some(20));
    assert!(probes[2].measure().is_none());
}
