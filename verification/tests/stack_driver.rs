use embassy_net::config::{Config, Configurator, Ipv4Address, Ipv4Cidr, StaticConfigurator, UpConfig};
use embassy_net::device::{Device, DeviceCaps, Medium, Phy};
use embassy_net::packet_pool::{PacketBox, PacketPool, MTU};
use embassy_net::stack::{init, port_from_entropy, LOCAL_PORT_MAX, LOCAL_PORT_MIN};

/// Simulated driver whose link state the test scripts.
struct SimPhy {
    link: bool,
    medium: Medium,
}

impl Phy for SimPhy {
    fn caps_spec(&self) -> DeviceCaps {
        self.capabilities()
    }

    fn is_link_up(&mut self) -> bool {
        self.link
    }

    fn capabilities(&self) -> DeviceCaps {
        DeviceCaps { medium: self.medium, mtu: MTU, checksum_offload: false }
    }

    fn can_transmit(&mut self) -> bool {
        false
    }

    fn can_receive(&mut self) -> bool {
        false
    }

    fn receive(&mut self, _pool: &mut PacketPool) -> Option<(PacketBox, usize)> {
        None
    }

    fn transmit(&mut self, _pool: &mut PacketPool, _pkt: PacketBox, _len: usize) {
        unreachable!("the simulated driver never accepts a frame");
    }
}

fn up_config() -> UpConfig {
    UpConfig {
        address: Ipv4Cidr { address: Ipv4Address(192, 168, 0, 2), prefix_len: 24 },
        gateway: Ipv4Address(192, 168, 0, 1),
        dns_servers: vec![],
    }
}

#[test]
fn local_port_wraps_from_max_to_min() {
    // Starting from port 65535 the next issued port is 1025.
    let device = Device::new(SimPhy { link: false, medium: Medium::Ethernet });
    let configurator = StaticConfigurator::new(up_config());
    let mut stack = init(device, configurator, LOCAL_PORT_MAX);
    assert_eq!(stack.get_local_port(), 65535);
    assert_eq!(stack.get_local_port(), 1025);
}

#[test]
fn local_port_advances_by_one() {
    // Starting from port 1025 the next issued port is 1026.
    let device = Device::new(SimPhy { link: false, medium: Medium::Ethernet });
    let configurator = StaticConfigurator::new(up_config());
    let mut stack = init(device, configurator, LOCAL_PORT_MIN);
    assert_eq!(stack.get_local_port(), 1025);
    assert_eq!(stack.get_local_port(), 1026);
}

#[test]
fn port_entropy_accepts_only_the_ephemeral_range() {
    assert_eq!(port_from_entropy(0xff, 0xff), Some(65535));
    assert_eq!(port_from_entropy(0x01, 0x04), Some(1025));
    assert_eq!(port_from_entropy(0x00, 0x04), None);
    assert_eq!(port_from_entropy(0x00, 0x00), None);
    assert_eq!(port_from_entropy(0x39, 0x30), Some(0x3039));
}

#[test]
fn configuration_applied_once_then_idempotent() {
    // A configurator answering the same Up value on consecutive ticks
    // leaves the tables identical: the change events fire exactly once.
    let device = Device::new(SimPhy { link: true, medium: Medium::Ethernet });
    let configurator = StaticConfigurator::new(up_config());
    let mut stack = init(device, configurator, 2000);

    let first = stack.poll();
    assert!(first.link_changed, "link came up on the first tick");
    assert!(first.addr_changed, "address installed on the first tick");
    assert!(first.gateway_changed, "gateway installed on the first tick");

    for _ in 0..3 {
        let again = stack.poll();
        assert!(!again.link_changed);
        assert!(!again.addr_changed, "unchanged configuration must not rewrite the address");
        assert!(!again.gateway_changed, "unchanged configuration must not rewrite the route");
    }
}

#[test]
fn non_ethernet_medium_never_manages_gateway() {
    let device = Device::new(SimPhy { link: true, medium: Medium::Ip });
    let configurator = StaticConfigurator::new(up_config());
    let mut stack = init(device, configurator, 2000);
    let first = stack.poll();
    assert!(first.addr_changed);
    assert!(!first.gateway_changed, "no default route on a non-Ethernet medium");
}

/// Configurator scripted to answer a fixed sequence, `None` once the
/// script is exhausted.
struct ScriptedConfigurator {
    answers: Vec<Option<Config>>,
    at: usize,
}

impl Configurator for ScriptedConfigurator {
    fn inv(&self) -> bool {
        true
    }

    fn poll(&mut self, _link_up: bool) -> Option<Config> {
        let a = if self.at < self.answers.len() {
            self.answers[self.at].take()
        } else {
            None
        };
        self.at += 1;
        a
    }
}

#[test]
fn no_answer_retains_previous_configuration() {
    let device = Device::new(SimPhy { link: true, medium: Medium::Ethernet });
    let configurator = ScriptedConfigurator {
        answers: vec![Some(Config::Up(up_config())), None, Some(Config::Down)],
        at: 0,
    };
    let mut stack = init(device, configurator, 2000);

    let first = stack.poll();
    assert!(first.addr_changed && first.gateway_changed);

    let second = stack.poll();
    assert!(!second.addr_changed && !second.gateway_changed, "None retains the configuration");

    let third = stack.poll();
    assert!(third.addr_changed, "Down reinstalls the unspecified placeholder");
    assert!(third.gateway_changed, "Down removes the default route");
}
