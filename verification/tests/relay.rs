use shiki::rtc::{ClientAddr, Relay};

fn v4(port: u16) -> ClientAddr {
    ClientAddr::V4 { octets: 0x7f000001, port }
}

fn v6(scope_id: u32) -> ClientAddr {
    ClientAddr::V6 { segments: 1, port: 9, flowinfo: 0, scope_id }
}

fn sorted(mut list: Vec<ClientAddr>) -> Vec<String> {
    let mut names: Vec<String> = list.drain(..).map(|c| format!("{c:?}")).collect();
    names.sort();
    names
}

#[test]
fn first_client_has_nobody_to_talk_to() {
    let mut relay = Relay::new();
    assert!(relay.packet_received(v4(1)).is_empty());
    assert!(relay.packet_received(v4(1)).is_empty());
}

#[test]
fn packets_go_to_all_others_once() {
    let mut relay = Relay::new();
    relay.packet_received(v4(1));
    relay.packet_received(v4(2));
    relay.packet_received(v6(1));
    relay.packet_received(v6(2));
    relay.packet_received(v4(1));
    assert_eq!(sorted(relay.packet_received(v4(1))), sorted(vec![v4(2), v6(1), v6(2)]));
    assert_eq!(sorted(relay.packet_received(v6(2))), sorted(vec![v4(1), v4(2), v6(1)]));
}

#[test]
fn clients_that_fail_are_forgotten() {
    let mut relay = Relay::new();
    for client in [v4(1), v4(2), v4(3)] {
        relay.packet_received(client);
    }
    relay.sends_failed(&vec![v4(2), v4(9)]);
    assert_eq!(relay.packet_received(v4(1)), vec![v4(3)]);
    relay.sends_failed(&vec![]);
    assert_eq!(relay.packet_received(v4(3)), vec![v4(1)]);
    assert_eq!(sorted(relay.packet_received(v4(2))), sorted(vec![v4(1), v4(3)]));
}
