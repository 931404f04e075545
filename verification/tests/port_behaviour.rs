use ports_adapters::adapters::{DefaultAdapter, OtherAdapter, TestAdapter};
use ports_adapters::port::{consume_the_port, Port};

// The port behaviour expected of every adapter: consuming it reports success.
fn test_port_adapter_behaviour<P: Port>(p: &mut P) {
    let consumed = consume_the_port(p);
    assert!(consumed)
}

#[test]
fn test_adapter_do_something() {
    let mut port_adapter = TestAdapter(false);
    test_port_adapter_behaviour(&mut port_adapter)
}

#[test]
fn default_adapter_do_something() {
    let mut port_adapter = DefaultAdapter(false);
    test_port_adapter_behaviour(&mut port_adapter)
}

#[test]
fn other_adapter_do_something() {
    let mut port_adapter = OtherAdapter(false);
    test_port_adapter_behaviour(&mut port_adapter)
}
