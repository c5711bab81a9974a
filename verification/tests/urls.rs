use command_gateway::urls::probe_url;
use command_gateway::urls::relay_url;
use command_gateway::urls::u16_decimal;

#[test]
fn probe_url_holds_host_and_port() {
    assert_eq!(probe_url("192.168.1.10", 3000), "http://192.168.1.10:3000");
}

#[test]
fn port_bounds_render_in_decimal() {
    assert_eq!(u16_decimal(0), "0");
    assert_eq!(u16_decimal(7), "7");
    assert_eq!(u16_decimal(80), "80");
    assert_eq!(u16_decimal(65535), "65535");
}

#[test]
fn probe_url_with_port_zero() {
    assert_eq!(probe_url("example.test", 0), "http://example.test:0");
}

#[test]
fn relay_url_uses_the_fixed_endpoint() {
    assert_eq!(relay_url("10.0.0.7"), "http://10.0.0.7:3000/exec");
}
