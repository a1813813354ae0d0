use btc_regtest::harness::{
    choose_rpc_port, compose_file_name, render_template, rpc_url, RPC_PASSWORD, RPC_PORT_MAX,
    RPC_PORT_MIN, RPC_USER,
};
use btc_regtest::text::{decimal_bytes, replace_bytes};

#[test]
fn render_replaces_single_placeholder() {
    let template = b"ports:\n  - \"{RPC_PORT}:18443\"\n";
    let out = render_template(template, 50123);
    assert_eq!(out, b"ports:\n  - \"50123:18443\"\n".to_vec());
}

#[test]
fn render_replaces_every_placeholder() {
    let template = b"a{RPC_PORT}b{RPC_PORT}{RPC_PORT}c";
    let out = render_template(template, 49152);
    assert_eq!(out, b"a49152b4915249152c".to_vec());
}

#[test]
fn render_keeps_template_without_placeholder() {
    let template = b"services:\n  bitcoind:\n    image: x {RPC_POR} RPC_PORT}\n";
    let out = render_template(template, 65534);
    assert_eq!(out, template.to_vec());
}

#[test]
fn render_empty_template() {
    assert_eq!(render_template(b"", 50000), Vec::<u8>::new());
}

#[test]
fn render_placeholder_split_by_earlier_brace() {
    let out = render_template(b"{{RPC_PORT}}", 50001);
    assert_eq!(out, b"{50001}".to_vec());
}

#[test]
fn replace_with_empty_token_copies_input() {
    assert_eq!(replace_bytes(b"abc", b"", b"x"), b"abc".to_vec());
}

#[test]
fn decimal_digits_of_numbers() {
    assert_eq!(decimal_bytes(0), b"0".to_vec());
    assert_eq!(decimal_bytes(7), b"7".to_vec());
    assert_eq!(decimal_bytes(10), b"10".to_vec());
    assert_eq!(decimal_bytes(65534), b"65534".to_vec());
    assert_eq!(decimal_bytes(u64::MAX), b"18446744073709551615".to_vec());
}

#[test]
fn compose_file_name_holds_port() {
    assert_eq!(compose_file_name(50123), b"docker-compose-50123.yml".to_vec());
}

#[test]
fn rpc_url_points_at_local_port() {
    assert_eq!(rpc_url(49152), b"http://127.0.0.1:49152".to_vec());
}

#[test]
fn rpc_credentials_match_template() {
    assert_eq!(RPC_USER, "rpcuser");
    assert_eq!(RPC_PASSWORD, "rpcpassword");
}

#[test]
fn chosen_ports_stay_in_dynamic_range() {
    for _ in 0..2000 {
        let p = choose_rpc_port();
        assert!(p >= RPC_PORT_MIN && p <= RPC_PORT_MAX);
    }
    assert_eq!(RPC_PORT_MIN, 49152);
    assert_eq!(RPC_PORT_MAX, 65534);
}
