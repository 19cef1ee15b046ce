use aether_void_net::options::{BufSize, ChannelCap, NetAddr, NetConfig, NetPort, NodeConfig};
use aether_void_net::utils::{
    create_node_config, match_addr, match_buf_size, match_channel_cap, match_port,
    DEF_BUFFER_SIZE, DEF_CHANNEL_CAP, DEF_NET_ADDR, DEF_NET_PORT,
};

#[test]
fn defaults_have_documented_values() {
    assert_eq!(DEF_BUFFER_SIZE, 65536);
    assert_eq!(DEF_NET_ADDR, "0.0.0.0");
    assert_eq!(DEF_NET_PORT, 8080);
    assert_eq!(DEF_CHANNEL_CAP, 256);
}

#[test]
fn match_port_default_and_explicit() {
    assert_eq!(match_port(NetPort::Default), 8080);
    assert_eq!(match_port(NetPort::New(0)), 0);
    assert_eq!(match_port(NetPort::New(65535)), 65535);
}

#[test]
fn match_buf_size_default_and_explicit() {
    assert_eq!(match_buf_size(BufSize::Default), 65536);
    assert_eq!(match_buf_size(BufSize::New(1500)), 1500);
}

#[test]
fn match_channel_cap_default_and_explicit() {
    assert_eq!(match_channel_cap(ChannelCap::Default), 256);
    assert_eq!(match_channel_cap(ChannelCap::New(1)), 1);
}

#[test]
fn match_addr_joins_host_and_port() {
    assert_eq!(match_addr(NetAddr::Default, 8080), "0.0.0.0:8080");
    assert_eq!(match_addr(NetAddr::New("127.0.0.1".to_string()), 9000), "127.0.0.1:9000");
    assert_eq!(match_addr(NetAddr::New("::1".to_string()), 0), "::1:0");
    assert_eq!(match_addr(NetAddr::New(String::new()), 65535), ":65535");
    assert_eq!(match_addr(NetAddr::Default, 7), "0.0.0.0:7");
    assert_eq!(match_addr(NetAddr::Default, 10), "0.0.0.0:10");
}

#[test]
fn default_config_resolves_to_defaults() {
    let config = create_node_config(NetConfig::default());
    assert_eq!(config, NodeConfig::new("0.0.0.0:8080".to_string(), 256, 65536));
}

#[test]
fn explicit_config_resolves_to_choices() {
    let net_config = NetConfig::new(
        NetPort::New(4000),
        ChannelCap::New(16),
        NetAddr::New("10.0.0.2".to_string()),
        BufSize::New(2048),
    );
    let config = create_node_config(net_config);
    assert_eq!(config.net_addr, "10.0.0.2:4000");
    assert_eq!(config.channel_cap, 16);
    assert_eq!(config.buf_size, 2048);
}

#[test]
fn mixed_config_resolves_each_choice() {
    let net_config = NetConfig::new(
        NetPort::Default,
        ChannelCap::Default,
        NetAddr::New("127.0.0.1".to_string()),
        BufSize::Default,
    );
    let config = create_node_config(net_config);
    assert_eq!(config.net_addr, "127.0.0.1:8080");
    assert_eq!(config.channel_cap, 256);
    assert_eq!(config.buf_size, 65536);
}

#[test]
fn net_config_default_is_all_default() {
    let c = NetConfig::default();
    assert_eq!(c.net_port, NetPort::Default);
    assert_eq!(c.channel_cap, ChannelCap::Default);
    assert_eq!(c.net_addr, NetAddr::Default);
    assert_eq!(c.buf_size, BufSize::Default);
}

#[test]
fn node_config_new_keeps_fields() {
    let c = NodeConfig::new("a:1".to_string(), 3, 4);
    assert_eq!(c.net_addr, "a:1");
    assert_eq!(c.channel_cap, 3);
    assert_eq!(c.buf_size, 4);
}
