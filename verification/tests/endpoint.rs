use ics721::endpoint::{get_endpoint_prefix, IbcEndpoint, try_pop_source_prefix};

#[test]
fn test_pop_source_simple() {
    assert_eq!(
        try_pop_source_prefix(
            &IbcEndpoint {
                port_id: "wasm.address1".to_string(),
                channel_id: "channel-10".to_string(),
            },
            "wasm.address1/channel-10/address2"
        ),
        Some("address2")
    )
}

#[test]
fn test_pop_source_adversarial() {
    // Empty string.
    assert_eq!(
        try_pop_source_prefix(
            &IbcEndpoint {
                port_id: "wasm.address1".to_string(),
                channel_id: "channel-10".to_string(),
            },
            ""
        ),
        None
    );

    // Non-ASCII
    assert_eq!(
        try_pop_source_prefix(
            &IbcEndpoint {
                port_id: "wasm.address1".to_string(),
                channel_id: "channel-10".to_string(),
            },
            "☯️☯️"
        ),
        None
    );

    // Invalid classID from prohibited '/' characters.
    assert_eq!(
        try_pop_source_prefix(
            &IbcEndpoint {
                port_id: "wasm.address1".to_string(),
                channel_id: "channel-10".to_string(),
            },
            "wasm.addre//1/channel-10/addre//2"
        ),
        None
    );
}

fn endpoint(port_id: &str, channel_id: &str) -> IbcEndpoint {
    IbcEndpoint { port_id: port_id.to_string(), channel_id: channel_id.to_string() }
}

#[test]
fn prefix_is_port_slash_channel_slash() {
    assert_eq!(get_endpoint_prefix(&endpoint("wasm.address1", "channel-10")), "wasm.address1/channel-10/");
    assert_eq!(get_endpoint_prefix(&endpoint("", "")), "//");
    assert_eq!(get_endpoint_prefix(&endpoint("☯️", "c")), "☯️/c/");
}

#[test]
fn pop_undoes_push_for_any_suffix() {
    let cases = [
        ("wasm.address1", "channel-10"),
        ("", ""),
        ("a/b", "c/d"),
        ("☯️", "channel-0"),
    ];
    let suffixes = ["", "cats", "a/b/c", "☯️☯️", "wasm.address1/channel-10/cats", "/"];
    for (port_id, channel_id) in cases {
        let e = endpoint(port_id, channel_id);
        for suffix in suffixes {
            let class_id = format!("{}{}", get_endpoint_prefix(&e), suffix);
            assert_eq!(try_pop_source_prefix(&e, &class_id), Some(suffix));
        }
    }
}

#[test]
fn pop_pops_one_prefix_only() {
    let e = endpoint("p", "c");
    assert_eq!(try_pop_source_prefix(&e, "p/c/p/c/x"), Some("p/c/x"));
    assert_eq!(try_pop_source_prefix(&e, "p/c/"), Some(""));
}

#[test]
fn pop_needs_the_whole_prefix_at_the_front() {
    let e = endpoint("wasm.address1", "channel-10");
    for class_id in [
        "wasm.address1/channel-10",
        "wasm.address1/channel-1/cats",
        "wasm.address1/channel-100/cats",
        "xwasm.address1/channel-10/cats",
        " wasm.address1/channel-10/cats",
        "cats/wasm.address1/channel-10/",
        "WASM.ADDRESS1/CHANNEL-10/cats",
        "/",
    ] {
        assert_eq!(try_pop_source_prefix(&e, class_id), None);
    }
}
