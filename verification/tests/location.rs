use benchbot::location::{node_location, node_role_label, NodeLocation};

#[test]
fn known_addresses_have_known_locations() {
    assert_eq!(node_location("192.168.1.7:8001"), NodeLocation::Local);
    assert_eq!(node_location("148.153.36.220:8001"), NodeLocation::UsNewYork);
    assert_eq!(node_location("148.153.50.162:8001"), NodeLocation::DeFrankfurt);
    assert_eq!(node_location("148.153.25.50:8001"), NodeLocation::NeAmsterdam);
    assert_eq!(node_location("164.52.39.162:8001"), NodeLocation::SgSingapore);
    assert_eq!(node_location("118.186.39.238:8001"), NodeLocation::CnPeking);
}

#[test]
fn other_addresses_are_unknown() {
    assert_eq!(node_location("127.0.0.1:8001"), NodeLocation::Unknown);
    assert_eq!(node_location("148.153.36.221:8001"), NodeLocation::Unknown);
    assert_eq!(node_location("[::1]:8001"), NodeLocation::Unknown);
    assert_eq!(node_location(""), NodeLocation::Unknown);
}

#[test]
fn padding_joins_the_last_field() {
    // The last field gets the padding spaces, so it no longer matches.
    assert_eq!(node_location("192.168"), NodeLocation::Unknown);
    assert_eq!(node_location("192.168."), NodeLocation::Local);
}

#[test]
fn labels() {
    assert_eq!(NodeLocation::Local.name(), "LOCAL");
    assert_eq!(NodeLocation::Unknown.name(), "Node Location");
    assert_eq!(NodeLocation::NeAmsterdam.name(), "NE_ARMSTERDAM");
    assert_eq!(node_role_label(true), "Node's Roles");
    assert_eq!(node_role_label(false), "Node's Roles");
}
