use channel_bootstrap::bootstrap::{ChannelPhase, ConnectionPhase};
use channel_bootstrap::channel::{BaseChannel, Channel, ChannelOrdering, ChannelRequest, ChannelSide};
use channel_bootstrap::errors::{BootstrapError, Side};
use channel_bootstrap::identifiers::{ChannelId, PortId};
use channel_bootstrap::tagged::DualTagged;

/// Role marker for the first chain of the test pair.
struct ChainA;

/// Role marker for the second chain of the test pair.
struct ChainB;

fn begin_transfer_ports() -> ConnectionPhase<ChainA, ChainB> {
    ConnectionPhase::begin(
        PortId::new(String::from("transfer")),
        PortId::new(String::from("transfer")),
    )
}

fn reach_channel_phase() -> (ChannelPhase<ChainA, ChainB>, ChannelRequest) {
    begin_transfer_ports()
        .connection_built(Ok(()))
        .expect("a success outcome moves the bootstrap to its channel phase")
}

fn built_channel(id_a: Option<&str>, id_b: Option<&str>) -> BaseChannel {
    BaseChannel {
        a_side: ChannelSide {
            channel_id: id_a.map(|id| ChannelId::new(String::from(id)).unwrap()),
        },
        b_side: ChannelSide {
            channel_id: id_b.map(|id| ChannelId::new(String::from(id)).unwrap()),
        },
    }
}

#[test]
fn bootstrap_returns_tagged_ids_and_ports() {
    let (phase, _request) = reach_channel_phase();
    let record: Channel<ChainA, ChainB> = phase
        .channel_built(Ok(built_channel(Some("channel-0"), Some("channel-1"))))
        .expect("both identifiers assigned, so the bootstrap succeeds");

    let id_a: &DualTagged<ChainA, ChainB, ChannelId> = &record.channel_id_a;
    let id_b: &DualTagged<ChainB, ChainA, ChannelId> = &record.channel_id_b;
    assert_eq!(id_a.value.as_str(), "channel-0");
    assert_eq!(id_b.value.as_str(), "channel-1");

    let port_a: &DualTagged<ChainA, ChainB, PortId> = &record.port_a;
    let port_b: &DualTagged<ChainB, ChainA, PortId> = &record.port_b;
    assert_eq!(port_a.value.as_str(), "transfer");
    assert_eq!(port_b.value.as_str(), "transfer");

    assert_eq!(
        record.channel.a_side.channel_id.as_ref().map(|id| id.as_str()),
        Some("channel-0"),
    );
    assert_eq!(
        record.channel.b_side.channel_id.as_ref().map(|id| id.as_str()),
        Some("channel-1"),
    );
}

#[test]
fn successful_bootstrap_ids_are_present_and_non_empty() {
    let (phase, _request) = reach_channel_phase();
    let record = phase
        .channel_built(Ok(built_channel(Some("channel-0"), Some("channel-1"))))
        .expect("both identifiers assigned, so the bootstrap succeeds");
    assert!(!record.channel_id_a.value.as_str().is_empty());
    assert!(!record.channel_id_b.value.as_str().is_empty());
}

#[test]
fn channel_request_unwraps_ports_with_defaults() {
    let (_phase, request) = reach_channel_phase();
    assert_eq!(request.ordering, ChannelOrdering::Unordered);
    assert_eq!(request.port_a.as_str(), "transfer");
    assert_eq!(request.port_b.as_str(), "transfer");
    assert_eq!(request.version, None);
}

#[test]
fn connection_failure_propagates_verbatim() {
    let outcome = begin_transfer_ports().connection_built(Err(String::from(
        "connection handshake rejected by chain",
    )));
    let err = outcome.err().expect("a failed connection build fails the bootstrap");
    assert_eq!(
        err,
        BootstrapError::ConnectionBuildFailure(String::from(
            "connection handshake rejected by chain",
        )),
    );
}

#[test]
fn channel_failure_propagates_verbatim() {
    let (phase, _request) = reach_channel_phase();
    let err = phase
        .channel_built(Err(String::from("channel handshake timed out")))
        .err()
        .expect("a failed channel build fails the bootstrap");
    assert_eq!(
        err,
        BootstrapError::ChannelBuildFailure(String::from("channel handshake timed out")),
    );
}

#[test]
fn missing_id_on_side_a_names_side_a() {
    let (phase, _request) = reach_channel_phase();
    let err = phase
        .channel_built(Ok(built_channel(None, Some("channel-1"))))
        .err()
        .expect("a missing identifier fails the bootstrap");
    assert_eq!(err, BootstrapError::MissingChannelId(Side::A));
    assert_ne!(err, BootstrapError::MissingChannelId(Side::B));
}

#[test]
fn missing_id_on_side_b_names_side_b() {
    let (phase, _request) = reach_channel_phase();
    let err = phase
        .channel_built(Ok(built_channel(Some("channel-0"), None)))
        .err()
        .expect("a missing identifier fails the bootstrap");
    assert_eq!(err, BootstrapError::MissingChannelId(Side::B));
}

#[test]
fn missing_both_ids_names_side_a_first() {
    let (phase, _request) = reach_channel_phase();
    let err = phase
        .channel_built(Ok(built_channel(None, None)))
        .err()
        .expect("a missing identifier fails the bootstrap");
    assert_eq!(err, BootstrapError::MissingChannelId(Side::A));
}

#[test]
fn cloned_keeps_roles_and_payload() {
    let tagged: DualTagged<ChainA, ChainB, PortId> =
        DualTagged::new(PortId::new(String::from("transfer")));
    let copy: DualTagged<ChainA, ChainB, PortId> = tagged.cloned();
    assert_eq!(copy.value.as_str(), tagged.value.as_str());
}

#[test]
fn into_value_returns_payload() {
    let tagged: DualTagged<ChainA, ChainB, ChannelId> =
        DualTagged::new(ChannelId::new(String::from("channel-0")).unwrap());
    assert_eq!(tagged.into_value().as_str(), "channel-0");
}

#[test]
fn channel_id_rejects_empty_name() {
    assert!(ChannelId::new(String::new()).is_none());
    let id = ChannelId::new(String::from("channel-0")).expect("a non-empty name is accepted");
    assert_eq!(id.as_str(), "channel-0");
    assert_eq!(id.clone().as_str(), "channel-0");
}

#[test]
fn port_id_keeps_its_name() {
    let port = PortId::new(String::from("transfer"));
    assert_eq!(port.as_str(), "transfer");
    assert_eq!(port.clone().as_str(), "transfer");
}
