use pixelwalker::api::packets::{IntoWorldPacket, Packet, Ping, PlayerInitPacket, PlayerInitReceivedPacket, WorldPacket, PlayerChatPacket};
use pixelwalker::client::{packet_type_id, packet_type_id_among, FromResources, Res, Resources};
use pixelwalker::connection::{next_action, ChannelAction, ChannelEvent, HandlerList};
use pixelwalker::players::{Player, PlayerManager};
use std::any::TypeId;

#[test]
fn resources_hold_one_value_per_type() {
    let mut r = Resources::new();
    assert!(!r.contains::<u32>());
    assert!(r.get::<u32>().is_none());
    r.insert(42u32);
    r.insert(String::from("x"));
    assert!(r.contains::<u32>());
    assert_eq!(r.get::<u32>(), Some(&42));
    r.insert(7u32);
    assert_eq!(r.get::<u32>(), Some(&7));
    *r.get_mut::<u32>().unwrap() += 1;
    assert_eq!(r.get::<u32>(), Some(&8));
    assert_eq!(r.remove::<u32>(), Some(8));
    assert!(!r.contains::<u32>());
    assert_eq!(r.remove::<u32>(), None);
    assert_eq!(r.get::<String>().map(|s| s.as_str()), Some("x"));
    assert!(Resources::default().get::<String>().is_none());
}

#[test]
fn res_borrows_the_registered_value() {
    let mut r = Resources::new();
    assert!(Res::<u64>::from_resources(&r).is_none());
    r.insert(5u64);
    let v = Res::<u64>::from_resources(&r).unwrap();
    assert_eq!(*v, 5);
}

#[test]
fn packets_go_into_world_packets() {
    let p = Ping {}.into_world_packet();
    assert!(matches!(p.packet, Some(Packet::Ping(_))));
    let p: WorldPacket = Ping {}.into();
    assert!(matches!(p.packet, Some(Packet::Ping(_))));
    let p = PlayerInitReceivedPacket {}.into_world_packet();
    assert!(matches!(p.packet, Some(Packet::PlayerInitReceived(_))));
    let p: WorldPacket = PlayerInitReceivedPacket {}.into();
    assert!(matches!(p.packet, Some(Packet::PlayerInitReceived(_))));
}

#[test]
fn text_goes_into_chat_packets() {
    for p in ["Hello, World!".into_world_packet(), WorldPacket::from("Hello, World!"),
              String::from("Hello, World!").into_world_packet(), WorldPacket::from(String::from("Hello, World!"))] {
        match p.packet {
            Some(Packet::PlayerChatPacket(PlayerChatPacket { player_id, message })) => {
                assert_eq!(player_id, None);
                assert_eq!(message, "Hello, World!");
            }
            _ => panic!("not a chat packet"),
        }
    }
}

#[test]
fn packet_types() {
    let ping = WorldPacket { packet: Some(Packet::Ping(Ping {})) };
    assert_eq!(packet_type_id(&ping), Some(TypeId::of::<Ping>()));
    let init = WorldPacket { packet: Some(Packet::PlayerInitPacket(PlayerInitPacket {})) };
    assert_eq!(packet_type_id(&init), Some(TypeId::of::<PlayerInitPacket>()));
    let chat = "hi".into_world_packet();
    assert_eq!(packet_type_id(&chat), None);
    assert_eq!(packet_type_id(&WorldPacket { packet: None }), None);
    assert_eq!(packet_type_id(&Ping::default().into_world_packet()), Some(TypeId::of::<Ping>()));
}

#[test]
fn packet_type_among_the_given_ids() {
    let a = TypeId::of::<u8>();
    let b = TypeId::of::<u16>();
    let ping = WorldPacket { packet: Some(Packet::Ping(Ping::default())) };
    let init = WorldPacket { packet: Some(Packet::PlayerInitPacket(PlayerInitPacket::default())) };
    let received = PlayerInitReceivedPacket::default().into_world_packet();
    assert_eq!(packet_type_id_among(&ping, a, b), Some(a));
    assert_eq!(packet_type_id_among(&init, a, b), Some(b));
    assert_eq!(packet_type_id_among(&received, a, b), None);
    assert_eq!(packet_type_id_among(&WorldPacket { packet: None }, a, b), None);
}

#[test]
fn channel_decisions() {
    assert_eq!(next_action(ChannelEvent::Interrupted), ChannelAction::CloseAndStop);
    assert_eq!(next_action(ChannelEvent::Ended), ChannelAction::Stop);
    assert_eq!(next_action(ChannelEvent::ReceiveFailed), ChannelAction::Fail);
    assert_eq!(next_action(ChannelEvent::Binary), ChannelAction::Dispatch);
    assert_eq!(next_action(ChannelEvent::Text), ChannelAction::Continue);
    assert_eq!(next_action(ChannelEvent::Closed { with_frame: true }), ChannelAction::Continue);
    assert_eq!(next_action(ChannelEvent::Closed { with_frame: false }), ChannelAction::Continue);
    assert_eq!(next_action(ChannelEvent::Control), ChannelAction::Continue);
}

#[test]
fn default_players() {
    let p = Player::default();
    assert_eq!(p.id(), 0);
    assert_eq!(p.username(), "");
    let _m = PlayerManager::default();
}

#[test]
fn mounted_handlers_keep_their_order() {
    let list: HandlerList<&str> = HandlerList::new();
    assert_eq!(list.len(), 0);
    let list = list.mount(vec!["first", "second"]).mount(vec![]).mount(vec!["third"]);
    assert_eq!(list.len(), 3);
    assert_eq!(list.handlers(), &["first", "second", "third"][..]);
}
