use gamedig::games::{
    route_query, Codec, GameSpyVersion, Game, LegacyGroup, MinecraftServer, ProprietaryProtocol, Protocol,
    QuakeVersion, Target,
};

fn game(port: u16, protocol: Protocol) -> Game {
    Game { name: "Test".to_string(), default_port: port, protocol }
}

#[test]
fn valve_uses_default_port() {
    let r = route_query(&game(27015, Protocol::Valve(440)), None);
    assert_eq!(r.codec, Codec::Valve(440));
    assert_eq!(r.target, Target::Endpoint(27015));
    assert!(r.extra_settings);
}

#[test]
fn port_override_wins() {
    let r = route_query(&game(27015, Protocol::Valve(10)), Some(27016));
    assert_eq!(r.target, Target::Endpoint(27016));
}

#[test]
fn minecraft_without_edition_is_detected() {
    let r = route_query(&game(25565, Protocol::Minecraft(None)), None);
    assert_eq!(r.codec, Codec::MinecraftAny);
    assert_ne!(r.codec, Codec::MinecraftJava);
    assert!(r.extra_settings);
}

#[test]
fn minecraft_editions() {
    let java = route_query(&game(25565, Protocol::Minecraft(Some(MinecraftServer::Java))), None);
    assert_eq!(java.codec, Codec::MinecraftJava);
    assert!(java.extra_settings);
    let bedrock = route_query(&game(19132, Protocol::Minecraft(Some(MinecraftServer::Bedrock))), None);
    assert_eq!(bedrock.codec, Codec::MinecraftBedrock);
    assert!(!bedrock.extra_settings);
    assert_eq!(bedrock.target, Target::Endpoint(19132));
    let legacy = route_query(
        &game(25565, Protocol::Minecraft(Some(MinecraftServer::Legacy(LegacyGroup::V1_4)))),
        Some(1),
    );
    assert_eq!(legacy.codec, Codec::MinecraftLegacy(LegacyGroup::V1_4));
    assert_eq!(legacy.target, Target::Endpoint(1));
}

#[test]
fn gamespy_and_quake_versions() {
    let cases = vec![
        (Protocol::Gamespy(GameSpyVersion::One), Codec::GameSpyOne),
        (Protocol::Gamespy(GameSpyVersion::Two), Codec::GameSpyTwo),
        (Protocol::Gamespy(GameSpyVersion::Three), Codec::GameSpyThree),
        (Protocol::Quake(QuakeVersion::One), Codec::QuakeOne),
        (Protocol::Quake(QuakeVersion::Two), Codec::QuakeTwo),
        (Protocol::Quake(QuakeVersion::Three), Codec::QuakeThree),
    ];
    for (protocol, codec) in cases {
        let r = route_query(&game(7777, protocol), None);
        assert_eq!(r.codec, codec);
        assert_eq!(r.target, Target::Endpoint(7777));
        assert!(!r.extra_settings);
    }
}

#[test]
fn proprietary_keeps_the_callers_port() {
    let ship = route_query(&game(27015, Protocol::PROPRIETARY(ProprietaryProtocol::TheShip)), None);
    assert_eq!(ship.codec, Codec::TheShip);
    assert_eq!(ship.target, Target::Unresolved(None));
    let ffow = route_query(&game(5478, Protocol::PROPRIETARY(ProprietaryProtocol::FFOW)), Some(9));
    assert_eq!(ffow.codec, Codec::Ffow);
    assert_eq!(ffow.target, Target::Unresolved(Some(9)));
    let jc2 = route_query(&game(7777, Protocol::PROPRIETARY(ProprietaryProtocol::JC2MP)), None);
    assert_eq!(jc2.codec, Codec::Jc2mp);
}
