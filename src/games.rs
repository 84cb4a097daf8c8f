use vstd::prelude::*;

verus! {

/// Versions of the GameSpy query protocol.
#[derive(Debug, Clone, Copy, PartialEq, Eq, Structural)]
pub enum GameSpyVersion {
    One,
    Two,
    Three,
}

/// Versions of the Quake query protocol.
#[derive(Debug, Clone, Copy, PartialEq, Eq, Structural)]
pub enum QuakeVersion {
    One,
    Two,
    Three,
}

/// Groups of the legacy Minecraft ping protocol.
#[derive(Debug, Clone, Copy, PartialEq, Eq, Structural)]
pub enum LegacyGroup {
    /// Servers from 1.6 on.
    V1_6,
    /// Servers from 1.4 to 1.5.
    V1_4,
    /// Servers from beta 1.8 to 1.3.
    VB1_8,
}

/// Editions of a Minecraft server.
#[derive(Debug, Clone, Copy, PartialEq, Eq, Structural)]
pub enum MinecraftServer {
    Java,
    Bedrock,
    Legacy(LegacyGroup),
}

/// Protocols that only one game speaks.
#[derive(Debug, Clone, Copy, PartialEq, Eq, Structural)]
pub enum ProprietaryProtocol {
    TheShip,
    FFOW,
    JC2MP,
}

/// The protocol family a game's query uses, with its variant.
#[derive(Debug, Clone, Copy, PartialEq, Eq, Structural)]
pub enum Protocol {
    /// The Valve source query, with the game's Steam application id.
    Valve(u32),
    /// Minecraft; no edition means that the edition is detected.
    Minecraft(Option<MinecraftServer>),
    Gamespy(GameSpyVersion),
    Quake(QuakeVersion),
    PROPRIETARY(ProprietaryProtocol),
}

/// Definition of a game.
#[derive(Debug, Clone, PartialEq, Eq)]
pub struct Game {
    /// Full name of the game
    pub name: String,
    /// Default port used by game
    pub default_port: u16,
    /// The protocol the game's query uses
    pub protocol: Protocol,
}

/// The protocol codec that answers a query.
#[derive(Debug, Clone, Copy, PartialEq, Eq, Structural)]
pub enum Codec {
    /// Valve source query, for the given application id.
    Valve(u32),
    MinecraftJava,
    MinecraftBedrock,
    MinecraftLegacy(LegacyGroup),
    /// Minecraft, trying each edition in turn.
    MinecraftAny,
    GameSpyOne,
    GameSpyTwo,
    GameSpyThree,
    QuakeOne,
    QuakeTwo,
    QuakeThree,
    TheShip,
    Ffow,
    Jc2mp,
}

/// Where a codec is to send its query.
#[derive(Debug, Clone, Copy, PartialEq, Eq, Structural)]
pub enum Target {
    /// The given address at this port.
    Endpoint(u16),
    /// The given address and the caller's port, if any: the codec falls back
    /// on its own default port.
    Unresolved(Option<u16>),
}

/// How a query is carried out: which codec, where, and whether the caller's
/// extra settings are handed on.
#[derive(Debug, Clone, Copy, PartialEq, Eq, Structural)]
pub struct Route {
    pub codec: Codec,
    pub target: Target,
    pub extra_settings: bool,
}

/// The port queried: the caller's if given, else the game's default.
pub open spec fn effective_port(port: Option<u16>, default_port: u16) -> u16 {
    match port {
        Some(p) => p,
        None => default_port,
    }
}

/// The codec for each protocol.
pub open spec fn codec_for(protocol: Protocol) -> Codec {
    match protocol {
        Protocol::Valve(app) => Codec::Valve(app),
        Protocol::Minecraft(Some(MinecraftServer::Java)) => Codec::MinecraftJava,
        Protocol::Minecraft(Some(MinecraftServer::Bedrock)) => Codec::MinecraftBedrock,
        Protocol::Minecraft(Some(MinecraftServer::Legacy(group))) => Codec::MinecraftLegacy(group),
        Protocol::Minecraft(None) => Codec::MinecraftAny,
        Protocol::Gamespy(GameSpyVersion::One) => Codec::GameSpyOne,
        Protocol::Gamespy(GameSpyVersion::Two) => Codec::GameSpyTwo,
        Protocol::Gamespy(GameSpyVersion::Three) => Codec::GameSpyThree,
        Protocol::Quake(QuakeVersion::One) => Codec::QuakeOne,
        Protocol::Quake(QuakeVersion::Two) => Codec::QuakeTwo,
        Protocol::Quake(QuakeVersion::Three) => Codec::QuakeThree,
        Protocol::PROPRIETARY(ProprietaryProtocol::TheShip) => Codec::TheShip,
        Protocol::PROPRIETARY(ProprietaryProtocol::FFOW) => Codec::Ffow,
        Protocol::PROPRIETARY(ProprietaryProtocol::JC2MP) => Codec::Jc2mp,
    }
}

/// The codecs that take the caller's extra settings.
pub open spec fn takes_extra_settings(codec: Codec) -> bool {
    match codec {
        Codec::Valve(_) | Codec::MinecraftJava | Codec::MinecraftAny => true,
        _ => false,
    }
}

/// The codecs that resolve the port themselves.
pub open spec fn resolves_own_port(codec: Codec) -> bool {
    match codec {
        Codec::TheShip | Codec::Ffow | Codec::Jc2mp => true,
        _ => false,
    }
}

/// The route of a query of `game` with an optional port override.
pub open spec fn route_for(game: Game, port: Option<u16>) -> Route {
    let codec = codec_for(game.protocol);
    Route {
        codec,
        target: if resolves_own_port(codec) {
            Target::Unresolved(port)
        } else {
            Target::Endpoint(effective_port(port, game.default_port))
        },
        extra_settings: takes_extra_settings(codec),
    }
}

/// The route of a query of `game`, at `port` if given, else at the game's default port.
pub fn route_query(game: &Game, port: Option<u16>) -> (r: Route)
    ensures
        r == route_for(*game, port),
{
    let endpoint = match port {
        Some(p) => p,
        None => game.default_port,
    };
    let codec = match game.protocol {
        Protocol::Valve(app) => Codec::Valve(app),
        Protocol::Minecraft(edition) => match edition {
            Some(MinecraftServer::Java) => Codec::MinecraftJava,
            Some(MinecraftServer::Bedrock) => Codec::MinecraftBedrock,
            Some(MinecraftServer::Legacy(group)) => Codec::MinecraftLegacy(group),
            None => Codec::MinecraftAny,
        },
        Protocol::Gamespy(version) => match version {
            GameSpyVersion::One => Codec::GameSpyOne,
            GameSpyVersion::Two => Codec::GameSpyTwo,
            GameSpyVersion::Three => Codec::GameSpyThree,
        },
        Protocol::Quake(version) => match version {
            QuakeVersion::One => Codec::QuakeOne,
            QuakeVersion::Two => Codec::QuakeTwo,
            QuakeVersion::Three => Codec::QuakeThree,
        },
        Protocol::PROPRIETARY(protocol) => match protocol {
            ProprietaryProtocol::TheShip => Codec::TheShip,
            ProprietaryProtocol::FFOW => Codec::Ffow,
            ProprietaryProtocol::JC2MP => Codec::Jc2mp,
        },
    };
    let (target, extra_settings) = match codec {
        Codec::Valve(_) | Codec::MinecraftJava | Codec::MinecraftAny => (Target::Endpoint(endpoint), true),
        Codec::TheShip | Codec::Ffow | Codec::Jc2mp => (Target::Unresolved(port), false),
        _ => (Target::Endpoint(endpoint), false),
    };
    Route { codec, target, extra_settings }
}

/// Without a port override, a game whose codec resolves no port of its own
/// is queried at its default port.
pub proof fn default_port_without_override(game: Game)
    requires
        !resolves_own_port(codec_for(game.protocol)),
    ensures
        route_for(game, None).target == Target::Endpoint(game.default_port),
{
}

/// Minecraft with no edition goes to the detecting codec, never straight to
/// the codec of one edition.
pub proof fn unspecified_minecraft_is_detected(game: Game)
    requires
        game.protocol == Protocol::Minecraft(None),
    ensures
        route_for(game, None).codec == Codec::MinecraftAny,
        forall|port: Option<u16>| #[trigger] route_for(game, port).codec == Codec::MinecraftAny,
{
}

} // verus!
