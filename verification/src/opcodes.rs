//! Command opcodes of the protocol and their metadata: the name, the
//! connection state a server-bound command needs, and the channel and
//! reliability of a client-bound command.

use vstd::prelude::*;

verus! {

/// Size of the server-side opcode table.
pub const TOSERVER_NUM_MSG_TYPES: usize = 0x54;

/// Size of the client-side opcode table.
pub const TOCLIENT_NUM_MSG_TYPES: usize = 0x65;

/// Coarse connection-state category that gates a server-bound opcode.
#[derive(Debug, Clone, Copy, PartialEq, Eq, Structural)]
pub enum ToServerConnectionState {
    NotConnected,
    Startup,
    Ingame,
    All,
}

/// Wire value of a connection-state category.
pub open spec fn connection_state_code(s: ToServerConnectionState) -> u8 {
    match s {
        ToServerConnectionState::NotConnected => 0,
        ToServerConnectionState::Startup => 1,
        ToServerConnectionState::Ingame => 2,
        ToServerConnectionState::All => 3,
    }
}

impl ToServerConnectionState {
    /// Wire value of this category.
    pub fn to_u8(&self) -> (v: u8)
        ensures
            v == connection_state_code(*self),
    {
        match self {
            ToServerConnectionState::NotConnected => 0,
            ToServerConnectionState::Startup => 1,
            ToServerConnectionState::Ingame => 2,
            ToServerConnectionState::All => 3,
        }
    }
}

/// Metadata of one server-bound opcode.
#[derive(Debug, Clone, Copy)]
pub struct ToServerCommandSpec {
    /// Human-readable name such as `TOSERVER_INIT`.
    pub name: &'static str,
    /// Connection-state category that gates this opcode.
    pub required_state: ToServerConnectionState,
}

/// The server-side opcode table: the entry of wire opcode `value`, or
/// `None` for an unassigned opcode.
pub open spec fn to_server_entry(value: u16) -> Option<ToServerCommandSpec> {
    match value {
        0x02 => Some(ToServerCommandSpec { name: "TOSERVER_INIT", required_state: ToServerConnectionState::NotConnected }),
        0x11 => Some(ToServerCommandSpec { name: "TOSERVER_INIT2", required_state: ToServerConnectionState::NotConnected }),
        0x17 => Some(ToServerCommandSpec { name: "TOSERVER_MODCHANNEL_JOIN", required_state: ToServerConnectionState::Ingame }),
        0x18 => Some(ToServerCommandSpec { name: "TOSERVER_MODCHANNEL_LEAVE", required_state: ToServerConnectionState::Ingame }),
        0x19 => Some(ToServerCommandSpec { name: "TOSERVER_MODCHANNEL_MSG", required_state: ToServerConnectionState::Ingame }),
        0x23 => Some(ToServerCommandSpec { name: "TOSERVER_PLAYERPOS", required_state: ToServerConnectionState::Ingame }),
        0x24 => Some(ToServerCommandSpec { name: "TOSERVER_GOTBLOCKS", required_state: ToServerConnectionState::Startup }),
        0x25 => Some(ToServerCommandSpec { name: "TOSERVER_DELETEDBLOCKS", required_state: ToServerConnectionState::Ingame }),
        0x31 => Some(ToServerCommandSpec { name: "TOSERVER_INVENTORY_ACTION", required_state: ToServerConnectionState::Ingame }),
        0x32 => Some(ToServerCommandSpec { name: "TOSERVER_CHAT_MESSAGE", required_state: ToServerConnectionState::Ingame }),
        0x35 => Some(ToServerCommandSpec { name: "TOSERVER_DAMAGE", required_state: ToServerConnectionState::Ingame }),
        0x37 => Some(ToServerCommandSpec { name: "TOSERVER_PLAYERITEM", required_state: ToServerConnectionState::Ingame }),
        0x38 => Some(ToServerCommandSpec { name: "TOSERVER_RESPAWN_LEGACY", required_state: ToServerConnectionState::Ingame }),
        0x39 => Some(ToServerCommandSpec { name: "TOSERVER_INTERACT", required_state: ToServerConnectionState::Ingame }),
        0x3a => Some(ToServerCommandSpec { name: "TOSERVER_REMOVED_SOUNDS", required_state: ToServerConnectionState::Ingame }),
        0x3b => Some(ToServerCommandSpec { name: "TOSERVER_NODEMETA_FIELDS", required_state: ToServerConnectionState::Ingame }),
        0x3c => Some(ToServerCommandSpec { name: "TOSERVER_INVENTORY_FIELDS", required_state: ToServerConnectionState::Ingame }),
        0x40 => Some(ToServerCommandSpec { name: "TOSERVER_REQUEST_MEDIA", required_state: ToServerConnectionState::Startup }),
        0x41 => Some(ToServerCommandSpec { name: "TOSERVER_HAVE_MEDIA", required_state: ToServerConnectionState::Ingame }),
        0x43 => Some(ToServerCommandSpec { name: "TOSERVER_CLIENT_READY", required_state: ToServerConnectionState::Startup }),
        0x50 => Some(ToServerCommandSpec { name: "TOSERVER_FIRST_SRP", required_state: ToServerConnectionState::NotConnected }),
        0x51 => Some(ToServerCommandSpec { name: "TOSERVER_SRP_BYTES_A", required_state: ToServerConnectionState::NotConnected }),
        0x52 => Some(ToServerCommandSpec { name: "TOSERVER_SRP_BYTES_M", required_state: ToServerConnectionState::NotConnected }),
        0x53 => Some(ToServerCommandSpec { name: "TOSERVER_UPDATE_CLIENT_INFO", required_state: ToServerConnectionState::Ingame }),
        _ => None,
    }
}

/// Look up the metadata of a server-bound wire opcode; `None` for an
/// unassigned opcode.
pub fn lookup_to_server_command(value: u16) -> (r: Option<ToServerCommandSpec>)
    ensures
        r == to_server_entry(value),
{
    match value {
        0x02 => Some(ToServerCommandSpec { name: "TOSERVER_INIT", required_state: ToServerConnectionState::NotConnected }),
        0x11 => Some(ToServerCommandSpec { name: "TOSERVER_INIT2", required_state: ToServerConnectionState::NotConnected }),
        0x17 => Some(ToServerCommandSpec { name: "TOSERVER_MODCHANNEL_JOIN", required_state: ToServerConnectionState::Ingame }),
        0x18 => Some(ToServerCommandSpec { name: "TOSERVER_MODCHANNEL_LEAVE", required_state: ToServerConnectionState::Ingame }),
        0x19 => Some(ToServerCommandSpec { name: "TOSERVER_MODCHANNEL_MSG", required_state: ToServerConnectionState::Ingame }),
        0x23 => Some(ToServerCommandSpec { name: "TOSERVER_PLAYERPOS", required_state: ToServerConnectionState::Ingame }),
        0x24 => Some(ToServerCommandSpec { name: "TOSERVER_GOTBLOCKS", required_state: ToServerConnectionState::Startup }),
        0x25 => Some(ToServerCommandSpec { name: "TOSERVER_DELETEDBLOCKS", required_state: ToServerConnectionState::Ingame }),
        0x31 => Some(ToServerCommandSpec { name: "TOSERVER_INVENTORY_ACTION", required_state: ToServerConnectionState::Ingame }),
        0x32 => Some(ToServerCommandSpec { name: "TOSERVER_CHAT_MESSAGE", required_state: ToServerConnectionState::Ingame }),
        0x35 => Some(ToServerCommandSpec { name: "TOSERVER_DAMAGE", required_state: ToServerConnectionState::Ingame }),
        0x37 => Some(ToServerCommandSpec { name: "TOSERVER_PLAYERITEM", required_state: ToServerConnectionState::Ingame }),
        0x38 => Some(ToServerCommandSpec { name: "TOSERVER_RESPAWN_LEGACY", required_state: ToServerConnectionState::Ingame }),
        0x39 => Some(ToServerCommandSpec { name: "TOSERVER_INTERACT", required_state: ToServerConnectionState::Ingame }),
        0x3a => Some(ToServerCommandSpec { name: "TOSERVER_REMOVED_SOUNDS", required_state: ToServerConnectionState::Ingame }),
        0x3b => Some(ToServerCommandSpec { name: "TOSERVER_NODEMETA_FIELDS", required_state: ToServerConnectionState::Ingame }),
        0x3c => Some(ToServerCommandSpec { name: "TOSERVER_INVENTORY_FIELDS", required_state: ToServerConnectionState::Ingame }),
        0x40 => Some(ToServerCommandSpec { name: "TOSERVER_REQUEST_MEDIA", required_state: ToServerConnectionState::Startup }),
        0x41 => Some(ToServerCommandSpec { name: "TOSERVER_HAVE_MEDIA", required_state: ToServerConnectionState::Ingame }),
        0x43 => Some(ToServerCommandSpec { name: "TOSERVER_CLIENT_READY", required_state: ToServerConnectionState::Startup }),
        0x50 => Some(ToServerCommandSpec { name: "TOSERVER_FIRST_SRP", required_state: ToServerConnectionState::NotConnected }),
        0x51 => Some(ToServerCommandSpec { name: "TOSERVER_SRP_BYTES_A", required_state: ToServerConnectionState::NotConnected }),
        0x52 => Some(ToServerCommandSpec { name: "TOSERVER_SRP_BYTES_M", required_state: ToServerConnectionState::NotConnected }),
        0x53 => Some(ToServerCommandSpec { name: "TOSERVER_UPDATE_CLIENT_INFO", required_state: ToServerConnectionState::Ingame }),
        _ => None,
    }
}

/// Commands that can be sent from client to server.
#[derive(Debug, Clone, Copy, PartialEq, Eq, Structural, Hash)]
pub enum ToServerCommand {
    Init,
    Init2,
    ModChannelJoin,
    ModChannelLeave,
    ModChannelMsg,
    PlayerPos,
    GotBlocks,
    DeletedBlocks,
    InventoryAction,
    ChatMessage,
    Damage,
    PlayerItem,
    RespawnLegacy,
    Interact,
    RemovedSounds,
    NodeMetaFields,
    InventoryFields,
    RequestMedia,
    HaveMedia,
    ClientReady,
    FirstSrp,
    SrpBytesA,
    SrpBytesM,
    UpdateClientInfo,
}

/// Wire opcode of a server-bound command.
pub open spec fn to_server_code(c: ToServerCommand) -> u16 {
    match c {
        ToServerCommand::Init => 0x02,
        ToServerCommand::Init2 => 0x11,
        ToServerCommand::ModChannelJoin => 0x17,
        ToServerCommand::ModChannelLeave => 0x18,
        ToServerCommand::ModChannelMsg => 0x19,
        ToServerCommand::PlayerPos => 0x23,
        ToServerCommand::GotBlocks => 0x24,
        ToServerCommand::DeletedBlocks => 0x25,
        ToServerCommand::InventoryAction => 0x31,
        ToServerCommand::ChatMessage => 0x32,
        ToServerCommand::Damage => 0x35,
        ToServerCommand::PlayerItem => 0x37,
        ToServerCommand::RespawnLegacy => 0x38,
        ToServerCommand::Interact => 0x39,
        ToServerCommand::RemovedSounds => 0x3a,
        ToServerCommand::NodeMetaFields => 0x3b,
        ToServerCommand::InventoryFields => 0x3c,
        ToServerCommand::RequestMedia => 0x40,
        ToServerCommand::HaveMedia => 0x41,
        ToServerCommand::ClientReady => 0x43,
        ToServerCommand::FirstSrp => 0x50,
        ToServerCommand::SrpBytesA => 0x51,
        ToServerCommand::SrpBytesM => 0x52,
        ToServerCommand::UpdateClientInfo => 0x53,
    }
}

/// The server-bound command with wire opcode `value`, if any.
pub open spec fn to_server_command_of(value: u16) -> Option<ToServerCommand> {
    match value {
        0x02 => Some(ToServerCommand::Init),
        0x11 => Some(ToServerCommand::Init2),
        0x17 => Some(ToServerCommand::ModChannelJoin),
        0x18 => Some(ToServerCommand::ModChannelLeave),
        0x19 => Some(ToServerCommand::ModChannelMsg),
        0x23 => Some(ToServerCommand::PlayerPos),
        0x24 => Some(ToServerCommand::GotBlocks),
        0x25 => Some(ToServerCommand::DeletedBlocks),
        0x31 => Some(ToServerCommand::InventoryAction),
        0x32 => Some(ToServerCommand::ChatMessage),
        0x35 => Some(ToServerCommand::Damage),
        0x37 => Some(ToServerCommand::PlayerItem),
        0x38 => Some(ToServerCommand::RespawnLegacy),
        0x39 => Some(ToServerCommand::Interact),
        0x3a => Some(ToServerCommand::RemovedSounds),
        0x3b => Some(ToServerCommand::NodeMetaFields),
        0x3c => Some(ToServerCommand::InventoryFields),
        0x40 => Some(ToServerCommand::RequestMedia),
        0x41 => Some(ToServerCommand::HaveMedia),
        0x43 => Some(ToServerCommand::ClientReady),
        0x50 => Some(ToServerCommand::FirstSrp),
        0x51 => Some(ToServerCommand::SrpBytesA),
        0x52 => Some(ToServerCommand::SrpBytesM),
        0x53 => Some(ToServerCommand::UpdateClientInfo),
        _ => None,
    }
}

impl ToServerCommand {
    /// Decode a wire opcode to its command.
    pub fn from_u16(value: u16) -> (r: Option<Self>)
        ensures
            r == to_server_command_of(value),
    {
        match value {
            0x02 => Some(ToServerCommand::Init),
            0x11 => Some(ToServerCommand::Init2),
            0x17 => Some(ToServerCommand::ModChannelJoin),
            0x18 => Some(ToServerCommand::ModChannelLeave),
            0x19 => Some(ToServerCommand::ModChannelMsg),
            0x23 => Some(ToServerCommand::PlayerPos),
            0x24 => Some(ToServerCommand::GotBlocks),
            0x25 => Some(ToServerCommand::DeletedBlocks),
            0x31 => Some(ToServerCommand::InventoryAction),
            0x32 => Some(ToServerCommand::ChatMessage),
            0x35 => Some(ToServerCommand::Damage),
            0x37 => Some(ToServerCommand::PlayerItem),
            0x38 => Some(ToServerCommand::RespawnLegacy),
            0x39 => Some(ToServerCommand::Interact),
            0x3a => Some(ToServerCommand::RemovedSounds),
            0x3b => Some(ToServerCommand::NodeMetaFields),
            0x3c => Some(ToServerCommand::InventoryFields),
            0x40 => Some(ToServerCommand::RequestMedia),
            0x41 => Some(ToServerCommand::HaveMedia),
            0x43 => Some(ToServerCommand::ClientReady),
            0x50 => Some(ToServerCommand::FirstSrp),
            0x51 => Some(ToServerCommand::SrpBytesA),
            0x52 => Some(ToServerCommand::SrpBytesM),
            0x53 => Some(ToServerCommand::UpdateClientInfo),
            _ => None,
        }
    }

    /// Wire opcode of this command.
    pub fn to_u16(&self) -> (v: u16)
        ensures
            v == to_server_code(*self),
    {
        match self {
            ToServerCommand::Init => 0x02,
            ToServerCommand::Init2 => 0x11,
            ToServerCommand::ModChannelJoin => 0x17,
            ToServerCommand::ModChannelLeave => 0x18,
            ToServerCommand::ModChannelMsg => 0x19,
            ToServerCommand::PlayerPos => 0x23,
            ToServerCommand::GotBlocks => 0x24,
            ToServerCommand::DeletedBlocks => 0x25,
            ToServerCommand::InventoryAction => 0x31,
            ToServerCommand::ChatMessage => 0x32,
            ToServerCommand::Damage => 0x35,
            ToServerCommand::PlayerItem => 0x37,
            ToServerCommand::RespawnLegacy => 0x38,
            ToServerCommand::Interact => 0x39,
            ToServerCommand::RemovedSounds => 0x3a,
            ToServerCommand::NodeMetaFields => 0x3b,
            ToServerCommand::InventoryFields => 0x3c,
            ToServerCommand::RequestMedia => 0x40,
            ToServerCommand::HaveMedia => 0x41,
            ToServerCommand::ClientReady => 0x43,
            ToServerCommand::FirstSrp => 0x50,
            ToServerCommand::SrpBytesA => 0x51,
            ToServerCommand::SrpBytesM => 0x52,
            ToServerCommand::UpdateClientInfo => 0x53,
        }
    }

    /// Table entry of this command.
    fn spec(&self) -> (s: ToServerCommandSpec)
        ensures
            to_server_entry(to_server_code(*self)) == Some(s),
    {
        proof {
            law_to_server_table_covers_commands(*self);
        }
        lookup_to_server_command(self.to_u16()).unwrap()
    }

    /// Human-readable name, from the opcode table.
    pub fn name(&self) -> (n: &'static str)
        ensures
            to_server_entry(to_server_code(*self)) matches Some(s) && n@ == s.name@,
    {
        self.spec().name
    }

    /// Connection-state category the server expects, from the opcode table.
    pub fn required_state(&self) -> (st: ToServerConnectionState)
        ensures
            to_server_entry(to_server_code(*self)) matches Some(s) && st == s.required_state,
    {
        self.spec().required_state
    }
}

/// Decoding the wire opcode of a command gives the command back, and a
/// decoded opcode is the wire opcode of what it decodes to.
pub proof fn law_to_server_opcode_roundtrip(c: ToServerCommand, value: u16)
    ensures
        to_server_command_of(to_server_code(c)) == Some(c),
        to_server_command_of(value) matches Some(d) ==> to_server_code(d) == value,
{
}

/// The command enum and the opcode table describe the same opcodes: an
/// opcode has a table entry exactly when it decodes to a command.
pub proof fn law_to_server_table_covers_commands(c: ToServerCommand)
    ensures
        to_server_entry(to_server_code(c)) is Some,
        forall|v: u16| (#[trigger] to_server_entry(v)) is Some <==> to_server_command_of(v) is Some,
{
}

/// The protocol's wire opcode of every server-bound command, and the name
/// that the opcode table gives that opcode.
pub proof fn law_to_server_wire_codes(c: ToServerCommand)
    ensures
        c == ToServerCommand::Init ==> (to_server_code(c) == 0x02u16 && (to_server_entry(0x02u16) matches Some(s) && s.name@ == "TOSERVER_INIT"@)),
        c == ToServerCommand::Init2 ==> (to_server_code(c) == 0x11u16 && (to_server_entry(0x11u16) matches Some(s) && s.name@ == "TOSERVER_INIT2"@)),
        c == ToServerCommand::ModChannelJoin ==> (to_server_code(c) == 0x17u16 && (to_server_entry(0x17u16) matches Some(s) && s.name@ == "TOSERVER_MODCHANNEL_JOIN"@)),
        c == ToServerCommand::ModChannelLeave ==> (to_server_code(c) == 0x18u16 && (to_server_entry(0x18u16) matches Some(s) && s.name@ == "TOSERVER_MODCHANNEL_LEAVE"@)),
        c == ToServerCommand::ModChannelMsg ==> (to_server_code(c) == 0x19u16 && (to_server_entry(0x19u16) matches Some(s) && s.name@ == "TOSERVER_MODCHANNEL_MSG"@)),
        c == ToServerCommand::PlayerPos ==> (to_server_code(c) == 0x23u16 && (to_server_entry(0x23u16) matches Some(s) && s.name@ == "TOSERVER_PLAYERPOS"@)),
        c == ToServerCommand::GotBlocks ==> (to_server_code(c) == 0x24u16 && (to_server_entry(0x24u16) matches Some(s) && s.name@ == "TOSERVER_GOTBLOCKS"@)),
        c == ToServerCommand::DeletedBlocks ==> (to_server_code(c) == 0x25u16 && (to_server_entry(0x25u16) matches Some(s) && s.name@ == "TOSERVER_DELETEDBLOCKS"@)),
        c == ToServerCommand::InventoryAction ==> (to_server_code(c) == 0x31u16 && (to_server_entry(0x31u16) matches Some(s) && s.name@ == "TOSERVER_INVENTORY_ACTION"@)),
        c == ToServerCommand::ChatMessage ==> (to_server_code(c) == 0x32u16 && (to_server_entry(0x32u16) matches Some(s) && s.name@ == "TOSERVER_CHAT_MESSAGE"@)),
        c == ToServerCommand::Damage ==> (to_server_code(c) == 0x35u16 && (to_server_entry(0x35u16) matches Some(s) && s.name@ == "TOSERVER_DAMAGE"@)),
        c == ToServerCommand::PlayerItem ==> (to_server_code(c) == 0x37u16 && (to_server_entry(0x37u16) matches Some(s) && s.name@ == "TOSERVER_PLAYERITEM"@)),
        c == ToServerCommand::RespawnLegacy ==> (to_server_code(c) == 0x38u16 && (to_server_entry(0x38u16) matches Some(s) && s.name@ == "TOSERVER_RESPAWN_LEGACY"@)),
        c == ToServerCommand::Interact ==> (to_server_code(c) == 0x39u16 && (to_server_entry(0x39u16) matches Some(s) && s.name@ == "TOSERVER_INTERACT"@)),
        c == ToServerCommand::RemovedSounds ==> (to_server_code(c) == 0x3au16 && (to_server_entry(0x3au16) matches Some(s) && s.name@ == "TOSERVER_REMOVED_SOUNDS"@)),
        c == ToServerCommand::NodeMetaFields ==> (to_server_code(c) == 0x3bu16 && (to_server_entry(0x3bu16) matches Some(s) && s.name@ == "TOSERVER_NODEMETA_FIELDS"@)),
        c == ToServerCommand::InventoryFields ==> (to_server_code(c) == 0x3cu16 && (to_server_entry(0x3cu16) matches Some(s) && s.name@ == "TOSERVER_INVENTORY_FIELDS"@)),
        c == ToServerCommand::RequestMedia ==> (to_server_code(c) == 0x40u16 && (to_server_entry(0x40u16) matches Some(s) && s.name@ == "TOSERVER_REQUEST_MEDIA"@)),
        c == ToServerCommand::HaveMedia ==> (to_server_code(c) == 0x41u16 && (to_server_entry(0x41u16) matches Some(s) && s.name@ == "TOSERVER_HAVE_MEDIA"@)),
        c == ToServerCommand::ClientReady ==> (to_server_code(c) == 0x43u16 && (to_server_entry(0x43u16) matches Some(s) && s.name@ == "TOSERVER_CLIENT_READY"@)),
        c == ToServerCommand::FirstSrp ==> (to_server_code(c) == 0x50u16 && (to_server_entry(0x50u16) matches Some(s) && s.name@ == "TOSERVER_FIRST_SRP"@)),
        c == ToServerCommand::SrpBytesA ==> (to_server_code(c) == 0x51u16 && (to_server_entry(0x51u16) matches Some(s) && s.name@ == "TOSERVER_SRP_BYTES_A"@)),
        c == ToServerCommand::SrpBytesM ==> (to_server_code(c) == 0x52u16 && (to_server_entry(0x52u16) matches Some(s) && s.name@ == "TOSERVER_SRP_BYTES_M"@)),
        c == ToServerCommand::UpdateClientInfo ==> (to_server_code(c) == 0x53u16 && (to_server_entry(0x53u16) matches Some(s) && s.name@ == "TOSERVER_UPDATE_CLIENT_INFO"@)),
{
}

/// Metadata of one client-bound opcode.
#[derive(Debug, Clone, Copy)]
pub struct ToClientCommandSpec {
    /// Human-readable name such as `TOCLIENT_HELLO`.
    pub name: &'static str,
    /// Channel the command is sent on.
    pub channel: u8,
    /// Whether the command is sent reliably.
    pub reliable: bool,
}

/// The client-side opcode table: the entry of wire opcode `value`, or
/// `None` for an unassigned opcode.
pub open spec fn to_client_entry(value: u16) -> Option<ToClientCommandSpec> {
    match value {
        0x02 => Some(ToClientCommandSpec { name: "TOCLIENT_HELLO", channel: 0, reliable: true }),
        0x03 => Some(ToClientCommandSpec { name: "TOCLIENT_AUTH_ACCEPT", channel: 0, reliable: true }),
        0x04 => Some(ToClientCommandSpec { name: "TOCLIENT_ACCEPT_SUDO_MODE", channel: 0, reliable: true }),
        0x05 => Some(ToClientCommandSpec { name: "TOCLIENT_DENY_SUDO_MODE", channel: 0, reliable: true }),
        0x0a => Some(ToClientCommandSpec { name: "TOCLIENT_ACCESS_DENIED", channel: 0, reliable: true }),
        0x20 => Some(ToClientCommandSpec { name: "TOCLIENT_BLOCKDATA", channel: 2, reliable: false }),
        0x21 => Some(ToClientCommandSpec { name: "TOCLIENT_ADDNODE", channel: 0, reliable: true }),
        0x22 => Some(ToClientCommandSpec { name: "TOCLIENT_REMOVENODE", channel: 0, reliable: true }),
        0x27 => Some(ToClientCommandSpec { name: "TOCLIENT_INVENTORY", channel: 0, reliable: true }),
        0x29 => Some(ToClientCommandSpec { name: "TOCLIENT_TIME_OF_DAY", channel: 0, reliable: true }),
        0x2a => Some(ToClientCommandSpec { name: "TOCLIENT_CSM_RESTRICTION_FLAGS", channel: 0, reliable: true }),
        0x2b => Some(ToClientCommandSpec { name: "TOCLIENT_PLAYER_SPEED", channel: 0, reliable: true }),
        0x2c => Some(ToClientCommandSpec { name: "TOCLIENT_MEDIA_PUSH", channel: 0, reliable: true }),
        0x2f => Some(ToClientCommandSpec { name: "TOCLIENT_CHAT_MESSAGE", channel: 0, reliable: true }),
        0x31 => Some(ToClientCommandSpec { name: "TOCLIENT_ACTIVE_OBJECT_REMOVE_ADD", channel: 0, reliable: true }),
        0x32 => Some(ToClientCommandSpec { name: "TOCLIENT_ACTIVE_OBJECT_MESSAGES", channel: 0, reliable: true }),
        0x33 => Some(ToClientCommandSpec { name: "TOCLIENT_HP", channel: 0, reliable: true }),
        0x34 => Some(ToClientCommandSpec { name: "TOCLIENT_MOVE_PLAYER", channel: 0, reliable: true }),
        0x35 => Some(ToClientCommandSpec { name: "TOCLIENT_ACCESS_DENIED_LEGACY", channel: 0, reliable: true }),
        0x36 => Some(ToClientCommandSpec { name: "TOCLIENT_FOV", channel: 0, reliable: true }),
        0x37 => Some(ToClientCommandSpec { name: "TOCLIENT_DEATHSCREEN_LEGACY", channel: 0, reliable: true }),
        0x38 => Some(ToClientCommandSpec { name: "TOCLIENT_MEDIA", channel: 2, reliable: true }),
        0x3a => Some(ToClientCommandSpec { name: "TOCLIENT_NODEDEF", channel: 0, reliable: true }),
        0x3c => Some(ToClientCommandSpec { name: "TOCLIENT_ANNOUNCE_MEDIA", channel: 0, reliable: true }),
        0x3d => Some(ToClientCommandSpec { name: "TOCLIENT_ITEMDEF", channel: 0, reliable: true }),
        0x3f => Some(ToClientCommandSpec { name: "TOCLIENT_PLAY_SOUND", channel: 0, reliable: true }),
        0x40 => Some(ToClientCommandSpec { name: "TOCLIENT_STOP_SOUND", channel: 0, reliable: true }),
        0x41 => Some(ToClientCommandSpec { name: "TOCLIENT_PRIVILEGES", channel: 0, reliable: true }),
        0x42 => Some(ToClientCommandSpec { name: "TOCLIENT_INVENTORY_FORMSPEC", channel: 0, reliable: true }),
        0x43 => Some(ToClientCommandSpec { name: "TOCLIENT_DETACHED_INVENTORY", channel: 0, reliable: true }),
        0x44 => Some(ToClientCommandSpec { name: "TOCLIENT_SHOW_FORMSPEC", channel: 0, reliable: true }),
        0x45 => Some(ToClientCommandSpec { name: "TOCLIENT_MOVEMENT", channel: 0, reliable: true }),
        0x46 => Some(ToClientCommandSpec { name: "TOCLIENT_SPAWN_PARTICLE", channel: 0, reliable: true }),
        0x47 => Some(ToClientCommandSpec { name: "TOCLIENT_ADD_PARTICLESPAWNER", channel: 0, reliable: true }),
        0x48 => Some(ToClientCommandSpec { name: "TOCLIENT_CAMERA", channel: 0, reliable: true }),
        0x49 => Some(ToClientCommandSpec { name: "TOCLIENT_HUDADD", channel: 1, reliable: true }),
        0x4a => Some(ToClientCommandSpec { name: "TOCLIENT_HUDRM", channel: 1, reliable: true }),
        0x4b => Some(ToClientCommandSpec { name: "TOCLIENT_HUDCHANGE", channel: 1, reliable: true }),
        0x4c => Some(ToClientCommandSpec { name: "TOCLIENT_HUD_SET_FLAGS", channel: 1, reliable: true }),
        0x4d => Some(ToClientCommandSpec { name: "TOCLIENT_HUD_SET_PARAM", channel: 1, reliable: true }),
        0x4e => Some(ToClientCommandSpec { name: "TOCLIENT_BREATH", channel: 0, reliable: true }),
        0x4f => Some(ToClientCommandSpec { name: "TOCLIENT_SET_SKY", channel: 0, reliable: true }),
        0x50 => Some(ToClientCommandSpec { name: "TOCLIENT_OVERRIDE_DAY_NIGHT_RATIO", channel: 0, reliable: true }),
        0x51 => Some(ToClientCommandSpec { name: "TOCLIENT_LOCAL_PLAYER_ANIMATIONS", channel: 0, reliable: true }),
        0x52 => Some(ToClientCommandSpec { name: "TOCLIENT_EYE_OFFSET", channel: 0, reliable: true }),
        0x53 => Some(ToClientCommandSpec { name: "TOCLIENT_DELETE_PARTICLESPAWNER", channel: 0, reliable: true }),
        0x54 => Some(ToClientCommandSpec { name: "TOCLIENT_CLOUD_PARAMS", channel: 0, reliable: true }),
        0x55 => Some(ToClientCommandSpec { name: "TOCLIENT_FADE_SOUND", channel: 0, reliable: true }),
        0x56 => Some(ToClientCommandSpec { name: "TOCLIENT_UPDATE_PLAYER_LIST", channel: 0, reliable: true }),
        0x57 => Some(ToClientCommandSpec { name: "TOCLIENT_MODCHANNEL_MSG", channel: 0, reliable: true }),
        0x58 => Some(ToClientCommandSpec { name: "TOCLIENT_MODCHANNEL_SIGNAL", channel: 0, reliable: true }),
        0x59 => Some(ToClientCommandSpec { name: "TOCLIENT_NODEMETA_CHANGED", channel: 0, reliable: true }),
        0x5a => Some(ToClientCommandSpec { name: "TOCLIENT_SET_SUN", channel: 0, reliable: true }),
        0x5b => Some(ToClientCommandSpec { name: "TOCLIENT_SET_MOON", channel: 0, reliable: true }),
        0x5c => Some(ToClientCommandSpec { name: "TOCLIENT_SET_STARS", channel: 0, reliable: true }),
        0x5d => Some(ToClientCommandSpec { name: "TOCLIENT_MOVE_PLAYER_REL", channel: 0, reliable: true }),
        0x60 => Some(ToClientCommandSpec { name: "TOCLIENT_SRP_BYTES_S_B", channel: 0, reliable: true }),
        0x61 => Some(ToClientCommandSpec { name: "TOCLIENT_FORMSPEC_PREPEND", channel: 0, reliable: true }),
        0x62 => Some(ToClientCommandSpec { name: "TOCLIENT_MINIMAP_MODES", channel: 0, reliable: true }),
        0x63 => Some(ToClientCommandSpec { name: "TOCLIENT_SET_LIGHTING", channel: 0, reliable: true }),
        0x64 => Some(ToClientCommandSpec { name: "TOCLIENT_SPAWN_PARTICLE_BATCH", channel: 0, reliable: true }),
        _ => None,
    }
}

/// Look up the metadata of a client-bound wire opcode; `None` for an
/// unassigned opcode.
pub fn lookup_to_client_command(value: u16) -> (r: Option<ToClientCommandSpec>)
    ensures
        r == to_client_entry(value),
{
    match value {
        0x02 => Some(ToClientCommandSpec { name: "TOCLIENT_HELLO", channel: 0, reliable: true }),
        0x03 => Some(ToClientCommandSpec { name: "TOCLIENT_AUTH_ACCEPT", channel: 0, reliable: true }),
        0x04 => Some(ToClientCommandSpec { name: "TOCLIENT_ACCEPT_SUDO_MODE", channel: 0, reliable: true }),
        0x05 => Some(ToClientCommandSpec { name: "TOCLIENT_DENY_SUDO_MODE", channel: 0, reliable: true }),
        0x0a => Some(ToClientCommandSpec { name: "TOCLIENT_ACCESS_DENIED", channel: 0, reliable: true }),
        0x20 => Some(ToClientCommandSpec { name: "TOCLIENT_BLOCKDATA", channel: 2, reliable: false }),
        0x21 => Some(ToClientCommandSpec { name: "TOCLIENT_ADDNODE", channel: 0, reliable: true }),
        0x22 => Some(ToClientCommandSpec { name: "TOCLIENT_REMOVENODE", channel: 0, reliable: true }),
        0x27 => Some(ToClientCommandSpec { name: "TOCLIENT_INVENTORY", channel: 0, reliable: true }),
        0x29 => Some(ToClientCommandSpec { name: "TOCLIENT_TIME_OF_DAY", channel: 0, reliable: true }),
        0x2a => Some(ToClientCommandSpec { name: "TOCLIENT_CSM_RESTRICTION_FLAGS", channel: 0, reliable: true }),
        0x2b => Some(ToClientCommandSpec { name: "TOCLIENT_PLAYER_SPEED", channel: 0, reliable: true }),
        0x2c => Some(ToClientCommandSpec { name: "TOCLIENT_MEDIA_PUSH", channel: 0, reliable: true }),
        0x2f => Some(ToClientCommandSpec { name: "TOCLIENT_CHAT_MESSAGE", channel: 0, reliable: true }),
        0x31 => Some(ToClientCommandSpec { name: "TOCLIENT_ACTIVE_OBJECT_REMOVE_ADD", channel: 0, reliable: true }),
        0x32 => Some(ToClientCommandSpec { name: "TOCLIENT_ACTIVE_OBJECT_MESSAGES", channel: 0, reliable: true }),
        0x33 => Some(ToClientCommandSpec { name: "TOCLIENT_HP", channel: 0, reliable: true }),
        0x34 => Some(ToClientCommandSpec { name: "TOCLIENT_MOVE_PLAYER", channel: 0, reliable: true }),
        0x35 => Some(ToClientCommandSpec { name: "TOCLIENT_ACCESS_DENIED_LEGACY", channel: 0, reliable: true }),
        0x36 => Some(ToClientCommandSpec { name: "TOCLIENT_FOV", channel: 0, reliable: true }),
        0x37 => Some(ToClientCommandSpec { name: "TOCLIENT_DEATHSCREEN_LEGACY", channel: 0, reliable: true }),
        0x38 => Some(ToClientCommandSpec { name: "TOCLIENT_MEDIA", channel: 2, reliable: true }),
        0x3a => Some(ToClientCommandSpec { name: "TOCLIENT_NODEDEF", channel: 0, reliable: true }),
        0x3c => Some(ToClientCommandSpec { name: "TOCLIENT_ANNOUNCE_MEDIA", channel: 0, reliable: true }),
        0x3d => Some(ToClientCommandSpec { name: "TOCLIENT_ITEMDEF", channel: 0, reliable: true }),
        0x3f => Some(ToClientCommandSpec { name: "TOCLIENT_PLAY_SOUND", channel: 0, reliable: true }),
        0x40 => Some(ToClientCommandSpec { name: "TOCLIENT_STOP_SOUND", channel: 0, reliable: true }),
        0x41 => Some(ToClientCommandSpec { name: "TOCLIENT_PRIVILEGES", channel: 0, reliable: true }),
        0x42 => Some(ToClientCommandSpec { name: "TOCLIENT_INVENTORY_FORMSPEC", channel: 0, reliable: true }),
        0x43 => Some(ToClientCommandSpec { name: "TOCLIENT_DETACHED_INVENTORY", channel: 0, reliable: true }),
        0x44 => Some(ToClientCommandSpec { name: "TOCLIENT_SHOW_FORMSPEC", channel: 0, reliable: true }),
        0x45 => Some(ToClientCommandSpec { name: "TOCLIENT_MOVEMENT", channel: 0, reliable: true }),
        0x46 => Some(ToClientCommandSpec { name: "TOCLIENT_SPAWN_PARTICLE", channel: 0, reliable: true }),
        0x47 => Some(ToClientCommandSpec { name: "TOCLIENT_ADD_PARTICLESPAWNER", channel: 0, reliable: true }),
        0x48 => Some(ToClientCommandSpec { name: "TOCLIENT_CAMERA", channel: 0, reliable: true }),
        0x49 => Some(ToClientCommandSpec { name: "TOCLIENT_HUDADD", channel: 1, reliable: true }),
        0x4a => Some(ToClientCommandSpec { name: "TOCLIENT_HUDRM", channel: 1, reliable: true }),
        0x4b => Some(ToClientCommandSpec { name: "TOCLIENT_HUDCHANGE", channel: 1, reliable: true }),
        0x4c => Some(ToClientCommandSpec { name: "TOCLIENT_HUD_SET_FLAGS", channel: 1, reliable: true }),
        0x4d => Some(ToClientCommandSpec { name: "TOCLIENT_HUD_SET_PARAM", channel: 1, reliable: true }),
        0x4e => Some(ToClientCommandSpec { name: "TOCLIENT_BREATH", channel: 0, reliable: true }),
        0x4f => Some(ToClientCommandSpec { name: "TOCLIENT_SET_SKY", channel: 0, reliable: true }),
        0x50 => Some(ToClientCommandSpec { name: "TOCLIENT_OVERRIDE_DAY_NIGHT_RATIO", channel: 0, reliable: true }),
        0x51 => Some(ToClientCommandSpec { name: "TOCLIENT_LOCAL_PLAYER_ANIMATIONS", channel: 0, reliable: true }),
        0x52 => Some(ToClientCommandSpec { name: "TOCLIENT_EYE_OFFSET", channel: 0, reliable: true }),
        0x53 => Some(ToClientCommandSpec { name: "TOCLIENT_DELETE_PARTICLESPAWNER", channel: 0, reliable: true }),
        0x54 => Some(ToClientCommandSpec { name: "TOCLIENT_CLOUD_PARAMS", channel: 0, reliable: true }),
        0x55 => Some(ToClientCommandSpec { name: "TOCLIENT_FADE_SOUND", channel: 0, reliable: true }),
        0x56 => Some(ToClientCommandSpec { name: "TOCLIENT_UPDATE_PLAYER_LIST", channel: 0, reliable: true }),
        0x57 => Some(ToClientCommandSpec { name: "TOCLIENT_MODCHANNEL_MSG", channel: 0, reliable: true }),
        0x58 => Some(ToClientCommandSpec { name: "TOCLIENT_MODCHANNEL_SIGNAL", channel: 0, reliable: true }),
        0x59 => Some(ToClientCommandSpec { name: "TOCLIENT_NODEMETA_CHANGED", channel: 0, reliable: true }),
        0x5a => Some(ToClientCommandSpec { name: "TOCLIENT_SET_SUN", channel: 0, reliable: true }),
        0x5b => Some(ToClientCommandSpec { name: "TOCLIENT_SET_MOON", channel: 0, reliable: true }),
        0x5c => Some(ToClientCommandSpec { name: "TOCLIENT_SET_STARS", channel: 0, reliable: true }),
        0x5d => Some(ToClientCommandSpec { name: "TOCLIENT_MOVE_PLAYER_REL", channel: 0, reliable: true }),
        0x60 => Some(ToClientCommandSpec { name: "TOCLIENT_SRP_BYTES_S_B", channel: 0, reliable: true }),
        0x61 => Some(ToClientCommandSpec { name: "TOCLIENT_FORMSPEC_PREPEND", channel: 0, reliable: true }),
        0x62 => Some(ToClientCommandSpec { name: "TOCLIENT_MINIMAP_MODES", channel: 0, reliable: true }),
        0x63 => Some(ToClientCommandSpec { name: "TOCLIENT_SET_LIGHTING", channel: 0, reliable: true }),
        0x64 => Some(ToClientCommandSpec { name: "TOCLIENT_SPAWN_PARTICLE_BATCH", channel: 0, reliable: true }),
        _ => None,
    }
}

/// Commands that can be sent from server to client.
#[derive(Debug, Clone, Copy, PartialEq, Eq, Structural, Hash)]
pub enum ToClientCommand {
    Hello,
    AuthAccept,
    AcceptSudoMode,
    DenySudoMode,
    AccessDenied,
    BlockData,
    AddNode,
    RemoveNode,
    Inventory,
    TimeOfDay,
    CsmRestrictionFlags,
    PlayerSpeed,
    MediaPush,
    ChatMessage,
    ActiveObjectRemoveAdd,
    ActiveObjectMessages,
    Hp,
    MovePlayer,
    AccessDeniedLegacy,
    Fov,
    DeathScreenLegacy,
    Media,
    NodeDef,
    AnnounceMedia,
    ItemDef,
    PlaySound,
    StopSound,
    Privileges,
    InventoryFormspec,
    DetachedInventory,
    ShowFormspec,
    Movement,
    SpawnParticle,
    AddParticleSpawner,
    Camera,
    HudAdd,
    HudRm,
    HudChange,
    HudSetFlags,
    HudSetParam,
    Breath,
    SetSky,
    SrpBytesSB,
    ModChannelMsg,
    ModChannelSignal,
}

/// Wire opcode of a client-bound command.
pub open spec fn to_client_code(c: ToClientCommand) -> u16 {
    match c {
        ToClientCommand::Hello => 0x02,
        ToClientCommand::AuthAccept => 0x03,
        ToClientCommand::AcceptSudoMode => 0x04,
        ToClientCommand::DenySudoMode => 0x05,
        ToClientCommand::AccessDenied => 0x0a,
        ToClientCommand::BlockData => 0x20,
        ToClientCommand::AddNode => 0x21,
        ToClientCommand::RemoveNode => 0x22,
        ToClientCommand::Inventory => 0x27,
        ToClientCommand::TimeOfDay => 0x29,
        ToClientCommand::CsmRestrictionFlags => 0x2a,
        ToClientCommand::PlayerSpeed => 0x2b,
        ToClientCommand::MediaPush => 0x2c,
        ToClientCommand::ChatMessage => 0x2f,
        ToClientCommand::ActiveObjectRemoveAdd => 0x31,
        ToClientCommand::ActiveObjectMessages => 0x32,
        ToClientCommand::Hp => 0x33,
        ToClientCommand::MovePlayer => 0x34,
        ToClientCommand::AccessDeniedLegacy => 0x35,
        ToClientCommand::Fov => 0x36,
        ToClientCommand::DeathScreenLegacy => 0x37,
        ToClientCommand::Media => 0x38,
        ToClientCommand::NodeDef => 0x3a,
        ToClientCommand::AnnounceMedia => 0x3c,
        ToClientCommand::ItemDef => 0x3d,
        ToClientCommand::PlaySound => 0x3f,
        ToClientCommand::StopSound => 0x40,
        ToClientCommand::Privileges => 0x41,
        ToClientCommand::InventoryFormspec => 0x42,
        ToClientCommand::DetachedInventory => 0x43,
        ToClientCommand::ShowFormspec => 0x44,
        ToClientCommand::Movement => 0x45,
        ToClientCommand::SpawnParticle => 0x46,
        ToClientCommand::AddParticleSpawner => 0x47,
        ToClientCommand::Camera => 0x48,
        ToClientCommand::HudAdd => 0x49,
        ToClientCommand::HudRm => 0x4a,
        ToClientCommand::HudChange => 0x4b,
        ToClientCommand::HudSetFlags => 0x4c,
        ToClientCommand::HudSetParam => 0x4d,
        ToClientCommand::Breath => 0x4e,
        ToClientCommand::SetSky => 0x4f,
        ToClientCommand::SrpBytesSB => 0x60,
        ToClientCommand::ModChannelMsg => 0x57,
        ToClientCommand::ModChannelSignal => 0x58,
    }
}

/// The client-bound command with wire opcode `value`, if any.
pub open spec fn to_client_command_of(value: u16) -> Option<ToClientCommand> {
    match value {
        0x02 => Some(ToClientCommand::Hello),
        0x03 => Some(ToClientCommand::AuthAccept),
        0x04 => Some(ToClientCommand::AcceptSudoMode),
        0x05 => Some(ToClientCommand::DenySudoMode),
        0x0a => Some(ToClientCommand::AccessDenied),
        0x20 => Some(ToClientCommand::BlockData),
        0x21 => Some(ToClientCommand::AddNode),
        0x22 => Some(ToClientCommand::RemoveNode),
        0x27 => Some(ToClientCommand::Inventory),
        0x29 => Some(ToClientCommand::TimeOfDay),
        0x2a => Some(ToClientCommand::CsmRestrictionFlags),
        0x2b => Some(ToClientCommand::PlayerSpeed),
        0x2c => Some(ToClientCommand::MediaPush),
        0x2f => Some(ToClientCommand::ChatMessage),
        0x31 => Some(ToClientCommand::ActiveObjectRemoveAdd),
        0x32 => Some(ToClientCommand::ActiveObjectMessages),
        0x33 => Some(ToClientCommand::Hp),
        0x34 => Some(ToClientCommand::MovePlayer),
        0x35 => Some(ToClientCommand::AccessDeniedLegacy),
        0x36 => Some(ToClientCommand::Fov),
        0x37 => Some(ToClientCommand::DeathScreenLegacy),
        0x38 => Some(ToClientCommand::Media),
        0x3a => Some(ToClientCommand::NodeDef),
        0x3c => Some(ToClientCommand::AnnounceMedia),
        0x3d => Some(ToClientCommand::ItemDef),
        0x3f => Some(ToClientCommand::PlaySound),
        0x40 => Some(ToClientCommand::StopSound),
        0x41 => Some(ToClientCommand::Privileges),
        0x42 => Some(ToClientCommand::InventoryFormspec),
        0x43 => Some(ToClientCommand::DetachedInventory),
        0x44 => Some(ToClientCommand::ShowFormspec),
        0x45 => Some(ToClientCommand::Movement),
        0x46 => Some(ToClientCommand::SpawnParticle),
        0x47 => Some(ToClientCommand::AddParticleSpawner),
        0x48 => Some(ToClientCommand::Camera),
        0x49 => Some(ToClientCommand::HudAdd),
        0x4a => Some(ToClientCommand::HudRm),
        0x4b => Some(ToClientCommand::HudChange),
        0x4c => Some(ToClientCommand::HudSetFlags),
        0x4d => Some(ToClientCommand::HudSetParam),
        0x4e => Some(ToClientCommand::Breath),
        0x4f => Some(ToClientCommand::SetSky),
        0x60 => Some(ToClientCommand::SrpBytesSB),
        0x57 => Some(ToClientCommand::ModChannelMsg),
        0x58 => Some(ToClientCommand::ModChannelSignal),
        _ => None,
    }
}

impl ToClientCommand {
    /// Decode a wire opcode to its command.
    pub fn from_u16(value: u16) -> (r: Option<Self>)
        ensures
            r == to_client_command_of(value),
    {
        match value {
            0x02 => Some(ToClientCommand::Hello),
            0x03 => Some(ToClientCommand::AuthAccept),
            0x04 => Some(ToClientCommand::AcceptSudoMode),
            0x05 => Some(ToClientCommand::DenySudoMode),
            0x0a => Some(ToClientCommand::AccessDenied),
            0x20 => Some(ToClientCommand::BlockData),
            0x21 => Some(ToClientCommand::AddNode),
            0x22 => Some(ToClientCommand::RemoveNode),
            0x27 => Some(ToClientCommand::Inventory),
            0x29 => Some(ToClientCommand::TimeOfDay),
            0x2a => Some(ToClientCommand::CsmRestrictionFlags),
            0x2b => Some(ToClientCommand::PlayerSpeed),
            0x2c => Some(ToClientCommand::MediaPush),
            0x2f => Some(ToClientCommand::ChatMessage),
            0x31 => Some(ToClientCommand::ActiveObjectRemoveAdd),
            0x32 => Some(ToClientCommand::ActiveObjectMessages),
            0x33 => Some(ToClientCommand::Hp),
            0x34 => Some(ToClientCommand::MovePlayer),
            0x35 => Some(ToClientCommand::AccessDeniedLegacy),
            0x36 => Some(ToClientCommand::Fov),
            0x37 => Some(ToClientCommand::DeathScreenLegacy),
            0x38 => Some(ToClientCommand::Media),
            0x3a => Some(ToClientCommand::NodeDef),
            0x3c => Some(ToClientCommand::AnnounceMedia),
            0x3d => Some(ToClientCommand::ItemDef),
            0x3f => Some(ToClientCommand::PlaySound),
            0x40 => Some(ToClientCommand::StopSound),
            0x41 => Some(ToClientCommand::Privileges),
            0x42 => Some(ToClientCommand::InventoryFormspec),
            0x43 => Some(ToClientCommand::DetachedInventory),
            0x44 => Some(ToClientCommand::ShowFormspec),
            0x45 => Some(ToClientCommand::Movement),
            0x46 => Some(ToClientCommand::SpawnParticle),
            0x47 => Some(ToClientCommand::AddParticleSpawner),
            0x48 => Some(ToClientCommand::Camera),
            0x49 => Some(ToClientCommand::HudAdd),
            0x4a => Some(ToClientCommand::HudRm),
            0x4b => Some(ToClientCommand::HudChange),
            0x4c => Some(ToClientCommand::HudSetFlags),
            0x4d => Some(ToClientCommand::HudSetParam),
            0x4e => Some(ToClientCommand::Breath),
            0x4f => Some(ToClientCommand::SetSky),
            0x60 => Some(ToClientCommand::SrpBytesSB),
            0x57 => Some(ToClientCommand::ModChannelMsg),
            0x58 => Some(ToClientCommand::ModChannelSignal),
            _ => None,
        }
    }

    /// Wire opcode of this command.
    pub fn to_u16(&self) -> (v: u16)
        ensures
            v == to_client_code(*self),
    {
        match self {
            ToClientCommand::Hello => 0x02,
            ToClientCommand::AuthAccept => 0x03,
            ToClientCommand::AcceptSudoMode => 0x04,
            ToClientCommand::DenySudoMode => 0x05,
            ToClientCommand::AccessDenied => 0x0a,
            ToClientCommand::BlockData => 0x20,
            ToClientCommand::AddNode => 0x21,
            ToClientCommand::RemoveNode => 0x22,
            ToClientCommand::Inventory => 0x27,
            ToClientCommand::TimeOfDay => 0x29,
            ToClientCommand::CsmRestrictionFlags => 0x2a,
            ToClientCommand::PlayerSpeed => 0x2b,
            ToClientCommand::MediaPush => 0x2c,
            ToClientCommand::ChatMessage => 0x2f,
            ToClientCommand::ActiveObjectRemoveAdd => 0x31,
            ToClientCommand::ActiveObjectMessages => 0x32,
            ToClientCommand::Hp => 0x33,
            ToClientCommand::MovePlayer => 0x34,
            ToClientCommand::AccessDeniedLegacy => 0x35,
            ToClientCommand::Fov => 0x36,
            ToClientCommand::DeathScreenLegacy => 0x37,
            ToClientCommand::Media => 0x38,
            ToClientCommand::NodeDef => 0x3a,
            ToClientCommand::AnnounceMedia => 0x3c,
            ToClientCommand::ItemDef => 0x3d,
            ToClientCommand::PlaySound => 0x3f,
            ToClientCommand::StopSound => 0x40,
            ToClientCommand::Privileges => 0x41,
            ToClientCommand::InventoryFormspec => 0x42,
            ToClientCommand::DetachedInventory => 0x43,
            ToClientCommand::ShowFormspec => 0x44,
            ToClientCommand::Movement => 0x45,
            ToClientCommand::SpawnParticle => 0x46,
            ToClientCommand::AddParticleSpawner => 0x47,
            ToClientCommand::Camera => 0x48,
            ToClientCommand::HudAdd => 0x49,
            ToClientCommand::HudRm => 0x4a,
            ToClientCommand::HudChange => 0x4b,
            ToClientCommand::HudSetFlags => 0x4c,
            ToClientCommand::HudSetParam => 0x4d,
            ToClientCommand::Breath => 0x4e,
            ToClientCommand::SetSky => 0x4f,
            ToClientCommand::SrpBytesSB => 0x60,
            ToClientCommand::ModChannelMsg => 0x57,
            ToClientCommand::ModChannelSignal => 0x58,
        }
    }

    /// Table entry of this command.
    fn spec(&self) -> (s: ToClientCommandSpec)
        ensures
            to_client_entry(to_client_code(*self)) == Some(s),
    {
        proof {
            law_to_client_table_covers_commands(*self);
        }
        lookup_to_client_command(self.to_u16()).unwrap()
    }

    /// Human-readable name, from the opcode table.
    pub fn name(&self) -> (n: &'static str)
        ensures
            to_client_entry(to_client_code(*self)) matches Some(s) && n@ == s.name@,
    {
        self.spec().name
    }

    /// Channel the command is sent on, from the opcode table.
    pub fn channel(&self) -> (ch: u8)
        ensures
            to_client_entry(to_client_code(*self)) matches Some(s) && ch == s.channel,
    {
        self.spec().channel
    }

    /// Whether the command is sent reliably, from the opcode table.
    pub fn is_reliable(&self) -> (b: bool)
        ensures
            to_client_entry(to_client_code(*self)) matches Some(s) && b == s.reliable,
    {
        self.spec().reliable
    }
}

/// Decoding the wire opcode of a client-bound command gives the command
/// back, and a decoded opcode is the wire opcode of what it decodes to.
pub proof fn law_to_client_opcode_roundtrip(c: ToClientCommand, value: u16)
    ensures
        to_client_command_of(to_client_code(c)) == Some(c),
        to_client_command_of(value) matches Some(d) ==> to_client_code(d) == value,
{
}

/// Every client-bound command has an entry in the opcode table.
pub proof fn law_to_client_table_covers_commands(c: ToClientCommand)
    ensures
        to_client_entry(to_client_code(c)) is Some,
{
}

/// The protocol's wire opcode of every client-bound command, and the name
/// that the opcode table gives that opcode.
pub proof fn law_to_client_wire_codes(c: ToClientCommand)
    ensures
        c == ToClientCommand::Hello ==> (to_client_code(c) == 0x02u16 && (to_client_entry(0x02u16) matches Some(s) && s.name@ == "TOCLIENT_HELLO"@)),
        c == ToClientCommand::AuthAccept ==> (to_client_code(c) == 0x03u16 && (to_client_entry(0x03u16) matches Some(s) && s.name@ == "TOCLIENT_AUTH_ACCEPT"@)),
        c == ToClientCommand::AcceptSudoMode ==> (to_client_code(c) == 0x04u16 && (to_client_entry(0x04u16) matches Some(s) && s.name@ == "TOCLIENT_ACCEPT_SUDO_MODE"@)),
        c == ToClientCommand::DenySudoMode ==> (to_client_code(c) == 0x05u16 && (to_client_entry(0x05u16) matches Some(s) && s.name@ == "TOCLIENT_DENY_SUDO_MODE"@)),
        c == ToClientCommand::AccessDenied ==> (to_client_code(c) == 0x0au16 && (to_client_entry(0x0au16) matches Some(s) && s.name@ == "TOCLIENT_ACCESS_DENIED"@)),
        c == ToClientCommand::BlockData ==> (to_client_code(c) == 0x20u16 && (to_client_entry(0x20u16) matches Some(s) && s.name@ == "TOCLIENT_BLOCKDATA"@)),
        c == ToClientCommand::AddNode ==> (to_client_code(c) == 0x21u16 && (to_client_entry(0x21u16) matches Some(s) && s.name@ == "TOCLIENT_ADDNODE"@)),
        c == ToClientCommand::RemoveNode ==> (to_client_code(c) == 0x22u16 && (to_client_entry(0x22u16) matches Some(s) && s.name@ == "TOCLIENT_REMOVENODE"@)),
        c == ToClientCommand::Inventory ==> (to_client_code(c) == 0x27u16 && (to_client_entry(0x27u16) matches Some(s) && s.name@ == "TOCLIENT_INVENTORY"@)),
        c == ToClientCommand::TimeOfDay ==> (to_client_code(c) == 0x29u16 && (to_client_entry(0x29u16) matches Some(s) && s.name@ == "TOCLIENT_TIME_OF_DAY"@)),
        c == ToClientCommand::CsmRestrictionFlags ==> (to_client_code(c) == 0x2au16 && (to_client_entry(0x2au16) matches Some(s) && s.name@ == "TOCLIENT_CSM_RESTRICTION_FLAGS"@)),
        c == ToClientCommand::PlayerSpeed ==> (to_client_code(c) == 0x2bu16 && (to_client_entry(0x2bu16) matches Some(s) && s.name@ == "TOCLIENT_PLAYER_SPEED"@)),
        c == ToClientCommand::MediaPush ==> (to_client_code(c) == 0x2cu16 && (to_client_entry(0x2cu16) matches Some(s) && s.name@ == "TOCLIENT_MEDIA_PUSH"@)),
        c == ToClientCommand::ChatMessage ==> (to_client_code(c) == 0x2fu16 && (to_client_entry(0x2fu16) matches Some(s) && s.name@ == "TOCLIENT_CHAT_MESSAGE"@)),
        c == ToClientCommand::ActiveObjectRemoveAdd ==> (to_client_code(c) == 0x31u16 && (to_client_entry(0x31u16) matches Some(s) && s.name@ == "TOCLIENT_ACTIVE_OBJECT_REMOVE_ADD"@)),
        c == ToClientCommand::ActiveObjectMessages ==> (to_client_code(c) == 0x32u16 && (to_client_entry(0x32u16) matches Some(s) && s.name@ == "TOCLIENT_ACTIVE_OBJECT_MESSAGES"@)),
        c == ToClientCommand::Hp ==> (to_client_code(c) == 0x33u16 && (to_client_entry(0x33u16) matches Some(s) && s.name@ == "TOCLIENT_HP"@)),
        c == ToClientCommand::MovePlayer ==> (to_client_code(c) == 0x34u16 && (to_client_entry(0x34u16) matches Some(s) && s.name@ == "TOCLIENT_MOVE_PLAYER"@)),
        c == ToClientCommand::AccessDeniedLegacy ==> (to_client_code(c) == 0x35u16 && (to_client_entry(0x35u16) matches Some(s) && s.name@ == "TOCLIENT_ACCESS_DENIED_LEGACY"@)),
        c == ToClientCommand::Fov ==> (to_client_code(c) == 0x36u16 && (to_client_entry(0x36u16) matches Some(s) && s.name@ == "TOCLIENT_FOV"@)),
        c == ToClientCommand::DeathScreenLegacy ==> (to_client_code(c) == 0x37u16 && (to_client_entry(0x37u16) matches Some(s) && s.name@ == "TOCLIENT_DEATHSCREEN_LEGACY"@)),
        c == ToClientCommand::Media ==> (to_client_code(c) == 0x38u16 && (to_client_entry(0x38u16) matches Some(s) && s.name@ == "TOCLIENT_MEDIA"@)),
        c == ToClientCommand::NodeDef ==> (to_client_code(c) == 0x3au16 && (to_client_entry(0x3au16) matches Some(s) && s.name@ == "TOCLIENT_NODEDEF"@)),
        c == ToClientCommand::AnnounceMedia ==> (to_client_code(c) == 0x3cu16 && (to_client_entry(0x3cu16) matches Some(s) && s.name@ == "TOCLIENT_ANNOUNCE_MEDIA"@)),
        c == ToClientCommand::ItemDef ==> (to_client_code(c) == 0x3du16 && (to_client_entry(0x3du16) matches Some(s) && s.name@ == "TOCLIENT_ITEMDEF"@)),
        c == ToClientCommand::PlaySound ==> (to_client_code(c) == 0x3fu16 && (to_client_entry(0x3fu16) matches Some(s) && s.name@ == "TOCLIENT_PLAY_SOUND"@)),
        c == ToClientCommand::StopSound ==> (to_client_code(c) == 0x40u16 && (to_client_entry(0x40u16) matches Some(s) && s.name@ == "TOCLIENT_STOP_SOUND"@)),
        c == ToClientCommand::Privileges ==> (to_client_code(c) == 0x41u16 && (to_client_entry(0x41u16) matches Some(s) && s.name@ == "TOCLIENT_PRIVILEGES"@)),
        c == ToClientCommand::InventoryFormspec ==> (to_client_code(c) == 0x42u16 && (to_client_entry(0x42u16) matches Some(s) && s.name@ == "TOCLIENT_INVENTORY_FORMSPEC"@)),
        c == ToClientCommand::DetachedInventory ==> (to_client_code(c) == 0x43u16 && (to_client_entry(0x43u16) matches Some(s) && s.name@ == "TOCLIENT_DETACHED_INVENTORY"@)),
        c == ToClientCommand::ShowFormspec ==> (to_client_code(c) == 0x44u16 && (to_client_entry(0x44u16) matches Some(s) && s.name@ == "TOCLIENT_SHOW_FORMSPEC"@)),
        c == ToClientCommand::Movement ==> (to_client_code(c) == 0x45u16 && (to_client_entry(0x45u16) matches Some(s) && s.name@ == "TOCLIENT_MOVEMENT"@)),
        c == ToClientCommand::SpawnParticle ==> (to_client_code(c) == 0x46u16 && (to_client_entry(0x46u16) matches Some(s) && s.name@ == "TOCLIENT_SPAWN_PARTICLE"@)),
        c == ToClientCommand::AddParticleSpawner ==> (to_client_code(c) == 0x47u16 && (to_client_entry(0x47u16) matches Some(s) && s.name@ == "TOCLIENT_ADD_PARTICLESPAWNER"@)),
        c == ToClientCommand::Camera ==> (to_client_code(c) == 0x48u16 && (to_client_entry(0x48u16) matches Some(s) && s.name@ == "TOCLIENT_CAMERA"@)),
        c == ToClientCommand::HudAdd ==> (to_client_code(c) == 0x49u16 && (to_client_entry(0x49u16) matches Some(s) && s.name@ == "TOCLIENT_HUDADD"@)),
        c == ToClientCommand::HudRm ==> (to_client_code(c) == 0x4au16 && (to_client_entry(0x4au16) matches Some(s) && s.name@ == "TOCLIENT_HUDRM"@)),
        c == ToClientCommand::HudChange ==> (to_client_code(c) == 0x4bu16 && (to_client_entry(0x4bu16) matches Some(s) && s.name@ == "TOCLIENT_HUDCHANGE"@)),
        c == ToClientCommand::HudSetFlags ==> (to_client_code(c) == 0x4cu16 && (to_client_entry(0x4cu16) matches Some(s) && s.name@ == "TOCLIENT_HUD_SET_FLAGS"@)),
        c == ToClientCommand::HudSetParam ==> (to_client_code(c) == 0x4du16 && (to_client_entry(0x4du16) matches Some(s) && s.name@ == "TOCLIENT_HUD_SET_PARAM"@)),
        c == ToClientCommand::Breath ==> (to_client_code(c) == 0x4eu16 && (to_client_entry(0x4eu16) matches Some(s) && s.name@ == "TOCLIENT_BREATH"@)),
        c == ToClientCommand::SetSky ==> (to_client_code(c) == 0x4fu16 && (to_client_entry(0x4fu16) matches Some(s) && s.name@ == "TOCLIENT_SET_SKY"@)),
        c == ToClientCommand::SrpBytesSB ==> (to_client_code(c) == 0x60u16 && (to_client_entry(0x60u16) matches Some(s) && s.name@ == "TOCLIENT_SRP_BYTES_S_B"@)),
        c == ToClientCommand::ModChannelMsg ==> (to_client_code(c) == 0x57u16 && (to_client_entry(0x57u16) matches Some(s) && s.name@ == "TOCLIENT_MODCHANNEL_MSG"@)),
        c == ToClientCommand::ModChannelSignal ==> (to_client_code(c) == 0x58u16 && (to_client_entry(0x58u16) matches Some(s) && s.name@ == "TOCLIENT_MODCHANNEL_SIGNAL"@)),
{
}

/// Connection state of a client processing server commands.
#[derive(Debug, Clone, Copy, PartialEq, Eq, Structural)]
pub enum ToClientConnectionState {
    NotConnected,
    Connected,
}

/// Auth mechanisms of the protocol; each one is a bit of a mechanism mask.
#[derive(Debug, Clone, Copy, PartialEq, Eq, Structural)]
pub enum AuthMechanism {
    NoMechanism,
    LegacyPassword,
    Srp,
    FirstSrp,
}

/// Mask bit of an auth mechanism (`None` has no bit).
pub open spec fn auth_mech_bits(m: AuthMechanism) -> u32 {
    match m {
        AuthMechanism::NoMechanism => 0,
        AuthMechanism::LegacyPassword => 1,
        AuthMechanism::Srp => 2,
        AuthMechanism::FirstSrp => 4,
    }
}

impl AuthMechanism {
    /// Mask bit of this mechanism.
    pub fn to_u32(&self) -> (v: u32)
        ensures
            v == auth_mech_bits(*self),
    {
        match self {
            AuthMechanism::NoMechanism => 0,
            AuthMechanism::LegacyPassword => 1,
            AuthMechanism::Srp => 2,
            AuthMechanism::FirstSrp => 4,
        }
    }
}

/// The protocol's mask bits of the auth mechanisms: none has no bit, the
/// legacy password is bit 0, SRP bit 1 and first-time SRP bit 2.
pub proof fn law_auth_mechanism_bits(m: AuthMechanism)
    ensures
        m == AuthMechanism::NoMechanism ==> auth_mech_bits(m) == 0u32,
        m == AuthMechanism::LegacyPassword ==> auth_mech_bits(m) == 1u32,
        m == AuthMechanism::Srp ==> auth_mech_bits(m) == 2u32,
        m == AuthMechanism::FirstSrp ==> auth_mech_bits(m) == 4u32,
{
}

/// Access denied reason codes.
#[derive(Debug, Clone, Copy, PartialEq, Eq, Structural)]
pub enum AccessDeniedCode {
    WrongPassword,
    UnexpectedData,
    Singleplayer,
    WrongVersion,
    WrongCharsInName,
    WrongName,
    TooManyUsers,
    EmptyPassword,
    AlreadyConnected,
    ServerFail,
    CustomString,
    Shutdown,
    Crash,
}

/// Wire value of an access denied code.
pub open spec fn access_denied_code(c: AccessDeniedCode) -> u8 {
    match c {
        AccessDeniedCode::WrongPassword => 0,
        AccessDeniedCode::UnexpectedData => 1,
        AccessDeniedCode::Singleplayer => 2,
        AccessDeniedCode::WrongVersion => 3,
        AccessDeniedCode::WrongCharsInName => 4,
        AccessDeniedCode::WrongName => 5,
        AccessDeniedCode::TooManyUsers => 6,
        AccessDeniedCode::EmptyPassword => 7,
        AccessDeniedCode::AlreadyConnected => 8,
        AccessDeniedCode::ServerFail => 9,
        AccessDeniedCode::CustomString => 10,
        AccessDeniedCode::Shutdown => 11,
        AccessDeniedCode::Crash => 12,
    }
}

impl AccessDeniedCode {
    /// Wire value of this code.
    pub fn to_u8(&self) -> (v: u8)
        ensures
            v == access_denied_code(*self),
    {
        match self {
            AccessDeniedCode::WrongPassword => 0,
            AccessDeniedCode::UnexpectedData => 1,
            AccessDeniedCode::Singleplayer => 2,
            AccessDeniedCode::WrongVersion => 3,
            AccessDeniedCode::WrongCharsInName => 4,
            AccessDeniedCode::WrongName => 5,
            AccessDeniedCode::TooManyUsers => 6,
            AccessDeniedCode::EmptyPassword => 7,
            AccessDeniedCode::AlreadyConnected => 8,
            AccessDeniedCode::ServerFail => 9,
            AccessDeniedCode::CustomString => 10,
            AccessDeniedCode::Shutdown => 11,
            AccessDeniedCode::Crash => 12,
        }
    }
}

/// Interact action types.
#[derive(Debug, Clone, Copy, PartialEq, Eq, Structural)]
pub enum InteractAction {
    StartDigging,
    StopDigging,
    DiggingCompleted,
    Place,
    Use,
    Activate,
}

/// Wire value of an interact action.
pub open spec fn interact_action_code(a: InteractAction) -> u8 {
    match a {
        InteractAction::StartDigging => 0,
        InteractAction::StopDigging => 1,
        InteractAction::DiggingCompleted => 2,
        InteractAction::Place => 3,
        InteractAction::Use => 4,
        InteractAction::Activate => 5,
    }
}

impl InteractAction {
    pub fn from_u8(value: u8) -> (r: Option<Self>)
        ensures
            value <= 5 ==> (r matches Some(a) && interact_action_code(a) == value),
            value > 5 ==> r is None,
    {
        match value {
            0 => Some(InteractAction::StartDigging),
            1 => Some(InteractAction::StopDigging),
            2 => Some(InteractAction::DiggingCompleted),
            3 => Some(InteractAction::Place),
            4 => Some(InteractAction::Use),
            5 => Some(InteractAction::Activate),
            _ => None,
        }
    }

    /// Wire value of this action.
    pub fn to_u8(&self) -> (v: u8)
        ensures
            v == interact_action_code(*self),
    {
        match self {
            InteractAction::StartDigging => 0,
            InteractAction::StopDigging => 1,
            InteractAction::DiggingCompleted => 2,
            InteractAction::Place => 3,
            InteractAction::Use => 4,
            InteractAction::Activate => 5,
        }
    }

    pub fn name(&self) -> (n: &'static str)
        ensures
            n@ == interact_action_name(*self)@,
    {
        match self {
            InteractAction::StartDigging => "INTERACT_START_DIGGING",
            InteractAction::StopDigging => "INTERACT_STOP_DIGGING",
            InteractAction::DiggingCompleted => "INTERACT_DIGGING_COMPLETED",
            InteractAction::Place => "INTERACT_PLACE",
            InteractAction::Use => "INTERACT_USE",
            InteractAction::Activate => "INTERACT_ACTIVATE",
        }
    }
}

/// Name of an interact action.
pub open spec fn interact_action_name(a: InteractAction) -> &'static str {
    match a {
        InteractAction::StartDigging => "INTERACT_START_DIGGING",
        InteractAction::StopDigging => "INTERACT_STOP_DIGGING",
        InteractAction::DiggingCompleted => "INTERACT_DIGGING_COMPLETED",
        InteractAction::Place => "INTERACT_PLACE",
        InteractAction::Use => "INTERACT_USE",
        InteractAction::Activate => "INTERACT_ACTIVATE",
    }
}

/// Mod channel signal types.
#[derive(Debug, Clone, Copy, PartialEq, Eq, Structural)]
pub enum ModChannelSignal {
    JoinOk,
    JoinFailure,
    LeaveOk,
    LeaveFailure,
    ChannelNotRegistered,
    SetState,
}

/// Wire value of a mod channel signal.
pub open spec fn mod_channel_signal_code(s: ModChannelSignal) -> u8 {
    match s {
        ModChannelSignal::JoinOk => 0,
        ModChannelSignal::JoinFailure => 1,
        ModChannelSignal::LeaveOk => 2,
        ModChannelSignal::LeaveFailure => 3,
        ModChannelSignal::ChannelNotRegistered => 4,
        ModChannelSignal::SetState => 5,
    }
}

impl ModChannelSignal {
    pub fn from_u8(value: u8) -> (r: Option<Self>)
        ensures
            value <= 5 ==> (r matches Some(s) && mod_channel_signal_code(s) == value),
            value > 5 ==> r is None,
    {
        match value {
            0 => Some(ModChannelSignal::JoinOk),
            1 => Some(ModChannelSignal::JoinFailure),
            2 => Some(ModChannelSignal::LeaveOk),
            3 => Some(ModChannelSignal::LeaveFailure),
            4 => Some(ModChannelSignal::ChannelNotRegistered),
            5 => Some(ModChannelSignal::SetState),
            _ => None,
        }
    }

    /// Wire value of this signal.
    pub fn to_u8(&self) -> (v: u8)
        ensures
            v == mod_channel_signal_code(*self),
    {
        match self {
            ModChannelSignal::JoinOk => 0,
            ModChannelSignal::JoinFailure => 1,
            ModChannelSignal::LeaveOk => 2,
            ModChannelSignal::LeaveFailure => 3,
            ModChannelSignal::ChannelNotRegistered => 4,
            ModChannelSignal::SetState => 5,
        }
    }
}

} // verus!
