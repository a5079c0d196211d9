//! Application-level command processing: each client command is read from
//! its `NetworkPacket`, checked against the session's handshake phase, and
//! answered with a list of response packets.
//!
//! The current time (Unix seconds) is handed in by the caller.

use vstd::prelude::*;
use std::collections::HashMap;
use vstd::string::StringSliceAdditionalSpecFns;
use vstd::utf8::encode_utf8;
use crate::auth::{decode_srp_verifier_and_salt, decoded_verifier, encode_srp_verifier, encoded_verifier, is_valid_player_name, split_chars, split_on, valid_player_name};
use crate::auth_db::{AuthDatabase, AuthDbError, AuthDbResult, AuthEntry, AuthEntryView};
use crate::base64_util::{base64_valid, is_ascii_alnum, is_valid};
use crate::crypto::{base64_decoding, base64_encoding, is_base64_char};
use crate::bytes::{be_u16, be_u32, be_u64};
use crate::codec::{enc_long_string, dec_i32, dec_long_string, dec_skip, dec_string, dec_u16, dec_u32, dec_u8, dec_utf8, dec_v3s16, dec_wstring, enc_string, enc_wstring, Decoded, ReadFail};
use crate::crypto::{lowercase_of, to_lowercase};
use crate::network_packet::{packet_error, NetworkPacket, PacketError, PacketView};
use crate::opcodes::{
    access_denied_code, auth_mech_bits, mod_channel_signal_code, to_server_code, to_server_command_of, to_server_entry,
    AccessDeniedCode, AuthMechanism, InteractAction, ModChannelSignal, ToServerCommand, ToServerConnectionState,
};
use crate::session::{Session, SessionPhase};
use crate::srp::{create_salted_verification_key, srp_modulus, srp_server_state, srp_verifier_value, SrpError, SrpVerifier, G_2048};
use crate::crypto::{be_fixed, be_value};
use crate::strings::{chars_of, string_from_chars};
use crate::toclient_packets::{
    create_access_denied, create_announce_media, create_auth_accept_response, create_chat_message_response,
    create_csm_restriction_flags, create_hello_response, create_itemdef_response, create_media_bunch, create_modchannel_signal, create_movement,
    create_nodedef_response, create_srp_bytes_s_b_response, create_time_of_day, packet_of, serialize_empty_itemdef,
    serialize_empty_nodedef, MediaAnnounceEntry, MediaBunchFile, announce_entries, announce_views, bunch_entries,
    bunch_views, compressed_definitions, movement_payload,
};
use crate::opcodes::{to_client_code, ToClientCommand};

verus! {

broadcast use vstd::std_specs::hash::group_hash_axioms;

/// Highest serialization version the server writes.
pub const SER_FMT_VER_HIGHEST_WRITE: u8 = 29;

/// Map seed reported in `TOCLIENT_AUTH_ACCEPT`.
pub const DEFAULT_MAP_SEED: u64 = 12345;

/// Bits of the `f32` send interval 0.1 s reported in `TOCLIENT_AUTH_ACCEPT`.
pub const DEFAULT_SEND_INTERVAL_BITS: u32 = 0x3DCC_CCCD;

/// Default time of day (about 6 am).
pub const DEFAULT_TIME_OF_DAY: u16 = 6000;

/// Bits of the `f32` day speed 1.0.
pub const DEFAULT_TIME_SPEED_BITS: u32 = 0x3F80_0000;

/// Bits of the `f32` 1.0 used for every default movement parameter.
pub const DEFAULT_MOVEMENT_BITS: u32 = 0x3F80_0000;

/// No client-side mod restriction.
pub const CSM_RF_NONE: u64 = 0;

/// Default node range of client-side mod lookups.
pub const DEFAULT_CSM_NODE_RANGE: u32 = 8;

/// Errors of command handling.
#[derive(Debug)]
pub enum HandlerError {
    /// A field could not be read from the packet.
    Packet(PacketError),
    /// The session has no player name yet.
    MissingPlayerName,
    /// The session has no stored password yet.
    MissingEncPwd,
    /// The session has not negotiated a protocol version yet.
    MissingProtocolVersion,
    /// The stored password is neither SRP nor legacy base64.
    InvalidStoredPassword,
    /// An SRP computation failed.
    Srp(SrpError),
    /// The authentication database failed.
    Database(AuthDbError),
    /// A pointed-thing length runs past the end of the packet.
    PointedThingTooLong { plen: usize, remaining: usize },
}

/// The handler result for a failed packet read.
pub open spec fn read_failure<T>(f: ReadFail, len: int) -> Result<T, HandlerError> {
    Err(HandlerError::Packet(packet_error(f, len)))
}

/// Views of a list of packets.
pub open spec fn views(v: Seq<NetworkPacket>) -> Seq<PacketView> {
    v.map_values(|p: NetworkPacket| p@)
}

/// The packets of a successful result, seen as views.
pub open spec fn ok_views(r: Result<Vec<NetworkPacket>, HandlerError>) -> Option<Seq<PacketView>> {
    match r {
        Ok(v) => Some(views(v@)),
        Err(_) => None,
    }
}

/// `TOCLIENT_ACCESS_DENIED` with code `code` and message `msg`.
pub open spec fn denied(code: AccessDeniedCode, msg: Seq<char>) -> PacketView {
    packet_of(ToClientCommand::AccessDenied, seq![access_denied_code(code)] + enc_string(encode_utf8(msg)) + seq![0u8])
}

/// `TOCLIENT_AUTH_ACCEPT` as the handshake sends it.
pub open spec fn auth_accept() -> PacketView {
    packet_of(
        ToClientCommand::AuthAccept,
        be_u32(0) + be_u32(0) + be_u32(0) + be_u64(DEFAULT_MAP_SEED) + be_u32(DEFAULT_SEND_INTERVAL_BITS)
            + be_u32(auth_mech_bits(AuthMechanism::FirstSrp)),
    )
}

/// Mechanism of a stored password: SRP for `#1#<salt>#<verifier>` text
/// (four `#`-separated parts, the second being `1`), legacy for valid
/// base64, none otherwise.
pub open spec fn stored_password_mechanism(pwd: Seq<char>) -> Option<u32> {
    let parts = split_on(pwd, '#');
    if parts.len() == 4 && parts[1] == seq!['1'] {
        Some(auth_mech_bits(AuthMechanism::Srp))
    } else if base64_valid(pwd) {
        Some(auth_mech_bits(AuthMechanism::LegacyPassword))
    } else {
        None
    }
}

/// A stored password that is valid base64, as the legacy SHA-1 text is,
/// is offered exactly the legacy-password bit `1`; only text of four
/// `#`-separated parts whose second part is `1` is offered the SRP bit
/// `2`; and no other mask is ever offered.
pub proof fn law_stored_password_mechanism(pwd: Seq<char>)
    ensures
        base64_valid(pwd) ==> stored_password_mechanism(pwd) == Some(1u32),
        stored_password_mechanism(pwd) == Some(2u32) ==> split_on(pwd, '#').len() == 4
            && split_on(pwd, '#')[1] == seq!['1'],
        stored_password_mechanism(pwd) is None || stored_password_mechanism(pwd) == Some(1u32)
            || stored_password_mechanism(pwd) == Some(2u32),
{
    if base64_valid(pwd) {
        assert forall|i: int| 0 <= i < pwd.len() implies pwd[i] != '#' by {
            assert(is_ascii_alnum(pwd[i]) || pwd[i] == '+' || pwd[i] == '/' || pwd[i] == '=');
        }
        crate::auth::lemma_split_no_sep(pwd, '#');
    }
}

/// The database text `#1#<salt>#<verifier>` of a non-empty verifier and
/// salt is offered exactly the SRP bit `2`.
pub proof fn law_srp_text_offered_srp(verifier: Seq<u8>, salt: Seq<u8>)
    requires
        verifier.len() > 0,
        salt.len() > 0,
        base64_decoding(base64_encoding(salt)) == Some(salt),
        base64_decoding(base64_encoding(verifier)) == Some(verifier),
        base64_encoding(salt).len() == 4 * ((salt.len() + 2) / 3),
        base64_encoding(verifier).len() == 4 * ((verifier.len() + 2) / 3),
        forall|i: int| 0 <= i < base64_encoding(salt).len() ==> is_base64_char(#[trigger] base64_encoding(salt)[i]) || base64_encoding(salt)[i] == '=',
        forall|i: int| 0 <= i < base64_encoding(verifier).len() ==> is_base64_char(#[trigger] base64_encoding(verifier)[i]) || base64_encoding(verifier)[i] == '=',
    ensures
        stored_password_mechanism(encoded_verifier(verifier, salt)) == Some(2u32),
{
    crate::auth::law_verifier_roundtrip(verifier, salt);
}

/// Auth mechanism and stored password for a database answer: the stored
/// password's mechanism when the player is known, first-time SRP when
/// the lookup failed.
pub fn auth_mechanism_for(stored: &AuthDbResult<AuthEntry>) -> (r: Result<(u32, Option<String>), HandlerError>)
    ensures
        match stored {
            Ok(e) => match stored_password_mechanism(e.password@) {
                Some(m) => r matches Ok((mm, Some(p))) && mm == m && p@ == e.password@,
                None => r matches Err(HandlerError::InvalidStoredPassword),
            },
            Err(_) => r matches Ok((m, None)) && m == auth_mech_bits(AuthMechanism::FirstSrp),
        },
{
    match stored {
        Ok(entry) => {
            let pwd = chars_of(entry.password.as_str());
            let parts = split_chars(pwd.as_slice(), '#');
            if parts.len() == 4 && parts[1].len() == 1 && parts[1][0] == '1' {
                assert(parts@[1]@ =~= seq!['1']);
                Ok((AuthMechanism::Srp.to_u32(), Some(entry.password.clone())))
            } else {
                proof {
                    if parts@.len() == 4 && parts@[1]@ == seq!['1'] {
                        assert(parts@[1]@[0] == '1');
                    }
                }
                if is_valid(entry.password.as_str()) {
                    Ok((AuthMechanism::LegacyPassword.to_u32(), Some(entry.password.clone())))
                } else {
                    Err(HandlerError::InvalidStoredPassword)
                }
            }
        },
        Err(_) => Ok((AuthMechanism::FirstSrp.to_u32(), None)),
    }
}

/// SRP state kept per peer between the `A` and `M` packets.
pub struct PendingSrp {
    pub verifier: SrpVerifier,
    pub salt: Vec<u8>,
}

/// Connection-state category of each command's handler.
pub open spec fn handler_state_of(c: ToServerCommand) -> ToServerConnectionState {
    match c {
        ToServerCommand::Init | ToServerCommand::Init2 | ToServerCommand::FirstSrp | ToServerCommand::SrpBytesA
        | ToServerCommand::SrpBytesM => ToServerConnectionState::NotConnected,
        ToServerCommand::GotBlocks | ToServerCommand::RequestMedia | ToServerCommand::ClientReady => ToServerConnectionState::Startup,
        _ => ToServerConnectionState::Ingame,
    }
}

/// Connection-state category of a command's handler.
pub fn handler_state(c: ToServerCommand) -> (s: ToServerConnectionState)
    ensures
        s == handler_state_of(c),
{
    match c {
        ToServerCommand::Init | ToServerCommand::Init2 | ToServerCommand::FirstSrp | ToServerCommand::SrpBytesA
        | ToServerCommand::SrpBytesM => ToServerConnectionState::NotConnected,
        ToServerCommand::GotBlocks | ToServerCommand::RequestMedia | ToServerCommand::ClientReady => ToServerConnectionState::Startup,
        _ => ToServerConnectionState::Ingame,
    }
}

/// The handler table and the opcode table agree on every command's
/// connection-state category.
pub proof fn law_handler_state_matches_opcode_table(c: ToServerCommand)
    ensures
        to_server_entry(to_server_code(c)) matches Some(s) && s.required_state == handler_state_of(c),
{
}

/// Whether a command of category `state` is processed in phase `phase`:
/// `NotConnected` and `Startup` always, `Ingame` from `Active` on, `All`
/// never.
pub open spec fn accepted_in(state: ToServerConnectionState, phase: SessionPhase) -> bool {
    match state {
        ToServerConnectionState::NotConnected | ToServerConnectionState::Startup => true,
        ToServerConnectionState::Ingame => phase == SessionPhase::Active || phase == SessionPhase::SudoMode,
        ToServerConnectionState::All => false,
    }
}

/// Processes application-level protocol commands.
pub struct CommandHandler<D: AuthDatabase> {
    pub min_protocol_version: u16,
    pub max_protocol_version: u16,
    auth_db: D,
    pending_srp: HashMap<u16, PendingSrp>,
    media_files: Vec<MediaAnnounceEntry>,
    media_data: Vec<MediaBunchFile>,
}

impl<D: AuthDatabase> CommandHandler<D> {
    pub fn new(min_protocol_version: u16, max_protocol_version: u16, auth_db: D) -> (h: Self)
        ensures
            h.min_version() == min_protocol_version,
            h.max_version() == max_protocol_version,
            h.pending()@ == Map::<u16, PendingSrp>::empty(),
            h.database() == auth_db,
            h.media_announced().len() == 0,
            h.media_stored().len() == 0,
    {
        CommandHandler {
            min_protocol_version,
            max_protocol_version,
            auth_db,
            pending_srp: HashMap::new(),
            media_files: Vec::new(),
            media_data: Vec::new(),
        }
    }

    /// Lowest accepted protocol version.
    pub closed spec fn min_version(&self) -> u16 {
        self.min_protocol_version
    }

    /// Highest accepted protocol version.
    pub closed spec fn max_version(&self) -> u16 {
        self.max_protocol_version
    }

    /// Pending SRP exchanges by peer id.
    pub closed spec fn pending(&self) -> HashMap<u16, PendingSrp> {
        self.pending_srp
    }

    /// Media files the server announces.
    pub closed spec fn media_announced(&self) -> Seq<MediaAnnounceEntry> {
        self.media_files@
    }

    /// Media contents the server serves.
    pub closed spec fn media_stored(&self) -> Seq<MediaBunchFile> {
        self.media_data@
    }

    /// Everything but the database and the pending SRP exchanges.
    pub open spec fn same_config(&self, other: &Self) -> bool {
        &&& self.min_version() == other.min_version()
        &&& self.max_version() == other.max_version()
        &&& self.media_announced() == other.media_announced()
        &&& self.media_stored() == other.media_stored()
    }

    /// The authentication database held.
    pub closed spec fn database(&self) -> D {
        self.auth_db
    }

    /// The authentication database.
    pub fn auth_db(&self) -> (db: &D)
        ensures
            *db == self.database(),
    {
        &self.auth_db
    }

    /// Mutable access to the authentication database.
    pub fn auth_db_mut(&mut self) -> (db: &mut D)
        ensures
            *db == old(self).database(),
            final(self).database() == *final(db),
            final(self).same_config(old(self)),
            final(self).pending() == old(self).pending(),
    {
        &mut self.auth_db
    }
}

/// `TOCLIENT_HELLO` with the negotiated versions and mechanisms.
pub open spec fn hello(ser: u8, proto: u16, mechs: u32) -> PacketView {
    packet_of(ToClientCommand::Hello, seq![ser] + be_u16(0) + be_u16(proto) + be_u32(mechs) + be_u16(0))
}

/// The fields of `TOSERVER_INIT`: serialization version, compression
/// modes, lowest and highest protocol version, player name.
pub open spec fn init_fields(d: Seq<u8>, p: int) -> Decoded<(u8, u16, u16, u16, Seq<char>)> {
    match dec_u8(d, p) {
        Ok((ser, p1)) => match dec_u16(d, p1) {
            Ok((comp, p2)) => match dec_u16(d, p2) {
                Ok((lo, p3)) => match dec_u16(d, p3) {
                    Ok((hi, p4)) => match dec_utf8(d, p4) {
                        Ok((name, p5)) => Ok(((ser, comp, lo, hi, name), p5)),
                        Err(f) => Err(f),
                    },
                    Err(f) => Err(f),
                },
                Err(f) => Err(f),
            },
            Err(f) => Err(f),
        },
        Err(f) => Err(f),
    }
}

/// Smaller of two numbers.
pub open spec fn min_u16(a: u16, b: u16) -> u16 {
    if a < b { a } else { b }
}

/// What `TOSERVER_INIT` does to a session and answers.
pub open spec fn init_post(
    max_version: u16,
    min_version: u16,
    db0: Map<Seq<char>, AuthEntryView>,
    db1: Map<Seq<char>, AuthEntryView>,
    s0: Session,
    s1: Session,
    pk: PacketView,
    r: Result<Vec<NetworkPacket>, HandlerError>,
) -> bool {
    &&& db1 == db0
    &&& match init_fields(pk.data, pk.read_pos) {
        Err(f) => r == read_failure::<Vec<NetworkPacket>>(f, pk.data.len() as int) && s1 == s0,
        Ok(((ser, comp, lo, hi, name), q)) => if !valid_player_name(name) {
            &&& ok_views(r) == Some(seq![denied(AccessDeniedCode::WrongCharsInName, "Invalid characters in player name"@)])
            &&& s1 == s0
        } else if min_u16(hi, max_version) < min_version || min_u16(hi, max_version) < lo {
            &&& ok_views(r) == Some(seq![denied(AccessDeniedCode::WrongVersion, "Protocol version mismatch"@)])
            &&& s1 == s0
        } else {
            match r {
                Ok(v) => {
                    &&& views(v@) == seq![hello(min_u16(ser as u16, SER_FMT_VER_HIGHEST_WRITE as u16) as u8, min_u16(hi, max_version), s1.allowed_auth_mechs)]
                    &&& s1 == (Session {
                        protocol_version: Some(min_u16(hi, max_version)),
                        player_name: s1.player_name,
                        enc_pwd: s1.enc_pwd,
                        allowed_auth_mechs: s1.allowed_auth_mechs,
                        chosen_mech: 0,
                        create_player_on_auth_success: false,
                        phase: SessionPhase::HelloSent,
                        ..s0
                    })
                    &&& s1.player_name matches Some(n) && n@ == name
                    &&& match s1.enc_pwd {
                        Some(pwd) => db0.contains_key(name) && pwd@ == db0[name].password
                            && stored_password_mechanism(pwd@) == Some(s1.allowed_auth_mechs),
                        None => s1.allowed_auth_mechs == auth_mech_bits(AuthMechanism::FirstSrp),
                    }
                    &&& !db0.contains_key(name) ==> s1.enc_pwd is None
                },
                Err(e) => e is InvalidStoredPassword && s1 == s0 && db0.contains_key(name)
                    && stored_password_mechanism(db0[name].password) is None,
            }
        },
    }
}

/// The entry a new player gets: the password text given, no privileges,
/// created at `now`, under the id the database chose.
pub open spec fn new_account(id: u64, name: Seq<char>, password: Seq<char>, now: u64) -> AuthEntryView {
    AuthEntryView { id, name, password, privileges: Seq::empty(), last_login: now as i64 }
}


/// The fields of `TOSERVER_FIRST_SRP`: salt, verifier, empty-password flag.
pub open spec fn first_srp_fields(d: Seq<u8>, p: int) -> Decoded<(Seq<u8>, Seq<u8>, u8)> {
    match dec_string(d, p) {
        Ok((salt, p1)) => match dec_string(d, p1) {
            Ok((v, p2)) => match dec_u8(d, p2) {
                Ok((e, p3)) => Ok(((salt, v, e), p3)),
                Err(f) => Err(f),
            },
            Err(f) => Err(f),
        },
        Err(f) => Err(f),
    }
}

/// What `TOSERVER_FIRST_SRP` does to a session and answers.
pub open spec fn first_srp_post(
    db0: Map<Seq<char>, AuthEntryView>,
    db1: Map<Seq<char>, AuthEntryView>,
    s0: Session,
    s1: Session,
    pk: PacketView,
    now: u64,
    r: Result<Vec<NetworkPacket>, HandlerError>,
) -> bool {
    if s0.phase != SessionPhase::HelloSent {
        ok_views(r) == Some(Seq::<PacketView>::empty()) && s1 == s0 && db1 == db0
    } else {
        match first_srp_fields(pk.data, pk.read_pos) {
            Err(f) => r == read_failure::<Vec<NetworkPacket>>(f, pk.data.len() as int) && s1 == s0 && db1 == db0,
            Ok(((salt, verifier, is_empty), q)) => match s0.player_name {
                None => r matches Err(HandlerError::MissingPlayerName) && s1 == s0 && db1 == db0,
                Some(name) => if s0.allowed_auth_mechs & auth_mech_bits(AuthMechanism::FirstSrp) == 0 {
                    ok_views(r) == Some(seq![denied(AccessDeniedCode::UnexpectedData, "Auth mechanism not allowed"@)]) && s1 == s0
                        && db1 == db0
                } else if is_empty == 1 {
                    ok_views(r) == Some(seq![denied(AccessDeniedCode::EmptyPassword, "Empty passwords are not allowed"@)]) && s1 == s0
                        && db1 == db0
                } else if db0.contains_key(name@) {
                    &&& (ok_views(r) == Some(seq![denied(AccessDeniedCode::AlreadyConnected, "Player already exists"@)])
                        || r matches Err(HandlerError::Database(_)))
                    &&& s1 == s0
                    &&& db1 == db0
                } else {
                    ||| r matches Err(HandlerError::Database(_)) && s1 == s0 && db1 == db0
                    ||| {
                        &&& ok_views(r) == Some(seq![auth_accept()])
                        &&& s1 == (Session { enc_pwd: s1.enc_pwd, phase: SessionPhase::AwaitingInit2, ..s0 })
                        &&& s1.enc_pwd matches Some(e) && e@ == encoded_verifier(verifier, salt)
                        &&& db1 == db0.insert(name@, new_account(db1[name@].id, name@, encoded_verifier(verifier, salt), now))
                    }
                },
            },
        }
    }
}

/// The fields of `TOSERVER_SRP_BYTES_A`: the client's `A` and the
/// `based_on` flag.
pub open spec fn srp_a_fields(d: Seq<u8>, p: int) -> Decoded<(Seq<u8>, u8)> {
    match dec_string(d, p) {
        Ok((a, p1)) => match dec_u8(d, p1) {
            Ok((b, p2)) => Ok(((a, b), p2)),
            Err(f) => Err(f),
        },
        Err(f) => Err(f),
    }
}

/// Mechanism a `based_on` flag selects.
pub open spec fn chosen_mech_of(based_on: u8) -> u32 {
    if based_on == 0 { auth_mech_bits(AuthMechanism::LegacyPassword) } else { auth_mech_bits(AuthMechanism::Srp) }
}

/// Whether `pv` and the answer `out` are what the server computes for an
/// accepted `A`, with the verifier `vbytes`, the secret `b` and the
/// server value `pub_b`.
pub open spec fn srp_a_accepted_with(
    pv: PendingSrp,
    out: Seq<PacketView>,
    based_on: u8,
    pwd: Seq<char>,
    name: Seq<char>,
    a: Seq<u8>,
    pub_b: Seq<u8>,
    b: Seq<u8>,
    vbytes: Seq<u8>,
) -> bool {
    let lower = lowercase_of(name);
    &&& srp_modulus() matches Some(n) && n > 1
    &&& out == seq![packet_of(ToClientCommand::SrpBytesSB, enc_string(pv.salt@) + enc_string(pub_b))]
    &&& b.len() == 32
    &&& (based_on == 1 ==> decoded_verifier(pwd) == Some((pv.salt@, vbytes)))
    &&& (based_on == 0 ==> pv.salt@.len() == 16 && vbytes == be_fixed(
        srp_verifier_value(srp_modulus()->0, G_2048 as nat, encode_utf8(lower), encode_utf8(pwd), pv.salt@),
        256,
    ))
    &&& srp_server_state(pv.verifier, pub_b, srp_modulus()->0, lower, encode_utf8(lower), pv.salt@, be_value(vbytes), be_value(a), be_value(b))
}

/// What `TOSERVER_SRP_BYTES_A` does to a session and the pending
/// exchanges, and answers.
pub open spec fn srp_a_post(
    p0: Map<u16, PendingSrp>,
    p1: Map<u16, PendingSrp>,
    s0: Session,
    s1: Session,
    pk: PacketView,
    r: Result<Vec<NetworkPacket>, HandlerError>,
) -> bool {
    match srp_a_fields(pk.data, pk.read_pos) {
        Err(f) => r == read_failure::<Vec<NetworkPacket>>(f, pk.data.len() as int) && s1 == s0 && p1 == p0,
        Ok(((a, based_on), q)) => if s0.allowed_auth_mechs & chosen_mech_of(based_on) == 0 {
            ok_views(r) == Some(seq![denied(AccessDeniedCode::UnexpectedData, "Auth mechanism not allowed"@)]) && s1 == s0
                && p1 == p0
        } else {
            &&& s1 == (Session { chosen_mech: chosen_mech_of(based_on), ..s0 })
            &&& match (s0.enc_pwd, s0.player_name) {
                (None, _) => r matches Err(HandlerError::MissingEncPwd) && p1 == p0,
                (Some(_), None) => r matches Err(HandlerError::MissingPlayerName) && p1 == p0,
                (Some(pwd), Some(name)) => if based_on > 1 {
                    ok_views(r) == Some(seq![denied(AccessDeniedCode::UnexpectedData, "Unknown based_on value"@)]) && p1 == p0
                } else if based_on == 1 && decoded_verifier(pwd@) is None {
                    ok_views(r) == Some(seq![denied(AccessDeniedCode::ServerFail, "Invalid stored verifier"@)]) && p1 == p0
                } else {
                    match r {
                        Ok(v) => {
                            &&& p1.contains_key(s0.peer_id)
                            &&& p1.remove(s0.peer_id) == p0.remove(s0.peer_id)
                            &&& exists|pub_b: Seq<u8>, b: Seq<u8>, vbytes: Seq<u8>| #[trigger] srp_a_accepted_with(
                                p1[s0.peer_id], views(v@), based_on, pwd@, name@, a, pub_b, b, vbytes)
                        },
                        Err(e) => e is Srp && p1 == p0 && !srp_accepts(a),
                    }
                },
            }
        },
    }
}

/// Whether the SRP exchange can start from the client's `A`: the modulus
/// text parses to a number above one, and `A` is not a multiple of it.
pub open spec fn srp_accepts(a: Seq<u8>) -> bool {
    srp_modulus() matches Some(n) && n > 1 && be_value(a) % n != 0
}

/// What `TOSERVER_SRP_BYTES_M` does to a session and the pending
/// exchanges, and answers.
pub open spec fn srp_m_post(
    p0: Map<u16, PendingSrp>,
    p1: Map<u16, PendingSrp>,
    db0: Map<Seq<char>, AuthEntryView>,
    db1: Map<Seq<char>, AuthEntryView>,
    s0: Session,
    s1: Session,
    pk: PacketView,
    now: u64,
    r: Result<Vec<NetworkPacket>, HandlerError>,
) -> bool {
    match dec_string(pk.data, pk.read_pos) {
        Err(f) => r == read_failure::<Vec<NetworkPacket>>(f, pk.data.len() as int) && s1 == s0 && p1 == p0 && db1 == db0,
        Ok((m, q)) => {
            &&& p1 == p0.remove(s0.peer_id)
            &&& if !p0.contains_key(s0.peer_id) {
                ok_views(r) == Some(seq![denied(AccessDeniedCode::UnexpectedData, "No pending SRP session"@)]) && s1 == s0
                    && db1 == db0
            } else if s0.player_name is None {
                r matches Err(HandlerError::MissingPlayerName) && s1 == s0 && db1 == db0
            } else if m.len() != 32 {
                ok_views(r) == Some(seq![denied(AccessDeniedCode::UnexpectedData, "Invalid M"@)]) && s1 == s0 && db1 == db0
            } else if m != p0[s0.peer_id].verifier.m_view() {
                ok_views(r) == Some(seq![denied(AccessDeniedCode::WrongPassword, "Wrong password"@)]) && s1 == s0 && db1 == db0
            } else if s0.create_player_on_auth_success {
                let name = s0.player_name->0@;
                let pwd = match s0.enc_pwd {
                    Some(p) => p@,
                    None => Seq::<char>::empty(),
                };
                let refused = ok_views(r) == Some(seq![denied(AccessDeniedCode::ServerFail, "Failed to create account"@)])
                    && s1 == s0 && db1 == db0;
                if db0.contains_key(name) {
                    refused
                } else {
                    ||| refused
                    ||| ok_views(r) == Some(seq![auth_accept()]) && s1 == (Session {
                        create_player_on_auth_success: false,
                        phase: SessionPhase::AwaitingInit2,
                        ..s0
                    }) && db1 == db0.insert(name, new_account(db1[name].id, name, pwd, now))
                }
            } else {
                ok_views(r) == Some(seq![auth_accept()]) && s1 == (Session { phase: SessionPhase::AwaitingInit2, ..s0 })
                    && db1 == db0
            }
        },
    }
}

/// The six packets `TOSERVER_INIT2` answers with for protocol `proto`.
pub open spec fn init2_responses(proto: u16, media: Seq<MediaAnnounceEntry>) -> Seq<PacketView> {
    seq![
        packet_of(ToClientCommand::ItemDef, enc_long_string(compressed_definitions(seq![0u8, 0u8, 0u8, 0u8, 0u8], proto))),
        packet_of(ToClientCommand::NodeDef, enc_long_string(compressed_definitions(seq![1u8, 0u8, 0u8, 0u8, 0u8, 0u8, 0u8], proto))),
        packet_of(ToClientCommand::AnnounceMedia, be_u16(media.len() as u16) + announce_entries(announce_views(media)) + enc_string(Seq::empty())),
        packet_of(ToClientCommand::Movement, movement_payload(Seq::new(12, |i: int| DEFAULT_MOVEMENT_BITS))),
        packet_of(ToClientCommand::TimeOfDay, be_u16(DEFAULT_TIME_OF_DAY) + be_u32(DEFAULT_TIME_SPEED_BITS)),
        packet_of(ToClientCommand::CsmRestrictionFlags, be_u64(CSM_RF_NONE) + be_u32(DEFAULT_CSM_NODE_RANGE)),
    ]
}

/// What `TOSERVER_INIT2` does to a session and the pending exchanges,
/// and answers.
pub open spec fn init2_post(
    media: Seq<MediaAnnounceEntry>,
    p0: Map<u16, PendingSrp>,
    p1: Map<u16, PendingSrp>,
    s0: Session,
    s1: Session,
    r: Result<Vec<NetworkPacket>, HandlerError>,
) -> bool {
    if s0.phase != SessionPhase::AwaitingInit2 {
        ok_views(r) == Some(Seq::<PacketView>::empty()) && s1 == s0 && p1 == p0
    } else {
        &&& p1 == p0.remove(s0.peer_id)
        &&& match s0.protocol_version {
            None => r matches Err(HandlerError::MissingProtocolVersion) && s1 == (Session { phase: SessionPhase::InitDone, ..s0 }),
            Some(proto) => ok_views(r) == Some(init2_responses(proto, media))
                && s1 == (Session { phase: SessionPhase::DefinitionsSent, ..s0 }),
        }
    }
}

/// The names of a `TOSERVER_REQUEST_MEDIA`: a count, then that many
/// strings.
pub open spec fn dec_utf8s(d: Seq<u8>, p: int, n: nat) -> Decoded<Seq<Seq<char>>>
    decreases n,
{
    if n == 0 {
        Ok((Seq::empty(), p))
    } else {
        match dec_utf8s(d, p, (n - 1) as nat) {
            Ok((names, q)) => match dec_utf8(d, q) {
                Ok((s, r)) => Ok((names.push(s), r)),
                Err(f) => Err(f),
            },
            Err(f) => Err(f),
        }
    }
}

/// The requested names of `TOSERVER_REQUEST_MEDIA`.
pub open spec fn media_request(d: Seq<u8>, p: int) -> Decoded<Seq<Seq<char>>> {
    match dec_u16(d, p) {
        Ok((n, q)) => dec_utf8s(d, q, n as nat),
        Err(f) => Err(f),
    }
}

/// Whether some announced file is named `n`.
pub open spec fn is_announced(media: Seq<MediaAnnounceEntry>, n: Seq<char>) -> bool {
    exists|i: int| 0 <= i < media.len() && (#[trigger] media[i]).name@ == n
}

/// The requested names the server announces, in request order.
pub open spec fn available_names(names: Seq<Seq<char>>, media: Seq<MediaAnnounceEntry>) -> Seq<Seq<char>> {
    names.filter(|n: Seq<char>| is_announced(media, n))
}

/// Contents stored for `n`: the first stored file of that name, or
/// nothing.
pub open spec fn stored_contents(stored: Seq<MediaBunchFile>, n: Seq<char>) -> Seq<u8>
    decreases stored.len(),
{
    if stored.len() == 0 {
        Seq::empty()
    } else if stored[0].name@ == n {
        stored[0].data@
    } else {
        stored_contents(stored.drop_first(), n)
    }
}

/// Number of bunches of eight for `n` files.
pub open spec fn bunch_count(n: nat) -> nat {
    (n + 7) / 8
}

/// The files of bunch `i`: names `8 i .. 8 i + 8` with their contents.
pub open spec fn bunch_files(avail: Seq<Seq<char>>, stored: Seq<MediaBunchFile>, i: int) -> Seq<(Seq<char>, Seq<u8>)> {
    let lo = 8 * i;
    let hi = if 8 * i + 8 <= avail.len() { 8 * i + 8 } else { avail.len() as int };
    avail.subrange(lo, hi).map_values(|n: Seq<char>| (n, stored_contents(stored, n)))
}

/// The `TOCLIENT_MEDIA` packets answering a request for `names`: one
/// empty bunch when none is available, else bunches of eight.
pub open spec fn media_responses(names: Seq<Seq<char>>, media: Seq<MediaAnnounceEntry>, stored: Seq<MediaBunchFile>) -> Seq<PacketView> {
    let avail = available_names(names, media);
    if avail.len() == 0 {
        seq![packet_of(ToClientCommand::Media, be_u16(1) + be_u16(0) + be_u32(0))]
    } else {
        Seq::new(bunch_count(avail.len()), |i: int| packet_of(
            ToClientCommand::Media,
            be_u16(bunch_count(avail.len()) as u16) + be_u16(i as u16) + be_u32(bunch_files(avail, stored, i).len() as u32)
                + bunch_entries(bunch_files(avail, stored, i)),
        ))
    }
}

/// The version fields of `TOSERVER_CLIENT_READY`: major, minor, patch,
/// reserved.
pub open spec fn client_ready_fields(d: Seq<u8>, p: int) -> Decoded<()> {
    match dec_u8(d, p) {
        Ok((_, p1)) => match dec_u8(d, p1) {
            Ok((_, p2)) => match dec_u8(d, p2) {
                Ok((_, p3)) => match dec_u8(d, p3) {
                    Ok((_, p4)) => Ok(((), p4)),
                    Err(f) => Err(f),
                },
                Err(f) => Err(f),
            },
            Err(f) => Err(f),
        },
        Err(f) => Err(f),
    }
}

/// Name a chat message is sent under: the player's name, or nothing.
pub open spec fn sender_of(s: Session) -> Seq<char> {
    match s.player_name {
        Some(n) => n@,
        None => Seq::empty(),
    }
}

/// A read's outcome with its value dropped.
pub open spec fn unit_of<T>(r: Decoded<T>) -> Decoded<()> {
    match r {
        Ok((_, q)) => Ok(((), q)),
        Err(f) => Err(f),
    }
}

/// `n` consecutive reads of `step` from position `p`.
pub open spec fn dec_repeat(d: Seq<u8>, p: int, n: nat, step: spec_fn(Seq<u8>, int) -> Decoded<()>) -> Decoded<()>
    decreases n,
{
    if n == 0 {
        Ok(((), p))
    } else {
        match dec_repeat(d, p, (n - 1) as nat, step) {
            Ok((_, q)) => step(d, q),
            Err(f) => Err(f),
        }
    }
}

proof fn lemma_dec_repeat_fail(d: Seq<u8>, p: int, i: nat, n: nat, step: spec_fn(Seq<u8>, int) -> Decoded<()>)
    requires
        i < n,
        dec_repeat(d, p, i, step) is Ok,
        step(d, dec_repeat(d, p, i, step)->Ok_0.1) is Err,
    ensures
        dec_repeat(d, p, n, step) == step(d, dec_repeat(d, p, i, step)->Ok_0.1),
    decreases n - i,
{
    if n > i + 1 {
        lemma_dec_repeat_fail(d, p, i, (n - 1) as nat, step);
    }
}

/// Reading a `v3s16`.
pub open spec fn v3s16_step() -> spec_fn(Seq<u8>, int) -> Decoded<()> {
    |d: Seq<u8>, p: int| unit_of(dec_v3s16(d, p))
}

/// Reading an `i32`.
pub open spec fn i32_step() -> spec_fn(Seq<u8>, int) -> Decoded<()> {
    |d: Seq<u8>, p: int| unit_of(dec_i32(d, p))
}

/// Reading a `u32`.
pub open spec fn u32_step() -> spec_fn(Seq<u8>, int) -> Decoded<()> {
    |d: Seq<u8>, p: int| unit_of(dec_u32(d, p))
}

/// A count of type `u8`, then that many reads of `step`.
pub open spec fn counted_u8(d: Seq<u8>, p: int, step: spec_fn(Seq<u8>, int) -> Decoded<()>) -> Decoded<()> {
    match dec_u8(d, p) {
        Ok((n, q)) => dec_repeat(d, q, n as nat, step),
        Err(f) => Err(f),
    }
}

/// A count of type `u16`, then that many reads of `step`.
pub open spec fn counted_u16(d: Seq<u8>, p: int, step: spec_fn(Seq<u8>, int) -> Decoded<()>) -> Decoded<()> {
    match dec_u16(d, p) {
        Ok((n, q)) => dec_repeat(d, q, n as nat, step),
        Err(f) => Err(f),
    }
}

/// The outcome of a command that only reads its fields: no answer when
/// they read, the read failure otherwise.
pub open spec fn read_only_post(outcome: Decoded<()>, len: int, r: Result<Vec<NetworkPacket>, HandlerError>) -> bool {
    match outcome {
        Ok(_) => ok_views(r) == Some(Seq::<PacketView>::empty()),
        Err(f) => r == read_failure::<Vec<NetworkPacket>>(f, len),
    }
}

/// The fields `TOSERVER_NODEMETA_FIELDS` must read: the position, then
/// (after the form name, read or not) the field count.
pub open spec fn node_meta_outcome(d: Seq<u8>, p: int) -> Decoded<()> {
    match dec_v3s16(d, p) {
        Ok((_, q)) => unit_of(dec_u16(d, crate::wire::next_pos(dec_utf8(d, q)))),
        Err(f) => Err(f),
    }
}

/// The fields `TOSERVER_INVENTORY_FIELDS` must read: the field count
/// after the form name (read or not).
pub open spec fn inventory_fields_outcome(d: Seq<u8>, p: int) -> Decoded<()> {
    unit_of(dec_u16(d, crate::wire::next_pos(dec_utf8(d, p))))
}

/// The channel name a mod channel command carries, or nothing when it
/// does not read.
pub open spec fn channel_of(d: Seq<u8>, p: int) -> Seq<char> {
    match dec_utf8(d, p) {
        Ok((s, _)) => s,
        Err(_) => Seq::empty(),
    }
}

/// `TOCLIENT_MODCHANNEL_SIGNAL` for `signal` on `channel`.
pub open spec fn signal_packet(signal: ModChannelSignal, channel: Seq<char>) -> PacketView {
    packet_of(ToClientCommand::ModChannelSignal, seq![mod_channel_signal_code(signal)] + enc_string(encode_utf8(channel)))
}

/// What `TOSERVER_INTERACT` answers: nothing for an unknown action or a
/// fully read packet, an error when a field is short or the pointed thing
/// runs past the end.
pub open spec fn interact_post(d: Seq<u8>, p: int, r: Result<Vec<NetworkPacket>, HandlerError>) -> bool {
    match dec_u8(d, p) {
        Err(f) => r == read_failure::<Vec<NetworkPacket>>(f, d.len() as int),
        Ok((action, p1)) => if action > 5 {
            ok_views(r) == Some(Seq::<PacketView>::empty())
        } else {
            match dec_u16(d, p1) {
                Err(f) => r == read_failure::<Vec<NetworkPacket>>(f, d.len() as int),
                Ok((_, p2)) => match dec_u32(d, p2) {
                    Err(f) => r == read_failure::<Vec<NetworkPacket>>(f, d.len() as int),
                    Ok((plen, p3)) => if d.len() - p3 < plen {
                        r matches Err(HandlerError::PointedThingTooLong { plen: pl, remaining: rem })
                            && pl == plen && rem == d.len() - p3
                    } else {
                        ok_views(r) == Some(Seq::<PacketView>::empty())
                    },
                },
            }
        },
    }
}

/// The target of an interaction.
#[derive(Debug, Clone, Copy, PartialEq, Eq)]
pub enum PointedThing {
    Nothing,
    Node { under: (i16, i16, i16), above: (i16, i16, i16) },
    Object { id: u16 },
}

/// The `v3s16` at `b[k..k + 6]`.
pub open spec fn v3s16_at(b: Seq<u8>, k: int) -> (i16, i16, i16) {
    (
        crate::bytes::u16_of(b[k], b[k + 1]) as i16,
        crate::bytes::u16_of(b[k + 2], b[k + 3]) as i16,
        crate::bytes::u16_of(b[k + 4], b[k + 5]) as i16,
    )
}

/// A serialized pointed thing: version 0, a type, then nothing, two node
/// positions, or an object id.
pub open spec fn pointed_thing_of(b: Seq<u8>) -> Option<PointedThing> {
    if b.len() < 2 || b[0] != 0 {
        None
    } else if b[1] == 0 {
        Some(PointedThing::Nothing)
    } else if b[1] == 1 {
        if b.len() < 14 {
            None
        } else {
            Some(PointedThing::Node { under: v3s16_at(b, 2), above: v3s16_at(b, 8) })
        }
    } else if b[1] == 2 {
        if b.len() < 4 {
            None
        } else {
            Some(PointedThing::Object { id: crate::bytes::u16_of(b[2], b[3]) })
        }
    } else {
        None
    }
}

fn v3s16_from(b: &[u8], k: usize) -> (v: (i16, i16, i16))
    requires
        k + 6 <= b@.len(),
    ensures
        v == v3s16_at(b@, k as int),
{
    let len = b.len();
    assert(k + 6 <= len);
    (
        crate::bytes::get_u16(b, k) as i16,
        crate::bytes::get_u16(b, k + 2) as i16,
        crate::bytes::get_u16(b, k + 4) as i16,
    )
}

/// Decodes a serialized pointed thing.
pub fn parse_pointed_thing(buf: &[u8]) -> (r: Option<PointedThing>)
    ensures
        r == pointed_thing_of(buf@),
{
    if buf.len() < 2 {
        return None;
    }
    if buf[0] != 0 {
        return None;
    }
    let type_byte = buf[1];
    if type_byte == 0 {
        Some(PointedThing::Nothing)
    } else if type_byte == 1 {
        if buf.len() < 14 {
            return None;
        }
        Some(PointedThing::Node { under: v3s16_from(buf, 2), above: v3s16_from(buf, 8) })
    } else if type_byte == 2 {
        if buf.len() < 4 {
            return None;
        }
        Some(PointedThing::Object { id: crate::bytes::get_u16(buf, 2) })
    } else {
        None
    }
}

/// Where the read cursor ends after one form field (name, then long
/// value, each read or skipped over when it does not read) at `p`.
pub open spec fn form_field_end(d: Seq<u8>, p: int) -> int {
    crate::wire::next_pos(dec_long_string(d, crate::wire::next_pos(dec_utf8(d, p))))
}

/// Where the read cursor ends after `n` form fields at `p`.
pub open spec fn form_fields_end(d: Seq<u8>, p: int, n: nat) -> int
    decreases n,
{
    if n == 0 {
        p
    } else {
        form_field_end(d, form_fields_end(d, p, (n - 1) as nat))
    }
}

/// Where the read cursor ends after `TOSERVER_UPDATE_CLIENT_INFO` at `p`:
/// unmoved when the 24 bytes of sizes and scalings are not all there, past
/// them otherwise, and past the touch flag too when that byte is there.
pub open spec fn client_info_end(d: Seq<u8>, p: int) -> int {
    if p + 24 > d.len() {
        p
    } else if p + 25 <= d.len() {
        p + 25
    } else {
        p + 24
    }
}

/// Length of the player position block that always follows an interaction.
pub const PLAYER_POS_LEN: usize = 12 + 12 + 4 + 4 + 4 + 1 + 1;

/// Where the read cursor ends after stepping over the player position
/// block at `p`: past the block and its optional eight trailing bytes when
/// they are there, past the block alone when only it is, and at `p` when
/// the block is short.
pub open spec fn player_pos_end(d: Seq<u8>, p: int) -> int {
    if p + PLAYER_POS_LEN > d.len() {
        p
    } else if p + PLAYER_POS_LEN + 8 <= d.len() {
        p + PLAYER_POS_LEN + 8
    } else {
        p + PLAYER_POS_LEN
    }
}

/// Steps over the player position block of an interaction (and its
/// optional eight trailing bytes); a short block is left unread.
fn decode_player_pos_payload(packet: &mut NetworkPacket) -> (r: Result<(), HandlerError>)
    requires
        old(packet)@.wf(),
    ensures
        r is Ok,
        final(packet)@.wf(),
        final(packet)@ == (PacketView { read_pos: player_pos_end(old(packet)@.data, old(packet)@.read_pos), ..old(packet)@ }),
{
    if packet.remaining() < PLAYER_POS_LEN {
        return Ok(());
    }
    let _ = packet.skip(PLAYER_POS_LEN);
    let _ = packet.skip(8);
    Ok(())
}

impl<D: AuthDatabase> CommandHandler<D> {
    /// `TOSERVER_INIT`: checks the name and the protocol versions, looks
    /// the player up to pick the auth mechanism, and answers `HELLO`.
    fn handle_init(&mut self, session: &mut Session, packet: &mut NetworkPacket) -> (r: Result<Vec<NetworkPacket>, HandlerError>)
        requires
            old(packet)@.wf(),
        ensures
            final(self).same_config(old(self)),
            final(self).pending() == old(self).pending(),
            init_post(old(self).max_version(), old(self).min_version(), old(self).database().stored(),
                final(self).database().stored(), *old(session), *final(session), old(packet)@, r),
    {
        let ghost pk = packet@;
        let client_ser_ver = match packet.read_u8() { Ok(v) => v, Err(e) => return Err(HandlerError::Packet(e)) };
        let compression = match packet.read_u16() { Ok(v) => v, Err(e) => return Err(HandlerError::Packet(e)) };
        let min_proto = match packet.read_u16() { Ok(v) => v, Err(e) => return Err(HandlerError::Packet(e)) };
        let max_proto = match packet.read_u16() { Ok(v) => v, Err(e) => return Err(HandlerError::Packet(e)) };
        let player_name = match packet.read_utf8() { Ok(v) => v, Err(e) => return Err(HandlerError::Packet(e)) };
        assert(init_fields(pk.data, pk.read_pos) == Ok::<((u8, u16, u16, u16, Seq<char>), int), ReadFail>(
            ((client_ser_ver, compression, min_proto, max_proto, player_name@), packet@.read_pos)));

        if !is_valid_player_name(player_name.as_str()) {
            let mut out: Vec<NetworkPacket> = Vec::new();
            out.push(create_access_denied(AccessDeniedCode::WrongCharsInName, "Invalid characters in player name"));
            assert(views(out@) =~= seq![denied(AccessDeniedCode::WrongCharsInName, "Invalid characters in player name"@)]);
            return Ok(out);
        }

        let negotiated_ser_ver = if client_ser_ver < SER_FMT_VER_HIGHEST_WRITE { client_ser_ver } else { SER_FMT_VER_HIGHEST_WRITE };
        let negotiated_proto = if max_proto < self.max_protocol_version { max_proto } else { self.max_protocol_version };
        if negotiated_proto < self.min_protocol_version || negotiated_proto < min_proto {
            let mut out: Vec<NetworkPacket> = Vec::new();
            out.push(create_access_denied(AccessDeniedCode::WrongVersion, "Protocol version mismatch"));
            assert(views(out@) =~= seq![denied(AccessDeniedCode::WrongVersion, "Protocol version mismatch"@)]);
            return Ok(out);
        }

        let stored = self.auth_db.get_auth(player_name.as_str());
        let (auth_mechs, enc_pwd) = auth_mechanism_for(&stored)?;

        session.protocol_version = Some(negotiated_proto);
        session.player_name = Some(player_name);
        session.enc_pwd = enc_pwd;
        session.allowed_auth_mechs = auth_mechs;
        session.chosen_mech = AuthMechanism::NoMechanism.to_u32();
        session.create_player_on_auth_success = false;
        session.phase = SessionPhase::HelloSent;

        let mut out: Vec<NetworkPacket> = Vec::new();
        out.push(create_hello_response(negotiated_ser_ver, negotiated_proto, auth_mechs));
        assert(views(out@) =~= seq![hello(negotiated_ser_ver, negotiated_proto, auth_mechs)]);
        Ok(out)
    }
}

impl<D: AuthDatabase> CommandHandler<D> {
    /// `TOSERVER_FIRST_SRP`: registers a new player with the verifier and
    /// salt the client sent, in the `HelloSent` phase only.
    fn handle_first_srp(&mut self, session: &mut Session, packet: &mut NetworkPacket, now: u64) -> (r: Result<Vec<NetworkPacket>, HandlerError>)
        requires
            old(packet)@.wf(),
        ensures
            final(self).same_config(old(self)),
            final(self).pending() == old(self).pending(),
            first_srp_post(old(self).database().stored(), final(self).database().stored(), *old(session), *final(session),
                old(packet)@, now, r),
    {
        if session.phase != SessionPhase::HelloSent {
            let out: Vec<NetworkPacket> = Vec::new();
            assert(views(out@) =~= Seq::<PacketView>::empty());
            return Ok(out);
        }
        let ghost pk = packet@;
        let salt = match packet.read_string() { Ok(v) => v, Err(e) => return Err(HandlerError::Packet(e)) };
        let verifier = match packet.read_string() { Ok(v) => v, Err(e) => return Err(HandlerError::Packet(e)) };
        let is_empty = match packet.read_u8() { Ok(v) => v, Err(e) => return Err(HandlerError::Packet(e)) };
        assert(first_srp_fields(pk.data, pk.read_pos) == Ok::<((Seq<u8>, Seq<u8>, u8), int), ReadFail>(
            ((salt@, verifier@, is_empty), packet@.read_pos)));
        let player_name = match &session.player_name {
            Some(n) => n.clone(),
            None => return Err(HandlerError::MissingPlayerName),
        };
        if session.allowed_auth_mechs & AuthMechanism::FirstSrp.to_u32() == 0 {
            let mut out: Vec<NetworkPacket> = Vec::new();
            out.push(create_access_denied(AccessDeniedCode::UnexpectedData, "Auth mechanism not allowed"));
            assert(views(out@) =~= seq![denied(AccessDeniedCode::UnexpectedData, "Auth mechanism not allowed"@)]);
            return Ok(out);
        }
        if is_empty == 1 {
            let mut out: Vec<NetworkPacket> = Vec::new();
            out.push(create_access_denied(AccessDeniedCode::EmptyPassword, "Empty passwords are not allowed"));
            assert(views(out@) =~= seq![denied(AccessDeniedCode::EmptyPassword, "Empty passwords are not allowed"@)]);
            return Ok(out);
        }
        if self.auth_db.get_auth(player_name.as_str()).is_ok() {
            let mut out: Vec<NetworkPacket> = Vec::new();
            out.push(create_access_denied(AccessDeniedCode::AlreadyConnected, "Player already exists"));
            assert(views(out@) =~= seq![denied(AccessDeniedCode::AlreadyConnected, "Player already exists"@)]);
            return Ok(out);
        }
        let enc_pwd = encode_srp_verifier(verifier.as_slice(), salt.as_slice());
        let ghost name_v = player_name@;
        let mut entry = AuthEntry {
            id: 0,
            name: player_name,
            password: enc_pwd.clone(),
            privileges: Vec::new(),
            last_login: now as i64,
        };
        assert(entry@.privileges =~= Seq::<Seq<char>>::empty());
        assert(entry@ == new_account(0, name_v, enc_pwd@, now));
        match self.auth_db.create_auth(&mut entry) {
            Ok(()) => {},
            Err(e) => return Err(HandlerError::Database(e)),
        }
        assert(entry@ == new_account(entry.id, name_v, enc_pwd@, now));
        assert(self.database().stored()[name_v] == entry@);
        session.enc_pwd = Some(enc_pwd);
        session.phase = SessionPhase::AwaitingInit2;
        let mut out: Vec<NetworkPacket> = Vec::new();
        out.push(create_auth_accept_response(DEFAULT_MAP_SEED, DEFAULT_SEND_INTERVAL_BITS, AuthMechanism::FirstSrp.to_u32()));
        assert(views(out@) =~= seq![auth_accept()]);
        Ok(out)
    }

    /// `TOSERVER_SRP_BYTES_A`: picks the verifier (derived from the legacy
    /// password, or the stored SRP verifier), starts the SRP exchange and
    /// answers the salt and `B`.
    fn handle_srp_bytes_a(&mut self, session: &mut Session, packet: &mut NetworkPacket) -> (r: Result<Vec<NetworkPacket>, HandlerError>)
        requires
            old(packet)@.wf(),
        ensures
            final(self).database() == old(self).database(),
            final(self).same_config(old(self)),
            srp_a_post(old(self).pending()@, final(self).pending()@, *old(session), *final(session), old(packet)@, r),
    {
        let ghost pk = packet@;
        let bytes_a = match packet.read_string() { Ok(v) => v, Err(e) => return Err(HandlerError::Packet(e)) };
        let based_on = match packet.read_u8() { Ok(v) => v, Err(e) => return Err(HandlerError::Packet(e)) };
        assert(srp_a_fields(pk.data, pk.read_pos) == Ok::<((Seq<u8>, u8), int), ReadFail>(((bytes_a@, based_on), packet@.read_pos)));
        let chosen = if based_on == 0 { AuthMechanism::LegacyPassword.to_u32() } else { AuthMechanism::Srp.to_u32() };
        if session.allowed_auth_mechs & chosen == 0 {
            let mut out: Vec<NetworkPacket> = Vec::new();
            out.push(create_access_denied(AccessDeniedCode::UnexpectedData, "Auth mechanism not allowed"));
            assert(views(out@) =~= seq![denied(AccessDeniedCode::UnexpectedData, "Auth mechanism not allowed"@)]);
            return Ok(out);
        }
        session.chosen_mech = chosen;
        let enc_pwd = match &session.enc_pwd {
            Some(p) => p.clone(),
            None => return Err(HandlerError::MissingEncPwd),
        };
        let player_name = match &session.player_name {
            Some(n) => n.clone(),
            None => return Err(HandlerError::MissingPlayerName),
        };
        let mut verifier: Vec<u8> = Vec::new();
        let mut salt: Vec<u8> = Vec::new();
        if based_on == 0 {
            let lower = to_lowercase(player_name.as_str());
            match create_salted_verification_key(lower.as_str(), enc_pwd.as_str().as_bytes(), None) {
                Ok((s, v)) => {
                    salt = s;
                    verifier = v;
                },
                Err(e) => return Err(HandlerError::Srp(e)),
            }
        } else if based_on == 1 {
            if !decode_srp_verifier_and_salt(enc_pwd.as_str(), &mut verifier, &mut salt) {
                let mut out: Vec<NetworkPacket> = Vec::new();
                out.push(create_access_denied(AccessDeniedCode::ServerFail, "Invalid stored verifier"));
                assert(views(out@) =~= seq![denied(AccessDeniedCode::ServerFail, "Invalid stored verifier"@)]);
                return Ok(out);
            }
        } else {
            let mut out: Vec<NetworkPacket> = Vec::new();
            out.push(create_access_denied(AccessDeniedCode::UnexpectedData, "Unknown based_on value"));
            assert(views(out@) =~= seq![denied(AccessDeniedCode::UnexpectedData, "Unknown based_on value"@)]);
            return Ok(out);
        }
        let lower_name = to_lowercase(player_name.as_str());
        let (verifier_obj, bytes_b) = match SrpVerifier::new(lower_name.as_str(), salt.as_slice(), verifier.as_slice(), bytes_a.as_slice(), None) {
            Ok(pair) => pair,
            Err(e) => return Err(HandlerError::Srp(e)),
        };
        let ghost b = choose|b: Seq<u8>| {
            &&& b.len() == 32
            &&& srp_server_state(verifier_obj, bytes_b@, srp_modulus()->0, lower_name@, encode_utf8(lower_name@), salt@,
                be_value(verifier@), be_value(bytes_a@), be_value(b))
        };
        let response = create_srp_bytes_s_b_response(salt.as_slice(), bytes_b.as_slice());
        let pending = PendingSrp { verifier: verifier_obj, salt };
        let ghost pv = pending;
        self.pending_srp.insert(session.peer_id, pending);
        let mut out: Vec<NetworkPacket> = Vec::new();
        out.push(response);
        proof {
            assert(views(out@) =~= seq![packet_of(ToClientCommand::SrpBytesSB, enc_string(pv.salt@) + enc_string(bytes_b@))]);
            assert(lower_name@ == lowercase_of(player_name@));
            assert(srp_modulus() matches Some(n) && n > 1);
            assert(b.len() == 32);
            assert(based_on == 1 ==> decoded_verifier(enc_pwd@) == Some((pv.salt@, verifier@)));
            assert(based_on == 0 ==> pv.salt@.len() == 16);
            assert(srp_a_accepted_with(pv, views(out@), based_on, enc_pwd@, player_name@, bytes_a@, bytes_b@, b, verifier@));
            assert(self.pending()@[session.peer_id] == pv);
            assert(self.pending()@.remove(session.peer_id) =~= old(self).pending()@.remove(session.peer_id));
            assert(*session == (Session { chosen_mech: chosen_mech_of(based_on), ..*old(session) }));
            assert(old(session).enc_pwd == Some(enc_pwd));
            assert(old(session).player_name == Some(player_name));
            assert(exists|pub_b: Seq<u8>, b2: Seq<u8>, vb: Seq<u8>| #[trigger] srp_a_accepted_with(
                self.pending()@[old(session).peer_id], views(out@), based_on, enc_pwd@, player_name@, bytes_a@, pub_b, b2, vb));
            assert(old(session).allowed_auth_mechs & chosen_mech_of(based_on) != 0);
            assert(pk == old(packet)@);
            assert(srp_a_fields(pk.data, pk.read_pos) matches Ok(((aa, bo), q)) && aa == bytes_a@ && bo == based_on);
            assert(!(based_on > 1));
            assert(!(based_on == 1 && decoded_verifier(enc_pwd@) is None));
        }
        Ok(out)
    }

    /// `TOSERVER_SRP_BYTES_M`: checks the client's proof against the
    /// pending exchange and accepts or denies authentication.
    fn handle_srp_bytes_m(&mut self, session: &mut Session, packet: &mut NetworkPacket, now: u64) -> (r: Result<Vec<NetworkPacket>, HandlerError>)
        requires
            old(packet)@.wf(),
        ensures
            final(self).same_config(old(self)),
            srp_m_post(old(self).pending()@, final(self).pending()@, old(self).database().stored(), final(self).database().stored(),
                *old(session), *final(session), old(packet)@, now, r),
    {
        let bytes_m = match packet.read_string() { Ok(v) => v, Err(e) => return Err(HandlerError::Packet(e)) };
        let mut pending = match self.pending_srp.remove(&session.peer_id) {
            Some(p) => p,
            None => {
                let mut out: Vec<NetworkPacket> = Vec::new();
                out.push(create_access_denied(AccessDeniedCode::UnexpectedData, "No pending SRP session"));
                assert(views(out@) =~= seq![denied(AccessDeniedCode::UnexpectedData, "No pending SRP session"@)]);
                return Ok(out);
            },
        };
        let player_name = match &session.player_name {
            Some(n) => n.clone(),
            None => return Err(HandlerError::MissingPlayerName),
        };
        match pending.verifier.verify_session(bytes_m.as_slice()) {
            Ok(Some(_hamk)) => {
                if session.create_player_on_auth_success {
                    let password = match &session.enc_pwd {
                        Some(p) => p.clone(),
                        None => String::new(),
                    };
                    let ghost name_v = player_name@;
                    let ghost pwd_v = password@;
                    let mut entry = AuthEntry {
                        id: 0,
                        name: player_name,
                        password,
                        privileges: Vec::new(),
                        last_login: now as i64,
                    };
                    assert(entry@.privileges =~= Seq::<Seq<char>>::empty());
                    assert(entry@ == new_account(0, name_v, pwd_v, now));
                    let created = self.auth_db.create_auth(&mut entry);
                    proof {
                        if created is Ok {
                            assert(entry@ == new_account(entry.id, name_v, pwd_v, now));
                            assert(self.database().stored()[name_v] == entry@);
                        }
                    }
                    if created.is_err() {
                        let mut out: Vec<NetworkPacket> = Vec::new();
                        out.push(create_access_denied(AccessDeniedCode::ServerFail, "Failed to create account"));
                        assert(views(out@) =~= seq![denied(AccessDeniedCode::ServerFail, "Failed to create account"@)]);
                        return Ok(out);
                    }
                    session.create_player_on_auth_success = false;
                }
                session.phase = SessionPhase::AwaitingInit2;
                let mut out: Vec<NetworkPacket> = Vec::new();
                out.push(create_auth_accept_response(DEFAULT_MAP_SEED, DEFAULT_SEND_INTERVAL_BITS, AuthMechanism::FirstSrp.to_u32()));
                assert(views(out@) =~= seq![auth_accept()]);
                Ok(out)
            },
            Ok(None) => {
                let mut out: Vec<NetworkPacket> = Vec::new();
                out.push(create_access_denied(AccessDeniedCode::WrongPassword, "Wrong password"));
                assert(views(out@) =~= seq![denied(AccessDeniedCode::WrongPassword, "Wrong password"@)]);
                Ok(out)
            },
            Err(_) => {
                let mut out: Vec<NetworkPacket> = Vec::new();
                out.push(create_access_denied(AccessDeniedCode::UnexpectedData, "Invalid M"));
                assert(views(out@) =~= seq![denied(AccessDeniedCode::UnexpectedData, "Invalid M"@)]);
                Ok(out)
            },
        }
    }
}

impl<D: AuthDatabase> CommandHandler<D> {
    /// `TOSERVER_INIT2`: in the `AwaitingInit2` phase, sends the item and
    /// node definitions, the media announcement, movement, time of day and
    /// client-side mod restrictions.
    fn handle_init2(&mut self, session: &mut Session, packet: &mut NetworkPacket) -> (r: Result<Vec<NetworkPacket>, HandlerError>)
        requires
            old(packet)@.wf(),
        ensures
            final(self).database() == old(self).database(),
            final(self).same_config(old(self)),
            init2_post(old(self).media_announced(), old(self).pending()@, final(self).pending()@, *old(session), *final(session), r),
    {
        let _lang = packet.read_utf8();
        if session.phase != SessionPhase::AwaitingInit2 {
            let out: Vec<NetworkPacket> = Vec::new();
            assert(views(out@) =~= Seq::<PacketView>::empty());
            return Ok(out);
        }
        session.phase = SessionPhase::InitDone;
        self.pending_srp.remove(&session.peer_id);
        let negotiated_proto = match session.protocol_version {
            Some(p) => p,
            None => return Err(HandlerError::MissingProtocolVersion),
        };
        let itemdef_payload = serialize_empty_itemdef();
        let nodedef_payload = serialize_empty_nodedef();
        let mut responses: Vec<NetworkPacket> = Vec::new();
        responses.push(create_itemdef_response(itemdef_payload.as_slice(), negotiated_proto));
        responses.push(create_nodedef_response(nodedef_payload.as_slice(), negotiated_proto));
        session.phase = SessionPhase::DefinitionsSent;
        responses.push(create_announce_media(self.media_files.as_slice(), ""));
        responses.push(create_movement(
            DEFAULT_MOVEMENT_BITS, DEFAULT_MOVEMENT_BITS, DEFAULT_MOVEMENT_BITS, DEFAULT_MOVEMENT_BITS,
            DEFAULT_MOVEMENT_BITS, DEFAULT_MOVEMENT_BITS, DEFAULT_MOVEMENT_BITS, DEFAULT_MOVEMENT_BITS,
            DEFAULT_MOVEMENT_BITS, DEFAULT_MOVEMENT_BITS, DEFAULT_MOVEMENT_BITS, DEFAULT_MOVEMENT_BITS,
        ));
        responses.push(create_time_of_day(DEFAULT_TIME_OF_DAY, DEFAULT_TIME_SPEED_BITS));
        responses.push(create_csm_restriction_flags(CSM_RF_NONE, DEFAULT_CSM_NODE_RANGE));
        proof {
            reveal_strlit("");
            assert(encode_utf8(""@) =~= Seq::<u8>::empty());
            assert(seq![DEFAULT_MOVEMENT_BITS, DEFAULT_MOVEMENT_BITS, DEFAULT_MOVEMENT_BITS, DEFAULT_MOVEMENT_BITS,
                DEFAULT_MOVEMENT_BITS, DEFAULT_MOVEMENT_BITS, DEFAULT_MOVEMENT_BITS, DEFAULT_MOVEMENT_BITS,
                DEFAULT_MOVEMENT_BITS, DEFAULT_MOVEMENT_BITS, DEFAULT_MOVEMENT_BITS, DEFAULT_MOVEMENT_BITS]
                =~= Seq::new(12, |i: int| DEFAULT_MOVEMENT_BITS));
            assert(views(responses@) =~= init2_responses(negotiated_proto, self.media_files@));
        }
        Ok(responses)
    }

    /// Contents stored for the media file `name`.
    fn stored_media(&self, name: &String) -> (data: Vec<u8>)
        ensures
            data@ == stored_contents(self.media_stored(), name@),
    {
        let mut i: usize = 0;
        assert(self.media_data@.skip(0) =~= self.media_data@);
        while i < self.media_data.len()
            invariant
                i <= self.media_data@.len(),
                stored_contents(self.media_data@, name@) == stored_contents(self.media_data@.skip(i as int), name@),
            decreases self.media_data.len() - i,
        {
            assert(self.media_data@.skip(i as int).drop_first() =~= self.media_data@.skip(i + 1));
            if crate::strings::str_eq(self.media_data[i].name.as_str(), name.as_str()) {
                return crate::bytes::to_vec(self.media_data[i].data.as_slice());
            }
            i = i + 1;
        }
        let empty: Vec<u8> = Vec::new();
        assert(self.media_data@.skip(i as int) =~= Seq::<MediaBunchFile>::empty());
        empty
    }

    /// Whether the media file `name` is announced.
    fn announces(&self, name: &String) -> (b: bool)
        ensures
            b == is_announced(self.media_announced(), name@),
    {
        let mut i: usize = 0;
        while i < self.media_files.len()
            invariant
                i <= self.media_files@.len(),
                forall|k: int| 0 <= k < i ==> (#[trigger] self.media_files@[k]).name@ != name@,
            decreases self.media_files.len() - i,
        {
            if crate::strings::str_eq(self.media_files[i].name.as_str(), name.as_str()) {
                return true;
            }
            i = i + 1;
        }
        false
    }

    /// `TOSERVER_REQUEST_MEDIA`: sends the requested files the server has,
    /// eight per bunch, or one empty bunch when it has none of them.
    fn handle_request_media(&mut self, session: &mut Session, packet: &mut NetworkPacket) -> (r: Result<Vec<NetworkPacket>, HandlerError>)
        requires
            old(packet)@.wf(),
        ensures
            final(self).database() == old(self).database(),
            *final(self) == *old(self),
            *final(session) == *old(session),
            match media_request(old(packet)@.data, old(packet)@.read_pos) {
                Err(f) => r == read_failure::<Vec<NetworkPacket>>(f, old(packet)@.data.len() as int),
                Ok((names, q)) => ok_views(r) == Some(media_responses(names, old(self).media_announced(), old(self).media_stored())),
            },
    {
        let ghost pk = packet@;
        let count = match packet.read_u16() { Ok(v) => v, Err(e) => return Err(HandlerError::Packet(e)) };
        let ghost p1 = packet@.read_pos;
        let mut names: Vec<String> = Vec::new();
        let mut i: u16 = 0;
        assert(names@.map_values(|s: String| s@) =~= Seq::<Seq<char>>::empty());
        while i < count
            invariant
                pk == old(packet)@,
                names@.len() == i,
                packet@.wf(),
                packet@.data == pk.data,
                dec_u16(pk.data, pk.read_pos) == Ok::<(u16, int), ReadFail>((count, p1)),
                i <= count,
                dec_utf8s(pk.data, p1, i as nat) == Ok::<(Seq<Seq<char>>, int), ReadFail>(
                    (names@.map_values(|s: String| s@), packet@.read_pos)),
            decreases count - i,
        {
            let ghost before = packet@.read_pos;
            match packet.read_utf8() {
                Ok(n) => {
                    let ghost prev = names@.map_values(|s: String| s@);
                    names.push(n);
                    assert(names@.map_values(|s: String| s@) =~= prev.push(n@));
                },
                Err(e) => {
                    proof {
                        assert(dec_utf8(pk.data, before) is Err);
                        lemma_dec_utf8s_fail(pk.data, p1, i as nat, count as nat);
                        assert(media_request(pk.data, pk.read_pos) == dec_utf8s(pk.data, p1, count as nat));
                        let f = dec_utf8(pk.data, before)->Err_0;
                        assert(e == packet_error(f, pk.data.len() as int));
                        assert(media_request(pk.data, pk.read_pos) == Err::<(Seq<Seq<char>>, int), ReadFail>(f));
                        assert(pk == old(packet)@);
                    }
                    return Err(HandlerError::Packet(e));
                },
            }
            i = i + 1;
        }
        let ghost name_views = names@.map_values(|s: String| s@);
        assert(media_request(pk.data, pk.read_pos) == Ok::<(Seq<Seq<char>>, int), ReadFail>((name_views, packet@.read_pos)));
        let mut available: Vec<String> = Vec::new();
        let mut k: usize = 0;
        assert(available@.map_values(|s: String| s@) =~= Seq::<Seq<char>>::empty());
        assert(name_views.take(0) =~= Seq::<Seq<char>>::empty());
        proof {
            reveal(Seq::filter);
        }
        while k < names.len()
            invariant
                names@.len() <= 0xFFFF,
                available@.len() <= k,
                k <= names@.len(),
                name_views == names@.map_values(|s: String| s@),
                available@.map_values(|s: String| s@) == available_names(name_views.take(k as int), self.media_announced()),
            decreases names.len() - k,
        {
            proof {
                reveal(Seq::filter);
                assert(name_views.take(k + 1).drop_last() =~= name_views.take(k as int));
                assert(name_views.take(k + 1).last() == names@[k as int]@);
            }
            let ghost prev = available@.map_values(|s: String| s@);
            if self.announces(&names[k]) {
                available.push(names[k].clone());
                assert(available@.map_values(|s: String| s@) =~= prev.push(names@[k as int]@));
            }
            k = k + 1;
        }
        assert(name_views.take(names@.len() as int) =~= name_views);
        let ghost avail = available_names(name_views, self.media_announced());
        let mut responses: Vec<NetworkPacket> = Vec::new();
        if available.len() == 0 {
            let empty: Vec<MediaBunchFile> = Vec::new();
            responses.push(create_media_bunch(1, 0, empty.as_slice()));
            proof {
                assert(bunch_entries(bunch_views(empty@)) =~= Seq::<u8>::empty()) by {
                    assert(bunch_views(empty@) =~= Seq::<(Seq<char>, Seq<u8>)>::empty());
                }
                assert(views(responses@) =~= media_responses(name_views, self.media_announced(), self.media_stored()));
            }
            return Ok(responses);
        }
        let total_usize = (available.len() + 7) / 8;
        let total = total_usize as u16;
        let mut b: usize = 0;
        assert(available@.len() == avail.len());
        while b < total_usize
            invariant
                available@.len() <= 0xFFFF,
                available@.len() == avail.len(),
                available@.map_values(|s: String| s@) == avail,
                avail.len() > 0,
                total_usize == bunch_count(avail.len()),
                total == total_usize as u16,
                b <= total_usize,
                responses@.len() == b,
                forall|j: int| 0 <= j < b ==> (#[trigger] responses@[j])@ == media_responses(
                    name_views, self.media_announced(), self.media_stored())[j],
                avail == available_names(name_views, self.media_announced()),
            decreases total_usize - b,
        {
            let lo = 8 * b;
            let hi = if lo + 8 <= available.len() { lo + 8 } else { available.len() };
            let mut files: Vec<MediaBunchFile> = Vec::new();
            let mut j = lo;
            assert(bunch_views(files@) =~= avail.subrange(lo as int, lo as int).map_values(
                |n: Seq<char>| (n, stored_contents(self.media_stored(), n))));
            while j < hi
                invariant
                    available@.len() == avail.len(),
                    hi <= available@.len(),
                    available@.map_values(|s: String| s@) == avail,
                    lo == 8 * b,
                    hi == (if 8 * b + 8 <= avail.len() { 8 * b + 8 } else { avail.len() as int }),
                    lo <= j <= hi,
                    bunch_views(files@) == avail.subrange(lo as int, j as int).map_values(
                        |n: Seq<char>| (n, stored_contents(self.media_stored(), n))),
                decreases hi - j,
            {
                let name = available[j].clone();
                let data = self.stored_media(&name);
                let ghost prev = bunch_views(files@);
                assert(name@ == avail[j as int]);
                files.push(MediaBunchFile { name, data });
                assert(bunch_views(files@) =~= prev.push((avail[j as int], stored_contents(self.media_stored(), avail[j as int]))));
                assert(bunch_views(files@) =~= avail.subrange(lo as int, j + 1).map_values(
                    |n: Seq<char>| (n, stored_contents(self.media_stored(), n))));
                j = j + 1;
            }
            let packet_b = create_media_bunch(total, b as u16, files.as_slice());
            assert(bunch_views(files@) == bunch_files(avail, self.media_stored(), b as int));
            responses.push(packet_b);
            b = b + 1;
        }
        assert(views(responses@) =~= media_responses(name_views, self.media_announced(), self.media_stored()));
        Ok(responses)
    }

    /// `TOSERVER_CLIENT_READY`: the client is fully in game.
    fn handle_client_ready(&mut self, session: &mut Session, packet: &mut NetworkPacket) -> (r: Result<Vec<NetworkPacket>, HandlerError>)
        requires
            old(packet)@.wf(),
        ensures
            final(self).database() == old(self).database(),
            *final(self) == *old(self),
            match client_ready_fields(old(packet)@.data, old(packet)@.read_pos) {
                Err(f) => r == read_failure::<Vec<NetworkPacket>>(f, old(packet)@.data.len() as int) && *final(session) == *old(session),
                Ok(_) => ok_views(r) == Some(Seq::<PacketView>::empty())
                    && *final(session) == (Session { phase: SessionPhase::Active, ..*old(session) }),
            },
    {
        let _major = match packet.read_u8() { Ok(v) => v, Err(e) => return Err(HandlerError::Packet(e)) };
        let _minor = match packet.read_u8() { Ok(v) => v, Err(e) => return Err(HandlerError::Packet(e)) };
        let _patch = match packet.read_u8() { Ok(v) => v, Err(e) => return Err(HandlerError::Packet(e)) };
        let _reserved = match packet.read_u8() { Ok(v) => v, Err(e) => return Err(HandlerError::Packet(e)) };
        let _full_version = packet.read_utf8();
        let _formspec_ver = packet.read_u16();
        session.phase = SessionPhase::Active;
        let out: Vec<NetworkPacket> = Vec::new();
        assert(views(out@) =~= Seq::<PacketView>::empty());
        Ok(out)
    }

    /// `TOSERVER_CHAT_MESSAGE`: echoes the message under the player's name,
    /// stamped with `now`.
    fn handle_chat_message(&mut self, session: &mut Session, packet: &mut NetworkPacket, now: u64) -> (r: Result<Vec<NetworkPacket>, HandlerError>)
        requires
            old(packet)@.wf(),
        ensures
            final(self).database() == old(self).database(),
            *final(self) == *old(self),
            *final(session) == *old(session),
            match dec_wstring(old(packet)@.data, old(packet)@.read_pos) {
                Err(f) => r == read_failure::<Vec<NetworkPacket>>(f, old(packet)@.data.len() as int),
                Ok((m, q)) => ok_views(r) == Some(seq![packet_of(
                    ToClientCommand::ChatMessage,
                    seq![1u8, 0u8] + enc_wstring(sender_of(*old(session))) + enc_wstring(m) + be_u64(now),
                )]),
            },
    {
        let message = match packet.read_wstring() { Ok(v) => v, Err(e) => return Err(HandlerError::Packet(e)) };
        let sender = match &session.player_name {
            Some(n) => n.clone(),
            None => String::new(),
        };
        let mut out: Vec<NetworkPacket> = Vec::new();
        out.push(create_chat_message_response(sender.as_str(), message.as_str(), now));
        assert(views(out@) =~= seq![packet_of(
            ToClientCommand::ChatMessage,
            seq![1u8, 0u8] + enc_wstring(sender_of(*old(session))) + enc_wstring(message@) + be_u64(now),
        )]);
        Ok(out)
    }
}

proof fn lemma_dec_utf8s_fail(d: Seq<u8>, p: int, i: nat, n: nat)
    requires
        i < n,
        dec_utf8s(d, p, i) is Ok,
        dec_utf8(d, dec_utf8s(d, p, i)->Ok_0.1) is Err,
    ensures
        dec_utf8s(d, p, n) == Err::<(Seq<Seq<char>>, int), ReadFail>(dec_utf8(d, dec_utf8s(d, p, i)->Ok_0.1)->Err_0),
    decreases n - i,
{
    if n == i + 1 {
    } else {
        lemma_dec_utf8s_fail(d, p, i, (n - 1) as nat);
    }
}

impl<D: AuthDatabase> CommandHandler<D> {
    /// What handling `pk` does, from this handler, session `s0` and time
    /// `now`, to the handler `new` and session `s1`, answering `r`.
    pub open spec fn command_post(
        &self,
        new: &Self,
        s0: Session,
        s1: Session,
        pk: PacketView,
        now: u64,
        r: Result<Vec<NetworkPacket>, HandlerError>,
    ) -> bool {
        let d = pk.data;
        let p = pk.read_pos;
        let len = d.len() as int;
        let untouched = s1 == s0 && new.pending() == self.pending() && new.database() == self.database();
        let db0 = self.database().stored();
        let db1 = new.database().stored();
        match to_server_command_of(pk.command) {
            None => ok_views(r) == Some(Seq::<PacketView>::empty()) && untouched,
            Some(c) => if !accepted_in(handler_state_of(c), s0.phase) {
                ok_views(r) == Some(Seq::<PacketView>::empty()) && untouched
            } else {
                match c {
                    ToServerCommand::Init => init_post(self.max_version(), self.min_version(), db0, db1, s0, s1, pk, r)
                        && new.pending() == self.pending(),
                    ToServerCommand::Init2 => init2_post(self.media_announced(), self.pending()@, new.pending()@, s0, s1, r)
                        && new.database() == self.database(),
                    ToServerCommand::FirstSrp => first_srp_post(db0, db1, s0, s1, pk, now, r) && new.pending() == self.pending(),
                    ToServerCommand::SrpBytesA => srp_a_post(self.pending()@, new.pending()@, s0, s1, pk, r)
                        && new.database() == self.database(),
                    ToServerCommand::SrpBytesM => srp_m_post(self.pending()@, new.pending()@, db0, db1, s0, s1, pk, now, r),
                    ToServerCommand::RequestMedia => untouched && match media_request(d, p) {
                        Err(f) => r == read_failure::<Vec<NetworkPacket>>(f, len),
                        Ok((names, q)) => ok_views(r) == Some(media_responses(names, self.media_announced(), self.media_stored())),
                    },
                    ToServerCommand::ClientReady => new.pending() == self.pending() && new.database() == self.database()
                        && match client_ready_fields(d, p) {
                        Err(f) => r == read_failure::<Vec<NetworkPacket>>(f, len) && s1 == s0,
                        Ok(_) => ok_views(r) == Some(Seq::<PacketView>::empty())
                            && s1 == (Session { phase: SessionPhase::Active, ..s0 }),
                    },
                    ToServerCommand::ChatMessage => untouched && match dec_wstring(d, p) {
                        Err(f) => r == read_failure::<Vec<NetworkPacket>>(f, len),
                        Ok((m, q)) => ok_views(r) == Some(seq![packet_of(
                            ToClientCommand::ChatMessage,
                            seq![1u8, 0u8] + enc_wstring(sender_of(s0)) + enc_wstring(m) + be_u64(now),
                        )]),
                    },
                    ToServerCommand::GotBlocks | ToServerCommand::Damage | ToServerCommand::PlayerItem => untouched
                        && read_only_post(if c == ToServerCommand::GotBlocks { unit_of(dec_u8(d, p)) } else { unit_of(dec_u16(d, p)) }, len, r),
                    ToServerCommand::DeletedBlocks => untouched && read_only_post(counted_u8(d, p, v3s16_step()), len, r),
                    ToServerCommand::HaveMedia => untouched && read_only_post(counted_u8(d, p, u32_step()), len, r),
                    ToServerCommand::RemovedSounds => untouched && read_only_post(counted_u16(d, p, i32_step()), len, r),
                    ToServerCommand::NodeMetaFields => untouched && read_only_post(node_meta_outcome(d, p), len, r),
                    ToServerCommand::InventoryFields => untouched && read_only_post(inventory_fields_outcome(d, p), len, r),
                    ToServerCommand::Interact => untouched && interact_post(d, p, r),
                    ToServerCommand::ModChannelJoin => untouched
                        && ok_views(r) == Some(seq![signal_packet(ModChannelSignal::JoinFailure, channel_of(d, p))]),
                    ToServerCommand::ModChannelLeave => untouched
                        && ok_views(r) == Some(seq![signal_packet(ModChannelSignal::LeaveOk, channel_of(d, p))]),
                    _ => untouched && ok_views(r) == Some(Seq::<PacketView>::empty()),
                }
            },
        }
    }

    /// Processes a command packet: drops unknown commands and in-game
    /// commands of a session that is not active yet, and otherwise runs
    /// the command's handler on a copy of the packet. `now` is the current
    /// Unix time in seconds.
    pub fn handle_command(&mut self, session: &mut Session, packet: &NetworkPacket, now: u64) -> (r: Result<Vec<NetworkPacket>, HandlerError>)
        requires
            packet@.wf(),
        ensures
            final(self).same_config(old(self)),
            old(self).command_post(&*final(self), *old(session), *final(session), packet@, now, r),
    {
        let cmd = match ToServerCommand::from_u16(packet.command()) {
            Some(c) => c,
            None => {
                let out: Vec<NetworkPacket> = Vec::new();
                assert(views(out@) =~= Seq::<PacketView>::empty());
                return Ok(out);
            },
        };
        let state = handler_state(cmd);
        let accepted = match state {
            ToServerConnectionState::NotConnected | ToServerConnectionState::Startup => true,
            ToServerConnectionState::Ingame => session.phase.is_active(),
            ToServerConnectionState::All => false,
        };
        if !accepted {
            let out: Vec<NetworkPacket> = Vec::new();
            assert(views(out@) =~= Seq::<PacketView>::empty());
            return Ok(out);
        }
        let mut pkt = packet.clone();
        match cmd {
            ToServerCommand::Init => self.handle_init(session, &mut pkt),
            ToServerCommand::Init2 => self.handle_init2(session, &mut pkt),
            ToServerCommand::FirstSrp => self.handle_first_srp(session, &mut pkt, now),
            ToServerCommand::SrpBytesA => self.handle_srp_bytes_a(session, &mut pkt),
            ToServerCommand::SrpBytesM => self.handle_srp_bytes_m(session, &mut pkt, now),
            ToServerCommand::RequestMedia => self.handle_request_media(session, &mut pkt),
            ToServerCommand::ClientReady => self.handle_client_ready(session, &mut pkt),
            ToServerCommand::ChatMessage => self.handle_chat_message(session, &mut pkt, now),
            ToServerCommand::GotBlocks => self.handle_got_blocks(&mut pkt),
            ToServerCommand::Damage | ToServerCommand::PlayerItem => self.handle_u16_field(&mut pkt),
            ToServerCommand::DeletedBlocks => self.handle_deleted_blocks(&mut pkt),
            ToServerCommand::HaveMedia => self.handle_have_media(&mut pkt),
            ToServerCommand::RemovedSounds => self.handle_removed_sounds(&mut pkt),
            ToServerCommand::NodeMetaFields => self.handle_node_meta_fields(&mut pkt),
            ToServerCommand::InventoryFields => self.handle_inventory_fields(&mut pkt),
            ToServerCommand::Interact => self.handle_interact(&mut pkt),
            ToServerCommand::ModChannelJoin => self.handle_modchannel(&mut pkt, ModChannelSignal::JoinFailure),
            ToServerCommand::ModChannelLeave => self.handle_modchannel(&mut pkt, ModChannelSignal::LeaveOk),
            ToServerCommand::ModChannelMsg => self.handle_modchannel_msg(&mut pkt),
            ToServerCommand::UpdateClientInfo => self.handle_update_client_info(&mut pkt),
            ToServerCommand::PlayerPos | ToServerCommand::InventoryAction | ToServerCommand::RespawnLegacy => {
                let out: Vec<NetworkPacket> = Vec::new();
                assert(views(out@) =~= Seq::<PacketView>::empty());
                Ok(out)
            },
        }
    }

    /// `TOSERVER_GOTBLOCKS`: reads the block count; the positions are
    /// acknowledged without a map to update.
    fn handle_got_blocks(&self, packet: &mut NetworkPacket) -> (r: Result<Vec<NetworkPacket>, HandlerError>)
        requires
            old(packet)@.wf(),
        ensures
            read_only_post(unit_of(dec_u8(old(packet)@.data, old(packet)@.read_pos)), old(packet)@.data.len() as int, r),
    {
        let _count = match packet.read_u8() { Ok(v) => v, Err(e) => return Err(HandlerError::Packet(e)) };
        let _rest = packet.rest();
        let out: Vec<NetworkPacket> = Vec::new();
        assert(views(out@) =~= Seq::<PacketView>::empty());
        Ok(out)
    }

    /// `TOSERVER_DAMAGE` and `TOSERVER_PLAYERITEM`: read their `u16`.
    fn handle_u16_field(&self, packet: &mut NetworkPacket) -> (r: Result<Vec<NetworkPacket>, HandlerError>)
        requires
            old(packet)@.wf(),
        ensures
            read_only_post(unit_of(dec_u16(old(packet)@.data, old(packet)@.read_pos)), old(packet)@.data.len() as int, r),
    {
        let _value = match packet.read_u16() { Ok(v) => v, Err(e) => return Err(HandlerError::Packet(e)) };
        let out: Vec<NetworkPacket> = Vec::new();
        assert(views(out@) =~= Seq::<PacketView>::empty());
        Ok(out)
    }

    /// `TOSERVER_DELETEDBLOCKS`: a count, then that many block positions.
    fn handle_deleted_blocks(&self, packet: &mut NetworkPacket) -> (r: Result<Vec<NetworkPacket>, HandlerError>)
        requires
            old(packet)@.wf(),
        ensures
            read_only_post(counted_u8(old(packet)@.data, old(packet)@.read_pos, v3s16_step()), old(packet)@.data.len() as int, r),
    {
        let ghost d = packet@.data;
        let count = match packet.read_u8() { Ok(v) => v, Err(e) => return Err(HandlerError::Packet(e)) };
        let ghost q = packet@.read_pos;
        let mut i: u8 = 0;
        while i < count
            invariant
                packet@.wf(),
                packet@.data == d,
                i <= count,
                dec_repeat(d, q, i as nat, v3s16_step()) == Ok::<((), int), ReadFail>(((), packet@.read_pos)),
                d == old(packet)@.data,
                dec_u8(d, old(packet)@.read_pos) == Ok::<(u8, int), ReadFail>((count, q)),
            decreases count - i,
        {
            let ghost at = packet@.read_pos;
            match packet.read_v3s16() {
                Ok(_) => {},
                Err(e) => {
                    proof {
                        lemma_dec_repeat_fail(d, q, i as nat, count as nat, v3s16_step());
                        assert(dec_repeat(d, q, count as nat, v3s16_step()) is Err);
                    }
                    return Err(HandlerError::Packet(e));
                },
            }
            i = i + 1;
        }
        let out: Vec<NetworkPacket> = Vec::new();
        assert(views(out@) =~= Seq::<PacketView>::empty());
        Ok(out)
    }

    /// `TOSERVER_HAVE_MEDIA`: a count, then that many tokens.
    fn handle_have_media(&self, packet: &mut NetworkPacket) -> (r: Result<Vec<NetworkPacket>, HandlerError>)
        requires
            old(packet)@.wf(),
        ensures
            read_only_post(counted_u8(old(packet)@.data, old(packet)@.read_pos, u32_step()), old(packet)@.data.len() as int, r),
    {
        let ghost d = packet@.data;
        let count = match packet.read_u8() { Ok(v) => v, Err(e) => return Err(HandlerError::Packet(e)) };
        let ghost q = packet@.read_pos;
        let mut i: u8 = 0;
        while i < count
            invariant
                packet@.wf(),
                packet@.data == d,
                i <= count,
                dec_repeat(d, q, i as nat, u32_step()) == Ok::<((), int), ReadFail>(((), packet@.read_pos)),
                d == old(packet)@.data,
                dec_u8(d, old(packet)@.read_pos) == Ok::<(u8, int), ReadFail>((count, q)),
            decreases count - i,
        {
            match packet.read_u32() {
                Ok(_) => {},
                Err(e) => {
                    proof {
                        lemma_dec_repeat_fail(d, q, i as nat, count as nat, u32_step());
                        assert(dec_repeat(d, q, count as nat, u32_step()) is Err);
                    }
                    return Err(HandlerError::Packet(e));
                },
            }
            i = i + 1;
        }
        let out: Vec<NetworkPacket> = Vec::new();
        assert(views(out@) =~= Seq::<PacketView>::empty());
        Ok(out)
    }

    /// `TOSERVER_REMOVED_SOUNDS`: a count, then that many sound ids.
    fn handle_removed_sounds(&self, packet: &mut NetworkPacket) -> (r: Result<Vec<NetworkPacket>, HandlerError>)
        requires
            old(packet)@.wf(),
        ensures
            read_only_post(counted_u16(old(packet)@.data, old(packet)@.read_pos, i32_step()), old(packet)@.data.len() as int, r),
    {
        let ghost d = packet@.data;
        let count = match packet.read_u16() { Ok(v) => v, Err(e) => return Err(HandlerError::Packet(e)) };
        let ghost q = packet@.read_pos;
        let mut i: u16 = 0;
        while i < count
            invariant
                packet@.wf(),
                packet@.data == d,
                i <= count,
                dec_repeat(d, q, i as nat, i32_step()) == Ok::<((), int), ReadFail>(((), packet@.read_pos)),
                d == old(packet)@.data,
                dec_u16(d, old(packet)@.read_pos) == Ok::<(u16, int), ReadFail>((count, q)),
            decreases count - i,
        {
            match packet.read_i32() {
                Ok(_) => {},
                Err(e) => {
                    proof {
                        lemma_dec_repeat_fail(d, q, i as nat, count as nat, i32_step());
                        assert(dec_repeat(d, q, count as nat, i32_step()) is Err);
                    }
                    return Err(HandlerError::Packet(e));
                },
            }
            i = i + 1;
        }
        let out: Vec<NetworkPacket> = Vec::new();
        assert(views(out@) =~= Seq::<PacketView>::empty());
        Ok(out)
    }

    /// Reads `count` form fields (name, then long value), each read or
    /// skipped.
    fn read_form_fields(&self, packet: &mut NetworkPacket, count: u16)
        requires
            old(packet)@.wf(),
        ensures
            final(packet)@.wf(),
            final(packet)@ == (PacketView {
                read_pos: form_fields_end(old(packet)@.data, old(packet)@.read_pos, count as nat),
                ..old(packet)@
            }),
    {
        let mut i: u16 = 0;
        while i < count
            invariant
                packet@.wf(),
                packet@ == (PacketView {
                    read_pos: form_fields_end(old(packet)@.data, old(packet)@.read_pos, i as nat),
                    ..old(packet)@
                }),
                i <= count,
            decreases count - i,
        {
            let _name = packet.read_utf8();
            let _value = packet.read_long_string();
            i = i + 1;
        }
    }

    /// `TOSERVER_NODEMETA_FIELDS`: position, form name, field count, fields.
    fn handle_node_meta_fields(&self, packet: &mut NetworkPacket) -> (r: Result<Vec<NetworkPacket>, HandlerError>)
        requires
            old(packet)@.wf(),
        ensures
            read_only_post(node_meta_outcome(old(packet)@.data, old(packet)@.read_pos), old(packet)@.data.len() as int, r),
    {
        let _pos = match packet.read_v3s16() { Ok(v) => v, Err(e) => return Err(HandlerError::Packet(e)) };
        let _form_name = packet.read_utf8();
        let field_count = match packet.read_u16() { Ok(v) => v, Err(e) => return Err(HandlerError::Packet(e)) };
        self.read_form_fields(packet, field_count);
        let out: Vec<NetworkPacket> = Vec::new();
        assert(views(out@) =~= Seq::<PacketView>::empty());
        Ok(out)
    }

    /// `TOSERVER_INVENTORY_FIELDS`: form name, field count, fields.
    fn handle_inventory_fields(&self, packet: &mut NetworkPacket) -> (r: Result<Vec<NetworkPacket>, HandlerError>)
        requires
            old(packet)@.wf(),
        ensures
            read_only_post(inventory_fields_outcome(old(packet)@.data, old(packet)@.read_pos), old(packet)@.data.len() as int, r),
    {
        let _form_name = packet.read_utf8();
        let field_count = match packet.read_u16() { Ok(v) => v, Err(e) => return Err(HandlerError::Packet(e)) };
        self.read_form_fields(packet, field_count);
        let out: Vec<NetworkPacket> = Vec::new();
        assert(views(out@) =~= Seq::<PacketView>::empty());
        Ok(out)
    }

    /// `TOSERVER_INTERACT`: action, wield index, pointed thing, player
    /// position.
    fn handle_interact(&self, packet: &mut NetworkPacket) -> (r: Result<Vec<NetworkPacket>, HandlerError>)
        requires
            old(packet)@.wf(),
        ensures
            interact_post(old(packet)@.data, old(packet)@.read_pos, r),
    {
        let action_byte = match packet.read_u8() { Ok(v) => v, Err(e) => return Err(HandlerError::Packet(e)) };
        match InteractAction::from_u8(action_byte) {
            Some(_) => {},
            None => {
                let out: Vec<NetworkPacket> = Vec::new();
                assert(views(out@) =~= Seq::<PacketView>::empty());
                return Ok(out);
            },
        }
        let _item = match packet.read_u16() { Ok(v) => v, Err(e) => return Err(HandlerError::Packet(e)) };
        let plen = match packet.read_u32() { Ok(v) => v, Err(e) => return Err(HandlerError::Packet(e)) } as usize;
        let remaining = packet.remaining();
        if remaining < plen {
            return Err(HandlerError::PointedThingTooLong { plen, remaining });
        }
        let start = packet.read_pos();
        let pointed_bytes = crate::bytes::copy_range(packet.as_slice(), start, start + plen);
        let _pointed = parse_pointed_thing(pointed_bytes.as_slice());
        let _ = packet.skip(plen);
        let _ = decode_player_pos_payload(packet);
        let out: Vec<NetworkPacket> = Vec::new();
        assert(views(out@) =~= Seq::<PacketView>::empty());
        Ok(out)
    }

    /// `TOSERVER_MODCHANNEL_JOIN` / `_LEAVE`: answers `signal` for the
    /// channel (joining fails and leaving succeeds while no channel is
    /// registered).
    fn handle_modchannel(&self, packet: &mut NetworkPacket, signal: ModChannelSignal) -> (r: Result<Vec<NetworkPacket>, HandlerError>)
        requires
            old(packet)@.wf(),
        ensures
            ok_views(r) == Some(seq![signal_packet(signal, channel_of(old(packet)@.data, old(packet)@.read_pos))]),
    {
        let channel = match packet.read_utf8() {
            Ok(c) => c,
            Err(_) => String::new(),
        };
        let mut out: Vec<NetworkPacket> = Vec::new();
        out.push(create_modchannel_signal(signal, channel.as_str()));
        assert(views(out@) =~= seq![signal_packet(signal, channel_of(old(packet)@.data, old(packet)@.read_pos))]);
        Ok(out)
    }

    /// `TOSERVER_MODCHANNEL_MSG`: read and dropped while no channel is
    /// registered.
    fn handle_modchannel_msg(&self, packet: &mut NetworkPacket) -> (r: Result<Vec<NetworkPacket>, HandlerError>)
        requires
            old(packet)@.wf(),
        ensures
            ok_views(r) == Some(Seq::<PacketView>::empty()),
            final(packet)@ == (PacketView {
                read_pos: crate::wire::next_pos(dec_utf8(old(packet)@.data,
                    crate::wire::next_pos(dec_utf8(old(packet)@.data, old(packet)@.read_pos)))),
                ..old(packet)@
            }),
    {
        let _channel = packet.read_utf8();
        let _msg = packet.read_utf8();
        let out: Vec<NetworkPacket> = Vec::new();
        assert(views(out@) =~= Seq::<PacketView>::empty());
        Ok(out)
    }

    /// `TOSERVER_UPDATE_CLIENT_INFO`: render size, scalings, formspec size,
    /// touch flag; a short packet is ignored.
    fn handle_update_client_info(&self, packet: &mut NetworkPacket) -> (r: Result<Vec<NetworkPacket>, HandlerError>)
        requires
            old(packet)@.wf(),
        ensures
            ok_views(r) == Some(Seq::<PacketView>::empty()),
            final(packet)@ == (PacketView { read_pos: client_info_end(old(packet)@.data, old(packet)@.read_pos), ..old(packet)@ }),
    {
        let out: Vec<NetworkPacket> = Vec::new();
        assert(views(out@) =~= Seq::<PacketView>::empty());
        if packet.remaining() < 4 + 4 + 4 + 4 + 4 + 4 {
            return Ok(out);
        }
        let _render_x = packet.read_i32();
        let _render_y = packet.read_i32();
        let _gui_scaling_bits = packet.read_u32();
        let _hud_scaling_bits = packet.read_u32();
        let _max_fs_x = packet.read_i32();
        let _max_fs_y = packet.read_i32();
        let _touch_controls = match packet.read_u8() {
            Ok(b) => b != 0,
            Err(_) => false,
        };
        Ok(out)
    }
}


/// An in-game command from a session that is not active yet is dropped:
/// nothing is answered and neither the session, the pending SRP exchanges
/// nor the authentication database change.
pub proof fn law_ingame_dropped_before_active<D: AuthDatabase>(
    h0: CommandHandler<D>,
    h1: CommandHandler<D>,
    s0: Session,
    s1: Session,
    pk: PacketView,
    now: u64,
    r: Result<Vec<NetworkPacket>, HandlerError>,
)
    requires
        h0.command_post(&h1, s0, s1, pk, now, r),
        to_server_command_of(pk.command) matches Some(c) && handler_state_of(c) == ToServerConnectionState::Ingame,
        s0.phase != SessionPhase::Active,
        s0.phase != SessionPhase::SudoMode,
    ensures
        ok_views(r) == Some(Seq::<PacketView>::empty()),
        s1 == s0,
        h1.pending() == h0.pending(),
        h1.database() == h0.database(),
{
}

/// A command with an unknown opcode is ignored: nothing is answered and
/// neither the session, the pending exchanges nor the database change.
pub proof fn law_unknown_command_ignored<D: AuthDatabase>(
    h0: CommandHandler<D>,
    h1: CommandHandler<D>,
    s0: Session,
    s1: Session,
    pk: PacketView,
    now: u64,
    r: Result<Vec<NetworkPacket>, HandlerError>,
)
    requires
        h0.command_post(&h1, s0, s1, pk, now, r),
        to_server_command_of(pk.command) is None,
    ensures
        ok_views(r) == Some(Seq::<PacketView>::empty()),
        s1 == s0,
        h1.pending() == h0.pending(),
        h1.database() == h0.database(),
{
}

/// Handshake and start-up commands pass the phase gate in every phase, so
/// a retransmission after the session became active reaches its handler.
pub proof fn law_handshake_commands_accepted_in_any_phase(c: ToServerCommand, phase: SessionPhase)
    requires
        handler_state_of(c) == ToServerConnectionState::NotConnected || handler_state_of(c) == ToServerConnectionState::Startup,
    ensures
        accepted_in(handler_state_of(c), phase),
{
}

/// Version negotiation: when `TOSERVER_INIT` is answered with
/// `TOCLIENT_HELLO`, the protocol version recorded for the session lies in
/// both the client's range and the server's range, and is the highest
/// version both support.
pub proof fn law_init_negotiates_common_version(
    max_version: u16,
    min_version: u16,
    db0: Map<Seq<char>, AuthEntryView>,
    db1: Map<Seq<char>, AuthEntryView>,
    s0: Session,
    s1: Session,
    pk: PacketView,
    r: Result<Vec<NetworkPacket>, HandlerError>,
)
    requires
        init_post(max_version, min_version, db0, db1, s0, s1, pk, r),
        ok_views(r) matches Some(v) && v.len() > 0 && v[0].command == to_client_code(ToClientCommand::Hello),
    ensures
        init_fields(pk.data, pk.read_pos) matches Ok(((ser, comp, lo, hi, name), q)) && (s1.protocol_version matches Some(pv)
            && min_version <= pv <= max_version
            && lo <= pv <= hi
            && (pv == hi || pv == max_version)),
{
    assert(to_client_code(ToClientCommand::AccessDenied) != to_client_code(ToClientCommand::Hello));
}

/// Only the handshake commands `INIT`, `FIRST_SRP`, `SRP_BYTES_M`, `INIT2`
/// and `CLIENT_READY` move a session through its phases; every other
/// command, whatever it holds, leaves the phase as it was.
pub proof fn law_only_handshake_commands_change_phase<D: AuthDatabase>(
    h0: CommandHandler<D>,
    h1: CommandHandler<D>,
    s0: Session,
    s1: Session,
    pk: PacketView,
    now: u64,
    r: Result<Vec<NetworkPacket>, HandlerError>,
)
    requires
        h0.command_post(&h1, s0, s1, pk, now, r),
        !(to_server_command_of(pk.command) matches Some(c) && (c == ToServerCommand::Init || c == ToServerCommand::FirstSrp
            || c == ToServerCommand::SrpBytesM || c == ToServerCommand::Init2 || c == ToServerCommand::ClientReady)),
    ensures
        s1.phase == s0.phase,
{
}

/// `INIT2` is answered only for a session awaiting it, which then moves
/// on to `DefinitionsSent`: a retransmitted `INIT2` in any later phase
/// answers nothing and changes nothing.
pub proof fn law_init2_answered_only_when_awaited<D: AuthDatabase>(
    h0: CommandHandler<D>,
    h1: CommandHandler<D>,
    s0: Session,
    s1: Session,
    pk: PacketView,
    now: u64,
    r: Result<Vec<NetworkPacket>, HandlerError>,
)
    requires
        h0.command_post(&h1, s0, s1, pk, now, r),
        to_server_command_of(pk.command) == Some(ToServerCommand::Init2),
    ensures
        s0.phase != SessionPhase::AwaitingInit2 ==> ok_views(r) == Some(Seq::<PacketView>::empty()) && s1 == s0,
        (ok_views(r) matches Some(v) && v.len() > 0) ==> s0.phase == SessionPhase::AwaitingInit2
            && s1.phase == SessionPhase::DefinitionsSent,
{
}

} // verus!
