use vstd::prelude::*;

use crate::text::{append_decimal, spec_decimal};

verus! {

/// Scene coordinate system type.
#[derive(Debug, Clone, Copy, PartialEq, Eq, Structural)]
pub enum SceneDimensions {
    /// Pure 2D scene (Node2D root, Camera2D).
    Two,
    /// Pure 3D scene (Node3D root, Camera3D).
    Three,
    /// Mixed scene containing both Node2D and Node3D subtrees.
    Mixed,
}

/// The wire code `2` is a 2D scene, `3` a 3D scene, anything else mixed.
pub open spec fn spec_dimensions_from_u32(v: u32) -> SceneDimensions {
    if v == 2 {
        SceneDimensions::Two
    } else if v == 3 {
        SceneDimensions::Three
    } else {
        SceneDimensions::Mixed
    }
}

impl SceneDimensions {
    pub fn is_2d(&self) -> (b: bool)
        ensures
            b == (*self == SceneDimensions::Two),
    {
        matches!(self, Self::Two)
    }

    pub fn is_3d(&self) -> (b: bool)
        ensures
            b == (*self == SceneDimensions::Three),
    {
        matches!(self, Self::Three)
    }

    pub fn is_mixed(&self) -> (b: bool)
        ensures
            b == (*self == SceneDimensions::Mixed),
    {
        matches!(self, Self::Mixed)
    }

    pub fn from_u32(v: u32) -> (d: Self)
        ensures
            d == spec_dimensions_from_u32(v),
    {
        match v {
            2 => Self::Two,
            3 => Self::Three,
            _ => Self::Mixed,
        }
    }
}

/// Sent by the addon immediately after TCP connection is established.
#[derive(Debug, Clone, PartialEq)]
pub struct Handshake {
    /// Spectator addon version (e.g., "0.1.0")
    pub spectator_version: String,
    /// Wire protocol version. Must match between server and addon.
    pub protocol_version: u32,
    /// Godot engine version string (e.g., "4.3")
    pub godot_version: String,
    /// 2, 3, or 0 for mixed. Determined by scene root type.
    pub scene_dimensions: u32,
    /// Physics ticks per second (typically 60)
    pub physics_ticks_per_sec: u32,
    /// Godot project name from ProjectSettings
    pub project_name: String,
}

/// Sent by the server in response to a valid Handshake.
#[derive(Debug, Clone, PartialEq)]
pub struct HandshakeAck {
    /// Server's spectator version
    pub spectator_version: String,
    /// Agreed protocol version
    pub protocol_version: u32,
    /// Unique identifier for this session
    pub session_id: String,
}

/// Sent by the server when protocol versions are incompatible.
#[derive(Debug, Clone, PartialEq)]
pub struct HandshakeError {
    /// Human-readable error description
    pub message: String,
    /// Server's spectator version
    pub server_version: String,
    /// Protocol versions the server supports
    pub supported_protocols: Vec<u32>,
}

/// Current protocol version. Incremented on breaking wire format changes.
pub const PROTOCOL_VERSION: u32 = 1;

/// The spectator version this build reports on the wire.
pub open spec fn spec_spectator_version() -> Seq<char> {
    seq!['0', '.', '1', '.', '0']
}

/// The spectator version this build reports on the wire.
pub fn spectator_version() -> (v: String)
    ensures
        v@ == spec_spectator_version(),
{
    let s = "0.1.0";
    proof {
        reveal_strlit("0.1.0");
    }
    let v = String::from_str(s);
    assert(v@ =~= spec_spectator_version());
    v
}

/// The text of a protocol-version mismatch for an addon that sent `addon_version`.
pub open spec fn spec_version_mismatch_message(addon_version: u32) -> Seq<char> {
    "Protocol version mismatch: server supports v"@ + spec_decimal(PROTOCOL_VERSION as nat)
        + ", addon sent v"@ + spec_decimal(addon_version as nat)
}

impl Handshake {
    pub fn new(
        godot_version: String,
        scene_dimensions: u32,
        physics_ticks_per_sec: u32,
        project_name: String,
    ) -> (h: Self)
        ensures
            h.spectator_version@ == spec_spectator_version(),
            h.protocol_version == PROTOCOL_VERSION,
            h.godot_version == godot_version,
            h.scene_dimensions == scene_dimensions,
            h.physics_ticks_per_sec == physics_ticks_per_sec,
            h.project_name == project_name,
    {
        Self {
            spectator_version: spectator_version(),
            protocol_version: PROTOCOL_VERSION,
            godot_version,
            scene_dimensions,
            physics_ticks_per_sec,
            project_name,
        }
    }

    /// Return the scene dimensions as a typed enum.
    pub fn dimensions(&self) -> (d: SceneDimensions)
        ensures
            d == spec_dimensions_from_u32(self.scene_dimensions),
    {
        SceneDimensions::from_u32(self.scene_dimensions)
    }
}

impl HandshakeAck {
    pub fn new(session_id: String) -> (a: Self)
        ensures
            a.spectator_version@ == spec_spectator_version(),
            a.protocol_version == PROTOCOL_VERSION,
            a.session_id == session_id,
    {
        Self { spectator_version: spectator_version(), protocol_version: PROTOCOL_VERSION, session_id }
    }
}

impl HandshakeError {
    pub fn version_mismatch(addon_version: u32) -> (e: Self)
        ensures
            e.message@ == spec_version_mismatch_message(addon_version),
            e.server_version@ == spec_spectator_version(),
            e.supported_protocols@ == seq![PROTOCOL_VERSION],
    {
        let mut message = String::from_str("Protocol version mismatch: server supports v");
        append_decimal(&mut message, PROTOCOL_VERSION as u64);
        message.append(", addon sent v");
        append_decimal(&mut message, addon_version as u64);
        Self {
            message,
            server_version: spectator_version(),
            supported_protocols: vec![PROTOCOL_VERSION],
        }
    }
}

} // verus!
