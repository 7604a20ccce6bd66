//! The motion packet: physics of every car, and further data of the player's car.

use vstd::prelude::*;
use crate::constants::MAX_NUM_CARS;
use crate::cursor::ByteCursor;
use crate::decode::Decode;
use crate::decode::decode_if;
use crate::decode::decode_list;
use crate::decode::decoded_if;
use crate::decode::decoded_list;
use crate::decode::has_width;
use crate::decode::lemma_list_layout;
use crate::decode::sealed;
use crate::error::DecodeError;
use crate::wire::F32Bits;
use crate::wire::Wire;

verus! {

/// Where one car is, how fast it moves and how it is oriented.
#[derive(Debug, Clone, Copy, PartialEq, Eq)]
pub struct CarMotionData {
    /// World space X position in metres.
    pub world_position_x: F32Bits,
    /// World space Y position in metres.
    pub world_position_y: F32Bits,
    /// World space Z position in metres.
    pub world_position_z: F32Bits,
    /// Velocity in world space X position in metres per second.
    pub world_velocity_x: F32Bits,
    /// Velocity in world space Y position in metres per second.
    pub world_velocity_y: F32Bits,
    /// Velocity in world space Z position in metres per second.
    pub world_velocity_z: F32Bits,
    /// World space forward X direction (normalised).
    pub world_forward_dir_x: i16,
    /// World space forward Y direction (normalised).
    pub world_forward_dir_y: i16,
    /// World space forward Z direction (normalised).
    pub world_forward_dir_z: i16,
    /// World space right X direction (normalised).
    pub world_right_dir_x: i16,
    /// World space right Y direction (normalised).
    pub world_right_dir_y: i16,
    /// World space right Z direction (normalised).
    pub world_right_dir_z: i16,
    /// Lateral G-Force component.
    pub g_force_lateral: F32Bits,
    /// Longitudinal G-Force component.
    pub g_force_longitudinal: F32Bits,
    /// Vertical G-Force component.
    pub g_force_vertical: F32Bits,
    /// Yaw angle in radians.
    pub yaw: F32Bits,
    /// Pitch angle in radians.
    pub pitch: F32Bits,
    /// Roll angle in radians.
    pub roll: F32Bits,
}

impl DeepView for CarMotionData {
    type V = CarMotionData;

    open spec fn deep_view(&self) -> CarMotionData {
        *self
    }
}

impl Decode for CarMotionData {
    open spec fn decoded(w: Wire, packet_format: u16) -> (Wire, CarMotionData) {
        let (w, world_position_x) = w.single();
        let (w, world_position_y) = w.single();
        let (w, world_position_z) = w.single();
        let (w, world_velocity_x) = w.single();
        let (w, world_velocity_y) = w.single();
        let (w, world_velocity_z) = w.single();
        let (w, world_forward_dir_x) = w.i16();
        let (w, world_forward_dir_y) = w.i16();
        let (w, world_forward_dir_z) = w.i16();
        let (w, world_right_dir_x) = w.i16();
        let (w, world_right_dir_y) = w.i16();
        let (w, world_right_dir_z) = w.i16();
        let (w, g_force_lateral) = w.single();
        let (w, g_force_longitudinal) = w.single();
        let (w, g_force_vertical) = w.single();
        let (w, yaw) = w.single();
        let (w, pitch) = w.single();
        let (w, roll) = w.single();
        (
            w,
            CarMotionData {
                world_position_x,
                world_position_y,
                world_position_z,
                world_velocity_x,
                world_velocity_y,
                world_velocity_z,
                world_forward_dir_x,
                world_forward_dir_y,
                world_forward_dir_z,
                world_right_dir_x,
                world_right_dir_y,
                world_right_dir_z,
                g_force_lateral,
                g_force_longitudinal,
                g_force_vertical,
                yaw,
                pitch,
                roll,
            },
        )
    }

    fn decode(cursor: &mut ByteCursor, packet_format: u16) -> (r: Result<
        CarMotionData,
        DecodeError,
    >) {
        let world_position_x: F32Bits = cursor.read_f32()?;
        let world_position_y: F32Bits = cursor.read_f32()?;
        let world_position_z: F32Bits = cursor.read_f32()?;
        let world_velocity_x: F32Bits = cursor.read_f32()?;
        let world_velocity_y: F32Bits = cursor.read_f32()?;
        let world_velocity_z: F32Bits = cursor.read_f32()?;
        let world_forward_dir_x: i16 = cursor.read_i16()?;
        let world_forward_dir_y: i16 = cursor.read_i16()?;
        let world_forward_dir_z: i16 = cursor.read_i16()?;
        let world_right_dir_x: i16 = cursor.read_i16()?;
        let world_right_dir_y: i16 = cursor.read_i16()?;
        let world_right_dir_z: i16 = cursor.read_i16()?;
        let g_force_lateral: F32Bits = cursor.read_f32()?;
        let g_force_longitudinal: F32Bits = cursor.read_f32()?;
        let g_force_vertical: F32Bits = cursor.read_f32()?;
        let yaw: F32Bits = cursor.read_f32()?;
        let pitch: F32Bits = cursor.read_f32()?;
        let roll: F32Bits = cursor.read_f32()?;
        Ok(
            CarMotionData {
                world_position_x,
                world_position_y,
                world_position_z,
                world_velocity_x,
                world_velocity_y,
                world_velocity_z,
                world_forward_dir_x,
                world_forward_dir_y,
                world_forward_dir_z,
                world_right_dir_x,
                world_right_dir_y,
                world_right_dir_z,
                g_force_lateral,
                g_force_longitudinal,
                g_force_vertical,
                yaw,
                pitch,
                roll,
            },
        )
    }
}

impl CarMotionData {
    /// Number of bytes of this record on the wire.
    pub open spec fn wire_width(packet_format: u16) -> nat {
        60
    }

    /// Every successful decode of this record takes `wire_width` bytes.
    pub proof fn lemma_wire_width(packet_format: u16)
        ensures
            has_width::<CarMotionData>(packet_format, Self::wire_width(packet_format)),
    {
    }
}

/// Extended motion data for player's car. Available as a: - part of
/// [`F1PacketMotion`] in the 2022 format - standalone packet from the 2023
/// format onwards
#[non_exhaustive]
#[derive(Debug, Clone, Copy, PartialEq, Eq)]
pub struct F1PacketMotionEx {
    /// Positions of suspension for each wheel. The order is rear left, rear
    /// right, front left, front right.
    pub suspension_position: [F32Bits; 4],
    /// Velocity values of suspension for each wheel. The order is rear left,
    /// rear right, front left, front right.
    pub suspension_velocity: [F32Bits; 4],
    /// Acceleration values of suspension for each wheel. The order is rear
    /// left, rear right, front left, front right.
    pub suspension_acceleration: [F32Bits; 4],
    /// Speed of each wheel. The order is rear left, rear right, front left,
    /// front right.
    pub wheel_speed: [F32Bits; 4],
    /// Slip ratio for each wheel. The order is rear left, rear right, front
    /// left, front right.
    pub wheel_slip_ratio: [F32Bits; 4],
    /// Slip angles for each wheel. The order is rear left, rear right, front
    /// left, front right. Available from the 2024 format onwards.
    pub wheel_slip_angle: [F32Bits; 4],
    /// Lateral forces for each wheel. The order is rear left, rear right,
    /// front left, front right. Available from the 2024 format onwards.
    pub wheel_lat_force: [F32Bits; 4],
    /// Longitudinal forces for each wheel. The order is rear left, rear
    /// right, front left, front right. Available from the 2024 format
    /// onwards.
    pub wheel_long_force: [F32Bits; 4],
    /// Height of centre of gravity above ground. Available from the 2024
    /// format onwards.
    pub height_of_cog_above_ground: F32Bits,
    /// X velocity in local space.
    pub local_velocity_x: F32Bits,
    /// Y velocity in local space.
    pub local_velocity_y: F32Bits,
    /// Z velocity in local space.
    pub local_velocity_z: F32Bits,
    /// Angular velocity X component.
    pub angular_velocity_x: F32Bits,
    /// Angular velocity Y component.
    pub angular_velocity_y: F32Bits,
    /// Angular velocity Z component.
    pub angular_velocity_z: F32Bits,
    /// Angular acceleration X component.
    pub angular_acceleration_x: F32Bits,
    /// Angular acceleration Y component.
    pub angular_acceleration_y: F32Bits,
    /// Angular acceleration Z component.
    pub angular_acceleration_z: F32Bits,
    /// Current front wheels angle in radians.
    pub front_wheels_angle: F32Bits,
    /// Vertical forces for each wheel. The order is rear left, rear right,
    /// front left, front right. Available from the 2023 format onwards.
    pub wheel_vert_force: [F32Bits; 4],
    /// Front plank edge height above road surface. Available from the 2024
    /// format onwards.
    pub front_aero_height: F32Bits,
    /// Rear plank edge height above road surface. Available from the 2024
    /// format onwards.
    pub rear_aero_height: F32Bits,
    /// Roll angle of the front suspension. Available from the 2024 format
    /// onwards.
    pub front_roll_angle: F32Bits,
    /// Roll angle of the rear suspension. Available from the 2024 format
    /// onwards.
    pub rear_roll_angle: F32Bits,
    /// Yaw angle of the chassis relative to the direction of motion -
    /// radians. Available from the 2024 format onwards.
    pub chassis_yaw: F32Bits,
}

impl DeepView for F1PacketMotionEx {
    type V = F1PacketMotionEx;

    open spec fn deep_view(&self) -> F1PacketMotionEx {
        *self
    }
}

impl Decode for F1PacketMotionEx {
    open spec fn decoded(w: Wire, packet_format: u16) -> (Wire, F1PacketMotionEx) {
        let (w, suspension_position) = w.singles4();
        let (w, suspension_velocity) = w.singles4();
        let (w, suspension_acceleration) = w.singles4();
        let (w, wheel_speed) = w.singles4();
        let (w, wheel_slip_ratio) = w.singles4();
        let (w, wheel_slip_angle) = w.singles4_if(packet_format >= 2024);
        let (w, wheel_lat_force) = w.singles4_if(packet_format >= 2024);
        let (w, wheel_long_force) = w.singles4_if(packet_format >= 2024);
        let (w, height_of_cog_above_ground) = w.single_if(packet_format >= 2024);
        let (w, local_velocity_x) = w.single();
        let (w, local_velocity_y) = w.single();
        let (w, local_velocity_z) = w.single();
        let (w, angular_velocity_x) = w.single();
        let (w, angular_velocity_y) = w.single();
        let (w, angular_velocity_z) = w.single();
        let (w, angular_acceleration_x) = w.single();
        let (w, angular_acceleration_y) = w.single();
        let (w, angular_acceleration_z) = w.single();
        let (w, front_wheels_angle) = w.single();
        let (w, wheel_vert_force) = w.singles4_if(packet_format >= 2023);
        let (w, front_aero_height) = w.single_if(packet_format >= 2024);
        let (w, rear_aero_height) = w.single_if(packet_format >= 2024);
        let (w, front_roll_angle) = w.single_if(packet_format >= 2024);
        let (w, rear_roll_angle) = w.single_if(packet_format >= 2024);
        let (w, chassis_yaw) = w.single_if(packet_format >= 2024);
        (
            w,
            F1PacketMotionEx {
                suspension_position,
                suspension_velocity,
                suspension_acceleration,
                wheel_speed,
                wheel_slip_ratio,
                wheel_slip_angle,
                wheel_lat_force,
                wheel_long_force,
                height_of_cog_above_ground,
                local_velocity_x,
                local_velocity_y,
                local_velocity_z,
                angular_velocity_x,
                angular_velocity_y,
                angular_velocity_z,
                angular_acceleration_x,
                angular_acceleration_y,
                angular_acceleration_z,
                front_wheels_angle,
                wheel_vert_force,
                front_aero_height,
                rear_aero_height,
                front_roll_angle,
                rear_roll_angle,
                chassis_yaw,
            },
        )
    }

    fn decode(cursor: &mut ByteCursor, packet_format: u16) -> (r: Result<
        F1PacketMotionEx,
        DecodeError,
    >) {
        let suspension_position: [F32Bits; 4] = cursor.read_f32x4()?;
        let suspension_velocity: [F32Bits; 4] = cursor.read_f32x4()?;
        let suspension_acceleration: [F32Bits; 4] = cursor.read_f32x4()?;
        let wheel_speed: [F32Bits; 4] = cursor.read_f32x4()?;
        let wheel_slip_ratio: [F32Bits; 4] = cursor.read_f32x4()?;
        let wheel_slip_angle: [F32Bits; 4] = cursor.read_f32x4_if(packet_format >= 2024)?;
        let wheel_lat_force: [F32Bits; 4] = cursor.read_f32x4_if(packet_format >= 2024)?;
        let wheel_long_force: [F32Bits; 4] = cursor.read_f32x4_if(packet_format >= 2024)?;
        let height_of_cog_above_ground: F32Bits = cursor.read_f32_if(packet_format >= 2024)?;
        let local_velocity_x: F32Bits = cursor.read_f32()?;
        let local_velocity_y: F32Bits = cursor.read_f32()?;
        let local_velocity_z: F32Bits = cursor.read_f32()?;
        let angular_velocity_x: F32Bits = cursor.read_f32()?;
        let angular_velocity_y: F32Bits = cursor.read_f32()?;
        let angular_velocity_z: F32Bits = cursor.read_f32()?;
        let angular_acceleration_x: F32Bits = cursor.read_f32()?;
        let angular_acceleration_y: F32Bits = cursor.read_f32()?;
        let angular_acceleration_z: F32Bits = cursor.read_f32()?;
        let front_wheels_angle: F32Bits = cursor.read_f32()?;
        let wheel_vert_force: [F32Bits; 4] = cursor.read_f32x4_if(packet_format >= 2023)?;
        let front_aero_height: F32Bits = cursor.read_f32_if(packet_format >= 2024)?;
        let rear_aero_height: F32Bits = cursor.read_f32_if(packet_format >= 2024)?;
        let front_roll_angle: F32Bits = cursor.read_f32_if(packet_format >= 2024)?;
        let rear_roll_angle: F32Bits = cursor.read_f32_if(packet_format >= 2024)?;
        let chassis_yaw: F32Bits = cursor.read_f32_if(packet_format >= 2024)?;
        Ok(
            F1PacketMotionEx {
                suspension_position,
                suspension_velocity,
                suspension_acceleration,
                wheel_speed,
                wheel_slip_ratio,
                wheel_slip_angle,
                wheel_lat_force,
                wheel_long_force,
                height_of_cog_above_ground,
                local_velocity_x,
                local_velocity_y,
                local_velocity_z,
                angular_velocity_x,
                angular_velocity_y,
                angular_velocity_z,
                angular_acceleration_x,
                angular_acceleration_y,
                angular_acceleration_z,
                front_wheels_angle,
                wheel_vert_force,
                front_aero_height,
                rear_aero_height,
                front_roll_angle,
                rear_roll_angle,
                chassis_yaw,
            },
        )
    }
}

impl F1PacketMotionEx {
    /// Number of bytes of this record on the wire.
    pub open spec fn wire_width(packet_format: u16) -> nat {
        if packet_format >= 2024 {
            208
        } else if packet_format >= 2023 {
            136
        } else {
            120
        }
    }

    /// Every successful decode of this record takes `wire_width` bytes.
    pub proof fn lemma_wire_width(packet_format: u16)
        ensures
            has_width::<F1PacketMotionEx>(packet_format, Self::wire_width(packet_format)),
    {
        assert forall|w: Wire|
            w.countable() && !w.failed() && !(#[trigger] F1PacketMotionEx::decoded(w, packet_format)).0.failed() implies {
            &&& F1PacketMotionEx::decoded(w, packet_format).0.pos == w.pos + Self::wire_width(packet_format)
            &&& F1PacketMotionEx::decoded(w, packet_format).0.data == w.data
        } by {
            Self::lemma_progress(w, packet_format);
        }
    }

    /// A decode of this record fails, or takes `wire_width` bytes and leaves
    /// the datagram as it is.
    #[verifier::rlimit(100)]
    pub proof fn lemma_progress(w: Wire, packet_format: u16)
        requires
            w.countable(),
        ensures
            ({
                let end = F1PacketMotionEx::decoded(w, packet_format).0;
                end.failed() || (end.pos == w.pos + Self::wire_width(packet_format) && end.data == w.data)
            }),
    {
        // Field by field: either the state has failed, or it stands `taken`
        // bytes behind the start.
        let first = w;
        let start = w.pos;
        let taken = 0int;
        let (w, suspension_position) = w.singles4();
        let taken = taken + 16;
        assert(w.failed() || (w.pos == first.pos + taken && w.data == first.data));
        let (w, suspension_velocity) = w.singles4();
        let taken = taken + 16;
        assert(w.failed() || (w.pos == first.pos + taken && w.data == first.data));
        let (w, suspension_acceleration) = w.singles4();
        let taken = taken + 16;
        assert(w.failed() || (w.pos == first.pos + taken && w.data == first.data));
        let (w, wheel_speed) = w.singles4();
        let taken = taken + 16;
        assert(w.failed() || (w.pos == first.pos + taken && w.data == first.data));
        let (w, wheel_slip_ratio) = w.singles4();
        let taken = taken + 16;
        assert(w.failed() || (w.pos == first.pos + taken && w.data == first.data));
        let (w, wheel_slip_angle) = w.singles4_if(packet_format >= 2024);
        let taken = taken + if packet_format >= 2024 {
            16int
        } else {
            0int
        };
        assert(w.failed() || (w.pos == first.pos + taken && w.data == first.data));
        let (w, wheel_lat_force) = w.singles4_if(packet_format >= 2024);
        let taken = taken + if packet_format >= 2024 {
            16int
        } else {
            0int
        };
        assert(w.failed() || (w.pos == first.pos + taken && w.data == first.data));
        let (w, wheel_long_force) = w.singles4_if(packet_format >= 2024);
        let taken = taken + if packet_format >= 2024 {
            16int
        } else {
            0int
        };
        assert(w.failed() || (w.pos == first.pos + taken && w.data == first.data));
        let (w, height_of_cog_above_ground) = w.single_if(packet_format >= 2024);
        let taken = taken + if packet_format >= 2024 {
            4int
        } else {
            0int
        };
        assert(w.failed() || (w.pos == first.pos + taken && w.data == first.data));
        let (w, local_velocity_x) = w.single();
        let taken = taken + 4;
        assert(w.failed() || (w.pos == first.pos + taken && w.data == first.data));
        let (w, local_velocity_y) = w.single();
        let taken = taken + 4;
        assert(w.failed() || (w.pos == first.pos + taken && w.data == first.data));
        let (w, local_velocity_z) = w.single();
        let taken = taken + 4;
        assert(w.failed() || (w.pos == first.pos + taken && w.data == first.data));
        let (w, angular_velocity_x) = w.single();
        let taken = taken + 4;
        assert(w.failed() || (w.pos == first.pos + taken && w.data == first.data));
        let (w, angular_velocity_y) = w.single();
        let taken = taken + 4;
        assert(w.failed() || (w.pos == first.pos + taken && w.data == first.data));
        let (w, angular_velocity_z) = w.single();
        let taken = taken + 4;
        assert(w.failed() || (w.pos == first.pos + taken && w.data == first.data));
        let (w, angular_acceleration_x) = w.single();
        let taken = taken + 4;
        assert(w.failed() || (w.pos == first.pos + taken && w.data == first.data));
        let (w, angular_acceleration_y) = w.single();
        let taken = taken + 4;
        assert(w.failed() || (w.pos == first.pos + taken && w.data == first.data));
        let (w, angular_acceleration_z) = w.single();
        let taken = taken + 4;
        assert(w.failed() || (w.pos == first.pos + taken && w.data == first.data));
        let (w, front_wheels_angle) = w.single();
        let taken = taken + 4;
        assert(w.failed() || (w.pos == first.pos + taken && w.data == first.data));
        let (w, wheel_vert_force) = w.singles4_if(packet_format >= 2023);
        let taken = taken + if packet_format >= 2023 {
            16int
        } else {
            0int
        };
        assert(w.failed() || (w.pos == first.pos + taken && w.data == first.data));
        let (w, front_aero_height) = w.single_if(packet_format >= 2024);
        let taken = taken + if packet_format >= 2024 {
            4int
        } else {
            0int
        };
        assert(w.failed() || (w.pos == first.pos + taken && w.data == first.data));
        let (w, rear_aero_height) = w.single_if(packet_format >= 2024);
        let taken = taken + if packet_format >= 2024 {
            4int
        } else {
            0int
        };
        assert(w.failed() || (w.pos == first.pos + taken && w.data == first.data));
        let (w, front_roll_angle) = w.single_if(packet_format >= 2024);
        let taken = taken + if packet_format >= 2024 {
            4int
        } else {
            0int
        };
        assert(w.failed() || (w.pos == first.pos + taken && w.data == first.data));
        let (w, rear_roll_angle) = w.single_if(packet_format >= 2024);
        let taken = taken + if packet_format >= 2024 {
            4int
        } else {
            0int
        };
        assert(w.failed() || (w.pos == first.pos + taken && w.data == first.data));
        let (w, chassis_yaw) = w.single_if(packet_format >= 2024);
        let taken = taken + if packet_format >= 2024 {
            4int
        } else {
            0int
        };
        assert(w.failed() || (w.pos == first.pos + taken && w.data == first.data));
    }
}

/// The motion packet gives physics data for all the cars being driven.
#[non_exhaustive]
#[derive(Debug, Clone, PartialEq, Eq)]
pub struct F1PacketMotion {
    /// Motion data for all cars on track. Should have a size of 22.
    pub data: Vec<CarMotionData>,
    /// Extra player-car-only motion data. Available only in the 2022 format.
    pub motion_ex: Option<F1PacketMotionEx>,
}

/// A [`F1PacketMotion`] as a mathematical value: each list a sequence, each text a
/// sequence of characters.
pub struct F1PacketMotionView {
    pub data: Seq<CarMotionData>,
    pub motion_ex: Option<F1PacketMotionEx>,
}

impl DeepView for F1PacketMotion {
    type V = F1PacketMotionView;

    open spec fn deep_view(&self) -> F1PacketMotionView {
        F1PacketMotionView {
            data: self.data.deep_view(),
            motion_ex: self.motion_ex.deep_view(),
        }
    }
}

impl Decode for F1PacketMotion {
    open spec fn decoded(w: Wire, packet_format: u16) -> (Wire, F1PacketMotionView) {
        let (w, data) = decoded_list::<CarMotionData>(w, MAX_NUM_CARS as nat, packet_format);
        let (w, motion_ex) = decoded_if::<F1PacketMotionEx>(
            w,
            packet_format == 2022,
            packet_format,
        );
        (w, F1PacketMotionView { data, motion_ex })
    }

    fn decode(cursor: &mut ByteCursor, packet_format: u16) -> (r: Result<
        F1PacketMotion,
        DecodeError,
    >) {
        let data: Vec<CarMotionData> = decode_list(cursor, MAX_NUM_CARS, packet_format)?;
        let motion_ex: Option<F1PacketMotionEx> = decode_if(
            cursor,
            packet_format == 2022,
            packet_format,
        )?;
        Ok(F1PacketMotion { data, motion_ex })
    }
}

impl F1PacketMotion {
    /// Number of bytes of this body on the wire.
    pub open spec fn wire_width(packet_format: u16) -> nat {
        let entries = MAX_NUM_CARS * CarMotionData::wire_width(packet_format);
        let rest = if packet_format == 2022 {
            F1PacketMotionEx::wire_width(packet_format)
        } else {
            0
        };
        (entries + rest) as nat
    }

    /// Every successful decode of this body takes `wire_width` bytes.
    pub proof fn lemma_wire_width(packet_format: u16)
        ensures
            has_width::<F1PacketMotion>(packet_format, Self::wire_width(packet_format)),
    {
        CarMotionData::lemma_wire_width(packet_format);
        F1PacketMotionEx::lemma_wire_width(packet_format);
        reveal(sealed);
        assert forall|w: Wire|
            w.countable() && !w.failed() && !(#[trigger] F1PacketMotion::decoded(w, packet_format)).0.failed() implies {
            &&& F1PacketMotion::decoded(w, packet_format).0.pos == w.pos + Self::wire_width(packet_format)
            &&& F1PacketMotion::decoded(w, packet_format).0.data == w.data
        } by {
            let w_start = w;
            let listed = decoded_list::<CarMotionData>(w, MAX_NUM_CARS as nat, packet_format).0;
            if listed.failed() {
                assert(F1PacketMotion::decoded(w_start, packet_format).0.failed());
            }
            lemma_list_layout::<CarMotionData>(
                w,
                MAX_NUM_CARS as nat,
                packet_format,
                CarMotionData::wire_width(packet_format),
            );
        }
    }
}

} // verus!
