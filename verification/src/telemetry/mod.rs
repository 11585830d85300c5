//! The telemetry pipeline: per-subsystem telemeters fill fixed-size
//! packets, the pipeline injects the trailer (tick count and packet id)
//! from the tail inward, and the finished packets are handed to the caller
//! as plain bytes.  The transport worker that owns the byte sink lives in
//! the host process; a readiness flag gates collection and emission so
//! nothing is built before the sink is open, and a blocked or dead sink
//! never stalls actuation.

pub mod ballast;
pub mod environment;
pub mod propulsion;
pub mod system;

use vstd::prelude::*;
use vstd::bytes::spec_u32_to_le_bytes;
use ballast::{BallastTelemetry, BALLAST_SERIALIZED_SIZE};
use environment::{EnvironmentTelemetry, ENVIRONMENT_SERIALIZED_SIZE};
use propulsion::{PropulsionTelemetry, PROPULSION_SERIALIZED_SIZE};
use system::{SystemTelemetry, SYSTEM_SERIALIZED_SIZE};
use crate::config::telemetry::TelemetryConfig;
use crate::hardware_model::Submarine;

verus! {

/// Size of every telemetry packet on the wire.
pub const TELEMETRY_PACKET_SIZE: usize = 32;

/// The packet id sits this many bytes before the end of the packet.
pub const ID_BYTE_OFFSET: usize = 1;

/// The tick count ends this many bytes before the end of the packet.
pub const TICK_BYTE_OFFSET: usize = 1;

/// Packet id of the environment/sensor packet.
pub const ENVIRONMENT_PACKET_ID: u8 = 0x0;

/// Packet id of the ballast packet.
pub const BALLAST_PACKET_ID: u8 = 0x1;

/// Packet id of the propulsion packet.
pub const PROPULSION_PACKET_ID: u8 = 0x2;

/// Packet id of the system-timing packet.
pub const SYSTEM_PACKET_ID: u8 = 0xF;

/// A payload of this many leading bytes leaves room for the four
/// tick-count bytes ahead of the id byte.
pub open spec fn spec_tick_count_fits(used: u8) -> bool {
    used <= TELEMETRY_PACKET_SIZE - TICK_BYTE_OFFSET - 4
}

/// A payload of this many leading bytes leaves room for the id byte.
pub open spec fn spec_packet_id_fits(used: u8) -> bool {
    used <= TELEMETRY_PACKET_SIZE - ID_BYTE_OFFSET
}

/// A packet after trailer injection: the four bytes before the last one
/// carry the tick count little-endian and the last byte carries the packet
/// id, each only if the payload left room for it; every other byte is the
/// payload's.
pub open spec fn spec_apply_trailer(payload: Seq<u8>, used: u8, tick_count: u32, id: u8) -> Seq<
    u8,
> {
    Seq::new(
        payload.len(),
        |i: int|
            {
                if TELEMETRY_PACKET_SIZE - TICK_BYTE_OFFSET - 4 <= i < TELEMETRY_PACKET_SIZE
                    - TICK_BYTE_OFFSET && spec_tick_count_fits(used) {
                    spec_u32_to_le_bytes(tick_count)[i - (TELEMETRY_PACKET_SIZE - TICK_BYTE_OFFSET
                        - 4)]
                } else if i == TELEMETRY_PACKET_SIZE - ID_BYTE_OFFSET && spec_packet_id_fits(
                    used,
                ) {
                    id
                } else {
                    payload[i]
                }
            },
    )
}

/// The bytes an environment snapshot serializes to, before the trailer.
pub open spec fn spec_environment_payload(t: EnvironmentTelemetry) -> Seq<u8> {
    Seq::new(
        TELEMETRY_PACKET_SIZE as nat,
        |i: int|
            {
                if i == 0 {
                    t.internal_temperature_c
                } else if i == 1 {
                    t.internal_humidity_percent
                } else if i == 2 {
                    if t.is_stale {
                        1u8
                    } else {
                        0u8
                    }
                } else {
                    0u8
                }
            },
    )
}

/// The bytes a ballast snapshot serializes to, before the trailer.
pub open spec fn spec_ballast_payload(t: BallastTelemetry) -> Seq<u8> {
    Seq::new(
        TELEMETRY_PACKET_SIZE as nat,
        |i: int|
            {
                if i == 0 {
                    t.current_state
                } else if i == 1 {
                    t.target_state
                } else {
                    0u8
                }
            },
    )
}

/// The bytes a propulsion snapshot serializes to, before the trailer.
pub open spec fn spec_propulsion_payload(t: PropulsionTelemetry) -> Seq<u8> {
    Seq::new(
        TELEMETRY_PACKET_SIZE as nat,
        |i: int|
            {
                if 0 <= i < 4 {
                    spec_u32_to_le_bytes(t.vector.x_micros as u32)[i]
                } else if 4 <= i < 8 {
                    spec_u32_to_le_bytes(t.vector.y_micros as u32)[i - 4]
                } else if i == 8 {
                    propulsion::spec_state_flags(t.aft_en, t.sb_en, t.port_en)
                } else {
                    0u8
                }
            },
    )
}

/// The bytes a system-timing snapshot serializes to, before the trailer.
pub open spec fn spec_system_payload(t: SystemTelemetry) -> Seq<u8> {
    Seq::new(
        TELEMETRY_PACKET_SIZE as nat,
        |i: int|
            {
                if 0 <= i < 4 {
                    spec_u32_to_le_bytes(t.tick_delta_micros)[i]
                } else if 4 <= i < 8 {
                    spec_u32_to_le_bytes(t.tick_idle_micros)[i - 4]
                } else if 8 <= i < 12 {
                    spec_u32_to_le_bytes(t.total_tick_micros)[i - 8]
                } else {
                    0u8
                }
            },
    )
}

/// The telemetry pipeline state: one telemeter per subsystem, each with
/// its packet id and an enable flag, the tick count stamped into trailers,
/// and the two gates (pipeline enabled, transport sink ready).
pub struct Telemetry {
    pub environment: EnvironmentTelemetry,
    pub environment_enabled: bool,
    pub ballast: BallastTelemetry,
    pub ballast_enabled: bool,
    pub propulsion: PropulsionTelemetry,
    pub propulsion_enabled: bool,
    pub system: SystemTelemetry,
    pub system_enabled: bool,
    pub pipe_location: String,
    pub tick_count: u32,
    pub enabled: bool,
    pub emitter_ready: bool,
}

impl Telemetry {
    /// The packets one emission hands to the transport, in order.
    pub open spec fn spec_emitted_packets(self) -> Seq<Seq<u8>> {
        let env: Seq<Seq<u8>> = if self.environment_enabled {
            seq![
                spec_apply_trailer(
                    spec_environment_payload(self.environment),
                    ENVIRONMENT_SERIALIZED_SIZE,
                    self.tick_count,
                    ENVIRONMENT_PACKET_ID,
                ),
            ]
        } else {
            Seq::empty()
        };
        let bal: Seq<Seq<u8>> = if self.ballast_enabled {
            seq![
                spec_apply_trailer(
                    spec_ballast_payload(self.ballast),
                    BALLAST_SERIALIZED_SIZE,
                    self.tick_count,
                    BALLAST_PACKET_ID,
                ),
            ]
        } else {
            Seq::empty()
        };
        let prop: Seq<Seq<u8>> = if self.propulsion_enabled {
            seq![
                spec_apply_trailer(
                    spec_propulsion_payload(self.propulsion),
                    PROPULSION_SERIALIZED_SIZE,
                    self.tick_count,
                    PROPULSION_PACKET_ID,
                ),
            ]
        } else {
            Seq::empty()
        };
        let sys: Seq<Seq<u8>> = if self.system_enabled {
            seq![
                spec_apply_trailer(
                    spec_system_payload(self.system),
                    SYSTEM_SERIALIZED_SIZE,
                    self.tick_count,
                    SYSTEM_PACKET_ID,
                ),
            ]
        } else {
            Seq::empty()
        };
        env + bal + prop + sys
    }

    /// The pipeline after pulling hardware snapshots from the vehicle:
    /// nothing changes while the pipeline is disabled or the sink is not
    /// ready; otherwise every enabled hardware telemeter is refreshed.
    pub open spec fn spec_collect_hw(self, sub: Submarine) -> Self {
        if !(self.enabled && self.emitter_ready) {
            self
        } else {
            Telemetry {
                environment: if self.environment_enabled {
                    EnvironmentTelemetry {
                        internal_temperature_c: sub.dht11.last_measured_temp.0,
                        internal_humidity_percent: sub.dht11.last_measured_rh.0,
                        is_stale: !sub.dht11.last_read_valid,
                    }
                } else {
                    self.environment
                },
                ballast: if self.ballast_enabled {
                    BallastTelemetry {
                        current_state: sub.ballast.state.spec_as_byte(),
                        target_state: sub.ballast.target_state.spec_as_byte(),
                    }
                } else {
                    self.ballast
                },
                propulsion: if self.propulsion_enabled {
                    PropulsionTelemetry {
                        vector: sub.propulsion.vector,
                        aft_en: sub.propulsion.aft_thruster.output_enabled,
                        sb_en: sub.propulsion.yaw_thruster.output_enabled
                            && sub.propulsion.yaw_thruster.active_thruster
                            == crate::hardware_model::propulsion::yaw_thrust::YawThruster::Starboard,
                        port_en: sub.propulsion.yaw_thruster.output_enabled
                            && sub.propulsion.yaw_thruster.active_thruster
                            == crate::hardware_model::propulsion::yaw_thrust::YawThruster::Port,
                    }
                } else {
                    self.propulsion
                },
                ..self
            }
        }
    }

    /// The pipeline after taking one tick's timing: nothing changes while
    /// the pipeline is disabled or the sink is not ready.
    pub open spec fn spec_collect_system(self, delta: u32, idle: u32) -> Self {
        if !(self.enabled && self.emitter_ready) {
            self
        } else {
            Telemetry {
                system: if self.system_enabled {
                    SystemTelemetry {
                        tick_delta_micros: delta,
                        tick_idle_micros: idle,
                        total_tick_micros: if delta + idle > u32::MAX {
                            u32::MAX
                        } else {
                            (delta + idle) as u32
                        },
                    }
                } else {
                    self.system
                },
                ..self
            }
        }
    }

    /// A fresh pipeline: every packet enabled, nothing collected yet, and
    /// emission gated until the host marks the transport sink ready.
    pub fn new(config: &TelemetryConfig) -> (r: Telemetry)
        ensures
            r.environment == (EnvironmentTelemetry {
                internal_temperature_c: 0,
                internal_humidity_percent: 0,
                is_stale: true,
            }),
            r.ballast == (BallastTelemetry { current_state: 0, target_state: 0 }),
            r.system == (SystemTelemetry {
                tick_delta_micros: 0,
                tick_idle_micros: 0,
                total_tick_micros: 0,
            }),
            r.environment_enabled,
            r.ballast_enabled,
            r.propulsion_enabled,
            r.system_enabled,
            r.pipe_location == config.socket,
            r.tick_count == 0,
            r.enabled,
            !r.emitter_ready,
    {
        Telemetry {
            environment: EnvironmentTelemetry::new(),
            environment_enabled: true,
            ballast: BallastTelemetry::new(),
            ballast_enabled: true,
            propulsion: PropulsionTelemetry::new(),
            propulsion_enabled: true,
            system: SystemTelemetry::new(),
            system_enabled: true,
            pipe_location: config.socket.clone(),
            tick_count: 0,
            enabled: true,
            emitter_ready: false,
        }
    }

    /// Stamp the tick count that the next trailers will carry.
    pub fn set_tick_count(&mut self, tick_count: u32)
        ensures
            *final(self) == (Telemetry { tick_count, ..*old(self) }),
    {
        self.tick_count = tick_count;
    }

    /// The host process reports whether the transport sink is open; while
    /// it is not, collection and emission are skipped.
    pub fn set_emitter_ready(&mut self, ready: bool)
        ensures
            *final(self) == (Telemetry { emitter_ready: ready, ..*old(self) }),
    {
        self.emitter_ready = ready;
    }

    /// Pull a fresh snapshot from every enabled hardware telemeter, unless
    /// the pipeline is disabled or the sink is not ready.
    pub fn collect_hw_telemetry(&mut self, sub: &Submarine)
        ensures
            *final(self) == old(self).spec_collect_hw(*sub),
    {
        if !self.enabled || !self.emitter_ready {
            return;
        }
        if self.environment_enabled {
            self.environment.collect(sub);
        }
        if self.ballast_enabled {
            self.ballast.collect(sub);
        }
        if self.propulsion_enabled {
            self.propulsion.collect(sub);
        }
    }

    /// Feed the tick timing into the system telemeter, unless the pipeline
    /// is disabled or the sink is not ready.
    pub fn collect_system_telemetry(&mut self, delta: u32, idle: u32)
        ensures
            *final(self) == old(self).spec_collect_system(delta, idle),
    {
        if !self.enabled || !self.emitter_ready {
            return;
        }
        if self.system_enabled {
            self.system.ingest_tick(delta, idle);
        }
    }

    /// Build this tick's packets: zero a scratch buffer per enabled
    /// telemeter, let it serialize, inject the trailer, and hand the
    /// finished packets back in order for the transport to send.  A gated
    /// pipeline builds nothing.
    pub fn emit_telemetry(&self) -> (packets: Vec<Vec<u8>>)
        ensures
            !(self.enabled && self.emitter_ready) ==> packets@.len() == 0,
            self.enabled && self.emitter_ready ==> packets.deep_view()
                == self.spec_emitted_packets(),
    {
        let mut packets: Vec<Vec<u8>> = Vec::new();
        if !self.enabled || !self.emitter_ready {
            return packets;
        }
        self.emit_hw_telemetry(&mut packets);
        self.emit_system_telemetry(&mut packets);
        proof {
            assert(packets.deep_view() =~~= self.spec_emitted_packets());
        }
        packets
    }

    /// Build the environment, ballast and propulsion packets.
    fn emit_hw_telemetry(&self, packets: &mut Vec<Vec<u8>>)
        ensures
            final(packets).deep_view() == old(packets).deep_view() + (if self
                .environment_enabled {
                seq![
                    spec_apply_trailer(
                        spec_environment_payload(self.environment),
                        ENVIRONMENT_SERIALIZED_SIZE,
                        self.tick_count,
                        ENVIRONMENT_PACKET_ID,
                    ),
                ]
            } else {
                Seq::empty()
            }) + (if self.ballast_enabled {
                seq![
                    spec_apply_trailer(
                        spec_ballast_payload(self.ballast),
                        BALLAST_SERIALIZED_SIZE,
                        self.tick_count,
                        BALLAST_PACKET_ID,
                    ),
                ]
            } else {
                Seq::empty()
            }) + (if self.propulsion_enabled {
                seq![
                    spec_apply_trailer(
                        spec_propulsion_payload(self.propulsion),
                        PROPULSION_SERIALIZED_SIZE,
                        self.tick_count,
                        PROPULSION_PACKET_ID,
                    ),
                ]
            } else {
                Seq::empty()
            }),
    {
        if self.environment_enabled {
            let mut buffer = zeroed_packet();
            let used = self.environment.serialize(&mut buffer);
            let _ = Telemetry::apply_tick_count(&mut buffer, used, self.tick_count);
            let _ = Telemetry::apply_packet_id(&mut buffer, used, ENVIRONMENT_PACKET_ID);
            proof {
                assert(buffer@ =~= spec_apply_trailer(
                    spec_environment_payload(self.environment),
                    ENVIRONMENT_SERIALIZED_SIZE,
                    self.tick_count,
                    ENVIRONMENT_PACKET_ID,
                ));
            }
            packets.push(buffer);
        }
        if self.ballast_enabled {
            let mut buffer = zeroed_packet();
            let used = self.ballast.serialize(&mut buffer);
            let _ = Telemetry::apply_tick_count(&mut buffer, used, self.tick_count);
            let _ = Telemetry::apply_packet_id(&mut buffer, used, BALLAST_PACKET_ID);
            proof {
                assert(buffer@ =~= spec_apply_trailer(
                    spec_ballast_payload(self.ballast),
                    BALLAST_SERIALIZED_SIZE,
                    self.tick_count,
                    BALLAST_PACKET_ID,
                ));
            }
            packets.push(buffer);
        }
        if self.propulsion_enabled {
            let mut buffer = zeroed_packet();
            let used = self.propulsion.serialize(&mut buffer);
            let _ = Telemetry::apply_tick_count(&mut buffer, used, self.tick_count);
            let _ = Telemetry::apply_packet_id(&mut buffer, used, PROPULSION_PACKET_ID);
            proof {
                assert(buffer@ =~= spec_apply_trailer(
                    spec_propulsion_payload(self.propulsion),
                    PROPULSION_SERIALIZED_SIZE,
                    self.tick_count,
                    PROPULSION_PACKET_ID,
                ));
            }
            packets.push(buffer);
        }
        proof {
            assert(packets.deep_view() =~~= old(packets).deep_view() + (if self
                .environment_enabled {
                seq![
                    spec_apply_trailer(
                        spec_environment_payload(self.environment),
                        ENVIRONMENT_SERIALIZED_SIZE,
                        self.tick_count,
                        ENVIRONMENT_PACKET_ID,
                    ),
                ]
            } else {
                Seq::empty()
            }) + (if self.ballast_enabled {
                seq![
                    spec_apply_trailer(
                        spec_ballast_payload(self.ballast),
                        BALLAST_SERIALIZED_SIZE,
                        self.tick_count,
                        BALLAST_PACKET_ID,
                    ),
                ]
            } else {
                Seq::empty()
            }) + (if self.propulsion_enabled {
                seq![
                    spec_apply_trailer(
                        spec_propulsion_payload(self.propulsion),
                        PROPULSION_SERIALIZED_SIZE,
                        self.tick_count,
                        PROPULSION_PACKET_ID,
                    ),
                ]
            } else {
                Seq::empty()
            }));
        }
    }

    /// Build the system-timing packet.
    fn emit_system_telemetry(&self, packets: &mut Vec<Vec<u8>>)
        ensures
            final(packets).deep_view() == old(packets).deep_view() + (if self.system_enabled {
                seq![
                    spec_apply_trailer(
                        spec_system_payload(self.system),
                        SYSTEM_SERIALIZED_SIZE,
                        self.tick_count,
                        SYSTEM_PACKET_ID,
                    ),
                ]
            } else {
                Seq::empty()
            }),
    {
        if self.system_enabled {
            let mut buffer = zeroed_packet();
            let used = self.system.serialize(&mut buffer);
            let _ = Telemetry::apply_tick_count(&mut buffer, used, self.tick_count);
            let _ = Telemetry::apply_packet_id(&mut buffer, used, SYSTEM_PACKET_ID);
            proof {
                assert(buffer@ =~= spec_apply_trailer(
                    spec_system_payload(self.system),
                    SYSTEM_SERIALIZED_SIZE,
                    self.tick_count,
                    SYSTEM_PACKET_ID,
                ));
            }
            packets.push(buffer);
        }
        proof {
            assert(packets.deep_view() =~~= old(packets).deep_view() + (if self.system_enabled {
                seq![
                    spec_apply_trailer(
                        spec_system_payload(self.system),
                        SYSTEM_SERIALIZED_SIZE,
                        self.tick_count,
                        SYSTEM_PACKET_ID,
                    ),
                ]
            } else {
                Seq::empty()
            }));
        }
    }

    /// Write the tick count into the four bytes ahead of the id byte, from
    /// the packet's tail inward.  A payload that would overlap that region
    /// is left intact and the write is reported rejected - a soft failure;
    /// the packet is still sent without the field.
    pub fn apply_tick_count(buffer: &mut Vec<u8>, sz: u8, tick_count: u32) -> (r: Result<(), ()>)
        requires
            old(buffer)@.len() == TELEMETRY_PACKET_SIZE,
        ensures
            final(buffer)@.len() == TELEMETRY_PACKET_SIZE,
            r is Ok <==> spec_tick_count_fits(sz),
            spec_tick_count_fits(sz) ==> {
                &&& forall|i: int|
                    TELEMETRY_PACKET_SIZE - TICK_BYTE_OFFSET - 4 <= i < TELEMETRY_PACKET_SIZE
                        - TICK_BYTE_OFFSET ==> final(buffer)@[i] == spec_u32_to_le_bytes(
                        tick_count,
                    )[i - (TELEMETRY_PACKET_SIZE - TICK_BYTE_OFFSET - 4)]
                &&& forall|i: int|
                    0 <= i < TELEMETRY_PACKET_SIZE - TICK_BYTE_OFFSET - 4 ==> final(buffer)@[i]
                        == old(buffer)@[i]
                &&& final(buffer)@[TELEMETRY_PACKET_SIZE - TICK_BYTE_OFFSET as int] == old(
                    buffer,
                )@[TELEMETRY_PACKET_SIZE - TICK_BYTE_OFFSET as int]
            },
            !spec_tick_count_fits(sz) ==> final(buffer)@ == old(buffer)@,
    {
        if sz as usize > TELEMETRY_PACKET_SIZE - TICK_BYTE_OFFSET - 4 {
            return Err(());
        }
        proof {
            vstd::bytes::lemma_auto_spec_u32_to_from_le_bytes();
        }
        let tick_count_buf = vstd::bytes::u32_to_le_bytes(tick_count);
        let base: usize = TELEMETRY_PACKET_SIZE - TICK_BYTE_OFFSET - 4;
        buffer[base] = tick_count_buf[0];
        buffer[base + 1] = tick_count_buf[1];
        buffer[base + 2] = tick_count_buf[2];
        buffer[base + 3] = tick_count_buf[3];
        Ok(())
    }

    /// Write the packet id into the final byte.  A payload that would
    /// overlap it is left intact and the write is reported rejected - a
    /// soft failure; the packet is still sent without the field.
    pub fn apply_packet_id(buffer: &mut Vec<u8>, sz: u8, id: u8) -> (r: Result<(), ()>)
        requires
            old(buffer)@.len() == TELEMETRY_PACKET_SIZE,
        ensures
            final(buffer)@.len() == TELEMETRY_PACKET_SIZE,
            r is Ok <==> spec_packet_id_fits(sz),
            spec_packet_id_fits(sz) ==> {
                &&& final(buffer)@[TELEMETRY_PACKET_SIZE - ID_BYTE_OFFSET as int] == id
                &&& forall|i: int|
                    0 <= i < TELEMETRY_PACKET_SIZE - ID_BYTE_OFFSET ==> final(buffer)@[i] == old(
                        buffer,
                    )@[i]
            },
            !spec_packet_id_fits(sz) ==> final(buffer)@ == old(buffer)@,
    {
        if sz as usize > TELEMETRY_PACKET_SIZE - ID_BYTE_OFFSET {
            return Err(());
        }
        let id_idx: usize = TELEMETRY_PACKET_SIZE - ID_BYTE_OFFSET;
        buffer[id_idx] = id;
        Ok(())
    }
}

/// A fresh all-zero packet buffer.
fn zeroed_packet() -> (v: Vec<u8>)
    ensures
        v@.len() == TELEMETRY_PACKET_SIZE,
        forall|i: int| 0 <= i < TELEMETRY_PACKET_SIZE ==> v@[i] == 0u8,
{
    let mut v: Vec<u8> = Vec::new();
    let mut n: usize = 0;
    while n < TELEMETRY_PACKET_SIZE
        invariant
            v@.len() == n,
            n <= TELEMETRY_PACKET_SIZE,
            forall|i: int| 0 <= i < n ==> v@[i] == 0u8,
        decreases TELEMETRY_PACKET_SIZE - n,
    {
        v.push(0);
        n = n + 1;
    }
    v
}

} // verus!
