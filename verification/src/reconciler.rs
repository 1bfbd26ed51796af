//! The state reconciler: the authoritative in-memory lamp/sensor state and
//! every rule that decides a transition.
//!
//! Lamp-moving operations run in two phases so that the lamp flag always
//! mirrors the last successfully applied output-port level. `set_lamp` and
//! `sensor_tick` only decide: they leave the state alone and return the
//! [`Effects`] to carry out. The application drives the output port to the
//! decided level first; on success it commits the flag with
//! [`LampControl::confirm_port`] and then executes the store write and the
//! notification, in that order. On a port-write failure it abandons the
//! operation: the flag, the store and the sink are untouched. `set_sensor`
//! involves no port write and moves the mode flag directly.

use vstd::prelude::*;

use crate::model::AttributePayload;
use crate::store::{raw_view, spec_decode_flag, NvsKey};

verus! {

/// A command delivered by the external command source.
#[derive(Clone, Copy, Debug, PartialEq, Eq, Structural)]
pub enum Command {
    SetLamp(bool),
    SetSensorMode(bool),
}

/// A command-level rejection; no state changes when it is returned.
#[derive(Clone, Copy, Debug, PartialEq, Eq, Structural)]
pub enum CommandError {
    /// Manual lamp control is suppressed while automatic mode is active.
    BlockedByAutomaticMode,
}

/// One store write: the key and the flag value to persist under it.
#[derive(Clone, Copy, Debug, PartialEq, Eq, Structural)]
pub struct StoreWrite {
    pub key: NvsKey,
    pub value: bool,
}

/// The I/O an operation decided on. The application executes the fields in
/// declaration order: the port write (committing the lamp flag with
/// [`LampControl::confirm_port`] when it succeeds, abandoning the operation
/// when it fails), then the store write, then the notification. `None`
/// everywhere means the operation was a no-op.
#[derive(Clone, Copy, Debug, PartialEq, Eq)]
pub struct Effects {
    /// Level to drive the output port to.
    pub port_write: Option<bool>,
    /// Flag to persist.
    pub store_write: Option<StoreWrite>,
    /// Snapshot to publish to the remote supervisor.
    pub notification: Option<AttributePayload>,
}

impl Effects {
    /// Effects of an operation that decided to do nothing.
    pub open spec fn none() -> Effects {
        Effects { port_write: Option::None, store_write: Option::None, notification: Option::None }
    }
}

/// The state transition a command causes: a rejected `SetLamp` leaves the
/// state alone, an accepted one moves the lamp, and `SetSensorMode` moves the
/// mode and never the lamp. Result is `(lamp, sensor)` after the command.
pub open spec fn step(lamp: bool, sensor: bool, c: Command) -> (bool, bool) {
    match c {
        Command::SetLamp(v) => if sensor {
            (lamp, sensor)
        } else {
            (v, sensor)
        },
        Command::SetSensorMode(v) => (lamp, v),
    }
}

/// The state after a whole command sequence, first command first.
pub open spec fn run(lamp: bool, sensor: bool, cmds: Seq<Command>) -> (bool, bool)
    decreases cmds.len(),
{
    if cmds.len() == 0 {
        (lamp, sensor)
    } else {
        let next = step(lamp, sensor, cmds[0]);
        run(next.0, next.1, cmds.drop_first())
    }
}

/// The value of the last `SetLamp` of the sequence that is accepted, that is,
/// arrives while sensor mode is off; `None` when no `SetLamp` is accepted.
pub open spec fn last_accepted(lamp: bool, sensor: bool, cmds: Seq<Command>) -> Option<bool>
    decreases cmds.len(),
{
    if cmds.len() == 0 {
        Option::None
    } else {
        let here = match cmds[0] {
            Command::SetLamp(v) => if sensor {
                Option::None
            } else {
                Option::Some(v)
            },
            Command::SetSensorMode(_) => Option::None,
        };
        let next = step(lamp, sensor, cmds[0]);
        match last_accepted(next.0, next.1, cmds.drop_first()) {
            Option::Some(v) => Option::Some(v),
            Option::None => here,
        }
    }
}

/// What `SetLamp` returns: rejected outright in automatic mode, otherwise
/// one port write, one store write and one notification.
pub open spec fn spec_set_lamp(lamp: bool, sensor: bool, v: bool) -> Result<Effects, CommandError> {
    if sensor {
        Result::Err(CommandError::BlockedByAutomaticMode)
    } else {
        Result::Ok(
            (Effects {
                port_write: Option::Some(v),
                store_write: Option::Some((StoreWrite { key: NvsKey::LampState, value: v })),
                notification: Option::Some(
                    (AttributePayload { lamp_state: v, sensor_state: sensor }),
                ),
            }),
        )
    }
}

/// What `SetSensorMode` returns: unconditionally one store write and one
/// notification, never a port write.
pub open spec fn spec_set_sensor(lamp: bool, v: bool) -> Effects {
    Effects {
        port_write: Option::None,
        store_write: Option::Some((StoreWrite { key: NvsKey::SensorState, value: v })),
        notification: Option::Some((AttributePayload { lamp_state: lamp, sensor_state: v })),
    }
}

/// What a monitor-loop tick returns: nothing in manual mode, nothing when the
/// sensed level already matches the lamp, otherwise one port write, one store
/// write and one notification carrying the new level.
pub open spec fn spec_sensor_tick(lamp: bool, sensor: bool, level: bool) -> Effects {
    if sensor && level != lamp {
        Effects {
            port_write: Option::Some(level),
            store_write: Option::Some((StoreWrite { key: NvsKey::LampState, value: level })),
            notification: Option::Some(
                (AttributePayload { lamp_state: level, sensor_state: true }),
            ),
        }
    } else {
        Effects::none()
    }
}

/// The state the monitor tick leaves: in automatic mode the lamp follows the
/// sensed level, otherwise nothing moves.
pub open spec fn tick_state(lamp: bool, sensor: bool, level: bool) -> bool {
    if sensor {
        level
    } else {
        lamp
    }
}

/// The reconciler: owns the authoritative lamp and sensor-mode flags.
pub struct LampControl {
    lamp_state: bool,
    sensor_state: bool,
}

impl LampControl {
    /// The lamp flag; mirrors the level last decided for the output port.
    pub closed spec fn lamp(self) -> bool {
        self.lamp_state
    }

    /// The mode flag; `true` while automatic (sensor-driven) control is on.
    pub closed spec fn sensor(self) -> bool {
        self.sensor_state
    }

    /// Construct the reconciler from the two raw persisted records, absent
    /// records defaulting to `false`. The application must drive the output
    /// port to `lamp()` before serving commands, and abort on failure: a
    /// port write failure at construction is fatal.
    pub fn new(lamp_raw: Option<&[u8]>, sensor_raw: Option<&[u8]>) -> (r: LampControl)
        ensures
            r.lamp() == spec_decode_flag(raw_view(lamp_raw)),
            r.sensor() == spec_decode_flag(raw_view(sensor_raw)),
    {
        LampControl {
            lamp_state: crate::store::decode_flag(lamp_raw),
            sensor_state: crate::store::decode_flag(sensor_raw),
        }
    }

    /// Current lamp flag, for the application to drive or report.
    pub fn lamp_state(&self) -> (r: bool)
        ensures
            r == self.lamp(),
    {
        self.lamp_state
    }

    /// Current mode flag; the monitor loop reads the input port only when it
    /// is `true`.
    pub fn sensor_mode(&self) -> (r: bool)
        ensures
            r == self.sensor(),
    {
        self.sensor_state
    }

    /// Manual lamp command. Rejected as a no-op while automatic mode is on;
    /// otherwise the decided effects carry the port write, the persisted
    /// flag and the notification snapshot. The state does not move here:
    /// the lamp flag follows only a confirmed port write, so on a port
    /// failure the flag still mirrors the last successfully applied level.
    pub fn set_lamp(&self, state: bool) -> (r: Result<Effects, CommandError>)
        ensures
            r == spec_set_lamp(self.lamp(), self.sensor(), state),
    {
        if self.sensor_state {
            return Result::Err(CommandError::BlockedByAutomaticMode);
        }
        Result::Ok(
            Effects {
                port_write: Option::Some(state),
                store_write: Option::Some(StoreWrite { key: NvsKey::LampState, value: state }),
                notification: Option::Some(
                    AttributePayload { lamp_state: state, sensor_state: self.sensor_state },
                ),
            },
        )
    }

    /// Commit a successful output-port write: the lamp flag moves to the
    /// level the port was driven to, and to nothing else. The application
    /// calls this exactly when the port write of a decided operation
    /// succeeded; it is the only way the lamp flag moves after
    /// construction, which keeps the flag equal to the last successfully
    /// applied port level.
    pub fn confirm_port(&mut self, level: bool)
        ensures
            final(self).lamp() == level,
            final(self).sensor() == old(self).sensor(),
    {
        self.lamp_state = level;
    }

    /// Mode command: moves the mode flag unconditionally and never the lamp.
    /// Leaving automatic mode keeps the lamp where the sensor last left it;
    /// entering it defers to the next monitor tick.
    pub fn set_sensor(&mut self, state: bool) -> (r: Effects)
        ensures
            r == spec_set_sensor(old(self).lamp(), state),
            (final(self).lamp(), final(self).sensor()) == step(
                old(self).lamp(),
                old(self).sensor(),
                Command::SetSensorMode(state),
            ),
    {
        self.sensor_state = state;
        Effects {
            port_write: Option::None,
            store_write: Option::Some(StoreWrite { key: NvsKey::SensorState, value: state }),
            notification: Option::Some(
                AttributePayload { lamp_state: self.lamp_state, sensor_state: state },
            ),
        }
    }

    /// One monitor-loop tick, fed the level read from the input port. In
    /// manual mode, or when the level already matches the lamp, nothing is
    /// decided; otherwise the decided effects drive the lamp after the
    /// sensor. As with `set_lamp`, the state does not move here: the lamp
    /// flag follows only the confirmed port write.
    pub fn sensor_tick(&self, level: bool) -> (r: Effects)
        ensures
            r == spec_sensor_tick(self.lamp(), self.sensor(), level),
    {
        if !self.sensor_state {
            return Effects {
                port_write: Option::None,
                store_write: Option::None,
                notification: Option::None,
            };
        }
        if self.lamp_state == level {
            return Effects {
                port_write: Option::None,
                store_write: Option::None,
                notification: Option::None,
            };
        }
        Effects {
            port_write: Option::Some(level),
            store_write: Option::Some(StoreWrite { key: NvsKey::LampState, value: level }),
            notification: Option::Some(
                AttributePayload { lamp_state: level, sensor_state: true },
            ),
        }
    }
}

/// With no concurrent sensor activity, the lamp flag after any command
/// sequence is the value of the last accepted `SetLamp` - accepted meaning
/// sensor mode was off when it arrived - and the initial lamp flag when no
/// `SetLamp` was accepted.
pub proof fn lemma_last_accepted_wins(lamp: bool, sensor: bool, cmds: Seq<Command>)
    ensures
        run(lamp, sensor, cmds).0 == match last_accepted(lamp, sensor, cmds) {
            Option::Some(v) => v,
            Option::None => lamp,
        },
    decreases cmds.len(),
{
    if cmds.len() > 0 {
        let next = step(lamp, sensor, cmds[0]);
        lemma_last_accepted_wins(next.0, next.1, cmds.drop_first());
    }
}

/// Repeating `SetLamp(x)` in manual mode is accepted both times and produces
/// one port write, one store write and one notification each time: writes
/// are not deduplicated, and no error arises.
pub proof fn lemma_set_lamp_idempotent(lamp: bool, x: bool)
    ensures
        spec_set_lamp(lamp, false, x) == spec_set_lamp(x, false, x),
        spec_set_lamp(lamp, false, x) matches Result::Ok(e) && e.port_write == Option::Some(x)
            && e.store_write == Option::Some((StoreWrite { key: NvsKey::LampState, value: x }))
            && e.notification == Option::Some(
            (AttributePayload { lamp_state: x, sensor_state: false }),
        ),
        step(step(lamp, false, Command::SetLamp(x)).0, false, Command::SetLamp(x)) == (x, false),
{
}

/// A `SetLamp` in automatic mode is rejected with `BlockedByAutomaticMode`
/// and has no effect at all: no state change, no port write, no store write,
/// no notification.
pub proof fn lemma_blocked_set_lamp_changes_nothing(lamp: bool, x: bool)
    ensures
        spec_set_lamp(lamp, true, x) == Result::<Effects, CommandError>::Err(
            CommandError::BlockedByAutomaticMode,
        ),
        step(lamp, true, Command::SetLamp(x)) == (lamp, true),
{
}

/// The lamp flag moves only with a port write. An accepted `SetLamp`
/// decides a port write carrying exactly the lamp flag of the command's
/// transition, so confirming it realizes `step`; a rejected one finds
/// `step` standing still. A tick's decided port write carries exactly
/// `tick_state`, and where the tick decides no port write the tick state
/// already equals the current lamp flag, so no commit is owed.
pub proof fn lemma_lamp_moves_only_with_port_write(
    lamp: bool,
    sensor: bool,
    x: bool,
    level: bool,
)
    ensures
        spec_set_lamp(lamp, sensor, x) matches Result::Ok(e) ==> e.port_write == Option::Some(
            step(lamp, sensor, Command::SetLamp(x)).0,
        ),
        spec_set_lamp(lamp, sensor, x) is Err ==> step(lamp, sensor, Command::SetLamp(x)) == (
            lamp,
            sensor,
        ),
        spec_sensor_tick(lamp, sensor, level).port_write matches Option::Some(l) ==> l
            == tick_state(lamp, sensor, level),
        spec_sensor_tick(lamp, sensor, level).port_write is None ==> tick_state(
            lamp,
            sensor,
            level,
        ) == lamp,
{
}

} // verus!
