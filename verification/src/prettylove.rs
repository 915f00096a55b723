//! Adapter for the PrettyLove family.
//!
//! A single-feature family on a coarse scale with a quirk: rest is encoded
//! as `0xff`, not zero. Commands go through the command manager, so targets
//! are quantized round-half-up to the feature's resolution and redundant
//! commands are suppressed; the quirk is applied to the quantized value when
//! a write is owed.

use vstd::prelude::*;
use crate::config::DeviceAttributes;
use crate::manager::{
    is_stop_commands, make_stop_commands, make_stop_vibrate_cmd, vib_all_unchanged,
    vib_cmd_valid, vib_new_cache, vib_validation_post, GenericCommandManager,
};
use crate::messages::{
    AbstractCommand, ButtplugError, DeviceWriteCmd, Endpoint, VibrateCmd, VibrateSubcommand,
};

verus! {

/// The wire byte for a quantized step: the step itself, truncated to a
/// byte, except that rest is the family's `0xff` stop byte.
pub open spec fn prettylove_speed_byte(q: int) -> u8 {
    if q == 0 {
        255u8
    } else {
        (q % 256) as u8
    }
}

/// The wire image of one PrettyLove vibration write, from the first
/// feature's quantized step.
pub open spec fn prettylove_vibrate_bytes(q: int) -> Seq<u8> {
    seq![0u8, prettylove_speed_byte(q)]
}

/// Protocol adapter for the PrettyLove device family.
#[derive(Debug)]
pub struct PrettyLove {
    pub name: String,
    pub manager: GenericCommandManager,
    pub stop_commands: Vec<AbstractCommand>,
}

/// Everything a PrettyLove vibration command does: validation errors exactly
/// as the manager's rules give them, a no-op on a redundant command, and
/// otherwise one write carrying the first feature's new quantized value,
/// the cache advanced first.
pub open spec fn prettylove_vibrate_post(
    pre: PrettyLove,
    post: PrettyLove,
    subs: Seq<VibrateSubcommand>,
    r: Result<Vec<DeviceWriteCmd>, ButtplugError>,
) -> bool {
    let attrs = pre.manager.vibrate_attrs@;
    let n = attrs.len() as int;
    let cache = pre.manager.vibrate_cache@;
    &&& post.name@ == pre.name@
    &&& post.stop_commands@ == pre.stop_commands@
    &&& post.manager.vibrate_attrs@ == pre.manager.vibrate_attrs@
    &&& post.manager.rotate_attrs@ == pre.manager.rotate_attrs@
    &&& post.manager.rotate_speed_cache@ == pre.manager.rotate_speed_cache@
    &&& post.manager.rotate_direction_cache@ == pre.manager.rotate_direction_cache@
    &&& vib_validation_post(r, subs, n)
    &&& r is Err ==> post == pre
    &&& (vib_cmd_valid(subs, n) && vib_all_unchanged(subs, attrs, cache)) ==> ({
        &&& r matches Ok(w) && w@.len() == 0
        &&& post == pre
    })
    &&& (vib_cmd_valid(subs, n) && !vib_all_unchanged(subs, attrs, cache)) ==> ({
        &&& post.manager.vibrate_cache@ == vib_new_cache(subs, attrs)
        &&& r matches Ok(w) && w@.len() == 1
            && w@[0].endpoint == Endpoint::Tx
            && w@[0].write_with_response == false
            && w@[0].data@ == prettylove_vibrate_bytes(vib_new_cache(subs, attrs)[0] as int)
    })
}

/// Everything a PrettyLove stop does: the vibration stop command replayed
/// through the normal path, so every cached value is driven to zero, with
/// zero writes if the device is already at rest; a device that also rotates
/// has no rotation-stop translation in this family.
pub open spec fn prettylove_stop_post(
    pre: PrettyLove,
    post: PrettyLove,
    r: Result<Vec<DeviceWriteCmd>, ButtplugError>,
) -> bool {
    let attrs = pre.manager.vibrate_attrs@;
    let n = attrs.len();
    let cache = pre.manager.vibrate_cache@;
    let at_rest = cache == Seq::new(n, |i: int| 0u32);
    &&& post.name@ == pre.name@
    &&& post.stop_commands@ == pre.stop_commands@
    &&& post.manager.vibrate_attrs@ == pre.manager.vibrate_attrs@
    &&& post.manager.rotate_attrs@ == pre.manager.rotate_attrs@
    &&& pre.manager.rotate_attrs@.len() > 0 ==> (post == pre
            && r == Err::<Vec<DeviceWriteCmd>, ButtplugError>(ButtplugError::UnsupportedCommand))
    &&& (pre.manager.rotate_attrs@.len() == 0 && n > 0)
            ==> post.manager.vibrate_cache@ == Seq::new(n, |i: int| 0u32)
    &&& n == 0 ==> post == pre
    &&& (pre.manager.rotate_attrs@.len() == 0 && (n == 0 || at_rest)) ==> ({
        &&& r matches Ok(w) && w@.len() == 0
        &&& post == pre
    })
    &&& (pre.manager.rotate_attrs@.len() == 0 && n > 0 && !at_rest) ==> ({
        r matches Ok(w) && w@.len() == 1
            && w@[0].endpoint == Endpoint::Tx
            && w@[0].write_with_response == false
            && w@[0].data@ == prettylove_vibrate_bytes(0)
    })
}

/// Everything [`PrettyLove::handle`] does, by command kind.
pub open spec fn prettylove_handle_post(
    pre: PrettyLove,
    post: PrettyLove,
    cmd: AbstractCommand,
    r: Result<Vec<DeviceWriteCmd>, ButtplugError>,
) -> bool {
    &&& cmd matches AbstractCommand::Vibrate(m) ==> prettylove_vibrate_post(pre, post, m.speeds@, r)
    &&& cmd matches AbstractCommand::Stop(_) ==> prettylove_stop_post(pre, post, r)
    &&& cmd matches AbstractCommand::Rotate(_) ==> (post == pre
        && r == Err::<Vec<DeviceWriteCmd>, ButtplugError>(ButtplugError::UnsupportedCommand))
    &&& cmd matches AbstractCommand::LinearMove(_) ==> (post == pre
        && r == Err::<Vec<DeviceWriteCmd>, ButtplugError>(ButtplugError::UnsupportedCommand))
}

/// Idempotence at the wire: when one vibration command runs twice in a row
/// through [`PrettyLove::handle_vibrate_cmd`] (each call meeting that
/// function's contract), the second call returns zero writes and leaves the
/// adapter untouched.
pub proof fn lemma_prettylove_vibrate_idempotent(
    pre: PrettyLove,
    mid: PrettyLove,
    post: PrettyLove,
    subs: Seq<VibrateSubcommand>,
    r1: Result<Vec<DeviceWriteCmd>, ButtplugError>,
    r2: Result<Vec<DeviceWriteCmd>, ButtplugError>,
)
    requires
        pre.wf(),
        vib_cmd_valid(subs, pre.manager.vibrate_attrs@.len() as int),
        prettylove_vibrate_post(pre, mid, subs, r1),
        prettylove_vibrate_post(mid, post, subs, r2),
    ensures
        r2 matches Ok(w) && w@.len() == 0,
        post == mid,
{
    let attrs = pre.manager.vibrate_attrs@;
    if !vib_all_unchanged(subs, attrs, pre.manager.vibrate_cache@) {
        crate::manager::lemma_vibrate_idempotent(subs, attrs);
    }
}

/// Stop idempotence at the wire: a stop immediately after a successful stop
/// finds every cached value already at rest, returns zero writes, and
/// leaves the adapter untouched.
pub proof fn lemma_prettylove_stop_idempotent(
    pre: PrettyLove,
    mid: PrettyLove,
    post: PrettyLove,
    r1: Result<Vec<DeviceWriteCmd>, ButtplugError>,
    r2: Result<Vec<DeviceWriteCmd>, ButtplugError>,
)
    requires
        prettylove_stop_post(pre, mid, r1),
        prettylove_stop_post(mid, post, r2),
        r1 is Ok,
    ensures
        r2 matches Ok(w) && w@.len() == 0,
        post == mid,
{
}

impl PrettyLove {
    pub open spec fn wf(&self) -> bool {
        &&& self.manager.wf()
        &&& is_stop_commands(
            self.stop_commands@,
            self.manager.vibrate_attrs@.len(),
            self.manager.rotate_attrs@.len(),
        )
    }

    /// Construct an adapter with a fresh command manager: every feature at
    /// rest, the stop command set precomputed.
    pub fn new(name: &str, attributes: &DeviceAttributes) -> (r: PrettyLove)
        requires
            attributes.wf(),
        ensures
            r.wf(),
            r.name@ == name@,
            r.manager.vibrate_attrs@ == attributes.vibrate@,
            r.manager.rotate_attrs@ == attributes.rotate@,
            r.manager.vibrate_cache@ == Seq::new(attributes.vibrate@.len(), |i: int| 0u32),
    {
        let manager = GenericCommandManager::new(attributes);
        let stop_commands = make_stop_commands(attributes.vibrate.len(), attributes.rotate.len());
        PrettyLove { name: name.to_owned(), manager, stop_commands }
    }

    pub fn name(&self) -> (r: &String)
        ensures
            r@ == self.name@,
    {
        &self.name
    }

    /// The precomputed stop command set; pure.
    pub fn get_stop_commands(&self) -> (r: &Vec<AbstractCommand>)
        ensures
            r@ == self.stop_commands@,
    {
        &self.stop_commands
    }

    /// Translate a vibration command: nothing to transmit when no feature's
    /// quantized value changed, otherwise one write carrying the first
    /// feature's new value on the family's scale.
    pub fn handle_vibrate_cmd(&mut self, msg: &VibrateCmd)
        -> (r: Result<Vec<DeviceWriteCmd>, ButtplugError>)
        requires
            old(self).wf(),
        ensures
            final(self).wf(),
            prettylove_vibrate_post(*old(self), *final(self), msg.speeds@, r),
    {
        let result = match self.manager.update_vibration(msg, true) {
            Ok(x) => x,
            Err(e) => {
                return Err(e);
            },
        };
        let mut writes: Vec<DeviceWriteCmd> = Vec::new();
        match result {
            None => Ok(writes),
            Some(cmds) => {
                let q = match cmds[0] {
                    Some(s) => s,
                    None => {
                        proof {
                            assert(false);
                        }
                        0
                    },
                };
                let speed: u8 = if q == 0 {
                    0xff
                } else {
                    (q % 256) as u8
                };
                let mut data: Vec<u8> = Vec::new();
                data.push(0);
                data.push(speed);
                proof {
                    assert(data@ =~= prettylove_vibrate_bytes(
                        vib_new_cache(msg.speeds@, old(self).manager.vibrate_attrs@)[0] as int,
                    ));
                }
                writes.push(DeviceWriteCmd {
                    endpoint: Endpoint::Tx,
                    data,
                    write_with_response: false,
                });
                Ok(writes)
            },
        }
    }

    /// Replay the precomputed stop command set through the normal vibration
    /// path, so stopping enjoys the same redundancy elimination; the rest
    /// write carries the family's `0xff` stop byte.
    pub fn handle_stop_device_cmd(&mut self) -> (r: Result<Vec<DeviceWriteCmd>, ButtplugError>)
        requires
            old(self).wf(),
        ensures
            final(self).wf(),
            prettylove_stop_post(*old(self), *final(self), r),
    {
        if self.manager.rotate_attrs.len() > 0 {
            // The stop set holds a rotation stop command this family cannot
            // translate: reject before touching any state.
            return Err(ButtplugError::UnsupportedCommand);
        }
        let n = self.manager.vibrate_attrs.len();
        let mut writes: Vec<DeviceWriteCmd> = Vec::new();
        if n > 0 {
            let stop = make_stop_vibrate_cmd(n);
            proof {
                crate::manager::lemma_stop_vibrate_drives_to_rest(
                    old(self).manager.vibrate_attrs@,
                    old(self).manager.vibrate_cache@,
                );
            }
            let mut w = match self.handle_vibrate_cmd(&stop) {
                Ok(w) => w,
                Err(e) => {
                    return Err(e);
                },
            };
            writes.append(&mut w);
        }
        Ok(writes)
    }

    /// Dispatch an abstract command by kind; rotation and linear motion have
    /// no translation in this family and are rejected before any transport
    /// interaction.
    pub fn handle(&mut self, cmd: &AbstractCommand) -> (r: Result<Vec<DeviceWriteCmd>, ButtplugError>)
        requires
            old(self).wf(),
        ensures
            final(self).wf(),
            prettylove_handle_post(*old(self), *final(self), *cmd, r),
    {
        match cmd {
            AbstractCommand::Vibrate(msg) => self.handle_vibrate_cmd(msg),
            AbstractCommand::Stop(_) => self.handle_stop_device_cmd(),
            AbstractCommand::Rotate(_) => Err(ButtplugError::UnsupportedCommand),
            AbstractCommand::LinearMove(_) => Err(ButtplugError::UnsupportedCommand),
        }
    }
}

} // verus!
