//! Adapter for the Realov family.
//!
//! A single-feature family whose speed byte travels between fixed frame
//! markers. Commands go through the command manager, so targets are
//! quantized round-half-up to the feature's resolution and redundant
//! commands are suppressed.

use vstd::prelude::*;
use crate::config::DeviceAttributes;
use crate::manager::{
    is_stop_commands, make_stop_commands, make_stop_vibrate_cmd, vib_all_unchanged,
    vib_cmd_valid, vib_new_cache, vib_validation_post, GenericCommandManager,
};
use crate::messages::{
    AbstractCommand, ButtplugError, DeviceWriteCmd, Endpoint, VibrateCmd, VibrateSubcommand,
};

verus! {

/// The wire image of one Realov vibration write: the first feature's
/// quantized step, truncated to a byte, between the family's frame markers.
pub open spec fn realov_vibrate_bytes(q: int) -> Seq<u8> {
    seq![197u8, 85u8, (q % 256) as u8, 170u8]
}

/// Protocol adapter for the Realov device family.
#[derive(Debug)]
pub struct Realov {
    pub name: String,
    pub manager: GenericCommandManager,
    pub stop_commands: Vec<AbstractCommand>,
}

/// Everything a Realov vibration command does: validation errors exactly as
/// the manager's rules give them, a no-op on a redundant command, and
/// otherwise one framed write carrying the first feature's new quantized
/// value, the cache advanced first.
pub open spec fn realov_vibrate_post(
    pre: Realov,
    post: Realov,
    subs: Seq<VibrateSubcommand>,
    r: Result<Vec<DeviceWriteCmd>, ButtplugError>,
) -> bool {
    let attrs = pre.manager.vibrate_attrs@;
    let n = attrs.len() as int;
    let cache = pre.manager.vibrate_cache@;
    &&& post.name@ == pre.name@
    &&& post.stop_commands@ == pre.stop_commands@
    &&& post.manager.vibrate_attrs@ == pre.manager.vibrate_attrs@
    &&& post.manager.rotate_attrs@ == pre.manager.rotate_attrs@
    &&& post.manager.rotate_speed_cache@ == pre.manager.rotate_speed_cache@
    &&& post.manager.rotate_direction_cache@ == pre.manager.rotate_direction_cache@
    &&& vib_validation_post(r, subs, n)
    &&& r is Err ==> post == pre
    &&& (vib_cmd_valid(subs, n) && vib_all_unchanged(subs, attrs, cache)) ==> ({
        &&& r matches Ok(w) && w@.len() == 0
        &&& post == pre
    })
    &&& (vib_cmd_valid(subs, n) && !vib_all_unchanged(subs, attrs, cache)) ==> ({
        &&& post.manager.vibrate_cache@ == vib_new_cache(subs, attrs)
        &&& r matches Ok(w) && w@.len() == 1
            && w@[0].endpoint == Endpoint::Tx
            && w@[0].write_with_response == false
            && w@[0].data@ == realov_vibrate_bytes(vib_new_cache(subs, attrs)[0] as int)
    })
}

/// Everything a Realov stop does: the vibration stop command replayed
/// through the normal path, so every cached value is driven to zero, with
/// zero writes if the device is already at rest; a device that also rotates
/// has no rotation-stop translation in this family.
pub open spec fn realov_stop_post(
    pre: Realov,
    post: Realov,
    r: Result<Vec<DeviceWriteCmd>, ButtplugError>,
) -> bool {
    let attrs = pre.manager.vibrate_attrs@;
    let n = attrs.len();
    let cache = pre.manager.vibrate_cache@;
    let at_rest = cache == Seq::new(n, |i: int| 0u32);
    &&& post.name@ == pre.name@
    &&& post.stop_commands@ == pre.stop_commands@
    &&& post.manager.vibrate_attrs@ == pre.manager.vibrate_attrs@
    &&& post.manager.rotate_attrs@ == pre.manager.rotate_attrs@
    &&& pre.manager.rotate_attrs@.len() > 0 ==> (post == pre
            && r == Err::<Vec<DeviceWriteCmd>, ButtplugError>(ButtplugError::UnsupportedCommand))
    &&& (pre.manager.rotate_attrs@.len() == 0 && n > 0)
            ==> post.manager.vibrate_cache@ == Seq::new(n, |i: int| 0u32)
    &&& n == 0 ==> post == pre
    &&& (pre.manager.rotate_attrs@.len() == 0 && (n == 0 || at_rest)) ==> ({
        &&& r matches Ok(w) && w@.len() == 0
        &&& post == pre
    })
    &&& (pre.manager.rotate_attrs@.len() == 0 && n > 0 && !at_rest) ==> ({
        r matches Ok(w) && w@.len() == 1
            && w@[0].endpoint == Endpoint::Tx
            && w@[0].write_with_response == false
            && w@[0].data@ == realov_vibrate_bytes(0)
    })
}

/// Everything [`Realov::handle`] does, by command kind.
pub open spec fn realov_handle_post(
    pre: Realov,
    post: Realov,
    cmd: AbstractCommand,
    r: Result<Vec<DeviceWriteCmd>, ButtplugError>,
) -> bool {
    &&& cmd matches AbstractCommand::Vibrate(m) ==> realov_vibrate_post(pre, post, m.speeds@, r)
    &&& cmd matches AbstractCommand::Stop(_) ==> realov_stop_post(pre, post, r)
    &&& cmd matches AbstractCommand::Rotate(_) ==> (post == pre
        && r == Err::<Vec<DeviceWriteCmd>, ButtplugError>(ButtplugError::UnsupportedCommand))
    &&& cmd matches AbstractCommand::LinearMove(_) ==> (post == pre
        && r == Err::<Vec<DeviceWriteCmd>, ButtplugError>(ButtplugError::UnsupportedCommand))
}

/// Idempotence at the wire: when one vibration command runs twice in a row
/// through [`Realov::handle_vibrate_cmd`] (each call meeting that
/// function's contract), the second call returns zero writes and leaves the
/// adapter untouched.
pub proof fn lemma_realov_vibrate_idempotent(
    pre: Realov,
    mid: Realov,
    post: Realov,
    subs: Seq<VibrateSubcommand>,
    r1: Result<Vec<DeviceWriteCmd>, ButtplugError>,
    r2: Result<Vec<DeviceWriteCmd>, ButtplugError>,
)
    requires
        pre.wf(),
        vib_cmd_valid(subs, pre.manager.vibrate_attrs@.len() as int),
        realov_vibrate_post(pre, mid, subs, r1),
        realov_vibrate_post(mid, post, subs, r2),
    ensures
        r2 matches Ok(w) && w@.len() == 0,
        post == mid,
{
    let attrs = pre.manager.vibrate_attrs@;
    if !vib_all_unchanged(subs, attrs, pre.manager.vibrate_cache@) {
        crate::manager::lemma_vibrate_idempotent(subs, attrs);
    }
}

/// Stop idempotence at the wire: a stop immediately after a successful stop
/// finds every cached value already at rest, returns zero writes, and
/// leaves the adapter untouched.
pub proof fn lemma_realov_stop_idempotent(
    pre: Realov,
    mid: Realov,
    post: Realov,
    r1: Result<Vec<DeviceWriteCmd>, ButtplugError>,
    r2: Result<Vec<DeviceWriteCmd>, ButtplugError>,
)
    requires
        realov_stop_post(pre, mid, r1),
        realov_stop_post(mid, post, r2),
        r1 is Ok,
    ensures
        r2 matches Ok(w) && w@.len() == 0,
        post == mid,
{
}

impl Realov {
    pub open spec fn wf(&self) -> bool {
        &&& self.manager.wf()
        &&& is_stop_commands(
            self.stop_commands@,
            self.manager.vibrate_attrs@.len(),
            self.manager.rotate_attrs@.len(),
        )
    }

    /// Construct an adapter with a fresh command manager: every feature at
    /// rest, the stop command set precomputed.
    pub fn new(name: &str, attributes: &DeviceAttributes) -> (r: Realov)
        requires
            attributes.wf(),
        ensures
            r.wf(),
            r.name@ == name@,
            r.manager.vibrate_attrs@ == attributes.vibrate@,
            r.manager.rotate_attrs@ == attributes.rotate@,
            r.manager.vibrate_cache@ == Seq::new(attributes.vibrate@.len(), |i: int| 0u32),
    {
        let manager = GenericCommandManager::new(attributes);
        let stop_commands = make_stop_commands(attributes.vibrate.len(), attributes.rotate.len());
        Realov { name: name.to_owned(), manager, stop_commands }
    }

    pub fn name(&self) -> (r: &String)
        ensures
            r@ == self.name@,
    {
        &self.name
    }

    /// The precomputed stop command set; pure.
    pub fn get_stop_commands(&self) -> (r: &Vec<AbstractCommand>)
        ensures
            r@ == self.stop_commands@,
    {
        &self.stop_commands
    }

    /// Translate a vibration command: nothing to transmit when no feature's
    /// quantized value changed, otherwise one framed write carrying the
    /// first feature's new value on the family's scale.
    pub fn handle_vibrate_cmd(&mut self, msg: &VibrateCmd)
        -> (r: Result<Vec<DeviceWriteCmd>, ButtplugError>)
        requires
            old(self).wf(),
        ensures
            final(self).wf(),
            realov_vibrate_post(*old(self), *final(self), msg.speeds@, r),
    {
        let result = match self.manager.update_vibration(msg, true) {
            Ok(x) => x,
            Err(e) => {
                return Err(e);
            },
        };
        let mut writes: Vec<DeviceWriteCmd> = Vec::new();
        match result {
            None => Ok(writes),
            Some(cmds) => {
                let q = match cmds[0] {
                    Some(s) => s,
                    None => {
                        proof {
                            assert(false);
                        }
                        0
                    },
                };
                let mut data: Vec<u8> = Vec::new();
                data.push(0xc5);
                data.push(0x55);
                data.push((q % 256) as u8);
                data.push(0xaa);
                proof {
                    assert(data@ =~= realov_vibrate_bytes(
                        vib_new_cache(msg.speeds@, old(self).manager.vibrate_attrs@)[0] as int,
                    ));
                }
                writes.push(DeviceWriteCmd {
                    endpoint: Endpoint::Tx,
                    data,
                    write_with_response: false,
                });
                Ok(writes)
            },
        }
    }

    /// Replay the precomputed stop command set through the normal vibration
    /// path, so stopping enjoys the same redundancy elimination.
    pub fn handle_stop_device_cmd(&mut self) -> (r: Result<Vec<DeviceWriteCmd>, ButtplugError>)
        requires
            old(self).wf(),
        ensures
            final(self).wf(),
            realov_stop_post(*old(self), *final(self), r),
    {
        if self.manager.rotate_attrs.len() > 0 {
            // The stop set holds a rotation stop command this family cannot
            // translate: reject before touching any state.
            return Err(ButtplugError::UnsupportedCommand);
        }
        let n = self.manager.vibrate_attrs.len();
        let mut writes: Vec<DeviceWriteCmd> = Vec::new();
        if n > 0 {
            let stop = make_stop_vibrate_cmd(n);
            proof {
                crate::manager::lemma_stop_vibrate_drives_to_rest(
                    old(self).manager.vibrate_attrs@,
                    old(self).manager.vibrate_cache@,
                );
            }
            let mut w = match self.handle_vibrate_cmd(&stop) {
                Ok(w) => w,
                Err(e) => {
                    return Err(e);
                },
            };
            writes.append(&mut w);
        }
        Ok(writes)
    }

    /// Dispatch an abstract command by kind; rotation and linear motion have
    /// no translation in this family and are rejected before any transport
    /// interaction.
    pub fn handle(&mut self, cmd: &AbstractCommand) -> (r: Result<Vec<DeviceWriteCmd>, ButtplugError>)
        requires
            old(self).wf(),
        ensures
            final(self).wf(),
            realov_handle_post(*old(self), *final(self), *cmd, r),
    {
        match cmd {
            AbstractCommand::Vibrate(msg) => self.handle_vibrate_cmd(msg),
            AbstractCommand::Stop(_) => self.handle_stop_device_cmd(),
            AbstractCommand::Rotate(_) => Err(ButtplugError::UnsupportedCommand),
            AbstractCommand::LinearMove(_) => Err(ButtplugError::UnsupportedCommand),
        }
    }
}

} // verus!
