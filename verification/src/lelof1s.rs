//! Adapter for the Lelo F1s family.
//!
//! The family takes one aggregate write per command: a leading command byte
//! followed by one intensity byte per vibration feature, so the manager is
//! asked to fill every slot (`match_all`) whenever anything changed.

use vstd::prelude::*;
use crate::config::{features_wf, DeviceAttributes, FeatureAttributes};
use crate::manager::{
    is_stop_commands, make_stop_commands, make_stop_vibrate_cmd, vib_all_unchanged,
    vib_cmd_valid, vib_new_cache, vib_quantized, vib_target, vib_validation_post,
    GenericCommandManager,
};
use crate::messages::{
    AbstractCommand, ButtplugError, DeviceWriteCmd, Endpoint, VibrateCmd, VibrateSubcommand,
};

verus! {

/// The wire image of one Lelo F1s vibration write: the command byte, then
/// the new quantized value of every feature, truncated to a byte.
pub open spec fn lelo_vibrate_bytes(newcache: Seq<u32>) -> Seq<u8> {
    seq![1u8] + Seq::new(newcache.len(), |i: int| (newcache[i] % 256) as u8)
}

/// Protocol adapter for the Lelo F1s device family.
#[derive(Debug)]
pub struct LeloF1s {
    pub name: String,
    pub manager: GenericCommandManager,
    pub stop_commands: Vec<AbstractCommand>,
}

/// Everything a Lelo F1s vibration command does: validation errors exactly
/// as the manager's rules give them, a no-op on a redundant command, and
/// otherwise one aggregate write carrying every feature's new value, the
/// cache advanced first.
pub open spec fn lelo_vibrate_post(
    pre: LeloF1s,
    post: LeloF1s,
    subs: Seq<VibrateSubcommand>,
    r: Result<Vec<DeviceWriteCmd>, ButtplugError>,
) -> bool {
    let attrs = pre.manager.vibrate_attrs@;
    let n = attrs.len() as int;
    let cache = pre.manager.vibrate_cache@;
    &&& post.name@ == pre.name@
    &&& post.stop_commands@ == pre.stop_commands@
    &&& post.manager.vibrate_attrs@ == pre.manager.vibrate_attrs@
    &&& post.manager.rotate_attrs@ == pre.manager.rotate_attrs@
    &&& post.manager.rotate_speed_cache@ == pre.manager.rotate_speed_cache@
    &&& post.manager.rotate_direction_cache@ == pre.manager.rotate_direction_cache@
    &&& vib_validation_post(r, subs, n)
    &&& r is Err ==> post == pre
    &&& (vib_cmd_valid(subs, n) && vib_all_unchanged(subs, attrs, cache)) ==> ({
        &&& r matches Ok(w) && w@.len() == 0
        &&& post == pre
    })
    &&& (vib_cmd_valid(subs, n) && !vib_all_unchanged(subs, attrs, cache)) ==> ({
        &&& post.manager.vibrate_cache@ == vib_new_cache(subs, attrs)
        &&& r matches Ok(w) && w@.len() == 1
            && w@[0].endpoint == Endpoint::Tx
            && w@[0].write_with_response == false
            && w@[0].data@ == lelo_vibrate_bytes(vib_new_cache(subs, attrs))
    })
}

/// Everything a Lelo F1s stop does: the vibration stop command replayed
/// through the normal path, so every cached value is driven to zero, with
/// zero writes if the device is already at rest; a device that also rotates
/// has no rotation-stop translation in this family.
pub open spec fn lelo_stop_post(
    pre: LeloF1s,
    post: LeloF1s,
    r: Result<Vec<DeviceWriteCmd>, ButtplugError>,
) -> bool {
    let attrs = pre.manager.vibrate_attrs@;
    let n = attrs.len();
    let cache = pre.manager.vibrate_cache@;
    let at_rest = cache == Seq::new(n, |i: int| 0u32);
    &&& post.name@ == pre.name@
    &&& post.stop_commands@ == pre.stop_commands@
    &&& post.manager.vibrate_attrs@ == pre.manager.vibrate_attrs@
    &&& post.manager.rotate_attrs@ == pre.manager.rotate_attrs@
    &&& pre.manager.rotate_attrs@.len() > 0 ==> (post == pre
            && r == Err::<Vec<DeviceWriteCmd>, ButtplugError>(ButtplugError::UnsupportedCommand))
    &&& (pre.manager.rotate_attrs@.len() == 0 && n > 0)
            ==> post.manager.vibrate_cache@ == Seq::new(n, |i: int| 0u32)
    &&& n == 0 ==> post == pre
    &&& (pre.manager.rotate_attrs@.len() == 0 && (n == 0 || at_rest)) ==> ({
        &&& r matches Ok(w) && w@.len() == 0
        &&& post == pre
    })
    &&& (pre.manager.rotate_attrs@.len() == 0 && n > 0 && !at_rest) ==> ({
        r matches Ok(w) && w@.len() == 1
            && w@[0].endpoint == Endpoint::Tx
            && w@[0].write_with_response == false
            && w@[0].data@ == lelo_vibrate_bytes(Seq::new(n, |i: int| 0u32))
    })
}

/// Everything [`LeloF1s::handle`] does, by command kind.
pub open spec fn lelo_handle_post(
    pre: LeloF1s,
    post: LeloF1s,
    cmd: AbstractCommand,
    r: Result<Vec<DeviceWriteCmd>, ButtplugError>,
) -> bool {
    &&& cmd matches AbstractCommand::Vibrate(m) ==> lelo_vibrate_post(pre, post, m.speeds@, r)
    &&& cmd matches AbstractCommand::Stop(_) ==> lelo_stop_post(pre, post, r)
    &&& cmd matches AbstractCommand::Rotate(_) ==> (post == pre
        && r == Err::<Vec<DeviceWriteCmd>, ButtplugError>(ButtplugError::UnsupportedCommand))
    &&& cmd matches AbstractCommand::LinearMove(_) ==> (post == pre
        && r == Err::<Vec<DeviceWriteCmd>, ButtplugError>(ButtplugError::UnsupportedCommand))
}

/// Quantization at the wire: on a feature whose resolution fits one byte,
/// the aggregate write's byte at position `i + 1` is exactly the feature's
/// round-half-up quantized target — on a 20-step feature, a half-intensity
/// target gives 10 and a tenth-intensity target gives 2.
pub proof fn lemma_lelo_byte_exact(
    subs: Seq<VibrateSubcommand>,
    attrs: Seq<FeatureAttributes>,
    i: int,
)
    requires
        features_wf(attrs),
        vib_cmd_valid(subs, attrs.len() as int),
        0 <= i < attrs.len(),
        attrs[i].step_count <= 255,
    ensures
        lelo_vibrate_bytes(vib_new_cache(subs, attrs))[1 + i] as int
            == vib_quantized(subs, attrs, i),
{
    crate::quantize::lemma_quantize_bounds(
        vib_target(subs, i) as int,
        attrs[i].step_count as int,
    );
}

/// Idempotence at the wire: when one vibration command runs twice in a row
/// through [`LeloF1s::handle_vibrate_cmd`] (each call meeting that
/// function's contract), the second call returns zero writes and leaves the
/// adapter untouched.
pub proof fn lemma_lelo_vibrate_idempotent(
    pre: LeloF1s,
    mid: LeloF1s,
    post: LeloF1s,
    subs: Seq<VibrateSubcommand>,
    r1: Result<Vec<DeviceWriteCmd>, ButtplugError>,
    r2: Result<Vec<DeviceWriteCmd>, ButtplugError>,
)
    requires
        pre.wf(),
        vib_cmd_valid(subs, pre.manager.vibrate_attrs@.len() as int),
        lelo_vibrate_post(pre, mid, subs, r1),
        lelo_vibrate_post(mid, post, subs, r2),
    ensures
        r2 matches Ok(w) && w@.len() == 0,
        post == mid,
{
    let attrs = pre.manager.vibrate_attrs@;
    if !vib_all_unchanged(subs, attrs, pre.manager.vibrate_cache@) {
        crate::manager::lemma_vibrate_idempotent(subs, attrs);
    }
}

impl LeloF1s {
    pub open spec fn wf(&self) -> bool {
        &&& self.manager.wf()
        &&& is_stop_commands(
            self.stop_commands@,
            self.manager.vibrate_attrs@.len(),
            self.manager.rotate_attrs@.len(),
        )
    }

    /// Construct an adapter with a fresh command manager: every feature at
    /// rest, the stop command set precomputed.
    pub fn new(name: &str, attributes: &DeviceAttributes) -> (r: LeloF1s)
        requires
            attributes.wf(),
        ensures
            r.wf(),
            r.name@ == name@,
            r.manager.vibrate_attrs@ == attributes.vibrate@,
            r.manager.rotate_attrs@ == attributes.rotate@,
            r.manager.vibrate_cache@ == Seq::new(attributes.vibrate@.len(), |i: int| 0u32),
            r.manager.rotate_speed_cache@ == Seq::new(attributes.rotate@.len(), |i: int| 0u32),
            r.manager.rotate_direction_cache@ == Seq::new(attributes.rotate@.len(), |i: int| false),
    {
        let manager = GenericCommandManager::new(attributes);
        let stop_commands = make_stop_commands(attributes.vibrate.len(), attributes.rotate.len());
        LeloF1s { name: name.to_owned(), manager, stop_commands }
    }

    pub fn name(&self) -> (r: &String)
        ensures
            r@ == self.name@,
    {
        &self.name
    }

    /// The precomputed stop command set; pure.
    pub fn get_stop_commands(&self) -> (r: &Vec<AbstractCommand>)
        ensures
            r@ == self.stop_commands@,
    {
        &self.stop_commands
    }

    /// Translate a vibration command: nothing to transmit when no feature's
    /// quantized value changed, otherwise exactly one aggregate write
    /// carrying every feature's new value.
    #[verifier::loop_isolation(false)]
    pub fn handle_vibrate_cmd(&mut self, msg: &VibrateCmd)
        -> (r: Result<Vec<DeviceWriteCmd>, ButtplugError>)
        requires
            old(self).wf(),
        ensures
            final(self).wf(),
            lelo_vibrate_post(*old(self), *final(self), msg.speeds@, r),
    {
        let result = match self.manager.update_vibration(msg, true) {
            Ok(x) => x,
            Err(e) => {
                return Err(e);
            },
        };
        let mut writes: Vec<DeviceWriteCmd> = Vec::new();
        match result {
            None => Ok(writes),
            Some(cmds) => {
                let ghost newcache = vib_new_cache(msg.speeds@, old(self).manager.vibrate_attrs@);
                let mut cmd_vec: Vec<u8> = Vec::new();
                cmd_vec.push(1);
                let n = cmds.len();
                let mut i: usize = 0;
                while i < n
                    invariant
                        0 <= i <= n,
                        cmd_vec@.len() == 1 + i,
                        cmd_vec@[0] == 1u8,
                        forall|k: int| 0 <= k < i ==> cmd_vec@[1 + k] == (newcache[k] % 256) as u8,
                    decreases n - i,
                {
                    let b = match cmds[i] {
                        Some(s) => (s % 256) as u8,
                        None => {
                            proof {
                                assert(false);
                            }
                            0
                        },
                    };
                    cmd_vec.push(b);
                    i += 1;
                }
                proof {
                    assert(cmd_vec@ =~= lelo_vibrate_bytes(newcache));
                }
                writes.push(DeviceWriteCmd {
                    endpoint: Endpoint::Tx,
                    data: cmd_vec,
                    write_with_response: false,
                });
                Ok(writes)
            },
        }
    }

    /// Replay the precomputed stop command set through the normal vibration
    /// path, so stopping enjoys the same redundancy elimination.
    pub fn handle_stop_device_cmd(&mut self) -> (r: Result<Vec<DeviceWriteCmd>, ButtplugError>)
        requires
            old(self).wf(),
        ensures
            final(self).wf(),
            lelo_stop_post(*old(self), *final(self), r),
    {
        if self.manager.rotate_attrs.len() > 0 {
            // The stop set holds a rotation stop command this family cannot
            // translate: reject before touching any state.
            return Err(ButtplugError::UnsupportedCommand);
        }
        let n = self.manager.vibrate_attrs.len();
        let mut writes: Vec<DeviceWriteCmd> = Vec::new();
        if n > 0 {
            let stop = make_stop_vibrate_cmd(n);
            proof {
                crate::manager::lemma_stop_vibrate_drives_to_rest(
                    old(self).manager.vibrate_attrs@,
                    old(self).manager.vibrate_cache@,
                );
            }
            let mut w = self.handle_vibrate_cmd(&stop)?;
            writes.append(&mut w);
        }
        Ok(writes)
    }

    /// Dispatch an abstract command by kind. Rotation and linear motion have
    /// no translation in this family and are rejected before any transport
    /// interaction.
    pub fn handle(&mut self, cmd: &AbstractCommand) -> (r: Result<Vec<DeviceWriteCmd>, ButtplugError>)
        requires
            old(self).wf(),
        ensures
            final(self).wf(),
            lelo_handle_post(*old(self), *final(self), *cmd, r),
    {
        match cmd {
            AbstractCommand::Vibrate(msg) => self.handle_vibrate_cmd(msg),
            AbstractCommand::Stop(_) => self.handle_stop_device_cmd(),
            AbstractCommand::Rotate(_) => Err(ButtplugError::UnsupportedCommand),
            AbstractCommand::LinearMove(_) => Err(ButtplugError::UnsupportedCommand),
        }
    }
}

} // verus!
