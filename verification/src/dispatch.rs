//! Tagged-variant dispatch over the device families.
//!
//! Every family implements the same flat capability set — construct, handle,
//! expose the stop command set — and the front-end selects an implementation
//! by the family resolved for a connecting device.

use vstd::prelude::*;
use crate::config::DeviceAttributes;
use crate::lelof1s::{lelo_handle_post, LeloF1s};
use crate::lovense::{lovense_handle_post, Lovense};
use crate::messages::{AbstractCommand, ButtplugError, DeviceWriteCmd};
use crate::prettylove::{prettylove_handle_post, PrettyLove};
use crate::realov::{realov_handle_post, Realov};

verus! {

/// A resolved device family.
#[derive(Clone, Copy, Debug, PartialEq, Eq, Structural)]
pub enum ProtocolFamily {
    LeloF1s,
    Lovense,
    PrettyLove,
    Realov,
}

/// One protocol adapter, behind the uniform command surface.
#[derive(Debug)]
pub enum ProtocolAdapter {
    LeloF1s(LeloF1s),
    Lovense(Lovense),
    PrettyLove(PrettyLove),
    Realov(Realov),
}

impl ProtocolAdapter {
    pub open spec fn wf(&self) -> bool {
        match *self {
            ProtocolAdapter::LeloF1s(a) => a.wf(),
            ProtocolAdapter::Lovense(a) => a.wf(),
            ProtocolAdapter::PrettyLove(a) => a.wf(),
            ProtocolAdapter::Realov(a) => a.wf(),
        }
    }

    pub open spec fn family(&self) -> ProtocolFamily {
        match *self {
            ProtocolAdapter::LeloF1s(_) => ProtocolFamily::LeloF1s,
            ProtocolAdapter::Lovense(_) => ProtocolFamily::Lovense,
            ProtocolAdapter::PrettyLove(_) => ProtocolFamily::PrettyLove,
            ProtocolAdapter::Realov(_) => ProtocolFamily::Realov,
        }
    }

    pub open spec fn name_view(&self) -> Seq<char> {
        match *self {
            ProtocolAdapter::LeloF1s(a) => a.name@,
            ProtocolAdapter::Lovense(a) => a.name@,
            ProtocolAdapter::PrettyLove(a) => a.name@,
            ProtocolAdapter::Realov(a) => a.name@,
        }
    }

    pub open spec fn stop_commands_view(&self) -> Seq<AbstractCommand> {
        match *self {
            ProtocolAdapter::LeloF1s(a) => a.stop_commands@,
            ProtocolAdapter::Lovense(a) => a.stop_commands@,
            ProtocolAdapter::PrettyLove(a) => a.stop_commands@,
            ProtocolAdapter::Realov(a) => a.stop_commands@,
        }
    }

    /// Static construction: the registry already resolved the device's name
    /// and attributes, so the adapter for its family is built synchronously.
    pub fn create_protocol(family: ProtocolFamily, name: &str, attributes: &DeviceAttributes)
        -> (r: ProtocolAdapter)
        requires
            attributes.wf(),
        ensures
            r.wf(),
            r.family() == family,
            r.name_view() == name@,
            ({
                match r {
                    ProtocolAdapter::LeloF1s(a) => a.manager.vibrate_attrs@ == attributes.vibrate@
                        && a.manager.rotate_attrs@ == attributes.rotate@
                        && a.manager.vibrate_cache@ == Seq::new(attributes.vibrate@.len(), |i: int| 0u32),
                    ProtocolAdapter::Lovense(a) => a.manager.vibrate_attrs@ == attributes.vibrate@
                        && a.manager.rotate_attrs@ == attributes.rotate@
                        && a.manager.vibrate_cache@ == Seq::new(attributes.vibrate@.len(), |i: int| 0u32)
                        && a.rotation_direction == false,
                    ProtocolAdapter::PrettyLove(a) => a.manager.vibrate_attrs@ == attributes.vibrate@
                        && a.manager.rotate_attrs@ == attributes.rotate@
                        && a.manager.vibrate_cache@ == Seq::new(attributes.vibrate@.len(), |i: int| 0u32),
                    ProtocolAdapter::Realov(a) => a.manager.vibrate_attrs@ == attributes.vibrate@
                        && a.manager.rotate_attrs@ == attributes.rotate@
                        && a.manager.vibrate_cache@ == Seq::new(attributes.vibrate@.len(), |i: int| 0u32),
                }
            }),
    {
        match family {
            ProtocolFamily::LeloF1s => ProtocolAdapter::LeloF1s(LeloF1s::new(name, attributes)),
            ProtocolFamily::Lovense => ProtocolAdapter::Lovense(Lovense::new(name, attributes)),
            ProtocolFamily::PrettyLove => ProtocolAdapter::PrettyLove(PrettyLove::new(name, attributes)),
            ProtocolFamily::Realov => ProtocolAdapter::Realov(Realov::new(name, attributes)),
        }
    }

    /// Dispatch an abstract command to the family's translation, with each
    /// family's own contract.
    pub fn handle(&mut self, cmd: &AbstractCommand) -> (r: Result<Vec<DeviceWriteCmd>, ButtplugError>)
        requires
            old(self).wf(),
        ensures
            final(self).wf(),
            final(self).family() == old(self).family(),
            ({
                match (*old(self), *final(self)) {
                    (ProtocolAdapter::LeloF1s(a), ProtocolAdapter::LeloF1s(b)) =>
                        lelo_handle_post(a, b, *cmd, r),
                    (ProtocolAdapter::Lovense(a), ProtocolAdapter::Lovense(b)) =>
                        lovense_handle_post(a, b, *cmd, r),
                    (ProtocolAdapter::PrettyLove(a), ProtocolAdapter::PrettyLove(b)) =>
                        prettylove_handle_post(a, b, *cmd, r),
                    (ProtocolAdapter::Realov(a), ProtocolAdapter::Realov(b)) =>
                        realov_handle_post(a, b, *cmd, r),
                    _ => false,
                }
            }),
    {
        match self {
            ProtocolAdapter::LeloF1s(a) => a.handle(cmd),
            ProtocolAdapter::Lovense(a) => a.handle(cmd),
            ProtocolAdapter::PrettyLove(a) => a.handle(cmd),
            ProtocolAdapter::Realov(a) => a.handle(cmd),
        }
    }

    /// The adapter's display name.
    pub fn name(&self) -> (r: &String)
        ensures
            r@ == self.name_view(),
    {
        match self {
            ProtocolAdapter::LeloF1s(a) => a.name(),
            ProtocolAdapter::Lovense(a) => a.name(),
            ProtocolAdapter::PrettyLove(a) => a.name(),
            ProtocolAdapter::Realov(a) => a.name(),
        }
    }

    /// The precomputed stop command set, so the front-end can force a stop
    /// on disconnect without family-specific knowledge; pure.
    pub fn get_stop_commands(&self) -> (r: &Vec<AbstractCommand>)
        ensures
            r@ == self.stop_commands_view(),
    {
        match self {
            ProtocolAdapter::LeloF1s(a) => a.get_stop_commands(),
            ProtocolAdapter::Lovense(a) => a.get_stop_commands(),
            ProtocolAdapter::PrettyLove(a) => a.get_stop_commands(),
            ProtocolAdapter::Realov(a) => a.get_stop_commands(),
        }
    }
}

} // verus!
