//! The verbs of a machine.

use crate::backend::{begin, opening, Subject, SubjectView, Turn, Verb};
use crate::config::Config;
use crate::model::VM;
use vstd::prelude::*;

verus! {

/// Starts the creation of a machine by its backend. The script's
/// parameters are merged into the machine, which is then saved.
pub fn script_create(conf: &Config, vm: VM) -> (r: Turn)
    ensures
        r@ == opening(*conf, Verb::VmCreate, SubjectView::Vm(vm@), None),
{
    begin(conf, Verb::VmCreate, Subject::Vm(vm), None)
}

/// Starts the start of a machine by its backend. The script's parameters
/// are merged into the machine, which is then saved.
pub fn script_start(conf: &Config, vm: VM) -> (r: Turn)
    ensures
        r@ == opening(*conf, Verb::VmStart, SubjectView::Vm(vm@), None),
{
    begin(conf, Verb::VmStart, Subject::Vm(vm), None)
}

/// Starts the stop of a machine by its backend. The script's parameters
/// are merged into the machine, which is then saved.
pub fn script_stop(conf: &Config, vm: VM) -> (r: Turn)
    ensures
        r@ == opening(*conf, Verb::VmStop, SubjectView::Vm(vm@), None),
{
    begin(conf, Verb::VmStop, Subject::Vm(vm), None)
}

/// Starts the deletion of a machine by its backend.
pub fn script_delete(conf: &Config, vm: VM) -> (r: Turn)
    ensures
        r@ == opening(*conf, Verb::VmDelete, SubjectView::Vm(vm@), None),
{
    begin(conf, Verb::VmDelete, Subject::Vm(vm), None)
}

/// Starts the query of the status of a machine. The script's parameters
/// are handed to the caller; nothing is saved.
pub fn script_status(conf: &Config, vm: VM) -> (r: Turn)
    ensures
        r@ == opening(*conf, Verb::VmStatus, SubjectView::Vm(vm@), None),
{
    begin(conf, Verb::VmStatus, Subject::Vm(vm), None)
}

/// Starts the making of the snapshot called `name` of a machine.
pub fn script_snapshot_create(conf: &Config, vm: VM, name: &str) -> (r: Turn)
    ensures
        r@ == opening(*conf, Verb::SnapshotCreate, SubjectView::Vm(vm@), Some(name@)),
{
    begin(conf, Verb::SnapshotCreate, Subject::Vm(vm), Some(String::from_str(name)))
}

/// Starts the restore of the snapshot called `name` of a machine.
pub fn script_snapshot_restore(conf: &Config, vm: VM, name: &str) -> (r: Turn)
    ensures
        r@ == opening(*conf, Verb::SnapshotRestore, SubjectView::Vm(vm@), Some(name@)),
{
    begin(conf, Verb::SnapshotRestore, Subject::Vm(vm), Some(String::from_str(name)))
}

/// Starts the deletion of the snapshot called `name` of a machine.
pub fn script_snapshot_delete(conf: &Config, vm: VM, name: &str) -> (r: Turn)
    ensures
        r@ == opening(*conf, Verb::SnapshotDelete, SubjectView::Vm(vm@), Some(name@)),
{
    begin(conf, Verb::SnapshotDelete, Subject::Vm(vm), Some(String::from_str(name)))
}

} // verus!
