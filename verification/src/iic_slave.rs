//! I2C slave event handling: a 256-byte register file addressed by a running
//! buffer index, driven by the controller's write/read/stop/abort events.
use vstd::prelude::*;

verus! {

/// Size of the slave's data buffer.
pub const I2C_SLAVE_BUFFER_SIZE: u32 = 256;

/// Event: the master wrote one byte.
pub const I2C_EVT_WRITE_RECEIVED: u32 = 3;

/// Event: the master consumed one byte of a read.
pub const I2C_EVT_READ_PROCESSED: u32 = 2;

/// Event: the master asks for one byte.
pub const I2C_EVT_READ_REQUEST: u32 = 0;

/// Event: the master issued a stop condition.
pub const I2C_EVT_STOP: u32 = 4;

/// Event: the master opens a write.
pub const I2C_EVT_WRITE_REQUEST: u32 = 1;

/// Event: the transfer was aborted.
pub const I2C_EVT_ABORT: u32 = 5;

/// State of the I2C slave: whether the next written byte is the buffer
/// offset, the running buffer index, and the data buffer itself.
#[derive(Debug)]
pub struct FI2cSlaveData {
    pub first_write: bool,
    pub buff_idx: u32,
    pub buff: Vec<u8>,
}

impl FI2cSlaveData {
    /// The buffer always holds exactly its declared size.
    pub open spec fn wf(self) -> bool {
        self.buff@.len() == I2C_SLAVE_BUFFER_SIZE
    }

    /// A fresh slave: offset addressing armed for the first write, index
    /// zero, buffer zeroed.
    pub fn new() -> (r: FI2cSlaveData)
        ensures
            r.wf(),
            r.first_write == true,
            r.buff_idx == 0,
            forall|i: int| 0 <= i < I2C_SLAVE_BUFFER_SIZE ==> r.buff@[i] == 0,
    {
        let mut buff: Vec<u8> = Vec::new();
        let mut i: u32 = 0;
        while i < I2C_SLAVE_BUFFER_SIZE
            invariant
                i <= I2C_SLAVE_BUFFER_SIZE,
                buff@.len() == i,
                forall|j: int| 0 <= j < i ==> buff@[j] == 0,
            decreases I2C_SLAVE_BUFFER_SIZE - i,
        {
            buff.push(0);
            i = i + 1;
        }
        FI2cSlaveData { first_write: true, buff_idx: 0, buff }
    }
}

/// The buffer index wrapped into the buffer, as each event round begins.
pub open spec fn spec_slave_index(idx: u32) -> int {
    if idx >= I2C_SLAVE_BUFFER_SIZE {
        (idx as int) % (I2C_SLAVE_BUFFER_SIZE as int)
    } else {
        idx as int
    }
}

/// One step of the slave's event machine: the state and the master-visible
/// byte after handling `evt`, as
/// `(first_write, buff_idx, buffer, byte)`.
pub open spec fn spec_slave_step(
    first_write: bool,
    idx: u32,
    buff: Seq<u8>,
    val: u8,
    evt: u32,
) -> (bool, int, Seq<u8>, u8) {
    let i = spec_slave_index(idx);
    if evt == I2C_EVT_WRITE_RECEIVED {
        if first_write {
            (false, val as int, buff, val)
        } else {
            (first_write, i + 1, buff.update(i, val), val)
        }
    } else if evt == I2C_EVT_READ_PROCESSED {
        (first_write, i + 1, buff, val)
    } else if evt == I2C_EVT_READ_REQUEST {
        (first_write, i + 1, buff, buff[i])
    } else if evt == I2C_EVT_STOP || evt == I2C_EVT_WRITE_REQUEST {
        (true, i, buff, val)
    } else {
        (first_write, i, buff, val)
    }
}

/// Handles one controller event. `para` carries the transferred byte: what
/// the master wrote on a write event, and the byte handed back to the master
/// on a read request.
pub fn fi2c_slave_cb(instance_p: &mut FI2cSlaveData, para: &mut u8, evt: u32)
    requires
        old(instance_p).wf(),
    ensures
        final(instance_p).wf(),
        (
            final(instance_p).first_write,
            final(instance_p).buff_idx as int,
            final(instance_p).buff@,
            *final(para),
        ) == spec_slave_step(
            old(instance_p).first_write,
            old(instance_p).buff_idx,
            old(instance_p).buff@,
            *old(para),
            evt,
        ),
{
    if instance_p.buff_idx >= I2C_SLAVE_BUFFER_SIZE {
        instance_p.buff_idx = instance_p.buff_idx % I2C_SLAVE_BUFFER_SIZE;
    }
    if evt == I2C_EVT_WRITE_RECEIVED {
        if instance_p.first_write {
            instance_p.buff_idx = *para as u32;
            instance_p.first_write = false;
        } else {
            let idx = instance_p.buff_idx as usize;
            instance_p.buff[idx] = *para;
            instance_p.buff_idx = instance_p.buff_idx + 1;
        }
    } else if evt == I2C_EVT_READ_PROCESSED {
        instance_p.buff_idx = instance_p.buff_idx + 1;
    } else if evt == I2C_EVT_READ_REQUEST {
        let idx = instance_p.buff_idx as usize;
        *para = instance_p.buff[idx];
        instance_p.buff_idx = instance_p.buff_idx + 1;
    } else if evt == I2C_EVT_STOP || evt == I2C_EVT_WRITE_REQUEST {
        instance_p.first_write = true;
    }
}

/// The master wrote one byte: the first byte after a write request sets the
/// buffer offset, later ones land in the buffer.
pub fn fi2c_slave_write_received(instance_p: &mut FI2cSlaveData, para: &mut u8)
    requires
        old(instance_p).wf(),
    ensures
        final(instance_p).wf(),
        (
            final(instance_p).first_write,
            final(instance_p).buff_idx as int,
            final(instance_p).buff@,
            *final(para),
        ) == spec_slave_step(
            old(instance_p).first_write,
            old(instance_p).buff_idx,
            old(instance_p).buff@,
            *old(para),
            I2C_EVT_WRITE_RECEIVED,
        ),
{
    fi2c_slave_cb(instance_p, para, I2C_EVT_WRITE_RECEIVED);
}

/// The master consumed one byte of a read: the index advances.
pub fn fi2c_slave_read_processed(instance_p: &mut FI2cSlaveData, para: &mut u8)
    requires
        old(instance_p).wf(),
    ensures
        final(instance_p).wf(),
        (
            final(instance_p).first_write,
            final(instance_p).buff_idx as int,
            final(instance_p).buff@,
            *final(para),
        ) == spec_slave_step(
            old(instance_p).first_write,
            old(instance_p).buff_idx,
            old(instance_p).buff@,
            *old(para),
            I2C_EVT_READ_PROCESSED,
        ),
{
    fi2c_slave_cb(instance_p, para, I2C_EVT_READ_PROCESSED);
}

/// The master asks for one byte: the byte under the index goes out and the
/// index advances.
pub fn fi2c_slave_read_request(instance_p: &mut FI2cSlaveData, para: &mut u8)
    requires
        old(instance_p).wf(),
    ensures
        final(instance_p).wf(),
        (
            final(instance_p).first_write,
            final(instance_p).buff_idx as int,
            final(instance_p).buff@,
            *final(para),
        ) == spec_slave_step(
            old(instance_p).first_write,
            old(instance_p).buff_idx,
            old(instance_p).buff@,
            *old(para),
            I2C_EVT_READ_REQUEST,
        ),
{
    fi2c_slave_cb(instance_p, para, I2C_EVT_READ_REQUEST);
}

/// A stop condition re-arms offset addressing.
pub fn fi2c_slave_stop(instance_p: &mut FI2cSlaveData, para: &mut u8)
    requires
        old(instance_p).wf(),
    ensures
        final(instance_p).wf(),
        (
            final(instance_p).first_write,
            final(instance_p).buff_idx as int,
            final(instance_p).buff@,
            *final(para),
        ) == spec_slave_step(
            old(instance_p).first_write,
            old(instance_p).buff_idx,
            old(instance_p).buff@,
            *old(para),
            I2C_EVT_STOP,
        ),
{
    fi2c_slave_cb(instance_p, para, I2C_EVT_STOP);
}

/// A write request re-arms offset addressing.
pub fn fi2c_slave_write_request(instance_p: &mut FI2cSlaveData, para: &mut u8)
    requires
        old(instance_p).wf(),
    ensures
        final(instance_p).wf(),
        (
            final(instance_p).first_write,
            final(instance_p).buff_idx as int,
            final(instance_p).buff@,
            *final(para),
        ) == spec_slave_step(
            old(instance_p).first_write,
            old(instance_p).buff_idx,
            old(instance_p).buff@,
            *old(para),
            I2C_EVT_WRITE_REQUEST,
        ),
{
    fi2c_slave_cb(instance_p, para, I2C_EVT_WRITE_REQUEST);
}

/// An aborted transfer changes nothing but the wrapped index.
pub fn fi2c_slave_abort(instance_p: &mut FI2cSlaveData, para: &mut u8)
    requires
        old(instance_p).wf(),
    ensures
        final(instance_p).wf(),
        (
            final(instance_p).first_write,
            final(instance_p).buff_idx as int,
            final(instance_p).buff@,
            *final(para),
        ) == spec_slave_step(
            old(instance_p).first_write,
            old(instance_p).buff_idx,
            old(instance_p).buff@,
            *old(para),
            I2C_EVT_ABORT,
        ),
{
    fi2c_slave_cb(instance_p, para, I2C_EVT_ABORT);
}

} // verus!
