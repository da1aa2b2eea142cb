//! The shared memory server for the HMI: it publishes the status record, takes commands
//! from the command ring and answers on the acknowledgement ring.

use vstd::prelude::*;
use super::types::{PrinterCmd, PrinterCommand, PrinterStatus, SharedMemory, CommandQueue};

verus! {

/// The acknowledgement record written into slot `slot`: the old record with the
/// acknowledged command, or no command for a failure.
pub open spec fn ack_record(slot: PrinterCommand, cmd: PrinterCmd, success: bool) -> PrinterCommand {
    PrinterCommand {
        cmd: if success {
            cmd
        } else {
            PrinterCmd::NoCommand
        },
        ..slot
    }
}

/// The shared memory server.
#[derive(Debug)]
pub struct SharedMemoryServer {
    data: SharedMemory,
    running: bool,
}

impl SharedMemoryServer {
    pub closed spec fn shared(&self) -> SharedMemory {
        self.data
    }

    pub closed spec fn is_up(&self) -> bool {
        self.running
    }

    /// A stopped server with a fresh shared memory image.
    pub fn new() -> (r: Self)
        ensures
            r.shared().cmd_queue.wf() && r.shared().cmd_queue.items().len() == 0,
            r.shared().ack_queue.wf() && r.shared().ack_queue.items().len() == 0,
            !r.is_up(),
    {
        SharedMemoryServer { data: SharedMemory::new(), running: false }
    }

    /// Publishes a status record.
    pub fn update_status(&mut self, status: PrinterStatus)
        ensures
            final(self).shared() == (SharedMemory { status, ..old(self).shared() }),
            final(self).is_up() == old(self).is_up(),
    {
        self.data.status = status;
    }

    /// The published status record.
    pub fn get_status(&self) -> (r: PrinterStatus)
        ensures
            r == self.shared().status,
    {
        self.data.status
    }

    /// Takes the oldest command of the command ring, if any.
    pub fn get_next_command(&mut self) -> (r: Option<PrinterCommand>)
        requires
            old(self).shared().cmd_queue.wf(),
        ensures
            final(self).shared().cmd_queue.wf(),
            final(self).shared().status == old(self).shared().status,
            final(self).shared().ack_queue == old(self).shared().ack_queue,
            final(self).is_up() == old(self).is_up(),
            old(self).shared().cmd_queue.items().len() == 0 ==> r is None && final(self).shared()
                == old(self).shared(),
            old(self).shared().cmd_queue.items().len() > 0 ==> r == Some(
                old(self).shared().cmd_queue.items()[0],
            ) && final(self).shared().cmd_queue.items() == old(self).shared().cmd_queue.items().drop_first(),
    {
        if self.data.cmd_queue.count == 0 {
            return None;
        }
        let ghost q0 = self.data.cmd_queue;
        let t = self.data.cmd_queue.tail;
        let cmd = self.data.cmd_queue.commands[t as usize];
        self.data.cmd_queue.tail = (t + 1) % 32;
        self.data.cmd_queue.count = self.data.cmd_queue.count - 1;
        proof {
            let q = self.data.cmd_queue;
            assert(q.items() =~= q0.items().drop_first()) by {
                assert forall|i: int| 0 <= i < q.items().len() implies q.items()[i] == q0.items().drop_first()[i] by {
                    assert(((t + 1) % 32 + i) % 32 == (t + (i + 1)) % 32);
                }
            }
            assert(q0.items()[0] == q0.commands@[(t + 0) % 32]);
        }
        Some(cmd)
    }

    /// Answers a command on the acknowledgement ring: the command itself on success, no
    /// command on failure. A full ring (one slot is always left free) drops the answer.
    pub fn send_ack(&mut self, cmd: PrinterCmd, success: bool)
        requires
            old(self).shared().ack_queue.wf(),
        ensures
            final(self).shared().ack_queue.wf(),
            final(self).shared().status == old(self).shared().status,
            final(self).shared().cmd_queue == old(self).shared().cmd_queue,
            final(self).is_up() == old(self).is_up(),
            old(self).shared().ack_queue.items().len() == 31 ==> final(self).shared() == old(self).shared(),
            old(self).shared().ack_queue.items().len() < 31 ==> final(self).shared().ack_queue.items()
                == old(self).shared().ack_queue.items().push(
                ack_record(
                    old(self).shared().ack_queue.commands@[old(self).shared().ack_queue.head as int],
                    cmd,
                    success,
                ),
            ),
    {
        let head = self.data.ack_queue.head;
        let next_head = (head + 1) % 32;
        let ghost q0 = self.data.ack_queue;
        proof {
            assert(next_head == q0.tail <==> q0.count == 31);
        }
        if next_head != self.data.ack_queue.tail {
            let mut slot = self.data.ack_queue.commands[head as usize];
            slot.cmd = if success {
                cmd
            } else {
                PrinterCmd::NoCommand
            };
            self.data.ack_queue.commands.set(head as usize, slot);
            self.data.ack_queue.head = next_head;
            self.data.ack_queue.count = self.data.ack_queue.count + 1;
            proof {
                let q = self.data.ack_queue;
                assert(q.items() =~= q0.items().push(ack_record(q0.commands@[head as int], cmd, success))) by {
                    assert forall|i: int| 0 <= i < q.items().len() implies q.items()[i] == q0.items().push(
                        ack_record(q0.commands@[head as int], cmd, success),
                    )[i] by {
                        if i < q0.count {
                            assert((q0.tail + i) % 32 != head as int);
                        } else {
                            assert((q0.tail + i) % 32 == head as int);
                        }
                    }
                }
            }
        }
    }

    /// Marks the server running.
    pub fn start(&mut self)
        ensures
            final(self).is_up(),
            final(self).shared() == old(self).shared(),
    {
        self.running = true;
    }

    /// Marks the server stopped.
    pub fn stop(&mut self)
        ensures
            !final(self).is_up(),
            final(self).shared() == old(self).shared(),
    {
        self.running = false;
    }

    pub fn is_running(&self) -> (r: bool)
        ensures
            r == self.is_up(),
    {
        self.running
    }

    /// The shared memory image.
    pub fn get_data(&self) -> (r: &SharedMemory)
        ensures
            *r == self.shared(),
    {
        &self.data
    }

    /// The shared memory image, for the HMI side to fill the command ring.
    pub fn get_data_mut(&mut self) -> (r: &mut SharedMemory)
        ensures
            *r == old(self).shared(),
            final(self).shared() == *final(r),
            final(self).is_up() == old(self).is_up(),
    {
        &mut self.data
    }
}

impl Default for SharedMemoryServer {
    fn default() -> (r: Self)
        ensures
            r.shared().cmd_queue.wf() && r.shared().cmd_queue.items().len() == 0,
            r.shared().ack_queue.wf() && r.shared().ack_queue.items().len() == 0,
            !r.is_up(),
    {
        SharedMemoryServer::new()
    }
}

} // verus!
