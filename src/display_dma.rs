//! Framing of display commands and pixel data for an I2C transfer: each
//! transfer is a control byte followed by the payload, staged in a buffer
//! that outlives the transfer.
use vstd::prelude::*;

verus! {

/// Bytes of one full frame of pixel data plus its control byte.
pub const DISPLAY_BUFFER_SIZE: usize = 513;

/// Bytes of the command staging buffer, control byte included.
pub const COMMAND_BUFFER_SIZE: usize = 8;

/// Bus address of the display.
pub const I2C_ADDRESS: u8 = 0x3C;

/// Control byte announcing pixel data.
pub const DATA_CONTROL: u8 = 0x40;

/// Control byte announcing commands.
pub const COMMAND_CONTROL: u8 = 0x00;

/// Staging buffers for display transfers.
pub struct DisplayI2cDma {
    display_buffer: Vec<u8>,
    command_buffer: Vec<u8>,
}

impl DisplayI2cDma {
    /// The pixel data buffer.
    pub closed spec fn data(&self) -> Seq<u8> {
        self.display_buffer@
    }

    /// The command buffer.
    pub closed spec fn commands(&self) -> Seq<u8> {
        self.command_buffer@
    }

    pub closed spec fn wf(&self) -> bool {
        &&& self.display_buffer@.len() == DISPLAY_BUFFER_SIZE
        &&& self.command_buffer@.len() == COMMAND_BUFFER_SIZE
        &&& self.display_buffer@[0] == DATA_CONTROL
        &&& self.command_buffer@[0] == COMMAND_CONTROL
    }

    /// Buffers holding only their control bytes.
    pub fn new() -> (r: DisplayI2cDma)
        ensures
            r.wf(),
            r.data() == Seq::new(DISPLAY_BUFFER_SIZE as nat, |i: int| DATA_CONTROL),
            r.commands() == Seq::new(COMMAND_BUFFER_SIZE as nat, |i: int| COMMAND_CONTROL),
    {
        let r = DisplayI2cDma {
            display_buffer: vec![DATA_CONTROL; DISPLAY_BUFFER_SIZE],
            command_buffer: vec![COMMAND_CONTROL; COMMAND_BUFFER_SIZE],
        };
        assert(r.display_buffer@ =~= Seq::new(DISPLAY_BUFFER_SIZE as nat, |i: int| DATA_CONTROL));
        assert(r.command_buffer@ =~= Seq::new(COMMAND_BUFFER_SIZE as nat, |i: int| COMMAND_CONTROL));
        r
    }

    /// Stages `payload` after the command control byte and returns the
    /// length of the transfer: the first `r` bytes of the command buffer.
    pub fn stage_commands(&mut self, payload: &[u8]) -> (r: usize)
        requires
            old(self).wf(),
            payload@.len() < COMMAND_BUFFER_SIZE,
        ensures
            final(self).wf(),
            final(self).data() == old(self).data(),
            r == payload@.len() + 1,
            final(self).commands().subrange(0, r as int) == seq![COMMAND_CONTROL] + payload@,
    {
        let mut i: usize = 0;
        while i < payload.len()
            invariant
                self.wf(),
                self.display_buffer@ == old(self).display_buffer@,
                payload@.len() < COMMAND_BUFFER_SIZE,
                i <= payload@.len(),
                forall|j: int| 0 <= j < i ==> #[trigger] self.command_buffer@[j + 1] == payload@[j],
            decreases payload@.len() - i,
        {
            self.command_buffer.set(i + 1, payload[i]);
            i = i + 1;
        }
        assert forall|k: int| 1 <= k <= i implies self.command_buffer@[k] == payload@[k - 1] by {
            let j = k - 1;
            assert(self.command_buffer@[j + 1] == payload@[j]);
        }
        assert(self.command_buffer@.subrange(0, i as int + 1) =~= seq![COMMAND_CONTROL] + payload@);
        i + 1
    }

    /// Stages `payload` after the data control byte and returns the length
    /// of the transfer: the first `r` bytes of the data buffer.
    pub fn stage_data(&mut self, payload: &[u8]) -> (r: usize)
        requires
            old(self).wf(),
            payload@.len() < DISPLAY_BUFFER_SIZE,
        ensures
            final(self).wf(),
            final(self).commands() == old(self).commands(),
            r == payload@.len() + 1,
            final(self).data().subrange(0, r as int) == seq![DATA_CONTROL] + payload@,
    {
        let mut i: usize = 0;
        while i < payload.len()
            invariant
                self.wf(),
                self.command_buffer@ == old(self).command_buffer@,
                payload@.len() < DISPLAY_BUFFER_SIZE,
                i <= payload@.len(),
                forall|j: int| 0 <= j < i ==> #[trigger] self.display_buffer@[j + 1] == payload@[j],
            decreases payload@.len() - i,
        {
            self.display_buffer.set(i + 1, payload[i]);
            i = i + 1;
        }
        assert forall|k: int| 1 <= k <= i implies self.display_buffer@[k] == payload@[k - 1] by {
            let j = k - 1;
            assert(self.display_buffer@[j + 1] == payload@[j]);
        }
        assert(self.display_buffer@.subrange(0, i as int + 1) =~= seq![DATA_CONTROL] + payload@);
        i + 1
    }

    /// The command buffer.
    pub fn command_buffer(&self) -> (r: &Vec<u8>)
        ensures
            r@ == self.commands(),
    {
        &self.command_buffer
    }

    /// The pixel data buffer.
    pub fn display_buffer(&self) -> (r: &Vec<u8>)
        ensures
            r@ == self.data(),
    {
        &self.display_buffer
    }
}

} // verus!
