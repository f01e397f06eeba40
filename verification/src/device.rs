use vstd::prelude::*;

verus! {

/// One unit of work recorded for the graphics device. Recording is
/// synchronous; the work itself runs only after the caller's device layer
/// submits the recorded list.
#[derive(Debug)]
pub enum Command {
    /// Copy the staged bytes into the device buffer with identity `dst`,
    /// both starting at offset zero.
    CopyBuffer { dst: u64, bytes: Vec<u8> },
    /// Draw `num_indices` indices from the bound index buffer.
    DrawIndexed { num_indices: u32 },
}

/// The mathematical value of a recorded command.
pub enum CommandView {
    CopyBuffer { dst: u64, bytes: Seq<u8> },
    DrawIndexed { num_indices: u32 },
}

impl View for Command {
    type V = CommandView;

    open spec fn view(&self) -> CommandView {
        match self {
            Command::CopyBuffer { dst, bytes } => CommandView::CopyBuffer {
                dst: *dst,
                bytes: bytes@,
            },
            Command::DrawIndexed { num_indices } => CommandView::DrawIndexed {
                num_indices: *num_indices,
            },
        }
    }
}

/// A device-resident buffer as the library models it: an identity and the
/// byte capacity it was allocated with. The allocation itself lives with the
/// caller's device layer, keyed by `id`.
#[derive(Debug, Clone, Copy, PartialEq, Eq, Structural)]
pub struct DeviceBuffer {
    pub id: u64,
    pub capacity: u64,
}

impl DeviceBuffer {
    pub fn new(id: u64, capacity: u64) -> (b: DeviceBuffer)
        ensures
            b.id == id,
            b.capacity == capacity,
    {
        DeviceBuffer { id, capacity }
    }
}

/// Records device commands in submission order.
#[derive(Debug)]
pub struct CommandEncoder {
    pub commands: Vec<Command>,
}

impl View for CommandEncoder {
    type V = Seq<CommandView>;

    open spec fn view(&self) -> Seq<CommandView> {
        self.commands@.map_values(|c: Command| c@)
    }
}

impl CommandEncoder {
    pub fn new() -> (e: CommandEncoder)
        ensures
            e@ == Seq::<CommandView>::empty(),
    {
        let e = CommandEncoder { commands: Vec::new() };
        proof {
            assert(e@ =~= Seq::<CommandView>::empty());
        }
        e
    }

    /// Append one command to the recorded list.
    pub fn record(&mut self, cmd: Command)
        ensures
            final(self)@ == old(self)@ + seq![cmd@],
    {
        let ghost prior = self@;
        self.commands.push(cmd);
        proof {
            assert(self@ =~= prior + seq![cmd@]);
        }
    }
}

} // verus!
