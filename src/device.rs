use vstd::prelude::*;

use crate::consts::{
    ConfigBufferId, DevicePropertyIds, ModulePropertyId, ModuleSlots, UsbCommand, UsbVariables,
};
use crate::cursor::{le_u16, le_u32};
use crate::error::{DeviceError, DeviceResult};

verus! {

/// The most bytes one read-config command asks for.
pub const CHUNK_SIZE: u16 = 63;

/// How long to wait for a response frame, in milliseconds.
pub const RESPONSE_TIMEOUT_MS: i32 = 1000;

/// A command frame: report id 0, the opcode, then its parameters.
pub open spec fn spec_frame(command: UsbCommand, params: Seq<u8>) -> Seq<u8> {
    seq![0u8, command.spec_code()] + params
}

/// Builds the frame that sends `command` with up to four parameter bytes.
pub fn command_frame(command: UsbCommand, params: &[u8]) -> (r: Vec<u8>)
    requires
        params@.len() <= 4,
    ensures
        r@ == spec_frame(command, params@),
{
    let mut frame: Vec<u8> = Vec::with_capacity(2 + params.len());
    frame.push(0);
    frame.push(command.code());
    let mut i: usize = 0;
    while i < params.len()
        invariant
            i <= params@.len(),
            frame@ == seq![0u8, command.spec_code()] + params@.subrange(0, i as int),
        decreases params@.len() - i,
    {
        frame.push(params[i]);
        i = i + 1;
    }
    assert(params@.subrange(0, params@.len() as int) =~= params@);
    frame
}

/// Asks for the sizes of the hardware and the user configuration.
pub fn config_size_request() -> (r: Vec<u8>)
    ensures
        r@ == spec_frame(UsbCommand::GetProperty, seq![DevicePropertyIds::ConfigSizes.spec_code()]),
{
    let params = [DevicePropertyIds::ConfigSizes.code()];
    command_frame(UsbCommand::GetProperty, &params)
}

/// Asks for the time since the device started.
pub fn uptime_request() -> (r: Vec<u8>)
    ensures
        r@ == spec_frame(UsbCommand::GetProperty, seq![DevicePropertyIds::Uptime.spec_code()]),
{
    let params = [DevicePropertyIds::Uptime.code()];
    command_frame(UsbCommand::GetProperty, &params)
}

/// Asks for the value of a runtime variable.
pub fn variable_request(var: UsbVariables) -> (r: Vec<u8>)
    ensures
        r@ == spec_frame(UsbCommand::GetVariable, seq![var.spec_code()]),
{
    let params = [var.code()];
    command_frame(UsbCommand::GetVariable, &params)
}

/// Asks for a property of the module in a slot.
pub fn module_property_request(module: ModuleSlots, property: ModulePropertyId) -> (r: Vec<u8>)
    ensures
        r@ == spec_frame(UsbCommand::GetModuleProperty, seq![module.spec_code(), property.spec_code()]),
{
    let params = [module.code(), property.code()];
    command_frame(UsbCommand::GetModuleProperty, &params)
}

/// Asks for the state of the device.
pub fn state_request() -> (r: Vec<u8>)
    ensures
        r@ == spec_frame(UsbCommand::GetDeviceState, Seq::empty()),
{
    let params: [u8; 0] = [];
    command_frame(UsbCommand::GetDeviceState, &params)
}

/// Reads the two configuration sizes (hardware, user) from the response to
/// `config_size_request`: little-endian `u16`s at bytes 1 and 3.
pub fn parse_config_sizes(response: &[u8]) -> (r: DeviceResult<(u16, u16)>)
    ensures
        response@.len() < 5 ==> r == Err::<(u16, u16), DeviceError>(DeviceError::ShortRead),
        response@.len() >= 5 ==> r == Ok::<(u16, u16), DeviceError>(
            (le_u16(response@[1], response@[2]), le_u16(response@[3], response@[4])),
        ),
{
    if response.len() < 5 {
        return Err(DeviceError::ShortRead);
    }
    let hardware = response[1] as u16 + (response[2] as u16) * 256;
    let user = response[3] as u16 + (response[4] as u16) * 256;
    Ok((hardware, user))
}

/// The size of a configuration region: the hardware one has its own size,
/// the staging and the validated user configuration share the other.
pub open spec fn spec_buffer_size(sizes: (u16, u16), buffer: ConfigBufferId) -> u16 {
    match buffer {
        ConfigBufferId::HardwareConfig => sizes.0,
        _ => sizes.1,
    }
}

pub fn buffer_size(sizes: (u16, u16), buffer: ConfigBufferId) -> (r: u16)
    ensures
        r == spec_buffer_size(sizes, buffer),
{
    match buffer {
        ConfigBufferId::HardwareConfig => sizes.0,
        _ => sizes.1,
    }
}

/// Reads the uptime in milliseconds, a little-endian `u32` at byte 1.
pub fn parse_uptime(response: &[u8]) -> (r: DeviceResult<u32>)
    ensures
        response@.len() < 5 ==> r == Err::<u32, DeviceError>(DeviceError::ShortRead),
        response@.len() >= 5 ==> r == Ok::<u32, DeviceError>(
            le_u32(response@[1], response@[2], response@[3], response@[4]),
        ),
{
    if response.len() < 5 {
        return Err(DeviceError::ShortRead);
    }
    Ok(response[1] as u32 + (response[2] as u32) * 256 + (response[3] as u32) * 65536 + (
    response[4] as u32) * 16777216)
}

/// Reads the value of a runtime variable, byte 1 of the response.
pub fn parse_variable(response: &[u8]) -> (r: DeviceResult<u8>)
    ensures
        response@.len() < 2 ==> r == Err::<u8, DeviceError>(DeviceError::ShortRead),
        response@.len() >= 2 ==> r == Ok::<u8, DeviceError>(response@[1]),
{
    if response.len() < 2 {
        return Err(DeviceError::ShortRead);
    }
    Ok(response[1])
}

/// What the device reports of its state.
#[derive(Debug, Clone, Copy, PartialEq, Eq, Structural)]
pub struct DeviceState {
    pub eeprom_busy: bool,
    pub halves_merged: bool,
    pub left_half_connected: bool,
    pub active_layer: u8,
    pub active_layer_toggled: bool,
    pub left_half_slot: u8,
    pub left_module_slot: ModuleSlots,
    pub right_module_slot: ModuleSlots,
}

/// Whether a byte names a module slot.
pub open spec fn is_slot_code(b: u8) -> bool {
    exists|m: ModuleSlots| m.spec_code() == b
}

/// The slot that a byte names.
pub open spec fn slot_of(b: u8) -> ModuleSlots {
    choose|m: ModuleSlots| m.spec_code() == b
}

/// The response to `state_request`: busy, merged and connected flags at
/// bytes 1 to 3, the module slots of the two halves at bytes 4 and 5, and
/// the active layer in the low seven bits of byte 6, its top bit telling
/// whether the layer was toggled.
pub open spec fn spec_parse_device_state(b: Seq<u8>) -> Result<DeviceState, DeviceError> {
    if b.len() < 7 {
        Err(DeviceError::ShortRead)
    } else if !is_slot_code(b[4]) {
        Err(DeviceError::UnknownModuleSlot(b[4]))
    } else if !is_slot_code(b[5]) {
        Err(DeviceError::UnknownModuleSlot(b[5]))
    } else {
        Ok(
            DeviceState {
                eeprom_busy: b[1] != 0,
                halves_merged: b[2] != 0,
                left_half_connected: b[3] != 0,
                active_layer: b[6] & 0x7f,
                active_layer_toggled: b[6] & 0x80 != 0,
                left_half_slot: b[3],
                left_module_slot: slot_of(b[4]),
                right_module_slot: slot_of(b[5]),
            },
        )
    }
}

proof fn lemma_slot_codes_unique(m: ModuleSlots, b: u8)
    requires
        m.spec_code() == b,
    ensures
        is_slot_code(b),
        slot_of(b) == m,
{
    let n = slot_of(b);
    assert(n.spec_code() == b);
}

pub fn parse_device_state(response: &[u8]) -> (r: DeviceResult<DeviceState>)
    ensures
        r == spec_parse_device_state(response@),
{
    if response.len() < 7 {
        return Err(DeviceError::ShortRead);
    }
    let left_module_slot = match ModuleSlots::from_code(response[4]) {
        Some(m) => m,
        None => {
            return Err(DeviceError::UnknownModuleSlot(response[4]));
        },
    };
    let right_module_slot = match ModuleSlots::from_code(response[5]) {
        Some(m) => m,
        None => {
            return Err(DeviceError::UnknownModuleSlot(response[5]));
        },
    };
    proof {
        lemma_slot_codes_unique(left_module_slot, response@[4]);
        lemma_slot_codes_unique(right_module_slot, response@[5]);
    }
    Ok(
        DeviceState {
            eeprom_busy: response[1] != 0,
            halves_merged: response[2] != 0,
            left_half_connected: response[3] != 0,
            active_layer: response[6] & 0x7f,
            active_layer_toggled: response[6] & 0x80 != 0,
            left_half_slot: response[3],
            left_module_slot,
            right_module_slot,
        },
    )
}

/// How many bytes the next chunk holds: a full chunk, or what is left.
pub open spec fn spec_chunk_len(size: u16, offset: u16) -> u16 {
    if size - offset < CHUNK_SIZE {
        (size - offset) as u16
    } else {
        CHUNK_SIZE
    }
}

/// The frame that asks for the chunk of `buffer` at `offset`: the buffer id,
/// the chunk size, and the offset as a little-endian `u16`.
pub open spec fn spec_read_config_frame(buffer: ConfigBufferId, offset: u16) -> Seq<u8> {
    spec_frame(
        UsbCommand::ReadConfig,
        seq![buffer.spec_code(), CHUNK_SIZE as u8, (offset % 256) as u8, (offset / 256) as u8],
    )
}

/// Assembles one configuration buffer from the chunks that the device sends.
/// Each round sends `request`, reads a response frame and hands it to
/// `accept`, until `is_done`.
pub struct ChunkedBufferReader {
    buffer: ConfigBufferId,
    size: u16,
    offset: u16,
    data: Vec<u8>,
}

impl ChunkedBufferReader {
    pub closed spec fn buffer_id(&self) -> ConfigBufferId {
        self.buffer
    }

    /// The size of the whole buffer.
    pub closed spec fn size(&self) -> u16 {
        self.size
    }

    /// Where the next chunk starts.
    pub closed spec fn offset(&self) -> u16 {
        self.offset
    }

    /// The bytes received so far.
    pub closed spec fn data(&self) -> Seq<u8> {
        self.data@
    }

    pub open spec fn wf(&self) -> bool {
        &&& self.offset() <= self.size()
        &&& self.data().len() == self.offset()
    }

    pub fn new(buffer: ConfigBufferId, size: u16) -> (r: Self)
        ensures
            r.wf(),
            r.buffer_id() == buffer,
            r.size() == size,
            r.offset() == 0,
            r.data() == Seq::<u8>::empty(),
    {
        ChunkedBufferReader { buffer, size, offset: 0, data: Vec::new() }
    }

    /// Whether the whole buffer has arrived.
    pub fn is_done(&self) -> (r: bool)
        ensures
            r == (self.offset() >= self.size()),
    {
        self.offset >= self.size
    }

    /// How many payload bytes the next response must carry.
    pub fn chunk_len(&self) -> (r: u16)
        requires
            self.wf(),
        ensures
            r == spec_chunk_len(self.size(), self.offset()),
    {
        if self.size - self.offset < CHUNK_SIZE {
            self.size - self.offset
        } else {
            CHUNK_SIZE
        }
    }

    /// The frame that asks for the next chunk.
    pub fn request(&self) -> (r: Vec<u8>)
        ensures
            r@ == spec_read_config_frame(self.buffer_id(), self.offset()),
    {
        let params = [
            self.buffer.code(),
            CHUNK_SIZE as u8,
            (self.offset % 256) as u8,
            (self.offset / 256) as u8,
        ];
        command_frame(UsbCommand::ReadConfig, &params)
    }

    /// Takes the response to `request`: after the one-byte header it must
    /// carry the chunk, which is appended; a shorter response is refused and
    /// changes nothing.
    pub fn accept(&mut self, response: &[u8]) -> (r: DeviceResult<()>)
        requires
            old(self).wf(),
            old(self).offset() < old(self).size(),
        ensures
            final(self).wf(),
            final(self).buffer_id() == old(self).buffer_id(),
            final(self).size() == old(self).size(),
            response@.len() < spec_chunk_len(old(self).size(), old(self).offset()) + 1 ==> {
                &&& r == Err::<(), DeviceError>(DeviceError::ShortRead)
                &&& final(self).offset() == old(self).offset()
                &&& final(self).data() == old(self).data()
            },
            response@.len() >= spec_chunk_len(old(self).size(), old(self).offset()) + 1 ==> {
                let n = spec_chunk_len(old(self).size(), old(self).offset());
                &&& r == Ok::<(), DeviceError>(())
                &&& final(self).offset() == old(self).offset() + n
                &&& final(self).data() == old(self).data() + response@.subrange(1, n + 1)
            },
    {
        let n = self.chunk_len();
        if response.len() < n as usize + 1 {
            return Err(DeviceError::ShortRead);
        }
        let ghost before = self.data@;
        let mut i: usize = 1;
        while i <= n as usize
            invariant
                1 <= i <= n as usize + 1,
                n as usize + 1 <= response@.len(),
                n == spec_chunk_len(self.size, self.offset),
                self.offset < self.size,
                self.offset == old(self).offset,
                self.size == old(self).size,
                self.buffer == old(self).buffer,
                before == old(self).data@,
                before.len() == self.offset,
                self.data@ == before + response@.subrange(1, i as int),
            decreases n as usize + 1 - i,
        {
            self.data.push(response[i]);
            i = i + 1;
        }
        self.offset = self.offset + n;
        Ok(())
    }

    /// The bytes received so far; the whole buffer once `is_done`.
    pub fn into_data(self) -> (r: Vec<u8>)
        ensures
            r@ == self.data(),
    {
        self.data
    }
}

/// The pause between two polls of the device state, in milliseconds.
pub const POLL_INTERVAL_MS: u64 = 200;

/// What to do while waiting for the EEPROM to finish.
#[derive(Debug, Clone, Copy, PartialEq, Eq, Structural)]
pub enum WaitStep {
    /// The EEPROM is idle: stop waiting.
    Ready,
    /// Still busy: sleep for `POLL_INTERVAL_MS`, then poll the state again.
    PollAgain,
}

/// Decides a round of the EEPROM wait from the polled state, the time waited
/// so far and the deadline: done when the EEPROM is idle, a `Timeout` once
/// the deadline is reached while it is still busy.
pub fn wait_step(state: &DeviceState, waited_ms: u64, timeout_ms: u64) -> (r: DeviceResult<WaitStep>)
    ensures
        !state.eeprom_busy ==> r == Ok::<WaitStep, DeviceError>(WaitStep::Ready),
        state.eeprom_busy && waited_ms < timeout_ms ==> r == Ok::<WaitStep, DeviceError>(
            WaitStep::PollAgain,
        ),
        state.eeprom_busy && waited_ms >= timeout_ms ==> r == Err::<WaitStep, DeviceError>(
            DeviceError::Timeout,
        ),
{
    if !state.eeprom_busy {
        Ok(WaitStep::Ready)
    } else if waited_ms < timeout_ms {
        Ok(WaitStep::PollAgain)
    } else {
        Err(DeviceError::Timeout)
    }
}

} // verus!
