use vstd::prelude::*;

verus! {

/// The largest response frame the device sends.
pub const MAX_PAYLOAD_SIZE: usize = 64;

/// Which module sits in a slot of the keyboard.
#[derive(Debug, Clone, Copy, PartialEq, Eq, Structural)]
pub enum ModuleSlots {
    NoModule,
    LeftKeyboardHalf,
    KeyClusterLeft,
    TrackballRight,
    TrackpointRight,
    TouchpadRight,
}

impl ModuleSlots {
    /// The byte that stands for this value on the wire.
    pub open spec fn spec_code(self) -> u8 {
        match self {
            ModuleSlots::NoModule => 0,
            ModuleSlots::LeftKeyboardHalf => 1,
            ModuleSlots::KeyClusterLeft => 2,
            ModuleSlots::TrackballRight => 3,
            ModuleSlots::TrackpointRight => 4,
            ModuleSlots::TouchpadRight => 5,
        }
    }

    pub fn code(self) -> (r: u8)
        ensures
            r == self.spec_code(),
    {
        match self {
            ModuleSlots::NoModule => 0,
            ModuleSlots::LeftKeyboardHalf => 1,
            ModuleSlots::KeyClusterLeft => 2,
            ModuleSlots::TrackballRight => 3,
            ModuleSlots::TrackpointRight => 4,
            ModuleSlots::TouchpadRight => 5,
        }
    }

    /// The value that a byte stands for, if any.
    pub fn from_code(b: u8) -> (r: Option<ModuleSlots>)
        ensures
            match r {
                Some(v) => v.spec_code() == b,
                None => forall|v: ModuleSlots| v.spec_code() != b,
            },
    {
        match b {
            0 => Some(ModuleSlots::NoModule),
            1 => Some(ModuleSlots::LeftKeyboardHalf),
            2 => Some(ModuleSlots::KeyClusterLeft),
            3 => Some(ModuleSlots::TrackballRight),
            4 => Some(ModuleSlots::TrackpointRight),
            5 => Some(ModuleSlots::TouchpadRight),
            _ => None,
        }
    }
}

/// The opcodes of the USB command protocol.
#[derive(Debug, Clone, Copy, PartialEq, Eq, Structural)]
pub enum UsbCommand {
    GetProperty,
    Reenumerate,
    JumpToModuleBootloader,
    SendKbootCommandToModule,
    ReadConfig,
    WriteHardwareConfig,
    WriteStagingUserConfig,
    ApplyConfig,
    LaunchEepromTransfer,
    GetDeviceState,
    SetTestLed,
    GetDebugBuffer,
    GetAdcValue,
    SetLedPwmBrightness,
    GetModuleProperty,
    GetSlaveI2cErrors,
    SetI2cBaudRate,
    SwitchKeymap,
    GetVariable,
    SetVariable,
    ExecMacroCommand,
}

impl UsbCommand {
    /// The byte that stands for this value on the wire.
    pub open spec fn spec_code(self) -> u8 {
        match self {
            UsbCommand::GetProperty => 0,
            UsbCommand::Reenumerate => 1,
            UsbCommand::JumpToModuleBootloader => 2,
            UsbCommand::SendKbootCommandToModule => 3,
            UsbCommand::ReadConfig => 4,
            UsbCommand::WriteHardwareConfig => 5,
            UsbCommand::WriteStagingUserConfig => 6,
            UsbCommand::ApplyConfig => 7,
            UsbCommand::LaunchEepromTransfer => 8,
            UsbCommand::GetDeviceState => 9,
            UsbCommand::SetTestLed => 10,
            UsbCommand::GetDebugBuffer => 11,
            UsbCommand::GetAdcValue => 12,
            UsbCommand::SetLedPwmBrightness => 13,
            UsbCommand::GetModuleProperty => 14,
            UsbCommand::GetSlaveI2cErrors => 15,
            UsbCommand::SetI2cBaudRate => 16,
            UsbCommand::SwitchKeymap => 17,
            UsbCommand::GetVariable => 18,
            UsbCommand::SetVariable => 19,
            UsbCommand::ExecMacroCommand => 20,
        }
    }

    pub fn code(self) -> (r: u8)
        ensures
            r == self.spec_code(),
    {
        match self {
            UsbCommand::GetProperty => 0,
            UsbCommand::Reenumerate => 1,
            UsbCommand::JumpToModuleBootloader => 2,
            UsbCommand::SendKbootCommandToModule => 3,
            UsbCommand::ReadConfig => 4,
            UsbCommand::WriteHardwareConfig => 5,
            UsbCommand::WriteStagingUserConfig => 6,
            UsbCommand::ApplyConfig => 7,
            UsbCommand::LaunchEepromTransfer => 8,
            UsbCommand::GetDeviceState => 9,
            UsbCommand::SetTestLed => 10,
            UsbCommand::GetDebugBuffer => 11,
            UsbCommand::GetAdcValue => 12,
            UsbCommand::SetLedPwmBrightness => 13,
            UsbCommand::GetModuleProperty => 14,
            UsbCommand::GetSlaveI2cErrors => 15,
            UsbCommand::SetI2cBaudRate => 16,
            UsbCommand::SwitchKeymap => 17,
            UsbCommand::GetVariable => 18,
            UsbCommand::SetVariable => 19,
            UsbCommand::ExecMacroCommand => 20,
        }
    }
}

/// Direction of an EEPROM transfer.
#[derive(Debug, Clone, Copy, PartialEq, Eq, Structural)]
pub enum EepromOperation {
    Read,
    Write,
}

/// The persisted configuration regions of the device.
#[derive(Debug, Clone, Copy, PartialEq, Eq, Structural)]
pub enum ConfigBufferId {
    HardwareConfig,
    StagingUserConfig,
    ValidatedUserConfig,
}

impl ConfigBufferId {
    /// The byte that stands for this value on the wire.
    pub open spec fn spec_code(self) -> u8 {
        match self {
            ConfigBufferId::HardwareConfig => 0,
            ConfigBufferId::StagingUserConfig => 1,
            ConfigBufferId::ValidatedUserConfig => 2,
        }
    }

    pub fn code(self) -> (r: u8)
        ensures
            r == self.spec_code(),
    {
        match self {
            ConfigBufferId::HardwareConfig => 0,
            ConfigBufferId::StagingUserConfig => 1,
            ConfigBufferId::ValidatedUserConfig => 2,
        }
    }

    /// The value that a byte stands for, if any.
    pub fn from_code(b: u8) -> (r: Option<ConfigBufferId>)
        ensures
            match r {
                Some(v) => v.spec_code() == b,
                None => forall|v: ConfigBufferId| v.spec_code() != b,
            },
    {
        match b {
            0 => Some(ConfigBufferId::HardwareConfig),
            1 => Some(ConfigBufferId::StagingUserConfig),
            2 => Some(ConfigBufferId::ValidatedUserConfig),
            _ => None,
        }
    }
}

/// Properties that the get-property command can query.
#[derive(Debug, Clone, Copy, PartialEq, Eq, Structural)]
pub enum DevicePropertyIds {
    DeviceProtocolVersion,
    ProtocolVersions,
    ConfigSizes,
    CurrentKbootCommand,
    I2cBaudRate,
    Uptime,
    GitTag,
    GitRepo,
}

impl DevicePropertyIds {
    /// The byte that stands for this value on the wire.
    pub open spec fn spec_code(self) -> u8 {
        match self {
            DevicePropertyIds::DeviceProtocolVersion => 0,
            DevicePropertyIds::ProtocolVersions => 1,
            DevicePropertyIds::ConfigSizes => 2,
            DevicePropertyIds::CurrentKbootCommand => 3,
            DevicePropertyIds::I2cBaudRate => 4,
            DevicePropertyIds::Uptime => 5,
            DevicePropertyIds::GitTag => 6,
            DevicePropertyIds::GitRepo => 7,
        }
    }

    pub fn code(self) -> (r: u8)
        ensures
            r == self.spec_code(),
    {
        match self {
            DevicePropertyIds::DeviceProtocolVersion => 0,
            DevicePropertyIds::ProtocolVersions => 1,
            DevicePropertyIds::ConfigSizes => 2,
            DevicePropertyIds::CurrentKbootCommand => 3,
            DevicePropertyIds::I2cBaudRate => 4,
            DevicePropertyIds::Uptime => 5,
            DevicePropertyIds::GitTag => 6,
            DevicePropertyIds::GitRepo => 7,
        }
    }
}

/// The USB identities the device can enumerate as.
#[derive(Debug, Clone, Copy, PartialEq, Eq, Structural)]
pub enum EnumerationModes {
    Bootloader,
    Buspal,
    NormalKeyboard,
    CompatibleKeyboard,
}

/// Commands for a module's bootloader.
#[derive(Debug, Clone, Copy, PartialEq, Eq, Structural)]
pub enum KbootCommands {
    Idle,
    Ping,
    Reset,
}

/// Properties that the get-module-property command can query.
#[derive(Debug, Clone, Copy, PartialEq, Eq, Structural)]
pub enum ModulePropertyId {
    ProtocolVersions,
    GitTag,
    GitRepo,
}

impl ModulePropertyId {
    /// The byte that stands for this value on the wire.
    pub open spec fn spec_code(self) -> u8 {
        match self {
            ModulePropertyId::ProtocolVersions => 0,
            ModulePropertyId::GitTag => 1,
            ModulePropertyId::GitRepo => 2,
        }
    }

    pub fn code(self) -> (r: u8)
        ensures
            r == self.spec_code(),
    {
        match self {
            ModulePropertyId::ProtocolVersions => 0,
            ModulePropertyId::GitTag => 1,
            ModulePropertyId::GitRepo => 2,
        }
    }
}

/// Runtime variables readable with the get-variable command.
#[derive(Debug, Clone, Copy, PartialEq, Eq, Structural)]
pub enum UsbVariables {
    TestSwitches,
    TestUsbStack,
    DebounceTimePress,
    DebounceTimeRelease,
    UsbReportSemaphore,
}

impl UsbVariables {
    /// The byte that stands for this value on the wire.
    pub open spec fn spec_code(self) -> u8 {
        match self {
            UsbVariables::TestSwitches => 0,
            UsbVariables::TestUsbStack => 1,
            UsbVariables::DebounceTimePress => 2,
            UsbVariables::DebounceTimeRelease => 3,
            UsbVariables::UsbReportSemaphore => 4,
        }
    }

    pub fn code(self) -> (r: u8)
        ensures
            r == self.spec_code(),
    {
        match self {
            UsbVariables::TestSwitches => 0,
            UsbVariables::TestUsbStack => 1,
            UsbVariables::DebounceTimePress => 2,
            UsbVariables::DebounceTimeRelease => 3,
            UsbVariables::UsbReportSemaphore => 4,
        }
    }
}

/// Tags of macro actions; key macro actions use the range up to `LastKeyMacroAction`, mouse button ones up to `LastMouseButtonMacroAction`.
#[derive(Debug, Clone, Copy, PartialEq, Eq, Structural)]
pub enum MacroActionId {
    KeyMacroAction,
    LastKeyMacroAction,
    MouseButtonMacroAction,
    LastMouseButtonMacroAction,
    MoveMouseMacroAction,
    ScrollMouseMacroAction,
    DelayMacroAction,
    TextMacroAction,
    CommandMacroAction,
}

impl MacroActionId {
    /// The byte that stands for this value on the wire.
    pub open spec fn spec_code(self) -> u8 {
        match self {
            MacroActionId::KeyMacroAction => 0,
            MacroActionId::LastKeyMacroAction => 63,
            MacroActionId::MouseButtonMacroAction => 64,
            MacroActionId::LastMouseButtonMacroAction => 66,
            MacroActionId::MoveMouseMacroAction => 67,
            MacroActionId::ScrollMouseMacroAction => 68,
            MacroActionId::DelayMacroAction => 69,
            MacroActionId::TextMacroAction => 70,
            MacroActionId::CommandMacroAction => 71,
        }
    }

    pub fn code(self) -> (r: u8)
        ensures
            r == self.spec_code(),
    {
        match self {
            MacroActionId::KeyMacroAction => 0,
            MacroActionId::LastKeyMacroAction => 63,
            MacroActionId::MouseButtonMacroAction => 64,
            MacroActionId::LastMouseButtonMacroAction => 66,
            MacroActionId::MoveMouseMacroAction => 67,
            MacroActionId::ScrollMouseMacroAction => 68,
            MacroActionId::DelayMacroAction => 69,
            MacroActionId::TextMacroAction => 70,
            MacroActionId::CommandMacroAction => 71,
        }
    }
}

/// Tags of key actions; keystrokes use the range from `KeystrokeAction` up to, not including, `LastKeystrokeAction`, the tag doubling as the keystroke's flags.
#[derive(Debug, Clone, Copy, PartialEq, Eq, Structural)]
pub enum KeyActionId {
    NoneAction,
    KeystrokeAction,
    LastKeystrokeAction,
    SwitchLayerAction,
    SwitchKeymapAction,
    MouseAction,
    PlayMacroAction,
}

impl KeyActionId {
    /// The byte that stands for this value on the wire.
    pub open spec fn spec_code(self) -> u8 {
        match self {
            KeyActionId::NoneAction => 0,
            KeyActionId::KeystrokeAction => 1,
            KeyActionId::LastKeystrokeAction => 31,
            KeyActionId::SwitchLayerAction => 32,
            KeyActionId::SwitchKeymapAction => 33,
            KeyActionId::MouseAction => 34,
            KeyActionId::PlayMacroAction => 35,
        }
    }

    pub fn code(self) -> (r: u8)
        ensures
            r == self.spec_code(),
    {
        match self {
            KeyActionId::NoneAction => 0,
            KeyActionId::KeystrokeAction => 1,
            KeyActionId::LastKeystrokeAction => 31,
            KeyActionId::SwitchLayerAction => 32,
            KeyActionId::SwitchKeymapAction => 33,
            KeyActionId::MouseAction => 34,
            KeyActionId::PlayMacroAction => 35,
        }
    }
}

/// The bits of a keystroke's flags that announce its optional fields.
#[derive(Debug, Clone, Copy, PartialEq, Eq, Structural)]
pub enum KeystrokeActionFlag {
    Scancode,
    ModifierMask,
    SecondaryRoleAction,
}

impl KeystrokeActionFlag {
    /// The byte that stands for this value on the wire.
    pub open spec fn spec_code(self) -> u8 {
        match self {
            KeystrokeActionFlag::Scancode => 1,
            KeystrokeActionFlag::ModifierMask => 2,
            KeystrokeActionFlag::SecondaryRoleAction => 4,
        }
    }

    pub fn code(self) -> (r: u8)
        ensures
            r == self.spec_code(),
    {
        match self {
            KeystrokeActionFlag::Scancode => 1,
            KeystrokeActionFlag::ModifierMask => 2,
            KeystrokeActionFlag::SecondaryRoleAction => 4,
        }
    }
}

/// The kind of a keystroke, in bits 3 and 4 of its flags.
#[derive(Debug, Clone, Copy, PartialEq, Eq, Structural)]
pub enum KeystrokeType {
    Basic,
    ShortMedia,
    LongMedia,
    System,
}

impl KeystrokeType {
    /// The byte that stands for this value on the wire.
    pub open spec fn spec_code(self) -> u8 {
        match self {
            KeystrokeType::Basic => 0,
            KeystrokeType::ShortMedia => 1,
            KeystrokeType::LongMedia => 2,
            KeystrokeType::System => 3,
        }
    }

    pub fn code(self) -> (r: u8)
        ensures
            r == self.spec_code(),
    {
        match self {
            KeystrokeType::Basic => 0,
            KeystrokeType::ShortMedia => 1,
            KeystrokeType::LongMedia => 2,
            KeystrokeType::System => 3,
        }
    }
}

/// How a switch-layer action behaves.
#[derive(Debug, Clone, Copy, PartialEq, Eq, Structural)]
pub enum SwitchLayerMode {
    HoldAndDoubleTapToggle,
    Toggle,
    Hold,
}

impl SwitchLayerMode {
    /// The byte that stands for this value on the wire.
    pub open spec fn spec_code(self) -> u8 {
        match self {
            SwitchLayerMode::HoldAndDoubleTapToggle => 0,
            SwitchLayerMode::Toggle => 1,
            SwitchLayerMode::Hold => 2,
        }
    }

    pub fn code(self) -> (r: u8)
        ensures
            r == self.spec_code(),
    {
        match self {
            SwitchLayerMode::HoldAndDoubleTapToggle => 0,
            SwitchLayerMode::Toggle => 1,
            SwitchLayerMode::Hold => 2,
        }
    }
}

/// What a mouse action does.
#[derive(Debug, Clone, Copy, PartialEq, Eq, Structural)]
pub enum MouseActionParam {
    LeftClick,
    MiddleClick,
    RightClick,
    MoveUp,
    MoveDown,
    MoveLeft,
    MoveRight,
    ScrollUp,
    ScrollDown,
    ScrollLeft,
    ScrollRight,
    Accelerate,
    Decelerate,
    Button4,
    Button5,
    Button6,
    Button7,
    Button8,
}

impl MouseActionParam {
    /// The byte that stands for this value on the wire.
    pub open spec fn spec_code(self) -> u8 {
        match self {
            MouseActionParam::LeftClick => 0,
            MouseActionParam::MiddleClick => 1,
            MouseActionParam::RightClick => 2,
            MouseActionParam::MoveUp => 3,
            MouseActionParam::MoveDown => 4,
            MouseActionParam::MoveLeft => 5,
            MouseActionParam::MoveRight => 6,
            MouseActionParam::ScrollUp => 7,
            MouseActionParam::ScrollDown => 8,
            MouseActionParam::ScrollLeft => 9,
            MouseActionParam::ScrollRight => 10,
            MouseActionParam::Accelerate => 11,
            MouseActionParam::Decelerate => 12,
            MouseActionParam::Button4 => 13,
            MouseActionParam::Button5 => 14,
            MouseActionParam::Button6 => 15,
            MouseActionParam::Button7 => 16,
            MouseActionParam::Button8 => 17,
        }
    }

    pub fn code(self) -> (r: u8)
        ensures
            r == self.spec_code(),
    {
        match self {
            MouseActionParam::LeftClick => 0,
            MouseActionParam::MiddleClick => 1,
            MouseActionParam::RightClick => 2,
            MouseActionParam::MoveUp => 3,
            MouseActionParam::MoveDown => 4,
            MouseActionParam::MoveLeft => 5,
            MouseActionParam::MoveRight => 6,
            MouseActionParam::ScrollUp => 7,
            MouseActionParam::ScrollDown => 8,
            MouseActionParam::ScrollLeft => 9,
            MouseActionParam::ScrollRight => 10,
            MouseActionParam::Accelerate => 11,
            MouseActionParam::Decelerate => 12,
            MouseActionParam::Button4 => 13,
            MouseActionParam::Button5 => 14,
            MouseActionParam::Button6 => 15,
            MouseActionParam::Button7 => 16,
            MouseActionParam::Button8 => 17,
        }
    }
}

/// The name of a layer by its number: base, mod, fn and mouse.
pub fn layer_number_to_string(layer: usize) -> (r: Option<&'static str>)
    ensures
        layer == 0 ==> r == Some("base"),
        layer == 1 ==> r == Some("mod"),
        layer == 2 ==> r == Some("fn"),
        layer == 3 ==> r == Some("mouse"),
        layer >= 4 ==> r is None,
{
    match layer {
        0 => Some("base"),
        1 => Some("mod"),
        2 => Some("fn"),
        3 => Some("mouse"),
        _ => None,
    }
}

} // verus!
