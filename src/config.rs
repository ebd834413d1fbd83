use vstd::prelude::*;

use crate::consts::{KeyActionId, KeystrokeActionFlag, KeystrokeType, MacroActionId};
use crate::cursor::{
    le_u16, le_u32,
    spec_read_bool, spec_read_compact_length, spec_read_string, spec_read_u16,
    spec_read_u8, UhkCursor,
};
use crate::error::{decoded, DeviceError, DeviceResult};

verus! {

/// The identity of the keyboard's hardware.
#[derive(Debug)]
pub struct HardwareConfig {
    pub signature: String,
    pub major: u8,
    pub minor: u8,
    pub patch: u8,
    pub brand_id: u8,
    pub device_id: u8,
    pub unique_id: u32,
    pub vendor_mode: bool,
    pub iso_mode: bool,
}

/// What a `HardwareConfig` holds.
pub struct HardwareConfigView {
    pub signature: Seq<char>,
    pub major: u8,
    pub minor: u8,
    pub patch: u8,
    pub brand_id: u8,
    pub device_id: u8,
    pub unique_id: u32,
    pub vendor_mode: bool,
    pub iso_mode: bool,
}

impl View for HardwareConfig {
    type V = HardwareConfigView;

    open spec fn view(&self) -> HardwareConfigView {
        HardwareConfigView {
            signature: self.signature@,
            major: self.major,
            minor: self.minor,
            patch: self.patch,
            brand_id: self.brand_id,
            device_id: self.device_id,
            unique_id: self.unique_id,
            vendor_mode: self.vendor_mode,
            iso_mode: self.iso_mode,
        }
    }
}

/// A hardware configuration: the signature string, then eleven bytes:
/// version (major, minor, patch), brand, device, a little-endian unique id,
/// and the vendor and ISO mode flags.
pub open spec fn spec_read_hardware_config(s: Seq<u8>, p: int) -> Result<(HardwareConfigView, int), DeviceError> {
    match spec_read_string(s, p) {
        Err(e) => Err(e),
        Ok((signature, q)) => if q + 11 <= s.len() {
            Ok(
                (
                    HardwareConfigView {
                        signature,
                        major: s[q],
                        minor: s[q + 1],
                        patch: s[q + 2],
                        brand_id: s[q + 3],
                        device_id: s[q + 4],
                        unique_id: le_u32(s[q + 5], s[q + 6], s[q + 7], s[q + 8]),
                        vendor_mode: s[q + 9] != 0,
                        iso_mode: s[q + 10] != 0,
                    },
                    q + 11,
                ),
            )
        } else {
            Err(DeviceError::OutOfData)
        },
    }
}

impl HardwareConfig {
    pub fn deserialize(cursor: &mut UhkCursor) -> (r: DeviceResult<HardwareConfig>)
        ensures
            final(cursor).bytes() == old(cursor).bytes(),
            decoded(r, spec_read_hardware_config(old(cursor).bytes(), old(cursor).pos()), final(cursor).pos()),
    {
        let signature = cursor.read_string()?;
        let major = cursor.read_u8()?;
        let minor = cursor.read_u8()?;
        let patch = cursor.read_u8()?;
        let brand_id = cursor.read_u8()?;
        let device_id = cursor.read_u8()?;
        let unique_id = cursor.read_u32()?;
        let vendor_mode = cursor.read_bool()?;
        let iso_mode = cursor.read_bool()?;
        Ok(
            HardwareConfig {
                signature,
                major,
                minor,
                patch,
                brand_id,
                device_id,
                unique_id,
                vendor_mode,
                iso_mode,
            },
        )
    }
}

/// How the pointer and scrolling move under the mouse keys.
#[derive(Debug, Clone, Copy, PartialEq, Eq, Structural)]
pub struct MouseConfig {
    pub move_initial_speed: u8,
    pub move_acceleration: u8,
    pub move_decelerated_speed: u8,
    pub move_base_speed: u8,
    pub move_accelerated_speed: u8,
    pub scroll_initial_speed: u8,
    pub scroll_acceleration: u8,
    pub scroll_decelerated_speed: u8,
    pub scroll_base_speed: u8,
    pub scroll_accelerated_speed: u8,
}

impl View for MouseConfig {
    type V = MouseConfig;

    open spec fn view(&self) -> MouseConfig {
        *self
    }
}

/// The mouse settings: ten bytes, five for movement and five for scrolling.
pub open spec fn spec_read_mouse_config(s: Seq<u8>, p: int) -> Result<(MouseConfig, int), DeviceError> {
    if 0 <= p && p + 10 <= s.len() {
        Ok(
            (
                MouseConfig {
                    move_initial_speed: s[p],
                    move_acceleration: s[p + 1],
                    move_decelerated_speed: s[p + 2],
                    move_base_speed: s[p + 3],
                    move_accelerated_speed: s[p + 4],
                    scroll_initial_speed: s[p + 5],
                    scroll_acceleration: s[p + 6],
                    scroll_decelerated_speed: s[p + 7],
                    scroll_base_speed: s[p + 8],
                    scroll_accelerated_speed: s[p + 9],
                },
                p + 10,
            ),
        )
    } else {
        Err(DeviceError::OutOfData)
    }
}

impl MouseConfig {
    fn deserialize(cursor: &mut UhkCursor) -> (r: DeviceResult<MouseConfig>)
        ensures
            final(cursor).bytes() == old(cursor).bytes(),
            decoded(r, spec_read_mouse_config(old(cursor).bytes(), old(cursor).pos()), final(cursor).pos()),
    {
        let move_initial_speed = cursor.read_u8()?;
        let move_acceleration = cursor.read_u8()?;
        let move_decelerated_speed = cursor.read_u8()?;
        let move_base_speed = cursor.read_u8()?;
        let move_accelerated_speed = cursor.read_u8()?;
        let scroll_initial_speed = cursor.read_u8()?;
        let scroll_acceleration = cursor.read_u8()?;
        let scroll_decelerated_speed = cursor.read_u8()?;
        let scroll_base_speed = cursor.read_u8()?;
        let scroll_accelerated_speed = cursor.read_u8()?;
        Ok(
            MouseConfig {
                move_initial_speed,
                move_acceleration,
                move_decelerated_speed,
                move_base_speed,
                move_accelerated_speed,
                scroll_initial_speed,
                scroll_acceleration,
                scroll_decelerated_speed,
                scroll_base_speed,
                scroll_accelerated_speed,
            },
        )
    }
}

/// The user's preferences.
#[derive(Debug)]
pub struct UserConfig {
    pub major: u16,
    pub minor: u16,
    pub patch: u16,
    pub length: u16,
    pub name: String,
    pub double_tap_switch_layer_timeout: u16,
    pub icons_and_layer_texts_brightness: u8,
    pub alphanumeric_segments_brighrness: u8,
    pub key_backlight_brightness: u8,
    pub mouse_config: MouseConfig,
}

/// What a `UserConfig` holds.
pub struct UserConfigView {
    pub major: u16,
    pub minor: u16,
    pub patch: u16,
    pub length: u16,
    pub name: Seq<char>,
    pub double_tap_switch_layer_timeout: u16,
    pub icons_and_layer_texts_brightness: u8,
    pub alphanumeric_segments_brighrness: u8,
    pub key_backlight_brightness: u8,
    pub mouse_config: MouseConfig,
}

impl View for UserConfig {
    type V = UserConfigView;

    open spec fn view(&self) -> UserConfigView {
        UserConfigView {
            major: self.major,
            minor: self.minor,
            patch: self.patch,
            length: self.length,
            name: self.name@,
            double_tap_switch_layer_timeout: self.double_tap_switch_layer_timeout,
            icons_and_layer_texts_brightness: self.icons_and_layer_texts_brightness,
            alphanumeric_segments_brighrness: self.alphanumeric_segments_brighrness,
            key_backlight_brightness: self.key_backlight_brightness,
            mouse_config: self.mouse_config,
        }
    }
}

/// A user configuration: version and length as four little-endian `u16`s,
/// the name string, the double-tap timeout (`u16`), three brightness bytes,
/// then the mouse settings.
pub open spec fn spec_read_user_config(s: Seq<u8>, p: int) -> Result<(UserConfigView, int), DeviceError> {
    if 0 <= p && p + 8 <= s.len() {
        match spec_read_string(s, p + 8) {
            Err(e) => Err(e),
            Ok((name, q)) => if q + 5 <= s.len() {
                match spec_read_mouse_config(s, q + 5) {
                    Err(e) => Err(e),
                    Ok((mouse_config, q1)) => Ok(
                        (
                            UserConfigView {
                                major: le_u16(s[p], s[p + 1]),
                                minor: le_u16(s[p + 2], s[p + 3]),
                                patch: le_u16(s[p + 4], s[p + 5]),
                                length: le_u16(s[p + 6], s[p + 7]),
                                name,
                                double_tap_switch_layer_timeout: le_u16(s[q], s[q + 1]),
                                icons_and_layer_texts_brightness: s[q + 2],
                                alphanumeric_segments_brighrness: s[q + 3],
                                key_backlight_brightness: s[q + 4],
                                mouse_config,
                            },
                            q1,
                        ),
                    ),
                }
            } else {
                Err(DeviceError::OutOfData)
            },
        }
    } else {
        Err(DeviceError::OutOfData)
    }
}

impl UserConfig {
    pub fn deserialize(cursor: &mut UhkCursor) -> (r: DeviceResult<UserConfig>)
        ensures
            final(cursor).bytes() == old(cursor).bytes(),
            decoded(r, spec_read_user_config(old(cursor).bytes(), old(cursor).pos()), final(cursor).pos()),
    {
        let major = cursor.read_u16()?;
        let minor = cursor.read_u16()?;
        let patch = cursor.read_u16()?;
        let length = cursor.read_u16()?;
        let name = cursor.read_string()?;
        let double_tap_switch_layer_timeout = cursor.read_u16()?;
        let icons_and_layer_texts_brightness = cursor.read_u8()?;
        let alphanumeric_segments_brighrness = cursor.read_u8()?;
        let key_backlight_brightness = cursor.read_u8()?;
        let mouse_config = MouseConfig::deserialize(cursor)?;
        Ok(
            UserConfig {
                major,
                minor,
                patch,
                length,
                name,
                double_tap_switch_layer_timeout,
                icons_and_layer_texts_brightness,
                alphanumeric_segments_brighrness,
                key_backlight_brightness,
                mouse_config,
            },
        )
    }
}

/// The binding of one key.
#[derive(Debug, Clone, Copy, PartialEq, Eq, Structural)]
pub enum KeyAction {
    /// The key does nothing.
    NoAction,
    /// Scancode, modifier mask and secondary role, each present or not.
    Keystroke(Option<u16>, Option<u8>, Option<u8>),
    /// Layer and mode.
    SwitchLayer(u8, u8),
    SwitchKeymap(u8),
    MouseAction(u8),
    /// Plays a macro; what identifies the macro is not decoded.
    PlayMacroAction,
}

impl View for KeyAction {
    type V = KeyAction;

    open spec fn view(&self) -> KeyAction {
        *self
    }
}

/// Whether a keystroke's flags announce a scancode.
pub open spec fn has_scancode(flags: u8) -> bool {
    flags % 2 == 1
}

/// Whether a keystroke's flags announce a modifier mask.
pub open spec fn has_modifier_mask(flags: u8) -> bool {
    flags / 2 % 2 == 1
}

/// Whether a keystroke's flags announce a secondary role.
pub open spec fn has_secondary_role(flags: u8) -> bool {
    flags / 4 % 2 == 1
}

/// The kind of a keystroke: basic, short media, long media or system.
pub open spec fn keystroke_kind(flags: u8) -> u8 {
    (flags / 8 % 4) as u8
}

proof fn lemma_flag_bits(flags: u8)
    ensures
        (flags & 1 != 0) == has_scancode(flags),
        (flags & 2 != 0) == has_modifier_mask(flags),
        (flags & 4 != 0) == has_secondary_role(flags),
        (flags >> 3) & 3 == keystroke_kind(flags),
{
    assert((flags & 1 != 0) == (flags % 2 == 1)) by (bit_vector);
    assert((flags & 2 != 0) == (flags / 2 % 2 == 1)) by (bit_vector);
    assert((flags & 4 != 0) == (flags / 4 % 2 == 1)) by (bit_vector);
    assert((flags >> 3) & 3 == (flags / 8 % 4) as u8) by (bit_vector);
}

/// A long media keystroke carries a two-byte scancode, the others one byte.
pub open spec fn is_long_media(flags: u8) -> bool {
    keystroke_kind(flags) == 2
}

/// The scancode of a keystroke, if its flags announce one.
pub open spec fn spec_read_scancode(s: Seq<u8>, p: int, flags: u8) -> Result<(Option<u16>, int), DeviceError> {
    if !has_scancode(flags) {
        Ok((None, p))
    } else if is_long_media(flags) {
        match spec_read_u16(s, p) {
            Ok((v, q)) => Ok((Some(v), q)),
            Err(e) => Err(e),
        }
    } else {
        match spec_read_u8(s, p) {
            Ok((v, q)) => Ok((Some(v as u16), q)),
            Err(e) => Err(e),
        }
    }
}

/// One byte if `present`, nothing otherwise.
pub open spec fn spec_read_optional_u8(s: Seq<u8>, p: int, present: bool) -> Result<(Option<u8>, int), DeviceError> {
    if !present {
        Ok((None, p))
    } else {
        match spec_read_u8(s, p) {
            Ok((v, q)) => Ok((Some(v), q)),
            Err(e) => Err(e),
        }
    }
}

/// The fields of a keystroke whose tag is `flags`: scancode, modifier mask and
/// secondary role, in that order, each read only when its bit is set.
pub open spec fn spec_read_keystroke(s: Seq<u8>, p: int, flags: u8) -> Result<(KeyAction, int), DeviceError> {
    match spec_read_scancode(s, p, flags) {
        Err(e) => Err(e),
        Ok((scancode, q1)) => match spec_read_optional_u8(s, q1, has_modifier_mask(flags)) {
            Err(e) => Err(e),
            Ok((mask, q2)) => match spec_read_optional_u8(s, q2, has_secondary_role(flags)) {
                Err(e) => Err(e),
                Ok((role, q3)) => Ok((KeyAction::Keystroke(scancode, mask, role), q3)),
            },
        },
    }
}

/// Whether a tag falls in the keystroke range.
pub open spec fn is_keystroke_id(id: u8) -> bool {
    1 <= id < 31
}

/// A key action: a tag byte, then the fields that the tag calls for.
pub open spec fn spec_read_key_action(s: Seq<u8>, p: int) -> Result<(KeyAction, int), DeviceError> {
    match spec_read_u8(s, p) {
        Err(e) => Err(e),
        Ok((id, q)) => if id == 0 {
            Ok((KeyAction::NoAction, q))
        } else if is_keystroke_id(id) {
            spec_read_keystroke(s, q, id)
        } else if id == 32 {
            match spec_read_u8(s, q) {
                Err(e) => Err(e),
                Ok((layer, q1)) => match spec_read_u8(s, q1) {
                    Err(e) => Err(e),
                    Ok((mode, q2)) => Ok((KeyAction::SwitchLayer(layer, mode), q2)),
                },
            }
        } else if id == 33 {
            match spec_read_u8(s, q) {
                Err(e) => Err(e),
                Ok((target, q1)) => Ok((KeyAction::SwitchKeymap(target), q1)),
            }
        } else if id == 34 {
            match spec_read_u8(s, q) {
                Err(e) => Err(e),
                Ok((param, q1)) => Ok((KeyAction::MouseAction(param), q1)),
            }
        } else if id == 35 {
            Ok((KeyAction::PlayMacroAction, q))
        } else {
            Err(DeviceError::UnknownActionId(id))
        },
    }
}

/// How many of the three field flags (scancode, modifier mask, secondary
/// role) a keystroke's tag has set.
pub open spec fn field_flag_count(flags: u8) -> nat {
    (if has_scancode(flags) { 1nat } else { 0nat }) + (if has_modifier_mask(flags) { 1nat } else { 0nat }) + (
    if has_secondary_role(flags) { 1nat } else { 0nat })
}

/// The bytes a keystroke action takes, its tag included: one per field flag
/// set, one more for a long media scancode, which is two bytes wide.
pub open spec fn keystroke_width(flags: u8) -> nat {
    1 + field_flag_count(flags) + if has_scancode(flags) && is_long_media(flags) {
        1nat
    } else {
        0nat
    }
}

/// A keystroke tag consumes exactly `keystroke_width` bytes: when that many
/// bytes are there, it decodes to a keystroke whose fields are present just
/// where the tag's flags say; when fewer are, the buffer runs out of data.
pub proof fn lemma_keystroke_width(s: Seq<u8>, p: int)
    requires
        0 <= p < s.len(),
        is_keystroke_id(s[p]),
    ensures
        p + keystroke_width(s[p]) <= s.len() ==> (spec_read_key_action(s, p) matches Ok(
            (KeyAction::Keystroke(scancode, mask, role), q),
        ) && q == p + keystroke_width(s[p]) && (scancode is Some <==> has_scancode(s[p])) && (
        mask is Some <==> has_modifier_mask(s[p])) && (role is Some <==> has_secondary_role(s[p]))),
        p + keystroke_width(s[p]) > s.len() ==> spec_read_key_action(s, p) == Err::<(KeyAction, int), DeviceError>(
            DeviceError::OutOfData,
        ),
{
}

impl KeyAction {
    pub fn deserialize(cursor: &mut UhkCursor) -> (r: DeviceResult<KeyAction>)
        ensures
            final(cursor).bytes() == old(cursor).bytes(),
            decoded(r, spec_read_key_action(old(cursor).bytes(), old(cursor).pos()), final(cursor).pos()),
            r matches Err(DeviceError::UnknownActionId(_)) ==> final(cursor).pos() == old(cursor).pos() + 1,
    {
        let action_id = cursor.read_u8()?;
        if action_id == KeyActionId::NoneAction.code() {
            Ok(KeyAction::NoAction)
        } else if action_id >= KeyActionId::KeystrokeAction.code() && action_id
            < KeyActionId::LastKeystrokeAction.code() {
            let flags = action_id - KeyActionId::NoneAction.code();
            proof {
                lemma_flag_bits(flags);
            }
            let kind = (flags >> 3) & 0b11;
            let scancode = if flags & KeystrokeActionFlag::Scancode.code() != 0 {
                if kind == KeystrokeType::LongMedia.code() {
                    Some(cursor.read_u16()?)
                } else {
                    Some(cursor.read_u8()? as u16)
                }
            } else {
                None
            };
            let mask = if flags & KeystrokeActionFlag::ModifierMask.code() != 0 {
                Some(cursor.read_u8()?)
            } else {
                None
            };
            let role = if flags & KeystrokeActionFlag::SecondaryRoleAction.code() != 0 {
                Some(cursor.read_u8()?)
            } else {
                None
            };
            Ok(KeyAction::Keystroke(scancode, mask, role))
        } else if action_id == KeyActionId::SwitchLayerAction.code() {
            let layer = cursor.read_u8()?;
            let mode = cursor.read_u8()?;
            Ok(KeyAction::SwitchLayer(layer, mode))
        } else if action_id == KeyActionId::SwitchKeymapAction.code() {
            let target = cursor.read_u8()?;
            Ok(KeyAction::SwitchKeymap(target))
        } else if action_id == KeyActionId::MouseAction.code() {
            let param = cursor.read_u8()?;
            Ok(KeyAction::MouseAction(param))
        } else if action_id == KeyActionId::PlayMacroAction.code() {
            Ok(KeyAction::PlayMacroAction)
        } else {
            Err(DeviceError::UnknownActionId(action_id))
        }
    }
}

/// The key actions of a module: `n` of them, one after another.
pub open spec fn spec_read_key_actions(s: Seq<u8>, p: int, n: nat) -> Result<(Seq<KeyAction>, int), DeviceError>
    decreases n,
{
    if n == 0 {
        Ok((Seq::empty(), p))
    } else {
        match spec_read_key_actions(s, p, (n - 1) as nat) {
            Err(e) => Err(e),
            Ok((xs, q)) => match spec_read_key_action(s, q) {
                Err(e) => Err(e),
                Ok((x, q1)) => Ok((xs.push(x), q1)),
            },
        }
    }
}

proof fn lemma_key_actions_failed(s: Seq<u8>, p: int, i: nat, n: nat)
    requires
        i <= n,
        spec_read_key_actions(s, p, i) is Err,
    ensures
        spec_read_key_actions(s, p, n) == spec_read_key_actions(s, p, i),
    decreases n,
{
    if n > i {
        lemma_key_actions_failed(s, p, i, (n - 1) as nat);
    }
}

/// The keys of one module within a layer.
#[derive(Debug)]
pub struct ModuleConfig {
    pub id: u8,
    pub key_actions: Vec<KeyAction>,
}

/// What a `ModuleConfig` holds.
pub struct ModuleConfigView {
    pub id: u8,
    pub key_actions: Seq<KeyAction>,
}

impl View for ModuleConfig {
    type V = ModuleConfigView;

    open spec fn view(&self) -> ModuleConfigView {
        ModuleConfigView { id: self.id, key_actions: self.key_actions@ }
    }
}

/// A module: its id, a compact count, then that many key actions.
pub open spec fn spec_read_module_config(s: Seq<u8>, p: int) -> Result<(ModuleConfigView, int), DeviceError> {
    match spec_read_u8(s, p) {
        Err(e) => Err(e),
        Ok((id, q)) => match spec_read_compact_length(s, q) {
            Err(e) => Err(e),
            Ok((n, q1)) => match spec_read_key_actions(s, q1, n as nat) {
                Err(e) => Err(e),
                Ok((key_actions, q2)) => Ok((ModuleConfigView { id, key_actions }, q2)),
            },
        },
    }
}

impl ModuleConfig {
    pub fn deserialize(cursor: &mut UhkCursor) -> (r: DeviceResult<ModuleConfig>)
        ensures
            final(cursor).bytes() == old(cursor).bytes(),
            decoded(r, spec_read_module_config(old(cursor).bytes(), old(cursor).pos()), final(cursor).pos()),
    {
        let ghost s = old(cursor).bytes();
        let ghost p0 = old(cursor).pos();
        let id = cursor.read_u8()?;
        let n = cursor.read_compact_length()?;
        let ghost start = cursor.pos();
        assert(spec_read_u8(s, p0) == Ok::<(u8, int), DeviceError>((id, p0 + 1)));
        assert(spec_read_compact_length(s, p0 + 1) == Ok::<(u16, int), DeviceError>((n, start)));
        let mut key_actions: Vec<KeyAction> = Vec::new();
        let mut i: u16 = 0;
        while i < n
            invariant
                i <= n,
                cursor.bytes() == s,
                s == old(cursor).bytes(),
                p0 == old(cursor).pos(),
                spec_read_u8(s, p0) == Ok::<(u8, int), DeviceError>((id, p0 + 1)),
                spec_read_compact_length(s, p0 + 1) == Ok::<(u16, int), DeviceError>((n, start)),
                spec_read_key_actions(s, start, i as nat) == Ok::<(Seq<KeyAction>, int), DeviceError>(
                    (key_actions@, cursor.pos()),
                ),
            decreases n - i,
        {
            match KeyAction::deserialize(cursor) {
                Ok(action) => {
                    key_actions.push(action);
                },
                Err(e) => {
                    proof {
                        lemma_key_actions_failed(s, start, (i + 1) as nat, n as nat);
                    }
                    return Err(e);
                },
            }
            i = i + 1;
        }
        Ok(ModuleConfig { id, key_actions })
    }
}

/// The modules of a layer: `n` of them, one after another.
pub open spec fn spec_read_module_configs(s: Seq<u8>, p: int, n: nat) -> Result<(Seq<ModuleConfigView>, int), DeviceError>
    decreases n,
{
    if n == 0 {
        Ok((Seq::empty(), p))
    } else {
        match spec_read_module_configs(s, p, (n - 1) as nat) {
            Err(e) => Err(e),
            Ok((xs, q)) => match spec_read_module_config(s, q) {
                Err(e) => Err(e),
                Ok((x, q1)) => Ok((xs.push(x), q1)),
            },
        }
    }
}

proof fn lemma_module_configs_failed(s: Seq<u8>, p: int, i: nat, n: nat)
    requires
        i <= n,
        spec_read_module_configs(s, p, i) is Err,
    ensures
        spec_read_module_configs(s, p, n) == spec_read_module_configs(s, p, i),
    decreases n,
{
    if n > i {
        lemma_module_configs_failed(s, p, i, (n - 1) as nat);
    }
}

/// One layer of a keymap.
#[derive(Debug)]
pub struct LayerConfig {
    pub id: u8,
    pub modules: Vec<ModuleConfig>,
}

/// What a `LayerConfig` holds.
pub struct LayerConfigView {
    pub id: u8,
    pub modules: Seq<ModuleConfigView>,
}

impl View for LayerConfig {
    type V = LayerConfigView;

    open spec fn view(&self) -> LayerConfigView {
        LayerConfigView { id: self.id, modules: self.modules@.map_values(|m: ModuleConfig| m@) }
    }
}

/// A layer: its id, a compact count, then that many modules.
pub open spec fn spec_read_layer_config(s: Seq<u8>, p: int) -> Result<(LayerConfigView, int), DeviceError> {
    match spec_read_u8(s, p) {
        Err(e) => Err(e),
        Ok((id, q)) => match spec_read_compact_length(s, q) {
            Err(e) => Err(e),
            Ok((n, q1)) => match spec_read_module_configs(s, q1, n as nat) {
                Err(e) => Err(e),
                Ok((modules, q2)) => Ok((LayerConfigView { id, modules }, q2)),
            },
        },
    }
}

impl LayerConfig {
    pub fn deserialize(cursor: &mut UhkCursor) -> (r: DeviceResult<LayerConfig>)
        ensures
            final(cursor).bytes() == old(cursor).bytes(),
            decoded(r, spec_read_layer_config(old(cursor).bytes(), old(cursor).pos()), final(cursor).pos()),
    {
        let ghost s = old(cursor).bytes();
        let ghost p0 = old(cursor).pos();
        let id = cursor.read_u8()?;
        let n = cursor.read_compact_length()?;
        let ghost start = cursor.pos();
        assert(spec_read_u8(s, p0) == Ok::<(u8, int), DeviceError>((id, p0 + 1)));
        assert(spec_read_compact_length(s, p0 + 1) == Ok::<(u16, int), DeviceError>((n, start)));
        let mut modules: Vec<ModuleConfig> = Vec::new();
        assert(modules@.map_values(|m: ModuleConfig| m@) =~= Seq::<ModuleConfigView>::empty());
        let mut i: u16 = 0;
        while i < n
            invariant
                i <= n,
                cursor.bytes() == s,
                s == old(cursor).bytes(),
                p0 == old(cursor).pos(),
                spec_read_u8(s, p0) == Ok::<(u8, int), DeviceError>((id, p0 + 1)),
                spec_read_compact_length(s, p0 + 1) == Ok::<(u16, int), DeviceError>((n, start)),
                spec_read_module_configs(s, start, i as nat) == Ok::<(Seq<ModuleConfigView>, int), DeviceError>(
                    (modules@.map_values(|m: ModuleConfig| m@), cursor.pos()),
                ),
            decreases n - i,
        {
            let ghost before = modules@;
            match ModuleConfig::deserialize(cursor) {
                Ok(module) => {
                    let ghost v = module@;
                    modules.push(module);
                    assert(modules@.map_values(|m: ModuleConfig| m@) =~= before.map_values(
                        |m: ModuleConfig| m@,
                    ).push(v));
                },
                Err(e) => {
                    proof {
                        lemma_module_configs_failed(s, start, (i + 1) as nat, n as nat);
                    }
                    return Err(e);
                },
            }
            i = i + 1;
        }
        Ok(LayerConfig { id, modules })
    }
}

/// The layers of a keymap: `n` of them, one after another.
pub open spec fn spec_read_layer_configs(s: Seq<u8>, p: int, n: nat) -> Result<(Seq<LayerConfigView>, int), DeviceError>
    decreases n,
{
    if n == 0 {
        Ok((Seq::empty(), p))
    } else {
        match spec_read_layer_configs(s, p, (n - 1) as nat) {
            Err(e) => Err(e),
            Ok((xs, q)) => match spec_read_layer_config(s, q) {
                Err(e) => Err(e),
                Ok((x, q1)) => Ok((xs.push(x), q1)),
            },
        }
    }
}

proof fn lemma_layer_configs_failed(s: Seq<u8>, p: int, i: nat, n: nat)
    requires
        i <= n,
        spec_read_layer_configs(s, p, i) is Err,
    ensures
        spec_read_layer_configs(s, p, n) == spec_read_layer_configs(s, p, i),
    decreases n,
{
    if n > i {
        lemma_layer_configs_failed(s, p, i, (n - 1) as nat);
    }
}

/// A named keymap and its layers.
#[derive(Debug)]
pub struct KeymapConfig {
    pub abbr: String,
    pub default: bool,
    pub name: String,
    pub desc: String,
    pub layers: Vec<LayerConfig>,
}

/// What a `KeymapConfig` holds.
pub struct KeymapConfigView {
    pub abbr: Seq<char>,
    pub default: bool,
    pub name: Seq<char>,
    pub desc: Seq<char>,
    pub layers: Seq<LayerConfigView>,
}

impl View for KeymapConfig {
    type V = KeymapConfigView;

    open spec fn view(&self) -> KeymapConfigView {
        KeymapConfigView {
            abbr: self.abbr@,
            default: self.default,
            name: self.name@,
            desc: self.desc@,
            layers: self.layers@.map_values(|l: LayerConfig| l@),
        }
    }
}

/// A keymap: abbreviation, default flag, name, description, a compact count,
/// then that many layers.
pub open spec fn spec_read_keymap_config(s: Seq<u8>, p: int) -> Result<(KeymapConfigView, int), DeviceError> {
    match spec_read_string(s, p) {
        Err(e) => Err(e),
        Ok((abbr, q1)) => match spec_read_bool(s, q1) {
            Err(e) => Err(e),
            Ok((default, q2)) => match spec_read_string(s, q2) {
                Err(e) => Err(e),
                Ok((name, q3)) => match spec_read_string(s, q3) {
                    Err(e) => Err(e),
                    Ok((desc, q4)) => match spec_read_compact_length(s, q4) {
                        Err(e) => Err(e),
                        Ok((n, q5)) => match spec_read_layer_configs(s, q5, n as nat) {
                            Err(e) => Err(e),
                            Ok((layers, q6)) => Ok(
                                (KeymapConfigView { abbr, default, name, desc, layers }, q6),
                            ),
                        },
                    },
                },
            },
        },
    }
}

impl KeymapConfig {
    pub fn deserialize(cursor: &mut UhkCursor) -> (r: DeviceResult<KeymapConfig>)
        ensures
            final(cursor).bytes() == old(cursor).bytes(),
            decoded(r, spec_read_keymap_config(old(cursor).bytes(), old(cursor).pos()), final(cursor).pos()),
    {
        let ghost s = old(cursor).bytes();
        let abbr = cursor.read_string()?;
        let default = cursor.read_bool()?;
        let name = cursor.read_string()?;
        let desc = cursor.read_string()?;
        let ghost q4 = cursor.pos();
        let n = cursor.read_compact_length()?;
        let ghost start = cursor.pos();
        assert(spec_read_compact_length(s, q4) == Ok::<(u16, int), DeviceError>((n, start)));
        let ghost head = spec_read_keymap_config(s, old(cursor).pos());
        let mut layers: Vec<LayerConfig> = Vec::new();
        assert(layers@.map_values(|l: LayerConfig| l@) =~= Seq::<LayerConfigView>::empty());
        let mut i: u16 = 0;
        while i < n
            invariant
                i <= n,
                cursor.bytes() == s,
                s == old(cursor).bytes(),
                head == spec_read_keymap_config(s, old(cursor).pos()),
                head == match spec_read_layer_configs(s, start, n as nat) {
                    Err(e) => Err(e),
                    Ok((layers, q6)) => Ok::<(KeymapConfigView, int), DeviceError>(
                        (KeymapConfigView { abbr: abbr@, default, name: name@, desc: desc@, layers }, q6),
                    ),
                },
                spec_read_layer_configs(s, start, i as nat) == Ok::<(Seq<LayerConfigView>, int), DeviceError>(
                    (layers@.map_values(|l: LayerConfig| l@), cursor.pos()),
                ),
            decreases n - i,
        {
            let ghost before = layers@;
            match LayerConfig::deserialize(cursor) {
                Ok(layer) => {
                    let ghost v = layer@;
                    layers.push(layer);
                    assert(layers@.map_values(|l: LayerConfig| l@) =~= before.map_values(
                        |l: LayerConfig| l@,
                    ).push(v));
                },
                Err(e) => {
                    proof {
                        lemma_layer_configs_failed(s, start, (i + 1) as nat, n as nat);
                    }
                    return Err(e);
                },
            }
            i = i + 1;
        }
        Ok(KeymapConfig { abbr, default, name, desc, layers })
    }
}

/// The pointer settings of one module.
#[derive(Debug, Clone, Copy, PartialEq, Eq, Structural)]
pub struct ModuleConfiguration {
    pub id: u8,
    pub pointer_mode: u8,
    pub decelerated_pointer_speed_multiplier: u8,
    pub base_pointer_speed_multiplier: u8,
    pub accelerated_pointer_speed_multiplier: u8,
    pub angular_shift: u16,
    pub mod_layer_pointer_function: u8,
    pub fn_layer_pointer_function: u8,
    pub mouse_layer_pointer_function: u8,
}

impl View for ModuleConfiguration {
    type V = ModuleConfiguration;

    open spec fn view(&self) -> ModuleConfiguration {
        *self
    }
}

/// A module's pointer settings: id, pointer mode, three speed multipliers,
/// a little-endian angular shift, then the pointer functions of the mod, fn
/// and mouse layers.
pub open spec fn spec_read_module_configuration(s: Seq<u8>, p: int) -> Result<(ModuleConfiguration, int), DeviceError> {
    if 0 <= p && p + 10 <= s.len() {
        Ok(
            (
                ModuleConfiguration {
                    id: s[p],
                    pointer_mode: s[p + 1],
                    decelerated_pointer_speed_multiplier: s[p + 2],
                    base_pointer_speed_multiplier: s[p + 3],
                    accelerated_pointer_speed_multiplier: s[p + 4],
                    angular_shift: le_u16(s[p + 5], s[p + 6]),
                    mod_layer_pointer_function: s[p + 7],
                    fn_layer_pointer_function: s[p + 8],
                    mouse_layer_pointer_function: s[p + 9],
                },
                p + 10,
            ),
        )
    } else {
        Err(DeviceError::OutOfData)
    }
}

impl ModuleConfiguration {
    pub fn deserialize(cursor: &mut UhkCursor) -> (r: DeviceResult<ModuleConfiguration>)
        ensures
            final(cursor).bytes() == old(cursor).bytes(),
            decoded(r, spec_read_module_configuration(old(cursor).bytes(), old(cursor).pos()), final(cursor).pos()),
    {
        let id = cursor.read_u8()?;
        let pointer_mode = cursor.read_u8()?;
        let decelerated_pointer_speed_multiplier = cursor.read_u8()?;
        let base_pointer_speed_multiplier = cursor.read_u8()?;
        let accelerated_pointer_speed_multiplier = cursor.read_u8()?;
        let angular_shift = cursor.read_u16()?;
        let mod_layer_pointer_function = cursor.read_u8()?;
        let fn_layer_pointer_function = cursor.read_u8()?;
        let mouse_layer_pointer_function = cursor.read_u8()?;
        Ok(
            ModuleConfiguration {
                id,
                pointer_mode,
                decelerated_pointer_speed_multiplier,
                base_pointer_speed_multiplier,
                accelerated_pointer_speed_multiplier,
                angular_shift,
                mod_layer_pointer_function,
                fn_layer_pointer_function,
                mouse_layer_pointer_function,
            },
        )
    }
}

/// The one macro action decoded here: a tag, then the command to run as a
/// string. Any other tag is refused, since its width is not known.
pub open spec fn spec_read_macro_command(s: Seq<u8>, p: int) -> Result<(Seq<char>, int), DeviceError> {
    match spec_read_u8(s, p) {
        Err(e) => Err(e),
        Ok((id, q)) => if id == 71 {
            spec_read_string(s, q)
        } else {
            Err(DeviceError::UnsupportedMacroAction(id))
        },
    }
}

/// Reads a macro action that runs a command, and returns the command.
pub fn read_macro_command(cursor: &mut UhkCursor) -> (r: DeviceResult<String>)
    ensures
        final(cursor).bytes() == old(cursor).bytes(),
        decoded(r, spec_read_macro_command(old(cursor).bytes(), old(cursor).pos()), final(cursor).pos()),
{
    let id = cursor.read_u8()?;
    if id == MacroActionId::CommandMacroAction.code() {
        cursor.read_string()
    } else {
        Err(DeviceError::UnsupportedMacroAction(id))
    }
}

/// The actions of a macro: `n` of them, one after another.
pub open spec fn spec_read_macro_commands(s: Seq<u8>, p: int, n: nat) -> Result<(Seq<Seq<char>>, int), DeviceError>
    decreases n,
{
    if n == 0 {
        Ok((Seq::empty(), p))
    } else {
        match spec_read_macro_commands(s, p, (n - 1) as nat) {
            Err(e) => Err(e),
            Ok((xs, q)) => match spec_read_macro_command(s, q) {
                Err(e) => Err(e),
                Ok((x, q1)) => Ok((xs.push(x), q1)),
            },
        }
    }
}

proof fn lemma_macro_commands_failed(s: Seq<u8>, p: int, i: nat, n: nat)
    requires
        i <= n,
        spec_read_macro_commands(s, p, i) is Err,
    ensures
        spec_read_macro_commands(s, p, n) == spec_read_macro_commands(s, p, i),
    decreases n,
{
    if n > i {
        lemma_macro_commands_failed(s, p, i, (n - 1) as nat);
    }
}

/// The actions of a macro, preceded by their compact count.
pub open spec fn spec_read_counted_macro_commands(s: Seq<u8>, p: int) -> Result<(Seq<Seq<char>>, int), DeviceError> {
    match spec_read_compact_length(s, p) {
        Err(e) => Err(e),
        Ok((n, q)) => spec_read_macro_commands(s, q, n as nat),
    }
}

/// Reads a compact count, then that many items.
pub fn read_macro_commands(cursor: &mut UhkCursor) -> (r: DeviceResult<Vec<String>>)
    ensures
        final(cursor).bytes() == old(cursor).bytes(),
        match spec_read_counted_macro_commands(old(cursor).bytes(), old(cursor).pos()) {
            Ok((v, q)) => r is Ok && r->Ok_0@.map_values(|x: String| x@) == v && final(cursor).pos() == q,
            Err(e) => r == Err::<Vec<String>, DeviceError>(e),
        },
{
    let ghost s = old(cursor).bytes();
    let n = cursor.read_compact_length()?;
    let ghost start = cursor.pos();
    let mut items: Vec<String> = Vec::new();
    assert(items@.map_values(|x: String| x@) =~= Seq::<Seq<char>>::empty());
    let mut i: u16 = 0;
    while i < n
        invariant
            i <= n,
            cursor.bytes() == s,
            s == old(cursor).bytes(),
            spec_read_compact_length(s, old(cursor).pos()) == Ok::<(u16, int), DeviceError>((n, start)),
            spec_read_macro_commands(s, start, i as nat) == Ok::<(Seq<Seq<char>>, int), DeviceError>(
                (items@.map_values(|x: String| x@), cursor.pos()),
            ),
        decreases n - i,
    {
        let ghost before = items@;
        match read_macro_command(cursor) {
            Ok(item) => {
                let ghost v = item@;
                items.push(item);
                assert(items@.map_values(|x: String| x@) =~= before.map_values(|x: String| x@).push(v));
            },
            Err(e) => {
                proof {
                    lemma_macro_commands_failed(s, start, (i + 1) as nat, n as nat);
                }
                return Err(e);
            },
        }
        i = i + 1;
    }
    Ok(items)
}

/// A macro whose actions each run a command.
#[derive(Debug)]
pub struct MacroConfig {
    pub is_looped: bool,
    pub is_private: bool,
    pub name: String,
    pub commands: Vec<String>,
}

/// What a `MacroConfig` holds.
pub struct MacroConfigView {
    pub is_looped: bool,
    pub is_private: bool,
    pub name: Seq<char>,
    pub commands: Seq<Seq<char>>,
}

impl View for MacroConfig {
    type V = MacroConfigView;

    open spec fn view(&self) -> MacroConfigView {
        MacroConfigView {
            is_looped: self.is_looped,
            is_private: self.is_private,
            name: self.name@,
            commands: self.commands@.map_values(|c: String| c@),
        }
    }
}

/// A macro: looped and private flags, its name, then its counted actions.
pub open spec fn spec_read_macro_config(s: Seq<u8>, p: int) -> Result<(MacroConfigView, int), DeviceError> {
    match spec_read_bool(s, p) {
        Err(e) => Err(e),
        Ok((is_looped, q1)) => match spec_read_bool(s, q1) {
            Err(e) => Err(e),
            Ok((is_private, q2)) => match spec_read_string(s, q2) {
                Err(e) => Err(e),
                Ok((name, q3)) => match spec_read_counted_macro_commands(s, q3) {
                    Err(e) => Err(e),
                    Ok((commands, q4)) => Ok(
                        (MacroConfigView { is_looped, is_private, name, commands }, q4),
                    ),
                },
            },
        },
    }
}

impl MacroConfig {
    pub fn deserialize(cursor: &mut UhkCursor) -> (r: DeviceResult<MacroConfig>)
        ensures
            final(cursor).bytes() == old(cursor).bytes(),
            decoded(r, spec_read_macro_config(old(cursor).bytes(), old(cursor).pos()), final(cursor).pos()),
    {
        let is_looped = cursor.read_bool()?;
        let is_private = cursor.read_bool()?;
        let name = cursor.read_string()?;
        let commands = read_macro_commands(cursor)?;
        Ok(MacroConfig { is_looped, is_private, name, commands })
    }
}

/// The pointer settings of the modules: `n` of them, one after another.
pub open spec fn spec_read_module_configurations(s: Seq<u8>, p: int, n: nat) -> Result<(Seq<ModuleConfiguration>, int), DeviceError>
    decreases n,
{
    if n == 0 {
        Ok((Seq::empty(), p))
    } else {
        match spec_read_module_configurations(s, p, (n - 1) as nat) {
            Err(e) => Err(e),
            Ok((xs, q)) => match spec_read_module_configuration(s, q) {
                Err(e) => Err(e),
                Ok((x, q1)) => Ok((xs.push(x), q1)),
            },
        }
    }
}

proof fn lemma_module_configurations_failed(s: Seq<u8>, p: int, i: nat, n: nat)
    requires
        i <= n,
        spec_read_module_configurations(s, p, i) is Err,
    ensures
        spec_read_module_configurations(s, p, n) == spec_read_module_configurations(s, p, i),
    decreases n,
{
    if n > i {
        lemma_module_configurations_failed(s, p, i, (n - 1) as nat);
    }
}

/// The pointer settings of the modules, preceded by their compact count.
pub open spec fn spec_read_counted_module_configurations(s: Seq<u8>, p: int) -> Result<(Seq<ModuleConfiguration>, int), DeviceError> {
    match spec_read_compact_length(s, p) {
        Err(e) => Err(e),
        Ok((n, q)) => spec_read_module_configurations(s, q, n as nat),
    }
}

/// Reads a compact count, then that many items.
pub fn read_module_configurations(cursor: &mut UhkCursor) -> (r: DeviceResult<Vec<ModuleConfiguration>>)
    ensures
        final(cursor).bytes() == old(cursor).bytes(),
        match spec_read_counted_module_configurations(old(cursor).bytes(), old(cursor).pos()) {
            Ok((v, q)) => r is Ok && r->Ok_0@ == v && final(cursor).pos() == q,
            Err(e) => r == Err::<Vec<ModuleConfiguration>, DeviceError>(e),
        },
{
    let ghost s = old(cursor).bytes();
    let n = cursor.read_compact_length()?;
    let ghost start = cursor.pos();
    let mut items: Vec<ModuleConfiguration> = Vec::new();
    assert(items@ =~= Seq::<ModuleConfiguration>::empty());
    let mut i: u16 = 0;
    while i < n
        invariant
            i <= n,
            cursor.bytes() == s,
            s == old(cursor).bytes(),
            spec_read_compact_length(s, old(cursor).pos()) == Ok::<(u16, int), DeviceError>((n, start)),
            spec_read_module_configurations(s, start, i as nat) == Ok::<(Seq<ModuleConfiguration>, int), DeviceError>(
                (items@, cursor.pos()),
            ),
        decreases n - i,
    {
        let ghost before = items@;
        match ModuleConfiguration::deserialize(cursor) {
            Ok(item) => {
                let ghost v = item@;
                items.push(item);
                assert(items@ =~= before.push(v));
            },
            Err(e) => {
                proof {
                    lemma_module_configurations_failed(s, start, (i + 1) as nat, n as nat);
                }
                return Err(e);
            },
        }
        i = i + 1;
    }
    Ok(items)
}

/// The macros: `n` of them, one after another.
pub open spec fn spec_read_macro_configs(s: Seq<u8>, p: int, n: nat) -> Result<(Seq<MacroConfigView>, int), DeviceError>
    decreases n,
{
    if n == 0 {
        Ok((Seq::empty(), p))
    } else {
        match spec_read_macro_configs(s, p, (n - 1) as nat) {
            Err(e) => Err(e),
            Ok((xs, q)) => match spec_read_macro_config(s, q) {
                Err(e) => Err(e),
                Ok((x, q1)) => Ok((xs.push(x), q1)),
            },
        }
    }
}

proof fn lemma_macro_configs_failed(s: Seq<u8>, p: int, i: nat, n: nat)
    requires
        i <= n,
        spec_read_macro_configs(s, p, i) is Err,
    ensures
        spec_read_macro_configs(s, p, n) == spec_read_macro_configs(s, p, i),
    decreases n,
{
    if n > i {
        lemma_macro_configs_failed(s, p, i, (n - 1) as nat);
    }
}

/// The macros, preceded by their compact count.
pub open spec fn spec_read_counted_macro_configs(s: Seq<u8>, p: int) -> Result<(Seq<MacroConfigView>, int), DeviceError> {
    match spec_read_compact_length(s, p) {
        Err(e) => Err(e),
        Ok((n, q)) => spec_read_macro_configs(s, q, n as nat),
    }
}

/// Reads a compact count, then that many items.
pub fn read_macro_configs(cursor: &mut UhkCursor) -> (r: DeviceResult<Vec<MacroConfig>>)
    ensures
        final(cursor).bytes() == old(cursor).bytes(),
        match spec_read_counted_macro_configs(old(cursor).bytes(), old(cursor).pos()) {
            Ok((v, q)) => r is Ok && r->Ok_0@.map_values(|x: MacroConfig| x@) == v && final(cursor).pos() == q,
            Err(e) => r == Err::<Vec<MacroConfig>, DeviceError>(e),
        },
{
    let ghost s = old(cursor).bytes();
    let n = cursor.read_compact_length()?;
    let ghost start = cursor.pos();
    let mut items: Vec<MacroConfig> = Vec::new();
    assert(items@.map_values(|x: MacroConfig| x@) =~= Seq::<MacroConfigView>::empty());
    let mut i: u16 = 0;
    while i < n
        invariant
            i <= n,
            cursor.bytes() == s,
            s == old(cursor).bytes(),
            spec_read_compact_length(s, old(cursor).pos()) == Ok::<(u16, int), DeviceError>((n, start)),
            spec_read_macro_configs(s, start, i as nat) == Ok::<(Seq<MacroConfigView>, int), DeviceError>(
                (items@.map_values(|x: MacroConfig| x@), cursor.pos()),
            ),
        decreases n - i,
    {
        let ghost before = items@;
        match MacroConfig::deserialize(cursor) {
            Ok(item) => {
                let ghost v = item@;
                items.push(item);
                assert(items@.map_values(|x: MacroConfig| x@) =~= before.map_values(|x: MacroConfig| x@).push(v));
            },
            Err(e) => {
                proof {
                    lemma_macro_configs_failed(s, start, (i + 1) as nat, n as nat);
                }
                return Err(e);
            },
        }
        i = i + 1;
    }
    Ok(items)
}

/// The keymaps: `n` of them, one after another.
pub open spec fn spec_read_keymap_configs(s: Seq<u8>, p: int, n: nat) -> Result<(Seq<KeymapConfigView>, int), DeviceError>
    decreases n,
{
    if n == 0 {
        Ok((Seq::empty(), p))
    } else {
        match spec_read_keymap_configs(s, p, (n - 1) as nat) {
            Err(e) => Err(e),
            Ok((xs, q)) => match spec_read_keymap_config(s, q) {
                Err(e) => Err(e),
                Ok((x, q1)) => Ok((xs.push(x), q1)),
            },
        }
    }
}

proof fn lemma_keymap_configs_failed(s: Seq<u8>, p: int, i: nat, n: nat)
    requires
        i <= n,
        spec_read_keymap_configs(s, p, i) is Err,
    ensures
        spec_read_keymap_configs(s, p, n) == spec_read_keymap_configs(s, p, i),
    decreases n,
{
    if n > i {
        lemma_keymap_configs_failed(s, p, i, (n - 1) as nat);
    }
}

/// The keymaps, preceded by their compact count.
pub open spec fn spec_read_counted_keymap_configs(s: Seq<u8>, p: int) -> Result<(Seq<KeymapConfigView>, int), DeviceError> {
    match spec_read_compact_length(s, p) {
        Err(e) => Err(e),
        Ok((n, q)) => spec_read_keymap_configs(s, q, n as nat),
    }
}

/// Reads a compact count, then that many items.
pub fn read_keymap_configs(cursor: &mut UhkCursor) -> (r: DeviceResult<Vec<KeymapConfig>>)
    ensures
        final(cursor).bytes() == old(cursor).bytes(),
        match spec_read_counted_keymap_configs(old(cursor).bytes(), old(cursor).pos()) {
            Ok((v, q)) => r is Ok && r->Ok_0@.map_values(|x: KeymapConfig| x@) == v && final(cursor).pos() == q,
            Err(e) => r == Err::<Vec<KeymapConfig>, DeviceError>(e),
        },
{
    let ghost s = old(cursor).bytes();
    let n = cursor.read_compact_length()?;
    let ghost start = cursor.pos();
    let mut items: Vec<KeymapConfig> = Vec::new();
    assert(items@.map_values(|x: KeymapConfig| x@) =~= Seq::<KeymapConfigView>::empty());
    let mut i: u16 = 0;
    while i < n
        invariant
            i <= n,
            cursor.bytes() == s,
            s == old(cursor).bytes(),
            spec_read_compact_length(s, old(cursor).pos()) == Ok::<(u16, int), DeviceError>((n, start)),
            spec_read_keymap_configs(s, start, i as nat) == Ok::<(Seq<KeymapConfigView>, int), DeviceError>(
                (items@.map_values(|x: KeymapConfig| x@), cursor.pos()),
            ),
        decreases n - i,
    {
        let ghost before = items@;
        match KeymapConfig::deserialize(cursor) {
            Ok(item) => {
                let ghost v = item@;
                items.push(item);
                assert(items@.map_values(|x: KeymapConfig| x@) =~= before.map_values(|x: KeymapConfig| x@).push(v));
            },
            Err(e) => {
                proof {
                    lemma_keymap_configs_failed(s, start, (i + 1) as nat, n as nat);
                }
                return Err(e);
            },
        }
        i = i + 1;
    }
    Ok(items)
}

} // verus!
