//! Vendor-specific HCI commands and the types needed for those commands.

use byteorder::{ByteOrder, LittleEndian};
use vstd::prelude::*;

verus! {

/// Little-endian encoding of a 16-bit value: low byte first.
pub open spec fn u16_le(n: u16) -> Seq<u8> {
    seq![(n % 256) as u8, (n / 256) as u8]
}

/// The byte that encodes a flag: 1 for `true`, 0 for `false`.
pub open spec fn bool_byte(b: bool) -> u8 {
    if b { 1 } else { 0 }
}

/// Writes `n` in little-endian order into `buf[pos..pos + 2]`.
///
/// Calls `byteorder::LittleEndian::write_u16` on `&mut buf[pos..]`, which
/// copies `n.to_le_bytes()` into the first two bytes of that slice and
/// leaves the rest alone; it panics on a slice shorter than two bytes.
#[verifier::external_body]
fn write_u16_le(buf: &mut [u8], pos: usize, n: u16)
    requires
        pos + 2 <= old(buf)@.len(),
    ensures
        final(buf)@ == old(buf)@.take(pos as int) + u16_le(n) + old(buf)@.skip(pos + 2),
{
    LittleEndian::write_u16(&mut buf[pos..], n)
}

/// The highest channel that `start_tone` accepts: the 40 BLE channels are
/// numbered from 0.
const MAX_CHANNEL: u8 = 39;

/// Potential errors from parameter validation.
///
/// Before some commands are sent to the controller, the parameters are
/// validated. This type enumerates the potential validation errors. Must be
/// specialized on the types of communication errors.
#[derive(Copy, Clone, Debug, PartialEq)]
pub enum Error<E> {
    /// For the Start Tone command, the channel was greater than the maximum
    /// allowed channel (39). The invalid channel is returned.
    InvalidChannel(u8),
    /// Underlying communication error.
    Comm(E),
}

/// The error of a non-blocking operation: either it would have to block to
/// complete, or it failed with an error of its own.
#[derive(Copy, Clone, Debug, PartialEq)]
pub enum SendError<E> {
    /// A different kind of error.
    Other(E),
    /// The operation requires blocking behavior to complete.
    WouldBlock,
}

/// Lifts a communication error into the error type of the commands that
/// validate their parameters; an operation that would block still would.
pub fn rewrap_error<E>(e: SendError<E>) -> (r: SendError<Error<E>>)
    ensures
        r == match e {
            SendError::WouldBlock => SendError::WouldBlock,
            SendError::Other(c) => SendError::Other(Error::Comm(c)),
        },
{
    match e {
        SendError::WouldBlock => SendError::WouldBlock,
        SendError::Other(c) => SendError::Other(Error::Comm(c)),
    }
}

/// Configuration parameters that are readable by the `read_config_data`
/// command. Each one names a field of the controller's low-level
/// configuration structure; its value is the field's offset there.
///
/// The controller code of a parameter is given by [`ConfigParameter::value`];
/// a cast `param as u8` gives the variant's index instead, not the code.
#[derive(Copy, Clone, Debug, PartialEq, Eq)]
pub enum ConfigParameter {
    /// Bluetooth public address.
    PublicAddress,
    /// Diversifier used to derive CSRK (connection signature resolving key).
    Diversifier,
    /// Encryption root key used to derive the LTK (long-term key) and CSRK
    /// (connection signature resolving key).
    EncryptionRoot,
    /// Identity root key used to derive the LTK (long-term key) and CSRK
    /// (connection signature resolving key).
    IdentityRoot,
    /// Switch on/off Link Layer only mode.
    LinkLayerOnly,
    /// BlueNRG-MS roles and mode configuration.
    Role,
}

impl ConfigParameter {
    /// The parameter's code: the offset of its field in the configuration
    /// structure.
    pub open spec fn spec_value(self) -> u8 {
        match self {
            ConfigParameter::PublicAddress => 0,
            ConfigParameter::Diversifier => 6,
            ConfigParameter::EncryptionRoot => 8,
            ConfigParameter::IdentityRoot => 24,
            ConfigParameter::LinkLayerOnly => 40,
            ConfigParameter::Role => 41,
        }
    }

    /// The size in bytes of the parameter's field.
    pub open spec fn spec_len(self) -> nat {
        match self {
            ConfigParameter::PublicAddress => 6,
            ConfigParameter::Diversifier => 2,
            ConfigParameter::EncryptionRoot => 16,
            ConfigParameter::IdentityRoot => 16,
            ConfigParameter::LinkLayerOnly => 1,
            ConfigParameter::Role => 1,
        }
    }

    /// The offset just past the parameter's field.
    pub open spec fn spec_end(self) -> int {
        self.spec_value() + self.spec_len()
    }

    /// The parameter's code, as sent by `read_config_data`.
    pub fn value(self) -> (v: u8)
        ensures
            v == self.spec_value(),
    {
        match self {
            ConfigParameter::PublicAddress => 0,
            ConfigParameter::Diversifier => 6,
            ConfigParameter::EncryptionRoot => 8,
            ConfigParameter::IdentityRoot => 24,
            ConfigParameter::LinkLayerOnly => 40,
            ConfigParameter::Role => 41,
        }
    }
}

/// Roles that the server can adopt.
///
/// The controller code of a role is given by [`Role::value`]; a cast
/// `role as u8` gives the variant's index instead, not the code.
#[derive(Copy, Clone, Debug, PartialEq, Eq)]
pub enum Role {
    /// Peripheral and primary device.
    /// - Only one connection.
    /// - 6 KB of RAM retention.
    Peripheral6Kb,
    /// Peripheral and primary device.
    /// - Only one connection.
    /// - 12 KB of RAM retention.
    Peripheral12Kb,
    /// Primary device and peripheral
    /// - Up to 8 connections
    /// - 12 KB of RAM retention
    Primary12Kb,
    /// Primary device and peripheral.
    /// - Simultaneous advertising and scanning
    /// - Up to 4 connections
    /// - This mode is available starting from BlueNRG-MS FW stack version 7.1.b
    SimultaneousAdvertisingScanning,
}

impl Role {
    /// The code of the role in the configuration structure.
    pub open spec fn spec_value(self) -> u8 {
        match self {
            Role::Peripheral6Kb => 1,
            Role::Peripheral12Kb => 2,
            Role::Primary12Kb => 3,
            Role::SimultaneousAdvertisingScanning => 4,
        }
    }

    /// The code of the role in the configuration structure.
    pub fn value(self) -> (v: u8)
        ensures
            v == self.spec_value(),
    {
        match self {
            Role::Peripheral6Kb => 1,
            Role::Peripheral12Kb => 2,
            Role::Primary12Kb => 3,
            Role::SimultaneousAdvertisingScanning => 4,
        }
    }
}

/// Transmitter power levels available for the system.
///
/// The controller uses two parameters to determine the actual power level:
/// enable high power, and PA level. This enum combines the two parameters.
/// The high byte is the PA level; the low byte is the enable high power flag.
///
/// That 16-bit code is given by [`PowerLevel::value`]; a cast `level as u16`
/// gives the variant's index instead, not the code.
#[derive(Copy, Clone, Debug, PartialEq, Eq)]
pub enum PowerLevel {
    /// PA level 0, low power.
    DbmNeg18,
    /// PA level 0, high power.
    DbmNeg15,
    /// PA level 1, low power.
    DbmNeg14_7,
    /// PA level 1, high power.
    DbmNeg11_7,
    /// PA level 2, low power.
    DbmNeg11_4,
    /// PA level 2, high power.
    DbmNeg8_4,
    /// PA level 3, low power.
    DbmNeg8_1,
    /// PA level 3, high power.
    DbmNeg5_1,
    /// PA level 4, low power.
    DbmNeg4_9,
    /// PA level 4, high power.
    DbmNeg2_1,
    /// PA level 5, low power.
    DbmNeg1_6,
    /// PA level 5, high power.
    Dbm1_4,
    /// PA level 6, low power.
    Dbm1_7,
    /// PA level 6, high power.
    Dbm4_7,
    /// PA level 7, low power.
    Dbm5_0,
    /// PA level 7, high power.
    Dbm8_0,
}

impl PowerLevel {
    /// The 16-bit code of the level: PA level in the high byte, high power
    /// flag in the low byte.
    pub open spec fn spec_value(self) -> u16 {
        match self {
            PowerLevel::DbmNeg18 => 0x000,
            PowerLevel::DbmNeg15 => 0x001,
            PowerLevel::DbmNeg14_7 => 0x100,
            PowerLevel::DbmNeg11_7 => 0x101,
            PowerLevel::DbmNeg11_4 => 0x200,
            PowerLevel::DbmNeg8_4 => 0x201,
            PowerLevel::DbmNeg8_1 => 0x300,
            PowerLevel::DbmNeg5_1 => 0x301,
            PowerLevel::DbmNeg4_9 => 0x400,
            PowerLevel::DbmNeg2_1 => 0x401,
            PowerLevel::DbmNeg1_6 => 0x500,
            PowerLevel::Dbm1_4 => 0x501,
            PowerLevel::Dbm1_7 => 0x600,
            PowerLevel::Dbm4_7 => 0x601,
            PowerLevel::Dbm5_0 => 0x700,
            PowerLevel::Dbm8_0 => 0x701,
        }
    }

    /// The PA level of the power level.
    pub open spec fn spec_pa_level(self) -> u8 {
        match self {
            PowerLevel::DbmNeg18 => 0,
            PowerLevel::DbmNeg15 => 0,
            PowerLevel::DbmNeg14_7 => 1,
            PowerLevel::DbmNeg11_7 => 1,
            PowerLevel::DbmNeg11_4 => 2,
            PowerLevel::DbmNeg8_4 => 2,
            PowerLevel::DbmNeg8_1 => 3,
            PowerLevel::DbmNeg5_1 => 3,
            PowerLevel::DbmNeg4_9 => 4,
            PowerLevel::DbmNeg2_1 => 4,
            PowerLevel::DbmNeg1_6 => 5,
            PowerLevel::Dbm1_4 => 5,
            PowerLevel::Dbm1_7 => 6,
            PowerLevel::Dbm4_7 => 6,
            PowerLevel::Dbm5_0 => 7,
            PowerLevel::Dbm8_0 => 7,
        }
    }

    /// Whether the power level enables high power.
    pub open spec fn spec_high_power(self) -> bool {
        match self {
            PowerLevel::DbmNeg18 => false,
            PowerLevel::DbmNeg15 => true,
            PowerLevel::DbmNeg14_7 => false,
            PowerLevel::DbmNeg11_7 => true,
            PowerLevel::DbmNeg11_4 => false,
            PowerLevel::DbmNeg8_4 => true,
            PowerLevel::DbmNeg8_1 => false,
            PowerLevel::DbmNeg5_1 => true,
            PowerLevel::DbmNeg4_9 => false,
            PowerLevel::DbmNeg2_1 => true,
            PowerLevel::DbmNeg1_6 => false,
            PowerLevel::Dbm1_4 => true,
            PowerLevel::Dbm1_7 => false,
            PowerLevel::Dbm4_7 => true,
            PowerLevel::Dbm5_0 => false,
            PowerLevel::Dbm8_0 => true,
        }
    }

    /// The 16-bit code of the level.
    pub fn value(self) -> (v: u16)
        ensures
            v == self.spec_value(),
    {
        match self {
            PowerLevel::DbmNeg18 => 0x000,
            PowerLevel::DbmNeg15 => 0x001,
            PowerLevel::DbmNeg14_7 => 0x100,
            PowerLevel::DbmNeg11_7 => 0x101,
            PowerLevel::DbmNeg11_4 => 0x200,
            PowerLevel::DbmNeg8_4 => 0x201,
            PowerLevel::DbmNeg8_1 => 0x300,
            PowerLevel::DbmNeg5_1 => 0x301,
            PowerLevel::DbmNeg4_9 => 0x400,
            PowerLevel::DbmNeg2_1 => 0x401,
            PowerLevel::DbmNeg1_6 => 0x500,
            PowerLevel::Dbm1_4 => 0x501,
            PowerLevel::Dbm1_7 => 0x600,
            PowerLevel::Dbm4_7 => 0x601,
            PowerLevel::Dbm5_0 => 0x700,
            PowerLevel::Dbm8_0 => 0x701,
        }
    }
}

/// Bluetooth device address, least significant byte first.
#[derive(Copy, Clone, Debug, PartialEq, Eq)]
pub struct BdAddr(pub [u8; 6]);

/// A 128-bit key used as an encryption or identity root.
#[derive(Clone, Debug, PartialEq, Eq)]
pub struct EncryptionKey(pub [u8; 16]);

/// `k` is the offset at which a field of the configuration structure starts.
pub open spec fn is_field_start(k: int) -> bool {
    k == 0 || k == 6 || k == 8 || k == 24 || k == 40 || k == 41
}

/// `k` is the offset at which a field of the configuration structure ends.
pub open spec fn is_field_end(k: int) -> bool {
    k == 6 || k == 8 || k == 24 || k == 40 || k == 41 || k == 42
}

/// `[start, end)` is a non-empty run of whole, contiguous fields.
pub open spec fn is_field_run(start: int, end: int) -> bool {
    is_field_start(start) && is_field_end(end) && start < end
}

/// The parameter block of `write_config_data`: offset, length, then the
/// bytes to write there.
pub open spec fn config_bytes(v: (u8, Seq<u8>)) -> Seq<u8> {
    seq![v.0, v.1.len() as u8] + v.1
}

/// The bytes that a run `v` holds for the field of parameter `p`, where the
/// run covers that field.
pub open spec fn field_bytes(v: (u8, Seq<u8>), p: ConfigParameter) -> Seq<u8> {
    v.1.subrange(p.spec_value() - v.0, p.spec_end() - v.0)
}

/// Low-level configuration parameters for the controller.
///
/// A value stands for a contiguous run of whole fields of the controller's
/// configuration structure: `offset` is where the run starts and the first
/// `length` bytes of `value_buf` are the bytes to write there.
pub struct ConfigData {
    offset: u8,
    length: u8,
    value_buf: [u8; 46],
}

impl View for ConfigData {
    /// The offset of the run, and the bytes to write there.
    type V = (u8, Seq<u8>);

    closed spec fn view(&self) -> (u8, Seq<u8>) {
        (self.offset, self.value_buf@.take(self.length as int))
    }
}

impl ConfigData {
    /// Maximum length needed to serialize the data.
    pub const MAX_LENGTH: usize = 0x2E;

    #[verifier::type_invariant]
    closed spec fn inv(self) -> bool {
        is_field_run(self.offset as int, self.offset + self.length)
    }

    /// Serializes the data into the given buffer.
    ///
    /// Returns the number of valid bytes in the buffer. A buffer of
    /// [`ConfigData::MAX_LENGTH`] bytes is always large enough.
    pub fn copy_into_slice(&self, bytes: &mut [u8]) -> (n: usize)
        requires
            2 + self@.1.len() <= old(bytes)@.len() || ConfigData::MAX_LENGTH <= old(bytes)@.len(),
        ensures
            n == 2 + self@.1.len(),
            final(bytes)@ == config_bytes(self@) + old(bytes)@.skip(n as int),
            n <= ConfigData::MAX_LENGTH,
            is_field_run(self@.0 as int, self@.0 + self@.1.len()),
            final(bytes)@[0] == self@.0,
            final(bytes)@[1] == self@.1.len(),
            final(bytes)@.subrange(2, n as int) == self@.1,
    {
        proof { use_type_invariant(self); }
        bytes[0] = self.offset;
        bytes[1] = self.length;
        let len = self.length as usize;
        let mut i: usize = 0;
        while i < len
            invariant
                len == self.length,
                len + 2 <= bytes@.len(),
                self.value_buf@.len() == 46,
                len <= 42,
                i <= len,
                bytes@.len() == old(bytes)@.len(),
                bytes@[0] == self.offset,
                bytes@[1] == self.length,
                forall|k: int| 0 <= k < i ==> bytes@[2 + k] == self.value_buf@[k],
                forall|k: int| 2 + len <= k < bytes@.len() ==> bytes@[k] == old(bytes)@[k],
            decreases len - i,
        {
            bytes[2 + i] = self.value_buf[i];
            i = i + 1;
        }
        assert(final(bytes)@ =~= config_bytes(self@) + old(bytes)@.skip(2 + len));
        assert(final(bytes)@.subrange(2, 2 + len) =~= self@.1);
        2 + len
    }

    /// A run that holds one field, of parameter `p`, with `bytes` in it.
    fn single_field(p: ConfigParameter, bytes: &[u8]) -> (data: ConfigData)
        requires
            bytes@.len() == p.spec_len(),
        ensures
            data@ == (p.spec_value(), bytes@),
    {
        let mut value_buf = [0u8; 46];
        put_bytes(&mut value_buf, 0, bytes);
        let data = ConfigData { offset: p.value(), length: bytes.len() as u8, value_buf };
        assert(data@.1 =~= bytes@);
        data
    }

    /// Builder for [ConfigData].
    ///
    /// The controller allows us to write any _contiguous_ portion of the
    /// [ConfigData] structure in `write_config_data`. The builder associated
    /// functions allow us to start with any field, and the returned builder
    /// allows only either chaining the next field or building the structure
    /// to write.
    pub fn public_address(addr: BdAddr) -> (b: ConfigDataDiversifierBuilder)
        ensures
            b@ == (ConfigParameter::PublicAddress.spec_value(), addr.0@),
    {
        ConfigDataDiversifierBuilder { data: Self::single_field(ConfigParameter::PublicAddress, &addr.0) }
    }

    /// Builder for [ConfigData], starting with the diversifier.
    pub fn diversifier(d: u16) -> (b: ConfigDataEncryptionRootBuilder)
        ensures
            b@ == (ConfigParameter::Diversifier.spec_value(), u16_le(d)),
    {
        let mut value_buf = [0u8; 46];
        write_u16_le(&mut value_buf, 0, d);
        let data = ConfigData { offset: 6, length: 2, value_buf };
        assert(data@.1 =~= u16_le(d));
        ConfigDataEncryptionRootBuilder { data }
    }

    /// Builder for [ConfigData], starting with the encryption root.
    pub fn encryption_root(key: &EncryptionKey) -> (b: ConfigDataIdentityRootBuilder)
        ensures
            b@ == (ConfigParameter::EncryptionRoot.spec_value(), key.0@),
    {
        ConfigDataIdentityRootBuilder { data: Self::single_field(ConfigParameter::EncryptionRoot, &key.0) }
    }

    /// Builder for [ConfigData], starting with the identity root.
    pub fn identity_root(key: &EncryptionKey) -> (b: ConfigDataLinkLayerOnlyBuilder)
        ensures
            b@ == (ConfigParameter::IdentityRoot.spec_value(), key.0@),
    {
        ConfigDataLinkLayerOnlyBuilder { data: Self::single_field(ConfigParameter::IdentityRoot, &key.0) }
    }

    /// Builder for [ConfigData], starting with the link-layer-only flag.
    pub fn link_layer_only(ll_only: bool) -> (b: ConfigDataRoleBuilder)
        ensures
            b@ == (ConfigParameter::LinkLayerOnly.spec_value(), seq![bool_byte(ll_only)]),
    {
        let byte: u8 = if ll_only { 1 } else { 0 };
        let bytes = [byte];
        ConfigDataRoleBuilder { data: Self::single_field(ConfigParameter::LinkLayerOnly, &bytes) }
    }

    /// Builder for [ConfigData], starting with the role.
    pub fn role(role: Role) -> (b: ConfigDataCompleteBuilder)
        ensures
            b@ == (ConfigParameter::Role.spec_value(), seq![role.spec_value()]),
    {
        let bytes = [role.value()];
        ConfigDataCompleteBuilder { data: Self::single_field(ConfigParameter::Role, &bytes) }
    }

    /// Appends the field of parameter `p`, holding `bytes`, to a run that
    /// ends where that field starts.
    fn extend(self, p: ConfigParameter, bytes: &[u8]) -> (data: ConfigData)
        requires
            self@.0 + self@.1.len() == p.spec_value(),
            bytes@.len() == p.spec_len(),
        ensures
            data@ == (self@.0, self@.1 + bytes@),
    {
        proof { use_type_invariant(&self); }
        let ConfigData { offset, length, value_buf } = self;
        let mut value_buf = value_buf;
        put_bytes(&mut value_buf, length as usize, bytes);
        let data = ConfigData { offset, length: length + bytes.len() as u8, value_buf };
        assert(data@.1 =~= self@.1 + bytes@);
        data
    }
}

/// Copies `src` into `buf[at..at + src.len()]`.
fn put_bytes(buf: &mut [u8; 46], at: usize, src: &[u8])
    requires
        at + src@.len() <= 46,
    ensures
        final(buf)@ == old(buf)@.take(at as int) + src@ + old(buf)@.skip(at + src@.len()),
{
    let n = src.len();
    let mut i: usize = 0;
    while i < n
        invariant
            n == src@.len(),
            at + n <= 46,
            i <= n,
            buf@.len() == 46,
            forall|k: int| 0 <= k < at ==> buf@[k] == old(buf)@[k],
            forall|k: int| 0 <= k < i ==> buf@[at + k] == src@[k],
            forall|k: int| at + n <= k < 46 ==> buf@[k] == old(buf)@[k],
        decreases n - i,
    {
        buf[at + i] = src[i];
        i = i + 1;
    }
    assert(buf@ =~= old(buf)@.take(at as int) + src@ + old(buf)@.skip(at + n));
}

/// Builder for [`ConfigData`]: the run so far ends where the diversifier
/// starts.
pub struct ConfigDataDiversifierBuilder {
    data: ConfigData,
}

impl View for ConfigDataDiversifierBuilder {
    type V = (u8, Seq<u8>);

    closed spec fn view(&self) -> (u8, Seq<u8>) {
        self.data@
    }
}

impl ConfigDataDiversifierBuilder {
    #[verifier::type_invariant]
    closed spec fn inv(self) -> bool {
        self.data@.0 + self.data@.1.len() == ConfigParameter::Diversifier.spec_value()
    }

    /// Specify the diversifier and continue building.
    pub fn diversifier(self, d: u16) -> (b: ConfigDataEncryptionRootBuilder)
        ensures
            b@ == (self@.0, self@.1 + u16_le(d)),
            field_bytes(b@, ConfigParameter::Diversifier) == u16_le(d),
    {
        proof {
            use_type_invariant(&self);
            use_type_invariant(&self.data);
        }
        let ConfigData { offset, length, value_buf } = self.data;
        let mut value_buf = value_buf;
        write_u16_le(&mut value_buf, length as usize, d);
        let data = ConfigData { offset, length: length + 2, value_buf };
        assert(data@.1 =~= self@.1 + u16_le(d));
        assert(field_bytes(data@, ConfigParameter::Diversifier) =~= u16_le(d));
        ConfigDataEncryptionRootBuilder { data }
    }

    /// Build the [ConfigData] as-is. It includes only the public address.
    pub fn build(self) -> (data: ConfigData)
        ensures
            data@ == self@,
            data@.0 + data@.1.len() == ConfigParameter::Diversifier.spec_value(),
            is_field_run(data@.0 as int, data@.0 + data@.1.len()),
    {
        proof {
            use_type_invariant(&self);
            use_type_invariant(&self.data);
        }
        self.data
    }
}

/// Builder for [`ConfigData`]: the run so far ends where the encryption root
/// starts.
pub struct ConfigDataEncryptionRootBuilder {
    data: ConfigData,
}

impl View for ConfigDataEncryptionRootBuilder {
    type V = (u8, Seq<u8>);

    closed spec fn view(&self) -> (u8, Seq<u8>) {
        self.data@
    }
}

impl ConfigDataEncryptionRootBuilder {
    #[verifier::type_invariant]
    closed spec fn inv(self) -> bool {
        self.data@.0 + self.data@.1.len() == ConfigParameter::EncryptionRoot.spec_value()
    }

    /// Specify the encryption root and continue building.
    pub fn encryption_root(self, key: &EncryptionKey) -> (b: ConfigDataIdentityRootBuilder)
        ensures
            b@ == (self@.0, self@.1 + key.0@),
            field_bytes(b@, ConfigParameter::EncryptionRoot) == key.0@,
    {
        proof { use_type_invariant(&self); }
        let data = self.data.extend(ConfigParameter::EncryptionRoot, &key.0);
        assert(field_bytes(data@, ConfigParameter::EncryptionRoot) =~= key.0@);
        ConfigDataIdentityRootBuilder { data }
    }

    /// Build the [ConfigData] as-is. It includes the diversifier, and may
    /// include fields before it, but does not include any fields after it
    /// (including the encryption root).
    pub fn build(self) -> (data: ConfigData)
        ensures
            data@ == self@,
            data@.0 + data@.1.len() == ConfigParameter::EncryptionRoot.spec_value(),
            is_field_run(data@.0 as int, data@.0 + data@.1.len()),
    {
        proof {
            use_type_invariant(&self);
            use_type_invariant(&self.data);
        }
        self.data
    }
}

/// Builder for [`ConfigData`]: the run so far ends where the identity root
/// starts.
pub struct ConfigDataIdentityRootBuilder {
    data: ConfigData,
}

impl View for ConfigDataIdentityRootBuilder {
    type V = (u8, Seq<u8>);

    closed spec fn view(&self) -> (u8, Seq<u8>) {
        self.data@
    }
}

impl ConfigDataIdentityRootBuilder {
    #[verifier::type_invariant]
    closed spec fn inv(self) -> bool {
        self.data@.0 + self.data@.1.len() == ConfigParameter::IdentityRoot.spec_value()
    }

    /// Specify the identity root and continue building.
    pub fn identity_root(self, key: &EncryptionKey) -> (b: ConfigDataLinkLayerOnlyBuilder)
        ensures
            b@ == (self@.0, self@.1 + key.0@),
            field_bytes(b@, ConfigParameter::IdentityRoot) == key.0@,
    {
        proof { use_type_invariant(&self); }
        let data = self.data.extend(ConfigParameter::IdentityRoot, &key.0);
        assert(field_bytes(data@, ConfigParameter::IdentityRoot) =~= key.0@);
        ConfigDataLinkLayerOnlyBuilder { data }
    }

    /// Build the [ConfigData] as-is. It includes the encryption root, and may
    /// include fields before it, but does not include any fields after it
    /// (including the identity root).
    pub fn build(self) -> (data: ConfigData)
        ensures
            data@ == self@,
            data@.0 + data@.1.len() == ConfigParameter::IdentityRoot.spec_value(),
            is_field_run(data@.0 as int, data@.0 + data@.1.len()),
    {
        proof {
            use_type_invariant(&self);
            use_type_invariant(&self.data);
        }
        self.data
    }
}

/// Builder for [`ConfigData`]: the run so far ends where the link-layer-only
/// flag starts.
pub struct ConfigDataLinkLayerOnlyBuilder {
    data: ConfigData,
}

impl View for ConfigDataLinkLayerOnlyBuilder {
    type V = (u8, Seq<u8>);

    closed spec fn view(&self) -> (u8, Seq<u8>) {
        self.data@
    }
}

impl ConfigDataLinkLayerOnlyBuilder {
    #[verifier::type_invariant]
    closed spec fn inv(self) -> bool {
        self.data@.0 + self.data@.1.len() == ConfigParameter::LinkLayerOnly.spec_value()
    }

    /// Specify whether to use the link layer only and continue building.
    pub fn link_layer_only(self, ll_only: bool) -> (b: ConfigDataRoleBuilder)
        ensures
            b@ == (self@.0, self@.1.push(bool_byte(ll_only))),
            field_bytes(b@, ConfigParameter::LinkLayerOnly) == seq![bool_byte(ll_only)],
    {
        proof { use_type_invariant(&self); }
        let byte: u8 = if ll_only { 1 } else { 0 };
        let bytes = [byte];
        let data = self.data.extend(ConfigParameter::LinkLayerOnly, &bytes);
        assert(self@.1 + bytes@ =~= self@.1.push(bool_byte(ll_only)));
        assert(field_bytes(data@, ConfigParameter::LinkLayerOnly) =~= seq![bool_byte(ll_only)]);
        ConfigDataRoleBuilder { data }
    }

    /// Build the [ConfigData] as-is. It includes the identity root, and may
    /// include fields before it, but does not include any fields after it
    /// (including the link layer only flag).
    pub fn build(self) -> (data: ConfigData)
        ensures
            data@ == self@,
            data@.0 + data@.1.len() == ConfigParameter::LinkLayerOnly.spec_value(),
            is_field_run(data@.0 as int, data@.0 + data@.1.len()),
    {
        proof {
            use_type_invariant(&self);
            use_type_invariant(&self.data);
        }
        self.data
    }
}

/// Builder for [`ConfigData`]: the run so far ends where the role starts.
pub struct ConfigDataRoleBuilder {
    data: ConfigData,
}

impl View for ConfigDataRoleBuilder {
    type V = (u8, Seq<u8>);

    closed spec fn view(&self) -> (u8, Seq<u8>) {
        self.data@
    }
}

impl ConfigDataRoleBuilder {
    #[verifier::type_invariant]
    closed spec fn inv(self) -> bool {
        &&& self.data@.0 + self.data@.1.len() == ConfigParameter::Role.spec_value()
        &&& self.data@.1.last() <= 1
    }

    /// Specify the device role and continue building.
    pub fn role(self, role: Role) -> (b: ConfigDataCompleteBuilder)
        ensures
            b@ == (self@.0, self@.1.push(role.spec_value())),
            field_bytes(b@, ConfigParameter::Role) == seq![role.spec_value()],
    {
        proof { use_type_invariant(&self); }
        let bytes = [role.value()];
        let data = self.data.extend(ConfigParameter::Role, &bytes);
        assert(self@.1 + bytes@ =~= self@.1.push(role.spec_value()));
        assert(field_bytes(data@, ConfigParameter::Role) =~= seq![role.spec_value()]);
        ConfigDataCompleteBuilder { data }
    }

    /// Build the [ConfigData] as-is. It includes the link layer only flag,
    /// and may include fields before it, but does not include any fields
    /// after it (including the role).
    pub fn build(self) -> (data: ConfigData)
        ensures
            data@ == self@,
            data@.0 + data@.1.len() == ConfigParameter::Role.spec_value(),
            is_field_run(data@.0 as int, data@.0 + data@.1.len()),
            data@.1.last() <= 1,
    {
        proof {
            use_type_invariant(&self);
            use_type_invariant(&self.data);
        }
        self.data
    }
}

/// Builder for [`ConfigData`]: the run so far ends with the role, the last
/// field.
pub struct ConfigDataCompleteBuilder {
    data: ConfigData,
}

impl View for ConfigDataCompleteBuilder {
    type V = (u8, Seq<u8>);

    closed spec fn view(&self) -> (u8, Seq<u8>) {
        self.data@
    }
}

impl ConfigDataCompleteBuilder {
    #[verifier::type_invariant]
    closed spec fn inv(self) -> bool {
        &&& self.data@.0 + self.data@.1.len() == ConfigParameter::Role.spec_end()
        &&& 1 <= self.data@.1.last() <= 4
    }

    /// Build the [ConfigData] as-is. It includes the role field, and may
    /// include fields before it.
    pub fn build(self) -> (data: ConfigData)
        ensures
            data@ == self@,
            data@.0 + data@.1.len() == ConfigParameter::Role.spec_end(),
            is_field_run(data@.0 as int, data@.0 + data@.1.len()),
            1 <= data@.1.last() <= 4,
    {
        proof {
            use_type_invariant(&self);
            use_type_invariant(&self.data);
        }
        self.data
    }
}

/// The parameter bytes of `start_tone` on `channel`, or the validation error
/// when the channel is greater than 39.
pub fn start_tone_params<E>(channel: u8) -> (r: Result<[u8; 1], Error<E>>)
    ensures
        channel <= 39 ==> (r matches Ok(bytes) && bytes@ == seq![channel]),
        channel > 39 ==> r == Err::<[u8; 1], Error<E>>(Error::InvalidChannel(channel)),
{
    if channel > MAX_CHANNEL {
        return Err(Error::InvalidChannel(channel));
    }
    let bytes = [channel];
    assert(bytes@ =~= seq![channel]);
    Ok(bytes)
}

/// The parameter bytes of `read_config_data` for `param`: its code.
pub fn read_config_data_params(param: ConfigParameter) -> (bytes: [u8; 1])
    ensures
        bytes@ == seq![param.spec_value()],
{
    let bytes = [param.value()];
    assert(bytes@ =~= seq![param.spec_value()]);
    bytes
}

/// The parameter bytes of `set_tx_power_level`: the level's code, little
/// endian, so the high power flag comes first and the PA level second.
pub fn tx_power_level_params(level: PowerLevel) -> (bytes: [u8; 2])
    ensures
        bytes@ == u16_le(level.spec_value()),
        bytes@ == seq![bool_byte(level.spec_high_power()), level.spec_pa_level()],
{
    let mut bytes = [0u8; 2];
    write_u16_le(&mut bytes, 0, level.value());
    assert(bytes@ =~= u16_le(level.spec_value()));
    bytes
}

/// The parameter bytes of `write_config_data` for `config`: serialized into a
/// buffer of `ConfigData::MAX_LENGTH` bytes, of which the valid ones are kept.
pub fn write_config_data_params(config: &ConfigData) -> (params: Vec<u8>)
    ensures
        params@ == config_bytes(config@),
        params@.len() <= ConfigData::MAX_LENGTH,
{
    proof { use_type_invariant(config); }
    let mut bytes = [0u8; 46];
    let len = config.copy_into_slice(&mut bytes);
    let mut params: Vec<u8> = Vec::new();
    let mut i: usize = 0;
    while i < len
        invariant
            len <= 46,
            bytes@.len() == 46,
            i <= len,
            params@ == bytes@.take(i as int),
        decreases len - i,
    {
        params.push(bytes[i]);
        i = i + 1;
        assert(params@ =~= bytes@.take(i as int));
    }
    assert(params@ =~= config_bytes(config@));
    params
}

/// The fields of the configuration structure, as `read_config_data` names
/// them, tile it: each starts and ends on a field boundary, two parameters
/// with the same code are the same field, a field that starts before another
/// ends before that one starts, and every field but the first starts where
/// another ends. So the offset at which a builder writes a field is the code
/// by which the controller reads it back.
pub proof fn lemma_config_layout(p: ConfigParameter, q: ConfigParameter)
    ensures
        is_field_start(p.spec_value() as int),
        is_field_end(p.spec_end()),
        (p.spec_value() == q.spec_value()) == (p == q),
        p.spec_value() < q.spec_value() ==> p.spec_end() <= q.spec_value(),
        p.spec_value() == 0 || is_field_end(p.spec_value() as int),
        p.spec_end() + 2 <= ConfigData::MAX_LENGTH,
{
}

/// Appending a field to a run that ends where the field starts puts the new
/// bytes in that field's place and leaves every field the run already held
/// unchanged: a chain of builder calls holds in each field the value given
/// for it.
pub proof fn lemma_append_field(v: (u8, Seq<u8>), p: ConfigParameter, q: ConfigParameter, bytes: Seq<u8>)
    requires
        v.0 + v.1.len() == p.spec_value(),
        bytes.len() == p.spec_len(),
        v.0 <= q.spec_value(),
        q.spec_end() <= v.0 + v.1.len(),
    ensures
        field_bytes((v.0, v.1 + bytes), q) == field_bytes(v, q),
        field_bytes((v.0, v.1 + bytes), p) == bytes,
{
    assert(field_bytes((v.0, v.1 + bytes), q) =~= field_bytes(v, q));
    assert(field_bytes((v.0, v.1 + bytes), p) =~= bytes);
}

/// The code of a power level holds its PA level, at most 7, in the high byte
/// and its high power flag in the low byte.
pub proof fn lemma_power_level_code(level: PowerLevel)
    ensures
        level.spec_value() == level.spec_pa_level() as int * 256 + bool_byte(level.spec_high_power()),
        level.spec_pa_level() <= 7,
{
}


/// The little-endian encoding of a 16-bit value is two bytes, low byte
/// first: reading them back as `low + 256 * high` gives the value.
pub proof fn lemma_u16_le_low_byte_first(n: u16)
    ensures
        u16_le(n).len() == 2,
        u16_le(n)[0] as int + 256 * (u16_le(n)[1] as int) == n as int,
{
    assert(((n % 256) as u8) as u16 + 256 * (((n / 256) as u8) as u16) == n) by (bit_vector);
}

/// The parameter block of `write_config_data` for a run is its offset, then
/// its length, then its bytes: the first byte always names where the run
/// starts, so the controller writes it at its own place.
pub proof fn lemma_config_bytes_layout(v: (u8, Seq<u8>))
    requires
        v.1.len() < 256,
    ensures
        config_bytes(v).len() == v.1.len() + 2,
        config_bytes(v)[0] == v.0,
        config_bytes(v)[1] == v.1.len(),
        config_bytes(v).skip(2) == v.1,
{
    assert(config_bytes(v).skip(2) =~= v.1);
}

} // verus!
