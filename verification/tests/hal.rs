use bluenrg::command::hal::{
    read_config_data_params, rewrap_error, start_tone_params, tx_power_level_params,
    write_config_data_params, BdAddr, ConfigData, ConfigParameter, EncryptionKey, Error,
    PowerLevel, Role, SendError,
};

fn key(first: u8) -> EncryptionKey {
    let mut k = [0u8; 16];
    for (i, b) in k.iter_mut().enumerate() {
        *b = first + i as u8;
    }
    EncryptionKey(k)
}

fn serialize(data: &ConfigData) -> Vec<u8> {
    let mut bytes = vec![0xAAu8; ConfigData::MAX_LENGTH];
    let len = data.copy_into_slice(&mut bytes);
    bytes[..len].to_vec()
}

#[test]
fn max_length_is_46() {
    assert_eq!(ConfigData::MAX_LENGTH, 46);
}

#[test]
fn public_address_only() {
    let data = ConfigData::public_address(BdAddr([1, 2, 3, 4, 5, 6])).build();
    assert_eq!(serialize(&data), vec![0, 6, 1, 2, 3, 4, 5, 6]);
}

#[test]
fn public_address_then_diversifier() {
    let data = ConfigData::public_address(BdAddr([1, 2, 3, 4, 5, 6]))
        .diversifier(0x1234)
        .build();
    assert_eq!(serialize(&data), vec![0, 8, 1, 2, 3, 4, 5, 6, 0x34, 0x12]);
}

#[test]
fn diversifier_only_is_little_endian() {
    let data = ConfigData::diversifier(0xBEEF).build();
    assert_eq!(serialize(&data), vec![6, 2, 0xEF, 0xBE]);
}

#[test]
fn diversifier_then_encryption_root() {
    let data = ConfigData::diversifier(0x0102).encryption_root(&key(0x10)).build();
    let mut expected = vec![6, 18, 0x02, 0x01];
    expected.extend(0x10..0x20);
    assert_eq!(serialize(&data), expected);
}

#[test]
fn encryption_root_then_identity_root() {
    let data = ConfigData::encryption_root(&key(0x20))
        .identity_root(&key(0x40))
        .build();
    let mut expected = vec![8, 32];
    expected.extend(0x20..0x30);
    expected.extend(0x40..0x50);
    assert_eq!(serialize(&data), expected);
}

#[test]
fn identity_root_then_link_layer_only_then_role() {
    let data = ConfigData::identity_root(&key(0x60))
        .link_layer_only(true)
        .role(Role::Primary12Kb)
        .build();
    let mut expected = vec![24, 18];
    expected.extend(0x60..0x70);
    expected.extend([1, 3]);
    assert_eq!(serialize(&data), expected);
}

#[test]
fn link_layer_only_false_then_role() {
    let data = ConfigData::link_layer_only(false)
        .role(Role::SimultaneousAdvertisingScanning)
        .build();
    assert_eq!(serialize(&data), vec![40, 2, 0, 4]);
}

#[test]
fn role_only() {
    let data = ConfigData::role(Role::Peripheral6Kb).build();
    assert_eq!(serialize(&data), vec![41, 1, 1]);
    let data = ConfigData::role(Role::Peripheral12Kb).build();
    assert_eq!(serialize(&data), vec![41, 1, 2]);
}

#[test]
fn full_chain_places_each_field_at_its_parameter_offset() {
    let data = ConfigData::public_address(BdAddr([0xA0, 0xA1, 0xA2, 0xA3, 0xA4, 0xA5]))
        .diversifier(0xC0DE)
        .encryption_root(&key(0x10))
        .identity_root(&key(0x30))
        .link_layer_only(true)
        .role(Role::Peripheral12Kb)
        .build();
    let bytes = serialize(&data);
    assert_eq!(bytes.len(), 44);
    assert_eq!(bytes[0], 0);
    assert_eq!(bytes[1], 42);
    let image = &bytes[2..];
    let field = |p: ConfigParameter, len: usize| {
        let at = p.value() as usize;
        image[at..at + len].to_vec()
    };
    assert_eq!(field(ConfigParameter::PublicAddress, 6), vec![0xA0, 0xA1, 0xA2, 0xA3, 0xA4, 0xA5]);
    assert_eq!(field(ConfigParameter::Diversifier, 2), vec![0xDE, 0xC0]);
    assert_eq!(field(ConfigParameter::EncryptionRoot, 16), (0x10..0x20).collect::<Vec<u8>>());
    assert_eq!(field(ConfigParameter::IdentityRoot, 16), (0x30..0x40).collect::<Vec<u8>>());
    assert_eq!(field(ConfigParameter::LinkLayerOnly, 1), vec![1]);
    assert_eq!(field(ConfigParameter::Role, 1), vec![2]);
    assert!(bytes.len() <= ConfigData::MAX_LENGTH);
}

#[test]
fn chain_from_the_middle_keeps_offset() {
    let data = ConfigData::encryption_root(&key(0))
        .identity_root(&key(0x80))
        .link_layer_only(false)
        .role(Role::Peripheral6Kb)
        .build();
    let bytes = serialize(&data);
    assert_eq!(bytes[0], ConfigParameter::EncryptionRoot.value());
    assert_eq!(bytes[1], 34);
    assert_eq!(bytes[2 + 32], 0);
    assert_eq!(bytes[2 + 33], 1);
}

#[test]
fn copy_into_slice_leaves_the_rest_of_the_buffer() {
    let data = ConfigData::role(Role::Primary12Kb).build();
    let mut bytes = [0x55u8; 8];
    let n = data.copy_into_slice(&mut bytes);
    assert_eq!(n, 3);
    assert_eq!(bytes, [41, 1, 3, 0x55, 0x55, 0x55, 0x55, 0x55]);
}

#[test]
fn copy_into_exact_size_buffer() {
    let data = ConfigData::public_address(BdAddr([9, 8, 7, 6, 5, 4])).build();
    let mut bytes = [0u8; 8];
    assert_eq!(data.copy_into_slice(&mut bytes), 8);
    assert_eq!(bytes, [0, 6, 9, 8, 7, 6, 5, 4]);
}

#[test]
fn write_config_data_params_match_copy_into_slice() {
    let data = ConfigData::diversifier(0x00FF)
        .encryption_root(&key(1))
        .identity_root(&key(2))
        .link_layer_only(false)
        .build();
    let params = write_config_data_params(&data);
    assert_eq!(params, serialize(&data));
    assert_eq!(params.len(), 2 + 2 + 16 + 16 + 1);
    assert_eq!(&params[..4], &[6, 35, 0xFF, 0x00]);
}

#[test]
fn config_parameter_codes() {
    assert_eq!(ConfigParameter::PublicAddress.value(), 0);
    assert_eq!(ConfigParameter::Diversifier.value(), 6);
    assert_eq!(ConfigParameter::EncryptionRoot.value(), 8);
    assert_eq!(ConfigParameter::IdentityRoot.value(), 24);
    assert_eq!(ConfigParameter::LinkLayerOnly.value(), 40);
    assert_eq!(ConfigParameter::Role.value(), 41);
}

#[test]
fn read_config_data_params_send_the_code() {
    assert_eq!(read_config_data_params(ConfigParameter::IdentityRoot), [24]);
    assert_eq!(read_config_data_params(ConfigParameter::PublicAddress), [0]);
}

#[test]
fn read_code_matches_where_the_builder_writes() {
    let data = ConfigData::link_layer_only(true).build();
    let written = write_config_data_params(&data);
    let read = read_config_data_params(ConfigParameter::LinkLayerOnly);
    assert_eq!(written[0], read[0]);
}

#[test]
fn role_codes() {
    assert_eq!(Role::Peripheral6Kb.value(), 1);
    assert_eq!(Role::Peripheral12Kb.value(), 2);
    assert_eq!(Role::Primary12Kb.value(), 3);
    assert_eq!(Role::SimultaneousAdvertisingScanning.value(), 4);
}

#[test]
fn power_level_codes() {
    assert_eq!(PowerLevel::DbmNeg18.value(), 0x000);
    assert_eq!(PowerLevel::DbmNeg15.value(), 0x001);
    assert_eq!(PowerLevel::DbmNeg14_7.value(), 0x100);
    assert_eq!(PowerLevel::DbmNeg2_1.value(), 0x401);
    assert_eq!(PowerLevel::Dbm5_0.value(), 0x700);
    assert_eq!(PowerLevel::Dbm8_0.value(), 0x701);
}

#[test]
fn tx_power_level_params_are_flag_then_pa_level() {
    assert_eq!(tx_power_level_params(PowerLevel::Dbm8_0), [1, 7]);
    assert_eq!(tx_power_level_params(PowerLevel::DbmNeg18), [0, 0]);
    assert_eq!(tx_power_level_params(PowerLevel::DbmNeg8_1), [0, 3]);
    assert_eq!(tx_power_level_params(PowerLevel::Dbm1_4), [1, 5]);
}

#[test]
fn start_tone_accepts_channels_up_to_39() {
    assert_eq!(start_tone_params::<()>(0), Ok([0]));
    assert_eq!(start_tone_params::<()>(39), Ok([39]));
}

#[test]
fn start_tone_rejects_channel_40_and_above() {
    assert_eq!(start_tone_params::<()>(40), Err(Error::InvalidChannel(40)));
    assert_eq!(start_tone_params::<()>(255), Err(Error::InvalidChannel(255)));
}

#[test]
fn rewrap_error_keeps_would_block() {
    assert_eq!(rewrap_error::<u8>(SendError::WouldBlock), SendError::WouldBlock);
}

#[test]
fn rewrap_error_wraps_other_as_comm() {
    assert_eq!(rewrap_error(SendError::Other(7u8)), SendError::Other(Error::Comm(7u8)));
}
