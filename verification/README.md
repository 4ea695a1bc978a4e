# bluenrg

Vendor-specific HAL commands of the BlueNRG-MS Bluetooth controller, with
their behaviour stated in Verus contracts and proved.

- `src/command/hal.rs`: the configuration-data builders (`ConfigData` and the
  `ConfigData*Builder` chain), their serialization, the parameter blocks of
  the HAL commands (`start_tone_params`, `tx_power_level_params`,
  `read_config_data_params`, `write_config_data_params`), parameter
  validation errors, and the laws on the configuration layout.
- `app/lib.rs`: the `Commands` trait, implemented for any transport that can
  write a vendor command to the controller; it sends what the library
  computes and converts between `nb` and `bluetooth-hci` types and the
  library's own.
- `tests/`: scenario tests on concrete values.
