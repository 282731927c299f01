# he_keyboard

Verified logic of a Hall-effect analog keyboard firmware.

- `src/he_logic.rs`: one key's state machine (calibration, travel position,
  fixed-threshold and rapid-trigger actuation), specified by `HallKey::after_sample`.
- `src/key_laws.rs`: properties proved over that specification (filter bounds,
  locked calibration, the well-formedness invariant, actuation rules).
- `src/led.rs`: the SK6812 PWM frame of one LED and the calibration colours.
- `src/report.rs`: key codes and the NKRO report bitmask.
- `src/scan.rs`: one pass of the scan loop (every key samples, pressed keys fill the report).
- `app/`: the AT32F405 firmware around the library (clock, ADC/DMA and timer
  set-up, the scan loop).
