use ads111x::{
    ADS11145GainAmplifier, ADS1115MultiplexerConfig, ADS111XConfig, ADS111XDataRate,
    ADS111XOperatingMode, BusRequest, ReadStage, ReadStep, Reading, ADS111X,
    ADS111X_CONFIG_REGISTER, ADS111X_CONVERSION_REGISTER, DEFAULT_ADS1115_SLAVE_ADDRESS,
    FULL_SCALE_CODE,
};

fn config_with(
    gain_amplifier: ADS11145GainAmplifier,
    operating_mode: ADS111XOperatingMode,
) -> ADS111XConfig {
    ADS111XConfig {
        multiplexer_config: ADS1115MultiplexerConfig::AIN0_GND,
        gain_amplifier,
        operating_mode,
        data_rate: ADS111XDataRate::DR_128SPS,
    }
}

fn single_shot() -> ADS111XConfig {
    config_with(ADS11145GainAmplifier::FS_6_144V, ADS111XOperatingMode::SingleShot)
}

fn continuous() -> ADS111XConfig {
    config_with(ADS11145GainAmplifier::FS_6_144V, ADS111XOperatingMode::ContinuousConversion)
}

fn driver_for(config: ADS111XConfig) -> ADS111X {
    match ADS111X::new::<String>(config, Ok(())) {
        Ok(driver) => driver,
        Err(error) => panic!("construction failed: {}", error),
    }
}

/// Drives one voltage read against a scripted bus. `outcomes[i]` is what the
/// i-th transaction returns; a successful read transaction puts `data` into
/// the receive buffer. Returns the transactions performed and how the read
/// ended.
fn run_read(
    driver: &ADS111X,
    outcomes: &[Result<(), String>],
    data: [u8; 2],
) -> (Vec<BusRequest>, Result<Reading, String>) {
    let mut performed = Vec::new();
    let mut buffer = [0u8; 2];
    let (mut stage, mut request) = driver.begin_read();
    let mut replies = outcomes.iter();
    loop {
        performed.push(request);
        let outcome = match replies.next() {
            Some(outcome) => outcome.clone(),
            None => panic!("the read asked for more transactions than were scripted"),
        };
        if request == BusRequest::ReadWord && outcome.is_ok() {
            buffer = data;
        }
        match driver.read_voltage(stage, outcome, &buffer) {
            ReadStep::Issue { stage: next, request: then } => {
                stage = next;
                request = then;
            }
            ReadStep::Sample(reading) => return (performed, Ok(reading)),
            ReadStep::Failed(error) => return (performed, Err(error)),
        }
    }
}

fn fetch(driver: &ADS111X, data: [u8; 2]) -> Reading {
    match driver.read_voltage::<String>(ReadStage::Fetch, Ok(()), &data) {
        ReadStep::Sample(reading) => reading,
        other => panic!("expected a sample, got {:?}", other),
    }
}

fn volts(reading: &Reading) -> f32 {
    let gain = (reading.full_scale_millivolts as f32 / 1000.0) / FULL_SCALE_CODE as f32;
    reading.raw as f32 * gain
}

#[test]
fn addresses_of_the_chip() {
    assert_eq!(DEFAULT_ADS1115_SLAVE_ADDRESS, 0x48);
    assert_eq!(ADS111X_CONVERSION_REGISTER, 0b00);
    assert_eq!(ADS111X_CONFIG_REGISTER, 0b01);
}

#[test]
fn setup_writes_the_word_to_the_configuration_register() {
    let config = single_shot();
    assert_eq!(
        ADS111X::setup_request(&config),
        BusRequest::WriteWord { register: 0b01, value: 0x4180 }
    );
    let config = continuous();
    assert_eq!(
        ADS111X::setup_request(&config),
        BusRequest::WriteWord { register: 0b01, value: 0x4080 }
    );
}

#[test]
fn construction_succeeds_when_the_write_succeeded() {
    let config = single_shot();
    let driver = driver_for(config);
    assert_eq!(driver.config_word(), config.register_word());
    assert_eq!(driver.config_word(), 0x4180);
    assert!(!driver.is_continuous());
    assert_eq!(driver.full_scale_millivolts(), 6144);
}

#[test]
fn construction_fails_with_the_error_of_the_write() {
    let result = ADS111X::new(single_shot(), Err(String::from("no device at 0x48")));
    match result {
        Ok(_) => panic!("a driver was made although the write failed"),
        Err(error) => assert_eq!(error, "no device at 0x48"),
    }
    let result = ADS111X::new(continuous(), Err(121i32));
    assert!(matches!(result, Err(121)));
}

#[test]
fn driver_caches_what_the_configuration_gives() {
    let gains = [
        (ADS11145GainAmplifier::FS_6_144V, 6144),
        (ADS11145GainAmplifier::FS_4_096V, 4096),
        (ADS11145GainAmplifier::FS_2_048V, 2048),
        (ADS11145GainAmplifier::FS_1_024V, 1024),
        (ADS11145GainAmplifier::FS_0_512V, 512),
        (ADS11145GainAmplifier::FS_0_256V, 256),
    ];
    for (gain, millivolts) in gains {
        for mode in [ADS111XOperatingMode::ContinuousConversion, ADS111XOperatingMode::SingleShot]
        {
            let config = config_with(gain, mode);
            let driver = driver_for(config);
            assert_eq!(driver.config_word(), config.register_word());
            assert_eq!(driver.full_scale_millivolts(), millivolts);
            assert_eq!(
                driver.is_continuous(),
                mode == ADS111XOperatingMode::ContinuousConversion
            );
        }
    }
}

#[test]
fn single_shot_read_begins_with_the_trigger() {
    let driver = driver_for(single_shot());
    let (stage, request) = driver.begin_read();
    assert_eq!(stage, ReadStage::Trigger);
    assert_eq!(request, BusRequest::WriteWord { register: 0b01, value: 0x4180 });
    assert_eq!(request, ADS111X::setup_request(&single_shot()));
}

#[test]
fn continuous_read_begins_with_the_select() {
    let driver = driver_for(continuous());
    let (stage, request) = driver.begin_read();
    assert_eq!(stage, ReadStage::Select);
    assert_eq!(request, BusRequest::WritePointer { register: 0b00 });
}

#[test]
fn request_of_each_stage() {
    let driver = driver_for(continuous());
    assert_eq!(
        driver.request(ReadStage::Trigger),
        BusRequest::WriteWord { register: 0b01, value: 0x4080 }
    );
    assert_eq!(driver.request(ReadStage::Select), BusRequest::WritePointer { register: 0b00 });
    assert_eq!(driver.request(ReadStage::Fetch), BusRequest::ReadWord);
}

#[test]
fn single_shot_read_is_trigger_select_fetch() {
    let driver = driver_for(single_shot());
    let (performed, end) = run_read(&driver, &[Ok(()), Ok(()), Ok(())], [0x12, 0x34]);
    assert_eq!(
        performed,
        vec![
            BusRequest::WriteWord { register: 0b01, value: 0x4180 },
            BusRequest::WritePointer { register: 0b00 },
            BusRequest::ReadWord,
        ]
    );
    assert_eq!(end, Ok(Reading { raw: 0x1234, full_scale_millivolts: 6144 }));
}

#[test]
fn continuous_read_is_select_fetch() {
    let driver = driver_for(continuous());
    let (performed, end) = run_read(&driver, &[Ok(()), Ok(())], [0x12, 0x34]);
    assert_eq!(
        performed,
        vec![BusRequest::WritePointer { register: 0b00 }, BusRequest::ReadWord]
    );
    assert_eq!(end, Ok(Reading { raw: 0x1234, full_scale_millivolts: 6144 }));
}

#[test]
fn every_single_shot_read_rewrites_the_same_word() {
    let driver = driver_for(single_shot());
    for _ in 0..3 {
        let (performed, end) = run_read(&driver, &[Ok(()), Ok(()), Ok(())], [0x00, 0x01]);
        assert_eq!(performed.len(), 3);
        assert_eq!(performed[0], BusRequest::WriteWord { register: 0b01, value: 0x4180 });
        assert_eq!(end, Ok(Reading { raw: 1, full_scale_millivolts: 6144 }));
    }
}

#[test]
fn single_shot_read_stops_at_a_failed_trigger() {
    let driver = driver_for(single_shot());
    let script = [Err(String::from("trigger failed")), Ok(()), Ok(())];
    let (performed, end) = run_read(&driver, &script, [0x12, 0x34]);
    assert_eq!(performed, vec![BusRequest::WriteWord { register: 0b01, value: 0x4180 }]);
    assert_eq!(end, Err(String::from("trigger failed")));
}

#[test]
fn single_shot_read_stops_at_a_failed_select() {
    let driver = driver_for(single_shot());
    let script = [Ok(()), Err(String::from("select failed")), Ok(())];
    let (performed, end) = run_read(&driver, &script, [0x12, 0x34]);
    assert_eq!(
        performed,
        vec![
            BusRequest::WriteWord { register: 0b01, value: 0x4180 },
            BusRequest::WritePointer { register: 0b00 },
        ]
    );
    assert_eq!(end, Err(String::from("select failed")));
}

#[test]
fn single_shot_read_stops_at_a_failed_fetch() {
    let driver = driver_for(single_shot());
    let script = [Ok(()), Ok(()), Err(String::from("fetch failed"))];
    let (performed, end) = run_read(&driver, &script, [0x12, 0x34]);
    assert_eq!(performed.len(), 3);
    assert_eq!(performed[2], BusRequest::ReadWord);
    assert_eq!(end, Err(String::from("fetch failed")));
}

#[test]
fn continuous_read_stops_at_the_first_failure() {
    let driver = driver_for(continuous());
    let script = [Err(String::from("select failed")), Ok(())];
    let (performed, end) = run_read(&driver, &script, [0x12, 0x34]);
    assert_eq!(performed, vec![BusRequest::WritePointer { register: 0b00 }]);
    assert_eq!(end, Err(String::from("select failed")));

    let script = [Ok(()), Err(String::from("fetch failed"))];
    let (performed, end) = run_read(&driver, &script, [0x12, 0x34]);
    assert_eq!(
        performed,
        vec![BusRequest::WritePointer { register: 0b00 }, BusRequest::ReadWord]
    );
    assert_eq!(end, Err(String::from("fetch failed")));
}

#[test]
fn a_failure_ends_the_read_at_every_stage() {
    let driver = driver_for(single_shot());
    for stage in [ReadStage::Trigger, ReadStage::Select, ReadStage::Fetch] {
        match driver.read_voltage(stage, Err(5u8), &[0x7F, 0xFF]) {
            ReadStep::Failed(error) => assert_eq!(error, 5),
            other => panic!("expected a failure, got {:?}", other),
        }
    }
}

#[test]
fn a_success_moves_to_the_next_stage() {
    let driver = driver_for(single_shot());
    match driver.read_voltage::<String>(ReadStage::Trigger, Ok(()), &[0xAA, 0xBB]) {
        ReadStep::Issue { stage, request } => {
            assert_eq!(stage, ReadStage::Select);
            assert_eq!(request, BusRequest::WritePointer { register: 0b00 });
        }
        other => panic!("expected the select, got {:?}", other),
    }
    match driver.read_voltage::<String>(ReadStage::Select, Ok(()), &[0xAA, 0xBB]) {
        ReadStep::Issue { stage, request } => {
            assert_eq!(stage, ReadStage::Fetch);
            assert_eq!(request, BusRequest::ReadWord);
        }
        other => panic!("expected the fetch, got {:?}", other),
    }
}

#[test]
fn conversion_bytes_decode_most_significant_first() {
    let driver = driver_for(single_shot());
    assert_eq!(fetch(&driver, [0x00, 0x00]).raw, 0);
    assert_eq!(fetch(&driver, [0x00, 0x01]).raw, 1);
    assert_eq!(fetch(&driver, [0x01, 0x00]).raw, 256);
    assert_eq!(fetch(&driver, [0x12, 0x34]).raw, 0x1234);
    assert_eq!(fetch(&driver, [0x7F, 0xFF]).raw, 32767);
    assert_eq!(fetch(&driver, [0x80, 0x00]).raw, -32768);
    assert_eq!(fetch(&driver, [0xFF, 0xFF]).raw, -1);
    assert_eq!(fetch(&driver, [0xFF, 0x00]).raw, -256);
    assert_eq!(fetch(&driver, [0x80, 0x01]).raw, -32767);
}

#[test]
fn every_pair_of_bytes_decodes_to_its_twos_complement_value() {
    let driver = driver_for(continuous());
    for high in 0..=255u8 {
        for low in 0..=255u8 {
            let unsigned = 256 * high as i32 + low as i32;
            let expected = if unsigned < 32768 { unsigned } else { unsigned - 65536 };
            assert_eq!(fetch(&driver, [high, low]).raw as i32, expected);
        }
    }
}

#[test]
fn sample_carries_the_full_scale_of_the_gain() {
    let driver =
        driver_for(config_with(ADS11145GainAmplifier::FS_0_256V, ADS111XOperatingMode::SingleShot));
    assert_eq!(fetch(&driver, [0x40, 0x00]), Reading { raw: 16384, full_scale_millivolts: 256 });
    let driver = driver_for(config_with(
        ADS11145GainAmplifier::FS_2_048V,
        ADS111XOperatingMode::ContinuousConversion,
    ));
    assert_eq!(fetch(&driver, [0xC0, 0x00]), Reading { raw: -16384, full_scale_millivolts: 2048 });
}

#[test]
fn numerator_is_code_times_full_scale() {
    assert_eq!(Reading { raw: 0, full_scale_millivolts: 6144 }.millivolt_numerator(), 0);
    assert_eq!(Reading { raw: 1, full_scale_millivolts: 4096 }.millivolt_numerator(), 4096);
    assert_eq!(
        Reading { raw: 32767, full_scale_millivolts: 6144 }.millivolt_numerator(),
        6144 * 32767
    );
    assert_eq!(
        Reading { raw: -32768, full_scale_millivolts: 6144 }.millivolt_numerator(),
        -201_326_592
    );
    assert_eq!(
        Reading { raw: -1, full_scale_millivolts: 256 }.millivolt_numerator(),
        -256
    );
}

#[test]
fn numerator_fits_for_the_extreme_values() {
    assert_eq!(
        Reading { raw: i16::MIN, full_scale_millivolts: u16::MAX }.millivolt_numerator(),
        -2_147_450_880
    );
    assert_eq!(
        Reading { raw: i16::MAX, full_scale_millivolts: u16::MAX }.millivolt_numerator(),
        2_147_385_345
    );
}

#[test]
fn positive_full_scale_code_reads_as_full_scale_voltage() {
    let driver = driver_for(single_shot());
    let reading = fetch(&driver, [0x7F, 0xFF]);
    assert_eq!(reading, Reading { raw: 32767, full_scale_millivolts: 6144 });
    assert_eq!(reading.millivolt_numerator(), 6144 * FULL_SCALE_CODE);
    assert!((volts(&reading) - 6.144).abs() < 1e-5);
}

#[test]
fn most_negative_code_reads_past_negative_full_scale() {
    let driver = driver_for(single_shot());
    let reading = fetch(&driver, [0x80, 0x00]);
    assert_eq!(reading, Reading { raw: -32768, full_scale_millivolts: 6144 });
    let voltage = volts(&reading);
    assert!(voltage < -6.144);
    assert!((voltage - (-6.144 * 32768.0 / 32767.0)).abs() < 1e-5);
    assert!((voltage - (-6.144336)).abs() < 2e-4);
}
