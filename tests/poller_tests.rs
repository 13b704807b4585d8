use carbon_hmi::codec::block_to_bits;
use carbon_hmi::config::{DeviceConfig, ModbusTcpConfig, ReadRequest, RegisterType};
use carbon_hmi::control::{toggle_command, MutexData, WriteCommand, FLOAT_ONE_BITS, FLOAT_ZERO_BITS};
use carbon_hmi::error::{ConnectError, PollError, ReadError, WriteError};
use carbon_hmi::poller::{retry_wait_cycles, Action, Phase, Poller, MAX_WRITE_ATTEMPTS};
use carbon_hmi::session::{ReadBlock, SessionPlan};

fn tcp_device() -> DeviceConfig {
    DeviceConfig::ModbusTcp(ModbusTcpConfig { ip_address: "127.0.0.1".to_string(), port: 502 })
}

fn holding(start: u16, count: u16, interval: u64) -> ReadRequest {
    ReadRequest { register_type: RegisterType::Holding, start_address: start, count, scan_interval_ms: interval }
}

fn connected(request: ReadRequest, state: &mut MutexData) -> Poller {
    let (mut p, plan) = Poller::start(tcp_device(), request).unwrap();
    assert!(matches!(plan, SessionPlan::Tcp { .. }));
    assert_eq!(p.phase, Phase::Connecting);
    assert_eq!(p.on_connect(state, Ok(())), Action::Sleep(request.scan_interval_ms));
    assert_eq!(p.phase, Phase::Polling);
    p
}

#[test]
fn one_cycle_publishes_decoded_block() {
    let mut state = MutexData::new();
    let mut p = connected(holding(0, 4, 100), &mut state);
    let block = ReadBlock { register_type: RegisterType::Holding, start_address: 0, count: 4 };
    assert_eq!(p.on_wake(&mut state), Action::Read(block));
    let words: Vec<u16> = vec![0x3F80, 0x0000, 0x4000, 0x0000];
    assert_eq!(p.on_read_done(&mut state, Ok(words), 850), Action::Sleep(100));
    let values: Vec<f32> = block_to_bits(&state.snapshot.data).iter().map(|b| f32::from_bits(*b)).collect();
    assert_eq!(values, vec![1.0f32, 2.0f32]);
    let t = state.snapshot.achieved_scan_time_us;
    assert!(t > 0 && t < 100 * 1000);
    assert!(state.snapshot.last_error.is_none());
}

#[test]
fn failed_reads_keep_stale_data() {
    let mut state = MutexData::new();
    let mut p = connected(holding(10, 2, 200), &mut state);
    let mut last_good: Vec<u16> = Vec::new();
    for cycle in 1u16..=12 {
        let action = p.on_wake(&mut state);
        assert!(matches!(action, Action::Read(_)));
        let fails = cycle % 3 == 0;
        let result = if fails {
            Err(ReadError::Device("timeout".to_string()))
        } else {
            Ok(vec![cycle, cycle + 100])
        };
        p.on_read_done(&mut state, result, 500);
        if fails {
            let text = state.snapshot.error_text().unwrap();
            assert_eq!(text, "0x2: Could not read registers. timeout");
        } else {
            last_good = vec![cycle, cycle + 100];
            assert!(state.snapshot.error_text().is_none());
        }
        assert_eq!(state.snapshot.data, last_good);
    }
}

#[test]
fn stop_request_ends_poller_without_publishing() {
    let mut state = MutexData::new();
    let mut p = connected(holding(0, 4, 1000), &mut state);
    p.on_wake(&mut state);
    p.on_read_done(&mut state, Ok(vec![1, 2, 3, 4]), 300);
    state.control.post_write(WriteCommand::Bool { register: 3, value: true });
    state.control.request_terminate();
    assert_eq!(p.on_wake(&mut state), Action::Exit);
    assert_eq!(p.phase, Phase::Terminated);
    assert!(!state.control.terminate);
    assert_eq!(state.snapshot.data, vec![1, 2, 3, 4]);
    assert_eq!(state.snapshot.achieved_scan_time_us, 300);
    assert!(state.control.pending_write.is_some());
}

#[test]
fn second_posted_write_replaces_first() {
    let mut state = MutexData::new();
    let mut p = connected(holding(0, 4, 500), &mut state);
    let first = WriteCommand::Float { register: 32, bits: 50.0f32.to_bits() };
    let second = WriteCommand::Float { register: 32, bits: 75.0f32.to_bits() };
    state.control.post_write(first);
    state.control.post_write(second);
    assert_eq!(p.on_wake(&mut state), Action::Write(second));
    let after = p.on_write_done(&mut state, second, Ok(()));
    assert!(matches!(after, Action::Read(_)));
    assert!(state.control.pending_write.is_none());
    p.on_read_done(&mut state, Ok(vec![0; 4]), 10);
    assert!(matches!(p.on_wake(&mut state), Action::Read(_)));
}

#[test]
fn failing_write_is_retried_then_dropped() {
    let mut state = MutexData::new();
    let mut p = connected(holding(0, 4, 500), &mut state);
    let cmd = WriteCommand::Bool { register: 5, value: true };
    state.control.post_write(cmd);
    for attempt in 1..=MAX_WRITE_ATTEMPTS {
        assert_eq!(p.on_wake(&mut state), Action::Write(cmd));
        p.on_write_done(&mut state, cmd, Err(WriteError::Device("refused".to_string())));
        p.on_read_done(&mut state, Err(ReadError::Device("x".to_string())), 0);
        if attempt < MAX_WRITE_ATTEMPTS {
            assert_eq!(state.control.pending_write, Some(cmd));
            assert_eq!(state.control.write_failures, attempt);
            let wait = (1u32 << attempt) - 1;
            assert_eq!(state.control.write_wait, wait);
            for _ in 0..wait {
                assert!(matches!(p.on_wake(&mut state), Action::Read(_)));
                p.on_read_done(&mut state, Ok(vec![0; 4]), 5);
            }
            assert_eq!(state.control.write_wait, 0);
        }
    }
    assert!(state.control.pending_write.is_none());
    assert_eq!(state.control.write_failures, 0);
    assert!(matches!(state.snapshot.last_error, Some(PollError::Read(_))));
    assert!(matches!(p.on_wake(&mut state), Action::Read(_)));
}

#[test]
fn retry_wait_doubles() {
    let waits: Vec<u32> = (0..MAX_WRITE_ATTEMPTS).map(retry_wait_cycles).collect();
    assert_eq!(waits, vec![0, 1, 3, 7, 15]);
}

#[test]
fn write_failure_text_is_published() {
    let mut state = MutexData::new();
    let mut p = connected(holding(0, 4, 500), &mut state);
    let cmd = WriteCommand::Float { register: 32, bits: 50.0f32.to_bits() };
    state.control.post_write(cmd);
    assert_eq!(p.on_wake(&mut state), Action::Write(cmd));
    let next = p.on_write_done(&mut state, cmd, Err(WriteError::Device("refused".to_string())));
    assert!(matches!(next, Action::Read(_)));
    assert_eq!(state.snapshot.error_text().unwrap(), "0x4: Could not write command. refused");
    assert_eq!(state.control.write_wait, 1);
}

#[test]
fn gave_up_error_is_published() {
    let mut state = MutexData::new();
    let p = connected(holding(0, 4, 500), &mut state);
    let cmd = WriteCommand::Bool { register: 5, value: false };
    state.control.post_write(cmd);
    state.control.write_failures = MAX_WRITE_ATTEMPTS - 1;
    p.on_write_done(&mut state, cmd, Err(WriteError::Device("refused".to_string())));
    assert!(matches!(state.snapshot.last_error, Some(PollError::Write(WriteError::GaveUp))));
    assert_eq!(
        state.snapshot.error_text().unwrap(),
        "0x4: Could not write command. Gave up after repeated failures."
    );
}

#[test]
fn write_replaced_during_send_stays_pending() {
    let mut state = MutexData::new();
    let mut p = connected(holding(0, 4, 500), &mut state);
    let old_cmd = WriteCommand::Bool { register: 1, value: true };
    let new_cmd = WriteCommand::Bool { register: 1, value: false };
    state.control.post_write(old_cmd);
    assert_eq!(p.on_wake(&mut state), Action::Write(old_cmd));
    state.control.post_write(new_cmd);
    p.on_write_done(&mut state, old_cmd, Ok(()));
    assert_eq!(state.control.pending_write, Some(new_cmd));
}

#[test]
fn new_read_definition_applies_next_cycle() {
    let mut state = MutexData::new();
    let mut p = connected(holding(0, 4, 500), &mut state);
    let next = ReadRequest { register_type: RegisterType::Inputs, start_address: 20, count: 6, scan_interval_ms: 250 };
    state.control.post_config(next);
    let block = ReadBlock { register_type: RegisterType::Inputs, start_address: 20, count: 6 };
    assert_eq!(p.on_wake(&mut state), Action::Read(block));
    assert!(state.control.pending_config.is_none());
    assert_eq!(p.request, next);
    assert_eq!(p.on_read_done(&mut state, Ok(vec![0; 6]), 20), Action::Sleep(250));
}

#[test]
fn unreadable_block_is_reported_without_a_read() {
    let mut state = MutexData::new();
    let mut p = connected(holding(0, 0, 300), &mut state);
    assert_eq!(p.on_wake(&mut state), Action::Sleep(300));
    assert_eq!(
        state.snapshot.error_text().unwrap(),
        "0x2: Could not read registers. Invalid register count."
    );
    let mut state2 = MutexData::new();
    let other = connected(holding(65530, 10, 300), &mut state2);
    assert_eq!(other.issue_read(&mut state2), Action::Sleep(300));
    assert!(matches!(state2.snapshot.last_error, Some(PollError::Read(ReadError::InvalidAddress))));
}

#[test]
fn contended_wake_skips_control_slots() {
    let mut state = MutexData::new();
    let p = connected(holding(0, 4, 500), &mut state);
    state.control.request_terminate();
    assert!(matches!(p.issue_read(&mut state), Action::Read(_)));
    assert!(state.control.terminate);
}

#[test]
fn failed_connection_is_recorded_and_ends() {
    let mut state = MutexData::new();
    let (mut p, _) = Poller::start(tcp_device(), holding(0, 4, 500)).unwrap();
    let action = p.on_connect(&mut state, Err(ConnectError::Unreachable("refused".to_string())));
    assert_eq!(action, Action::Exit);
    assert_eq!(p.phase, Phase::Terminated);
    assert_eq!(state.snapshot.error_text().unwrap(), "0x1: Could not connect to server. refused");
    let mut state2 = MutexData::new();
    let (mut other, _) = Poller::start(tcp_device(), holding(0, 4, 500)).unwrap();
    other.on_connect(&mut state2, Err(ConnectError::InvalidAddress));
    assert_eq!(state2.snapshot.error_text().unwrap(), "0x3: Error parsing the address IP.");
}

#[test]
fn start_refuses_unwired_transport() {
    let r = Poller::start(DeviceConfig::EthernetIp, holding(0, 4, 500));
    assert!(matches!(r, Err(ConnectError::UnimplementedTransport)));
    assert_eq!(ConnectError::UnimplementedTransport.message(), "0x5: Transport not implemented.");
}

#[test]
fn toggle_flips_flag_by_current_word() {
    let mut data: Vec<u16> = vec![0; 40];
    assert_eq!(toggle_command(&data, 34), Some(WriteCommand::Float { register: 34, bits: FLOAT_ONE_BITS }));
    data[36] = 0x3F80;
    assert_eq!(toggle_command(&data, 36), Some(WriteCommand::Float { register: 36, bits: FLOAT_ZERO_BITS }));
    assert_eq!(f32::from_bits(FLOAT_ONE_BITS), 1.0f32);
    assert_eq!(toggle_command(&data, 40), None);
}
