use rport::relay::{Command, Pump, Signal, Stage};

fn data(bytes: &[u8]) -> Signal<String> {
    Signal::Data(bytes.to_vec())
}

fn failed(text: &str) -> Signal<String> {
    Signal::Failed(String::from(text))
}

#[test]
fn fresh_pump_is_about_to_read() {
    let pump = Pump::new();
    assert_eq!(pump.stage(), Stage::Reading);
    assert!(!pump.is_over());
    assert_eq!(pump.forwarded(), 0);
}

#[test]
fn pump_hands_each_chunk_on_unchanged() {
    let mut pump = Pump::new();
    assert_eq!(pump.step(data(b"he")), Command::Write(b"he".to_vec()));
    assert_eq!(pump.stage(), Stage::Writing);
    assert_eq!(pump.forwarded(), 0);
    assert_eq!(pump.step(Signal::<String>::Written), Command::Read);
    assert_eq!(pump.stage(), Stage::Reading);
    assert_eq!(pump.forwarded(), 2);
    assert_eq!(pump.step(data(b"llo")), Command::Write(b"llo".to_vec()));
    assert_eq!(pump.step(Signal::<String>::Written), Command::Read);
    assert_eq!(pump.forwarded(), 5);
}

#[test]
fn pump_half_closes_at_end_of_stream() {
    let mut pump = Pump::new();
    assert_eq!(pump.step(data(b"abc")), Command::Write(b"abc".to_vec()));
    assert_eq!(pump.step(Signal::<String>::Written), Command::Read);
    assert_eq!(pump.step(Signal::<String>::Eof), Command::Shutdown);
    assert_eq!(pump.stage(), Stage::Closing);
    assert!(!pump.is_over());
    assert_eq!(pump.step(Signal::<String>::Closed), Command::Finish);
    assert_eq!(pump.stage(), Stage::Finished);
    assert!(pump.is_over());
    assert_eq!(pump.forwarded(), 3);
}

#[test]
fn pump_treats_an_empty_chunk_as_end_of_stream() {
    let mut pump = Pump::new();
    assert_eq!(pump.step(data(b"")), Command::Shutdown);
    assert_eq!(pump.stage(), Stage::Closing);
    assert_eq!(pump.forwarded(), 0);
}

#[test]
fn pump_of_an_empty_stream_moves_nothing() {
    let mut pump = Pump::new();
    assert_eq!(pump.step(Signal::<String>::Eof), Command::Shutdown);
    assert_eq!(pump.step(Signal::<String>::Closed), Command::Finish);
    assert_eq!(pump.forwarded(), 0);
}

#[test]
fn pump_fails_on_a_read_error() {
    let mut pump = Pump::new();
    assert_eq!(pump.step(failed("reset")), Command::Fail(String::from("reset")));
    assert_eq!(pump.stage(), Stage::Failed);
    assert!(pump.is_over());
}

#[test]
fn pump_fails_on_a_write_error_and_does_not_count_the_chunk() {
    let mut pump = Pump::new();
    assert_eq!(pump.step(data(b"1234")), Command::Write(b"1234".to_vec()));
    assert_eq!(pump.step(Signal::<String>::Written), Command::Read);
    assert_eq!(pump.step(data(b"56")), Command::Write(b"56".to_vec()));
    assert_eq!(pump.step(failed("broken pipe")), Command::Fail(String::from("broken pipe")));
    assert_eq!(pump.stage(), Stage::Failed);
    assert_eq!(pump.forwarded(), 4);
}

#[test]
fn pump_fails_on_a_shutdown_error() {
    let mut pump = Pump::new();
    assert_eq!(pump.step(Signal::<String>::Eof), Command::Shutdown);
    assert_eq!(pump.step(failed("not connected")), Command::Fail(String::from("not connected")));
    assert_eq!(pump.stage(), Stage::Failed);
}

#[test]
fn pump_drops_signals_that_answer_nothing() {
    let mut pump = Pump::new();
    assert_eq!(pump.step(Signal::<String>::Written), Command::Nothing);
    assert_eq!(pump.step(Signal::<String>::Closed), Command::Nothing);
    assert_eq!(pump.stage(), Stage::Reading);
    assert_eq!(pump.step(data(b"xy")), Command::Write(b"xy".to_vec()));
    assert_eq!(pump.step(data(b"zz")), Command::Nothing);
    assert_eq!(pump.step(Signal::<String>::Eof), Command::Nothing);
    assert_eq!(pump.step(Signal::<String>::Closed), Command::Nothing);
    assert_eq!(pump.stage(), Stage::Writing);
    assert_eq!(pump.step(Signal::<String>::Written), Command::Read);
    assert_eq!(pump.forwarded(), 2);
    assert_eq!(pump.step(Signal::<String>::Eof), Command::Shutdown);
    assert_eq!(pump.step(data(b"late")), Command::Nothing);
    assert_eq!(pump.step(Signal::<String>::Written), Command::Nothing);
    assert_eq!(pump.step(Signal::<String>::Eof), Command::Nothing);
    assert_eq!(pump.stage(), Stage::Closing);
}

#[test]
fn pump_that_ended_stays_as_it_is() {
    let mut done = Pump::new();
    done.step(Signal::<String>::Eof);
    done.step(Signal::<String>::Closed);
    assert_eq!(done.step(data(b"more")), Command::Nothing);
    assert_eq!(done.step(failed("late")), Command::Nothing);
    assert_eq!(done.step(Signal::<String>::Closed), Command::Nothing);
    assert_eq!(done.stage(), Stage::Finished);

    let mut broken = Pump::new();
    broken.step(failed("first"));
    assert_eq!(broken.step(failed("second")), Command::Nothing);
    assert_eq!(broken.step(data(b"more")), Command::Nothing);
    assert_eq!(broken.step(Signal::<String>::Eof), Command::Nothing);
    assert_eq!(broken.stage(), Stage::Failed);
}

#[test]
fn pump_writes_exactly_what_it_read_for_many_chunks() {
    let mut pump = Pump::new();
    let mut read: Vec<u8> = Vec::new();
    let mut written: Vec<u8> = Vec::new();
    for round in 0..40u32 {
        let chunk: Vec<u8> = (0..(round % 7 + 1)).map(|i| (round * 31 + i * 17) as u8).collect();
        read.extend_from_slice(&chunk);
        match pump.step(Signal::<String>::Data(chunk)) {
            Command::Write(bytes) => written.extend_from_slice(&bytes),
            other => panic!("unexpected command: {:?}", other),
        }
        assert_eq!(pump.step(Signal::<String>::Written), Command::Read);
        assert_eq!(pump.forwarded(), read.len() as u64);
    }
    assert_eq!(written, read);
}
