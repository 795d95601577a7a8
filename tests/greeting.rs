use rtic_hello::firmware::{Firmware, StartupError};
use rtic_hello::greeter::{Action, Event, Greeter, Phase, GREETING_DELAY_MS};
use rtic_hello::message::{greeting, GREETING_LEN};
use rtic_hello::serial::{DataBits, Parity, StopBits, UartSettings};

fn drive(fw: &mut Firmware, events: &[Event], out: &mut Vec<u8>) -> Vec<Action> {
    let mut actions = Vec::new();
    for ev in events {
        assert!(fw.has_room(*ev));
        let a = fw.step(*ev);
        if a == Action::WriteGreeting {
            out.extend_from_slice(&greeting());
        }
        actions.push(a);
    }
    actions
}

#[test]
fn greeting_is_the_exact_line() {
    assert_eq!(greeting(), b"Hello RTIC UART!\r\n".to_vec());
    assert_eq!(greeting().len(), GREETING_LEN);
}

#[test]
fn standard_settings_are_115200_8n1() {
    let s = UartSettings::standard();
    assert_eq!(s.baud_hz, 115_200);
    assert_eq!(s.data_bits, DataBits::Eight);
    assert_eq!(s.parity, None);
    assert_eq!(s.stop_bits, StopBits::One);
    assert_eq!(s.frame_bits(), 10);
}

#[test]
fn frame_bits_count_parity_and_stop_bits() {
    let s = UartSettings {
        baud_hz: 9600,
        data_bits: DataBits::Seven,
        parity: Some(Parity::Even),
        stop_bits: StopBits::Two,
    };
    assert_eq!(s.frame_bits(), 11);
    let s5 = UartSettings { baud_hz: 9600, data_bits: DataBits::Five, parity: None, stop_bits: StopBits::One };
    assert_eq!(s5.frame_bits(), 7);
}

#[test]
fn greeting_takes_about_one_and_a_half_milliseconds_on_the_wire() {
    let s = UartSettings::standard();
    // 18 bytes of 10 bits at 115,200 baud: 1562.5 us, rounded up.
    assert_eq!(s.wire_time_us(GREETING_LEN as u32), Some(1563));
    // 19 bytes: 1649.3 us, rounded up.
    assert_eq!(s.wire_time_us(19), Some(1650));
    assert_eq!(s.wire_time_us(0), Some(0));
    // An exact fit is not rounded: 1 byte of 10 bits at 10,000 baud.
    let exact = UartSettings { baud_hz: 10_000, ..s };
    assert_eq!(exact.wire_time_us(1), Some(1000));
}

#[test]
fn zero_baud_never_sends() {
    let s = UartSettings { baud_hz: 0, ..UartSettings::standard() };
    assert_eq!(s.wire_time_us(18), None);
}

#[test]
fn largest_length_does_not_overflow() {
    let s = UartSettings { baud_hz: 1, data_bits: DataBits::Eight, parity: Some(Parity::Odd), stop_bits: StopBits::Two };
    assert_eq!(s.wire_time_us(u32::MAX), Some(u32::MAX as u64 * 12 * 1_000_000));
}

#[test]
fn new_greeter_sleeps_a_thousand_ticks_per_millisecond() {
    let g = Greeter::new(GREETING_DELAY_MS);
    assert_eq!(g.delay, 1_000_000);
    assert_eq!(g.phase, Phase::Idle);
    assert_eq!(g.sent, 0);
    assert_eq!(Greeter::new(3).delay, 3000);
}

#[test]
fn spawn_while_active_is_dropped() {
    let mut g = Greeter::new(GREETING_DELAY_MS);
    assert_eq!(g.step(Event::Spawn), Action::WriteGreeting);
    let writing = g;
    for _ in 0..100 {
        assert_eq!(g.step(Event::Spawn), Action::Nothing);
    }
    assert_eq!(g, writing);
    assert_eq!(g.step(Event::WriteDone { elapsed: 1563 }), Action::Sleep { wake_at: 1_001_563 });
    let sleeping = g;
    for _ in 0..100 {
        assert_eq!(g.step(Event::Spawn), Action::Nothing);
    }
    assert_eq!(g, sleeping);
    assert_eq!(g.sent, 1);
}

#[test]
fn greetings_are_at_least_delay_plus_write_apart() {
    let mut g = Greeter::new(GREETING_DELAY_MS);
    assert_eq!(g.step(Event::Spawn), Action::WriteGreeting);
    let first = g.last_start;
    assert_eq!(g.step(Event::WriteDone { elapsed: 1563 }), Action::Sleep { wake_at: 1_001_563 });
    assert_eq!(g.step(Event::Tick { elapsed: 500_000 }), Action::Nothing);
    assert_eq!(g.step(Event::Spawn), Action::Nothing);
    assert_eq!(g.step(Event::Tick { elapsed: 499_999 }), Action::Nothing);
    assert_eq!(g.step(Event::Tick { elapsed: 1 }), Action::Finished);
    assert_eq!(g.phase, Phase::Idle);
    assert_eq!(g.step(Event::Spawn), Action::WriteGreeting);
    assert_eq!(g.last_start - first, 1_001_563);
    assert!(g.last_start - first >= 1_000_000 + 1563);
}

#[test]
fn late_timer_still_finishes() {
    let mut g = Greeter::new(1);
    g.step(Event::Spawn);
    g.step(Event::WriteDone { elapsed: 10 });
    assert_eq!(g.step(Event::Tick { elapsed: 5000 }), Action::Finished);
    assert_eq!(g.now, 5010);
}

#[test]
fn stray_events_change_nothing() {
    let mut g = Greeter::new(GREETING_DELAY_MS);
    let before = g;
    assert_eq!(g.step(Event::WriteDone { elapsed: 7 }), Action::Nothing);
    assert_eq!(g, before);
    assert_eq!(g.step(Event::Tick { elapsed: 7 }), Action::Nothing);
    assert_eq!(g.now, 7);
    assert_eq!(g.phase, Phase::Idle);
}

#[test]
fn clock_failure_halts_before_any_output() {
    let mut fw = Firmware::boot(false, true);
    assert_eq!(fw, Firmware::Halted { error: StartupError::Clocks });
    let mut out = Vec::new();
    let actions = drive(&mut fw, &[Event::Spawn, Event::WriteDone { elapsed: 5 }, Event::Tick { elapsed: 2_000_000 }, Event::Spawn], &mut out);
    assert!(out.is_empty());
    assert!(actions.iter().all(|a| *a == Action::Nothing));
    assert_eq!(Firmware::boot(false, false), Firmware::Halted { error: StartupError::Clocks });
}

#[test]
fn uart_failure_halts_before_any_output() {
    let mut fw = Firmware::boot(true, false);
    assert_eq!(fw, Firmware::Halted { error: StartupError::Uart });
    let mut out = Vec::new();
    drive(&mut fw, &[Event::Spawn, Event::Spawn], &mut out);
    assert!(out.is_empty());
}

#[test]
fn successful_boot_writes_the_greeting_over_and_over() {
    let mut fw = Firmware::boot(true, true);
    let mut out = Vec::new();
    let mut events = Vec::new();
    for _ in 0..3 {
        events.extend_from_slice(&[Event::Spawn, Event::Spawn, Event::WriteDone { elapsed: 1563 }, Event::Spawn, Event::Tick { elapsed: 1_000_000 }]);
    }
    drive(&mut fw, &events, &mut out);
    let mut expected = Vec::new();
    for _ in 0..3 {
        expected.extend_from_slice(b"Hello RTIC UART!\r\n");
    }
    assert_eq!(out, expected);
}

#[test]
fn ten_thousand_cycles_keep_content_and_cadence() {
    let mut fw = Firmware::boot(true, true);
    let mut out = Vec::new();
    let mut starts = Vec::new();
    for _ in 0..10_000 {
        let actions = drive(&mut fw, &[Event::Spawn, Event::Spawn, Event::WriteDone { elapsed: 1563 }, Event::Spawn, Event::Tick { elapsed: 1_000_000 }], &mut out);
        assert_eq!(actions[0], Action::WriteGreeting);
        assert_eq!(actions[1], Action::Nothing);
        assert_eq!(actions[3], Action::Nothing);
        assert_eq!(actions[4], Action::Finished);
        if let Firmware::Running { greeter } = fw {
            starts.push(greeter.last_start);
        } else {
            panic!("firmware stopped");
        }
    }
    assert_eq!(out.len(), 10_000 * GREETING_LEN);
    for chunk in out.chunks(GREETING_LEN) {
        assert_eq!(chunk, b"Hello RTIC UART!\r\n");
    }
    for w in starts.windows(2) {
        assert_eq!(w[1] - w[0], 1_001_563);
    }
    if let Firmware::Running { greeter } = fw {
        assert_eq!(greeter.sent, 10_000);
    }
}

#[test]
fn overflowing_events_find_no_room() {
    let g = Greeter::new(GREETING_DELAY_MS);
    assert!(g.has_room(Event::Tick { elapsed: u64::MAX }));
    let later = Greeter { now: 1, ..g };
    assert!(!later.has_room(Event::Tick { elapsed: u64::MAX }));
    assert!(!g.has_room(Event::WriteDone { elapsed: u64::MAX - 999_999 }));
    assert!(g.has_room(Event::WriteDone { elapsed: u64::MAX - 1_000_000 }));
    assert!(g.has_room(Event::Spawn));
    let full = Greeter { sent: u64::MAX, ..g };
    assert!(!full.has_room(Event::Spawn));
    let halted = Firmware::Halted { error: StartupError::Clocks };
    assert!(halted.has_room(Event::Tick { elapsed: u64::MAX }));
}
