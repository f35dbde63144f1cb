use cloudbit::hardware::adc::{
    count_of, mem_init, read, read_temp, ready_bit, rescale, sample, Channel, ChannelPoll,
    PollPhase, Reading, ThermalReading,
};
use cloudbit::hardware::{within_window, RegWrite, Step};

/// Feeds a reading the words that successive loads deliver and records what
/// it stores and where it loads.
fn run_reading(wait_irq: bool, words: &[u32]) -> (Reading, Vec<RegWrite>, Vec<usize>, usize) {
    let (mut reading, mut step) = read(wait_irq);
    let mut stores = Vec::new();
    let mut loads = Vec::new();
    let mut used = 0;
    loop {
        if let Some(write) = step.store {
            stores.push(write);
        }
        match step.load {
            Some(offset) if used < words.len() => {
                loads.push(offset);
                step = reading.step(words[used]);
                used += 1;
            }
            _ => break,
        }
    }
    (reading, stores, loads, used)
}

#[test]
fn adc_init_configures_the_converter() {
    assert_eq!(
        mem_init(),
        vec![
            RegWrite { offset: 0x0008, value: 0x4000_0000 },
            RegWrite { offset: 0x0004, value: 0x0000_0001 },
            RegWrite { offset: 0x0028, value: 0x0700_8000 },
            RegWrite { offset: 0x0014, value: 0x0007_0000 },
            RegWrite { offset: 0x0034, value: 0x0000_0001 },
            RegWrite { offset: 0x0024, value: 0x0700_0000 },
            RegWrite { offset: 0x0144, value: 0x0000_0980 },
        ]
    );
}

#[test]
fn rescale_is_zero_up_to_the_threshold() {
    assert_eq!(rescale(0), 0);
    assert_eq!(rescale(1), 0);
    assert_eq!(rescale(199), 0);
    assert_eq!(rescale(200), 0);
}

#[test]
fn rescale_just_above_the_threshold() {
    // (31 * 201 - 6200) / 11 = 2, and 2 / 16 = 0
    assert_eq!(rescale(201), 0);
    // (31 * 205 - 6200) / 11 = 14, (31 * 206 - 6200) / 11 = 16
    assert_eq!(rescale(205), 0);
    assert_eq!(rescale(206), 1);
}

#[test]
fn rescale_is_linear_in_between() {
    assert_eq!(rescale(300), 17);
    assert_eq!(rescale(1000), 140);
    assert_eq!(rescale(1500), 228);
}

#[test]
fn rescale_is_capped() {
    // (31 * 1647 - 6200) / 11 = 4077, (31 * 1648 - 6200) / 11 = 4080
    assert_eq!(rescale(1647), 254);
    assert_eq!(rescale(1648), 255);
    assert_eq!(rescale(2000), 255);
    assert_eq!(rescale(0x3FFFF), 255);
    assert_eq!(rescale(0x7FFF_FFFF), 255);
    assert_eq!(rescale(u32::MAX), 255);
}

#[test]
fn the_ready_bit_is_the_top_bit() {
    assert!(!ready_bit(0));
    assert!(!ready_bit(0x7FFF_FFFF));
    assert!(ready_bit(0x8000_0000));
    assert!(ready_bit(0xFFFF_FFFF));
    assert_eq!(sample(0x8000_03E8), 0x3E8);
    assert_eq!(sample(0x0000_03E8), 0x3E8);
    assert_eq!(sample(0xFFFF_FFFF), 0x7FFF_FFFF);
}

#[test]
fn channels_have_their_bits_and_registers() {
    assert_eq!(Channel::Input.mask(), 1);
    assert_eq!(Channel::ThermalP.mask(), 2);
    assert_eq!(Channel::ThermalN.mask(), 4);
    assert_eq!(Channel::Input.value_offset(), 0x50);
    assert_eq!(Channel::ThermalP.value_offset(), 0x60);
    assert_eq!(Channel::ThermalN.value_offset(), 0x70);
}

#[test]
fn polling_ends_when_the_bit_goes_from_low_to_high() {
    let words = [0x0000_0100, 0x0000_0100, 0x0000_0100, 0x8000_03E8, 0x8000_03E8];
    let (reading, stores, loads, used) = run_reading(false, &words);
    assert_eq!(used, 5);
    assert_eq!(loads, vec![0x50; 5]);
    assert_eq!(
        stores,
        vec![
            RegWrite { offset: 0x0004, value: 1 },
            RegWrite { offset: 0x0018, value: 1 },
        ]
    );
    assert_eq!(reading.sample(), Some(140));
}

#[test]
fn polling_ends_when_the_bit_goes_from_high_to_low() {
    let words = [0x8000_0100, 0x8000_0100, 0x8000_0100, 0x0000_03E8, 0x0000_03E8];
    let (reading, stores, loads, used) = run_reading(false, &words);
    assert_eq!(used, 5);
    assert_eq!(loads, vec![0x50; 5]);
    assert_eq!(stores.len(), 2);
    assert_eq!(reading.sample(), Some(140));
}

#[test]
fn polling_goes_on_while_the_bit_stays() {
    for stuck in [0x0000_0123u32, 0x8000_0123u32] {
        let words = vec![stuck; 200];
        let (reading, stores, loads, used) = run_reading(false, &words);
        assert_eq!(used, 200);
        assert_eq!(loads, vec![0x50; 200]);
        assert_eq!(stores, vec![RegWrite { offset: 0x0004, value: 1 }]);
        assert_eq!(reading.sample(), None);
        assert_eq!(
            reading.poll.phase,
            PollPhase::AwaitFlip { high: stuck >= 0x8000_0000 }
        );
    }
}

#[test]
fn the_interrupt_bit_is_awaited_on_request() {
    let words = [0x0000_0100, 0x8000_0200, 0x0000_0006, 0x0000_0000, 0x0000_0001, 0x8000_012C];
    let (reading, stores, loads, used) = run_reading(true, &words);
    assert_eq!(used, 6);
    assert_eq!(loads, vec![0x50, 0x50, 0x10, 0x10, 0x10, 0x50]);
    assert_eq!(
        stores,
        vec![
            RegWrite { offset: 0x0004, value: 1 },
            RegWrite { offset: 0x0018, value: 1 },
        ]
    );
    assert_eq!(reading.sample(), Some(17));
}

#[test]
fn a_finished_reading_asks_for_nothing_more() {
    let (mut reading, _, _, _) = run_reading(false, &[0, 0x8000_0000, 0x8000_03E8]);
    assert_eq!(reading.sample(), Some(140));
    let step = reading.step(0x1234_5678);
    assert_eq!(step.store, None);
    assert_eq!(step.load, None);
    assert_eq!(reading.sample(), Some(140));
}

#[test]
fn a_poll_steps_through_its_phases() {
    let (mut poll, step) = ChannelPoll::begin(Channel::ThermalP, true);
    assert_eq!(step.store, Some(RegWrite { offset: 0x0004, value: 2 }));
    assert_eq!(step.load, Some(0x60));
    assert_eq!(poll.phase, PollPhase::Prime);
    assert_eq!(poll.step(0x8000_0000), Some(0x60));
    assert_eq!(poll.phase, PollPhase::AwaitFlip { high: true });
    assert_eq!(poll.step(0x8000_0001), Some(0x60));
    assert_eq!(poll.phase, PollPhase::AwaitFlip { high: true });
    assert_eq!(poll.step(0x0000_0001), Some(0x10));
    assert_eq!(poll.phase, PollPhase::AwaitIrq);
    assert_eq!(poll.step(0x0000_0005), Some(0x10));
    assert_eq!(poll.phase, PollPhase::AwaitIrq);
    assert_eq!(poll.step(0x0000_0002), Some(0x60));
    assert_eq!(poll.phase, PollPhase::Latch);
    assert_eq!(poll.step(0x0000_0777), None);
    assert_eq!(poll.phase, PollPhase::Latched { word: 0x777 });
    assert_eq!(poll.step(0x0000_0001), None);
    assert_eq!(poll.phase, PollPhase::Latched { word: 0x777 });
}

#[test]
fn thermal_counts_are_twelve_bits() {
    assert_eq!(count_of(0x8000_1ABC), 0xABC);
    assert_eq!(count_of(0xFFFF_FFFF), 0xFFF);
    assert_eq!(count_of(0), 0);
}

#[test]
fn a_thermal_reading_converts_both_channels() {
    let (mut reading, first) = read_temp();
    assert_eq!(first.store, Some(RegWrite { offset: 0x0004, value: 2 }));
    assert_eq!(first.load, Some(0x60));
    let mut steps: Vec<Step> = Vec::new();
    for word in [0x0000_0000u32, 0x0000_0000, 0x8000_0000, 0x8000_0400] {
        steps.push(reading.step(word));
    }
    assert_eq!(steps[0].load, Some(0x60));
    assert_eq!(steps[2].load, Some(0x60));
    assert_eq!(steps[3].store, Some(RegWrite { offset: 0x0004, value: 4 }));
    assert_eq!(steps[3].load, Some(0x70));
    assert_eq!(reading.difference(), None);
    let mut last = steps[3];
    for word in [0x8000_0000u32, 0x8000_0000, 0x0000_0000, 0x0000_0520] {
        assert_eq!(last.load, Some(0x70));
        last = reading.step(word);
    }
    assert_eq!(last.store, Some(RegWrite { offset: 0x0018, value: 6 }));
    assert_eq!(last.load, None);
    assert_eq!(reading, ThermalReading::Done { pmos: 0x400, nmos: 0x520 });
    assert_eq!(reading.difference(), Some(0x120));
    let after = reading.step(7);
    assert_eq!(after.store, None);
    assert_eq!(after.load, None);
}

#[test]
fn a_thermal_difference_may_be_negative() {
    let reading = ThermalReading::Done { pmos: 0xFFF, nmos: 0 };
    assert_eq!(reading.difference(), Some(-4095));
    let reading = ThermalReading::Done { pmos: 0xFFFF, nmos: 0 };
    assert_eq!(reading.difference(), Some(-65535));
    let reading = ThermalReading::Done { pmos: 0, nmos: 0xFFFF };
    assert_eq!(reading.difference(), Some(65535));
}

#[test]
fn the_window_holds_aligned_words() {
    assert!(within_window(0));
    assert!(within_window(0x0050));
    assert!(within_window(0x1FFC));
    assert!(!within_window(0x1FFD));
    assert!(!within_window(0x2000));
    assert!(!within_window(0x0051));
    assert!(!within_window(usize::MAX));
}
