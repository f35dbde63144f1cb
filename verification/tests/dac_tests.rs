use cloudbit::hardware::button;
use cloudbit::hardware::dac;
use cloudbit::hardware::dac::{get_ready_flag, mem_init, pack, set_ready_flag, Dac};
use cloudbit::hardware::RegWrite;

/// Runs one `set` against the status words that successive loads deliver and
/// returns what it stores.
fn run_set(dac: &mut Dac, value: u16, statuses: &[u32]) -> (Vec<RegWrite>, usize) {
    let mut step = dac::set(dac, value);
    let mut stores = Vec::new();
    let mut used = 0;
    loop {
        if let Some(write) = step.store {
            stores.push(write);
        }
        match step.load {
            Some(offset) if used < statuses.len() => {
                assert_eq!(offset, 0x40);
                step = dac.step(statuses[used]);
                used += 1;
            }
            _ => break,
        }
    }
    (stores, used)
}

#[test]
fn pack_flips_the_top_bit_and_doubles() {
    assert_eq!(pack(0x1234), 0x9234_9234);
    assert_eq!(pack(0x0000), 0x8000_8000);
    assert_eq!(pack(0x8000), 0x0000_0000);
    assert_eq!(pack(0xFFFF), 0x7FFF_7FFF);
    assert_eq!(pack(4660), 0x9234_9234);
}

#[test]
fn the_dac_needs_no_configuration() {
    assert_eq!(mem_init(), vec![]);
    assert_eq!(button::mem_init(), vec![]);
}

#[test]
fn a_new_driver_remembers_the_opposite_flag() {
    assert_eq!(dac::init(0x0000_0000).ready_flag, 0x0000_0002);
    assert_eq!(dac::init(0x0000_0002).ready_flag, 0x0000_0000);
    assert_eq!(dac::init(0xABCD_0013).ready_flag, 0xABCD_0011);
    assert_eq!(get_ready_flag(&dac::init(5)), 7);
}

#[test]
fn the_flag_can_be_replaced() {
    let mut dac = dac::init(0);
    set_ready_flag(&mut dac, 0x55);
    assert_eq!(get_ready_flag(&dac), 0x55);
    assert_eq!(dac.remaining, 0);
}

#[test]
fn a_status_that_never_changes_stores_nothing() {
    for status in [0u32, 2, 0xFFFF_FFFF, 0x1000_0000] {
        let mut dac = dac::init(status);
        set_ready_flag(&mut dac, status);
        let (stores, used) = run_set(&mut dac, 0x1234, &[status; 50]);
        assert_eq!(stores, vec![]);
        assert_eq!(used, 20);
        assert_eq!(get_ready_flag(&dac), status);
    }
}

#[test]
fn other_bits_of_the_status_do_not_count() {
    let mut dac = dac::init(0);
    set_ready_flag(&mut dac, 0x0000_0002);
    let statuses = [0x0000_0003u32, 0xFFFF_FFFF, 0x8000_0002, 0x0000_0006];
    let (stores, _) = run_set(&mut dac, 7, &statuses);
    assert_eq!(stores, vec![]);
    assert_eq!(get_ready_flag(&dac), 0x0000_0002);
}

#[test]
fn one_toggle_stores_the_packed_word_once() {
    let mut dac = dac::init(0x0000_0002);
    let (stores, used) = run_set(&mut dac, 0x1234, &[0x0000_0002; 20]);
    assert_eq!(stores, vec![RegWrite { offset: 0xF0, value: 0x9234_9234 }]);
    assert_eq!(used, 1);
    assert_eq!(get_ready_flag(&dac), 0x0000_0002);
    let (again, looks) = run_set(&mut dac, 0x1234, &[0x0000_0002; 20]);
    assert_eq!(again, vec![]);
    assert_eq!(looks, 20);
    let (flipped, _) = run_set(&mut dac, 0x0001, &[0x0000_0000; 20]);
    assert_eq!(flipped, vec![RegWrite { offset: 0xF0, value: 0x8001_8001 }]);
}

#[test]
fn a_late_toggle_still_stores_once() {
    let mut dac = dac::init(0x0000_0002);
    let mut statuses = vec![0x0000_0000u32; 20];
    statuses[19] = 0x0000_0002;
    let (stores, used) = run_set(&mut dac, 0xFFFF, &statuses);
    assert_eq!(used, 20);
    assert_eq!(stores, vec![RegWrite { offset: 0xF0, value: 0x7FFF_7FFF }]);
    assert_eq!(get_ready_flag(&dac), 0x0000_0002);
}

#[test]
fn a_toggle_after_the_last_look_is_missed() {
    let mut dac = dac::init(0x0000_0002);
    let mut statuses = vec![0x0000_0000u32; 21];
    statuses[20] = 0x0000_0002;
    let (stores, used) = run_set(&mut dac, 0xFFFF, &statuses);
    assert_eq!(used, 20);
    assert_eq!(stores, vec![]);
    assert_eq!(get_ready_flag(&dac), 0x0000_0000);
}

#[test]
fn a_flag_that_toggles_at_every_look_stores_once_per_set() {
    let mut dac = dac::init(0x0000_0002);
    let statuses: Vec<u32> = (0..40).map(|i| if i % 2 == 0 { 2 } else { 0 }).collect();
    let (stores, used) = run_set(&mut dac, 0x1234, &statuses);
    assert_eq!(stores, vec![RegWrite { offset: 0xF0, value: 0x9234_9234 }]);
    assert_eq!(used, 1);
    assert_eq!(get_ready_flag(&dac), 2);
    let (stores, used) = run_set(&mut dac, 0x4321, &statuses[1..]);
    assert_eq!(stores, vec![RegWrite { offset: 0xF0, value: 0xC321_C321 }]);
    assert_eq!(used, 1);
    assert_eq!(get_ready_flag(&dac), 0);
}

#[test]
fn a_toggling_flag_that_starts_as_remembered_stores_at_the_second_look() {
    let mut dac = dac::init(0x0000_0002);
    let statuses: Vec<u32> = (0..40).map(|i| if i % 2 == 0 { 0 } else { 2 }).collect();
    let (stores, used) = run_set(&mut dac, 0x1234, &statuses);
    assert_eq!(stores, vec![RegWrite { offset: 0xF0, value: 0x9234_9234 }]);
    assert_eq!(used, 2);
    assert_eq!(get_ready_flag(&dac), 2);
}

#[test]
fn after_a_store_the_handshake_is_over() {
    let mut dac = dac::init(0);
    let first = dac::set(&mut dac, 0x1234);
    assert_eq!(first.store, None);
    assert_eq!(first.load, Some(0x40));
    let step = dac.step(0);
    assert_eq!(step.store, Some(RegWrite { offset: 0xF0, value: 0x9234_9234 }));
    assert_eq!(step.load, None);
    assert_eq!(dac.remaining, 0);
    let step = dac.step(2);
    assert_eq!(step.store, None);
    assert_eq!(step.load, None);
    assert_eq!(get_ready_flag(&dac), 0);
}

#[test]
fn a_set_looks_twenty_times_and_no_more() {
    let mut dac = dac::init(0);
    let step = dac::set(&mut dac, 1);
    assert_eq!(step.store, None);
    assert_eq!(step.load, Some(0x40));
    assert_eq!(dac.remaining, 20);
    for look in 0..20 {
        let step = dac.step(2);
        assert_eq!(step.store, None);
        assert_eq!(step.load.is_some(), look < 19);
    }
    let step = dac.step(0);
    assert_eq!(step.store, None);
    assert_eq!(step.load, None);
    assert_eq!(get_ready_flag(&dac), 2);
}

#[test]
fn the_button_reads_pressed_when_its_bit_is_clear() {
    assert!(button::read(0x0000_0000));
    assert!(!button::read(0x0000_0080));
    assert!(button::read(0xFFFF_FF7F));
    assert!(!button::read(0xFFFF_FFFF));
    assert!(button::read(0x0000_0100));
    assert!(button::read(0x0000_0040));
}
