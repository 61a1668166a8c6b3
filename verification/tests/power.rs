use mcx_hal::power::{derive_run_mode, flash_wait_states, RunMode};

#[test]
fn run_mode_levels() {
    assert_eq!(RunMode::UnderDrive.level(), 0);
    assert_eq!(RunMode::MidDrive.level(), 1);
    assert_eq!(RunMode::StandardDrive.level(), 2);
    assert_eq!(RunMode::OverDrive.level(), 3);
}

#[test]
fn derive_run_mode_thresholds() {
    assert_eq!(derive_run_mode(0), Some(RunMode::MidDrive));
    assert_eq!(derive_run_mode(24_000_000), Some(RunMode::MidDrive));
    assert_eq!(derive_run_mode(50_000_000), Some(RunMode::MidDrive));
    assert_eq!(derive_run_mode(50_000_001), Some(RunMode::StandardDrive));
    assert_eq!(derive_run_mode(100_000_000), Some(RunMode::StandardDrive));
    assert_eq!(derive_run_mode(100_000_001), Some(RunMode::OverDrive));
    assert_eq!(derive_run_mode(150_000_000), Some(RunMode::OverDrive));
    assert_eq!(derive_run_mode(150_000_001), None);
}

#[test]
fn derive_run_mode_120mhz_is_overdrive() {
    assert_eq!(derive_run_mode(120_000_000), Some(RunMode::OverDrive));
}

#[test]
fn flash_wait_states_overdrive_120mhz_is_3() {
    assert_eq!(
        flash_wait_states(RunMode::OverDrive, 120_000_000),
        Some(3)
    );
}

#[test]
fn flash_wait_states_mid_drive_bands() {
    assert_eq!(flash_wait_states(RunMode::MidDrive, 24_000_000), Some(0));
    assert_eq!(flash_wait_states(RunMode::MidDrive, 24_000_001), Some(1));
    assert_eq!(flash_wait_states(RunMode::MidDrive, 50_000_000), Some(1));
    assert_eq!(flash_wait_states(RunMode::MidDrive, 50_000_001), None);
}

#[test]
fn flash_wait_states_standard_drive_bands() {
    assert_eq!(flash_wait_states(RunMode::StandardDrive, 36_000_000), Some(0));
    assert_eq!(flash_wait_states(RunMode::StandardDrive, 36_000_001), Some(1));
    assert_eq!(flash_wait_states(RunMode::StandardDrive, 64_000_000), Some(1));
    assert_eq!(flash_wait_states(RunMode::StandardDrive, 64_000_001), Some(2));
    assert_eq!(flash_wait_states(RunMode::StandardDrive, 100_000_000), Some(2));
    assert_eq!(flash_wait_states(RunMode::StandardDrive, 100_000_001), None);
}

#[test]
fn flash_wait_states_overdrive_bands() {
    assert_eq!(flash_wait_states(RunMode::OverDrive, 36_000_000), Some(0));
    assert_eq!(flash_wait_states(RunMode::OverDrive, 64_000_000), Some(1));
    assert_eq!(flash_wait_states(RunMode::OverDrive, 100_000_000), Some(2));
    assert_eq!(flash_wait_states(RunMode::OverDrive, 150_000_000), Some(3));
    assert_eq!(flash_wait_states(RunMode::OverDrive, 150_000_001), None);
}

#[test]
fn flash_wait_states_under_drive_has_no_bands() {
    assert_eq!(flash_wait_states(RunMode::UnderDrive, 1_000_000), None);
}
