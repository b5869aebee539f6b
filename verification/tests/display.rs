use lvgl_display::color::COLOR_SIZE;
use lvgl_display::display::{
    DisplayDriver, DisplayError, FlushAction, BUFFER_COUNT, REFRESH_BUFFER_LEN,
};

#[test]
fn buffers_of_a_common_display() {
    let driver = DisplayDriver::new(480).unwrap();
    assert_eq!(driver.hor_res_max(), 480);
    assert_eq!(driver.buffer_len(), 960);
    assert_eq!(driver.buffer_bytes(), 1920);
    assert_eq!(driver.total_buffer_bytes(), 3840);
}

#[test]
fn buffer_sizes_follow_the_constants() {
    for hor_res_max in [1u32, 240, 320, 800, 1920, 32767] {
        let driver = DisplayDriver::new(hor_res_max).unwrap();
        let pixels = hor_res_max as u64 * REFRESH_BUFFER_LEN as u64;
        assert_eq!(driver.buffer_len() as u64, pixels);
        assert_eq!(driver.buffer_bytes(), pixels * COLOR_SIZE as u64);
        assert_eq!(driver.total_buffer_bytes(), pixels * COLOR_SIZE as u64 * BUFFER_COUNT as u64);
    }
}

#[test]
fn a_driver_without_resolution_has_empty_buffers() {
    let driver = DisplayDriver::new(0).unwrap();
    assert_eq!(driver.buffer_len(), 0);
    assert_eq!(driver.total_buffer_bytes(), 0);
}

#[test]
fn the_widest_display_that_can_be_served() {
    let driver = DisplayDriver::new(0x7FFF_FFFF).unwrap();
    assert_eq!(driver.buffer_len(), 0xFFFF_FFFE);
    assert_eq!(driver.buffer_bytes(), 0x1_FFFF_FFFC);
    assert_eq!(driver.total_buffer_bytes(), 0x3_FFFF_FFF8);
}

#[test]
fn a_buffer_too_long_to_tell_is_an_allocation_failure() {
    assert_eq!(DisplayDriver::new(0x8000_0000).unwrap_err(), DisplayError::AllocationFailure);
    assert_eq!(DisplayDriver::new(u32::MAX).unwrap_err(), DisplayError::AllocationFailure);
}

#[test]
fn a_new_driver_has_seen_no_flush() {
    let driver = DisplayDriver::new(480).unwrap();
    assert_eq!(driver.acknowledged(), 0);
    assert_eq!(driver.failures(), 0);
    assert_eq!(driver.last_failure(), None);
}

#[test]
fn a_drawn_flush_is_acknowledged() {
    let mut driver = DisplayDriver::new(480).unwrap();
    assert_eq!(driver.finish_flush(Ok(())), FlushAction::Acknowledge);
    assert_eq!(driver.acknowledged(), 1);
    assert_eq!(driver.failures(), 0);
    assert_eq!(driver.last_failure(), None);
}

#[test]
fn a_failed_flush_is_acknowledged_and_counted() {
    let mut driver = DisplayDriver::new(480).unwrap();
    assert_eq!(
        driver.finish_flush(Err(DisplayError::PixelWriteFailure)),
        FlushAction::Acknowledge
    );
    assert_eq!(driver.acknowledged(), 1);
    assert_eq!(driver.failures(), 1);
    assert_eq!(driver.last_failure(), Some(DisplayError::PixelWriteFailure));
}

#[test]
fn every_kind_of_failure_is_recorded() {
    for error in [
        DisplayError::AllocationFailure,
        DisplayError::PixelWriteFailure,
        DisplayError::ForeignPanicEscape,
    ] {
        let mut driver = DisplayDriver::new(16).unwrap();
        assert_eq!(driver.finish_flush(Err(error)), FlushAction::Acknowledge);
        assert_eq!(driver.last_failure(), Some(error));
        assert_eq!(driver.failures(), 1);
    }
}

#[test]
fn each_of_many_flushes_is_acknowledged_once() {
    let mut driver = DisplayDriver::new(480).unwrap();
    let mut signals = 0u64;
    for k in 0..1000u64 {
        let outcome = if k % 7 == 3 { Err(DisplayError::PixelWriteFailure) } else { Ok(()) };
        match driver.finish_flush(outcome) {
            FlushAction::Acknowledge => signals += 1,
        }
        assert_eq!(driver.acknowledged(), k + 1);
    }
    assert_eq!(signals, 1000);
    assert_eq!(driver.acknowledged(), 1000);
    assert_eq!(driver.failures(), 143);
}

#[test]
fn the_latest_failure_stays_after_a_good_flush() {
    let mut driver = DisplayDriver::new(480).unwrap();
    driver.finish_flush(Err(DisplayError::PixelWriteFailure));
    driver.finish_flush(Err(DisplayError::ForeignPanicEscape));
    driver.finish_flush(Ok(()));
    assert_eq!(driver.acknowledged(), 3);
    assert_eq!(driver.failures(), 2);
    assert_eq!(driver.last_failure(), Some(DisplayError::ForeignPanicEscape));
}

#[test]
fn flushes_leave_the_buffers_alone() {
    let mut driver = DisplayDriver::new(320).unwrap();
    driver.finish_flush(Ok(()));
    driver.finish_flush(Err(DisplayError::ForeignPanicEscape));
    assert_eq!(driver.hor_res_max(), 320);
    assert_eq!(driver.buffer_len(), 640);
    assert_eq!(driver.total_buffer_bytes(), 2560);
}
