use unimoji::device::{
    FrameTransfer, Segment, Stage, TransmitError, BUS_SPEED_HZ, SYNC_BYTE,
};
use unimoji::frame::{DecodedFrame, FRAME_HEIGHT, FRAME_PIXELS, FRAME_WIDTH};

/// A bus that records what it is given, and takes one write short if told to.
struct Bus {
    writes: Vec<Vec<u8>>,
    short: Option<(usize, usize)>,
}

impl Bus {
    fn whole() -> Bus {
        Bus { writes: Vec::new(), short: None }
    }

    fn short_at(write: usize, taken: usize) -> Bus {
        Bus { writes: Vec::new(), short: Some((write, taken)) }
    }

    fn write(&mut self, bytes: &[u8]) -> usize {
        let taken = match self.short {
            Some((write, taken)) if write == self.writes.len() => taken,
            _ => bytes.len(),
        };
        self.writes.push(bytes[..taken.min(bytes.len())].to_vec());
        taken
    }

    fn send(&mut self, frame: DecodedFrame) -> Result<(), TransmitError> {
        let mut transfer = FrameTransfer::new(frame);
        while let Some(segment) = transfer.segment() {
            let taken = self.write(segment);
            transfer.written(taken)?;
        }
        assert_eq!(transfer.current_stage(), Stage::Complete);
        Ok(())
    }
}

fn ramp(pixels: usize) -> Vec<u8> {
    (0..pixels * 3).map(|i| (i % 251) as u8).collect()
}

#[test]
fn display_has_sixteen_by_sixteen_pixels() {
    assert_eq!(FRAME_WIDTH, 16);
    assert_eq!(FRAME_HEIGHT, 16);
    assert_eq!(FRAME_PIXELS, 256);
    assert_eq!(SYNC_BYTE, 0x72);
    assert_eq!(BUS_SPEED_HZ, 9_000_000);
}

#[test]
fn frame_takes_exactly_three_bytes_a_pixel() {
    let frame = DecodedFrame::new(256, ramp(256)).unwrap();
    assert_eq!(frame.pixels(), 256);
    assert_eq!(frame.as_bytes(), &ramp(256)[..]);
    assert!(DecodedFrame::new(0, Vec::new()).is_some());
    assert!(DecodedFrame::new(1, vec![1, 2, 3]).is_some());
}

#[test]
fn frame_of_another_length_is_refused() {
    assert_eq!(DecodedFrame::new(256, vec![0; 767]), None);
    assert_eq!(DecodedFrame::new(256, vec![0; 769]), None);
    assert_eq!(DecodedFrame::new(256, vec![0; 256]), None);
    assert_eq!(DecodedFrame::new(256, Vec::new()), None);
    assert_eq!(DecodedFrame::new(0, vec![0]), None);
    assert_eq!(DecodedFrame::new(usize::MAX, vec![0; 3]), None);
    assert_eq!(DecodedFrame::new(usize::MAX / 3 + 1, Vec::new()), None);
}

#[test]
fn frame_from_pixels_drops_the_alpha() {
    let pixels = [[1, 2, 3, 4], [5, 6, 7, 8], [9, 10, 11, 12]];
    let frame = DecodedFrame::from_rgba(3, &pixels).unwrap();
    assert_eq!(frame.as_bytes(), &[1, 2, 3, 5, 6, 7, 9, 10, 11]);
    assert_eq!(frame.pixels(), 3);
    assert_eq!(DecodedFrame::from_rgba(2, &pixels), None);
    assert_eq!(DecodedFrame::from_rgba(4, &pixels), None);
    assert_eq!(DecodedFrame::from_rgba(0, &[]).unwrap().as_bytes(), &[] as &[u8]);
}

#[test]
fn transfer_writes_the_sync_byte_and_then_the_pixels() {
    let mut transfer = FrameTransfer::new(DecodedFrame::new(256, ramp(256)).unwrap());
    assert_eq!(transfer.current_stage(), Stage::Sync);
    assert_eq!(transfer.segment(), Some(&[0x72u8][..]));
    assert_eq!(transfer.written(1), Ok(()));
    assert_eq!(transfer.current_stage(), Stage::Pixels);
    assert_eq!(transfer.segment(), Some(&ramp(256)[..]));
    assert_eq!(transfer.written(768), Ok(()));
    assert_eq!(transfer.current_stage(), Stage::Complete);
    assert_eq!(transfer.segment(), None);
}

#[test]
fn whole_frame_accounts_for_one_byte_and_three_a_pixel() {
    for pixels in [0usize, 1, 2, 64, 256, 1000] {
        let mut bus = Bus::whole();
        assert_eq!(bus.send(DecodedFrame::new(pixels, ramp(pixels)).unwrap()), Ok(()));
        assert_eq!(bus.writes.len(), 2);
        assert_eq!(bus.writes[0], vec![0x72]);
        assert_eq!(bus.writes[1], ramp(pixels));
        assert_eq!(bus.writes[0].len() + bus.writes[1].len(), 1 + pixels * 3);
    }
}

#[test]
fn short_write_of_the_sync_byte_loses_the_frame() {
    let mut bus = Bus::short_at(0, 0);
    assert_eq!(
        bus.send(DecodedFrame::new(256, ramp(256)).unwrap()),
        Err(TransmitError::ShortWrite { segment: Segment::Sync, expected: 1, written: 0 })
    );
    // The pixels were never offered, and the sync byte was not offered again.
    assert_eq!(bus.writes.len(), 1);
}

#[test]
fn short_write_of_the_pixels_loses_the_frame() {
    let mut bus = Bus::short_at(1, 767);
    assert_eq!(
        bus.send(DecodedFrame::new(256, ramp(256)).unwrap()),
        Err(TransmitError::ShortWrite { segment: Segment::Pixels, expected: 768, written: 767 })
    );
    assert_eq!(bus.writes.len(), 2);
    assert_eq!(bus.writes[0], vec![0x72]);
    assert_eq!(bus.writes[1], &ramp(256)[..767]);
}

#[test]
fn write_of_no_pixel_at_all_is_short() {
    let mut bus = Bus::short_at(1, 0);
    assert_eq!(
        bus.send(DecodedFrame::new(1, vec![7, 8, 9]).unwrap()),
        Err(TransmitError::ShortWrite { segment: Segment::Pixels, expected: 3, written: 0 })
    );
}

#[test]
fn count_beyond_the_segment_is_no_whole_write() {
    let mut transfer = FrameTransfer::new(DecodedFrame::new(256, ramp(256)).unwrap());
    let error = TransmitError::ShortWrite { segment: Segment::Sync, expected: 1, written: 2 };
    assert_eq!(transfer.written(2), Err(error));
    assert_eq!(transfer.current_stage(), Stage::Failed(error));
}

#[test]
fn failed_transfer_stays_failed() {
    let mut transfer = FrameTransfer::new(DecodedFrame::new(256, ramp(256)).unwrap());
    assert_eq!(transfer.written(1), Ok(()));
    let error = TransmitError::ShortWrite { segment: Segment::Pixels, expected: 768, written: 5 };
    assert_eq!(transfer.written(5), Err(error));
    assert_eq!(transfer.segment(), None);
    assert_eq!(transfer.written(768), Err(error));
    assert_eq!(transfer.written(1), Err(error));
    assert_eq!(transfer.current_stage(), Stage::Failed(error));
    assert_eq!(transfer.segment(), None);
}

#[test]
fn complete_transfer_stays_complete() {
    let mut transfer = FrameTransfer::new(DecodedFrame::new(1, vec![1, 2, 3]).unwrap());
    assert_eq!(transfer.written(1), Ok(()));
    assert_eq!(transfer.written(3), Ok(()));
    assert_eq!(transfer.written(0), Ok(()));
    assert_eq!(transfer.current_stage(), Stage::Complete);
    assert_eq!(transfer.segment(), None);
}

#[test]
fn empty_frame_still_takes_two_writes() {
    let mut transfer = FrameTransfer::new(DecodedFrame::new(0, Vec::new()).unwrap());
    assert_eq!(transfer.segment(), Some(&[0x72u8][..]));
    assert_eq!(transfer.written(1), Ok(()));
    assert_eq!(transfer.segment(), Some(&[] as &[u8]));
    assert_eq!(transfer.written(0), Ok(()));
    assert_eq!(transfer.current_stage(), Stage::Complete);
}
