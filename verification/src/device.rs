//! The framing of a frame on the serial bus.
//!
//! A frame goes out in two writes: one synchronization byte, then the pixel
//! bytes as they are, with no length and no checksum. The bus must take each
//! write whole. A short write loses the frame: nothing is sent again, and
//! the receiver finds its place at the synchronization byte of the next one.
//!
//! A transfer does no I/O. It hands out the bytes of the next write and is
//! told how many of them the bus took.

use crate::frame::DecodedFrame;
use vstd::array::array_as_slice;
use vstd::prelude::*;

verus! {

/// The byte that marks the start of a frame.
pub const SYNC_BYTE: u8 = 0x72;

/// The clock rate of the bus, in hertz.
pub const BUS_SPEED_HZ: u32 = 9_000_000;

/// The two writes of a frame.
#[derive(Clone, Copy, Debug, PartialEq, Eq, Structural)]
pub enum Segment {
    /// The synchronization byte.
    Sync,
    /// The pixel bytes.
    Pixels,
}

/// Why a frame was lost.
#[derive(Clone, Copy, Debug, PartialEq, Eq, Structural)]
pub enum TransmitError {
    /// The bus took `written` bytes of a segment of `expected`.
    ShortWrite { segment: Segment, expected: usize, written: usize },
}

/// How far a transfer has come.
#[derive(Clone, Copy, Debug, PartialEq, Eq, Structural)]
pub enum Stage {
    /// The synchronization byte is to be written.
    Sync,
    /// The pixel bytes are to be written.
    Pixels,
    /// Both writes were taken whole.
    Complete,
    /// A write fell short; the frame is lost.
    Failed(TransmitError),
}

/// The transfer of one frame.
#[derive(Debug)]
pub struct FrameTransfer {
    preamble: [u8; 1],
    frame: DecodedFrame,
    stage: Stage,
}

/// What a frame looks like on the bus.
pub open spec fn wire_image(frame: Seq<u8>) -> Seq<u8> {
    seq![SYNC_BYTE] + frame
}

/// The bytes of the write that is due at a stage, if one is.
pub open spec fn segment_at(stage: Stage, frame: Seq<u8>) -> Option<Seq<u8>> {
    match stage {
        Stage::Sync => Some(seq![SYNC_BYTE]),
        Stage::Pixels => Some(frame),
        _ => None,
    }
}

/// The stage after the bus took `written` bytes of the write that was due.
pub open spec fn after_write(stage: Stage, frame: Seq<u8>, written: usize) -> Stage {
    match stage {
        Stage::Sync => if written == 1 {
            Stage::Pixels
        } else {
            Stage::Failed(
                TransmitError::ShortWrite { segment: Segment::Sync, expected: 1, written },
            )
        },
        Stage::Pixels => if written == frame.len() {
            Stage::Complete
        } else {
            Stage::Failed(
                TransmitError::ShortWrite {
                    segment: Segment::Pixels,
                    expected: frame.len() as usize,
                    written,
                },
            )
        },
        _ => stage,
    }
}

/// How a transfer stands: lost, or not.
pub open spec fn verdict(stage: Stage) -> Result<(), TransmitError> {
    match stage {
        Stage::Failed(error) => Err(error),
        _ => Ok(()),
    }
}

/// The content of an optional slice.
pub open spec fn bytes_of(segment: Option<&[u8]>) -> Option<Seq<u8>> {
    match segment {
        Some(bytes) => Some(bytes@),
        None => None,
    }
}

impl FrameTransfer {
    /// The pixel bytes of the frame in transfer.
    pub closed spec fn frame(&self) -> Seq<u8> {
        self.frame@
    }

    /// How far this transfer has come.
    pub closed spec fn stage(&self) -> Stage {
        self.stage
    }

    #[verifier::type_invariant]
    spec fn wf(&self) -> bool {
        self.preamble@ == seq![SYNC_BYTE]
    }

    /// Starts the transfer of `frame`.
    pub fn new(frame: DecodedFrame) -> (transfer: FrameTransfer)
        ensures
            transfer.frame() == frame@,
            transfer.stage() == Stage::Sync,
    {
        let preamble = [SYNC_BYTE];
        assert(preamble@ =~= seq![SYNC_BYTE]);
        FrameTransfer { preamble, frame, stage: Stage::Sync }
    }

    /// How far this transfer has come.
    pub fn current_stage(&self) -> (stage: Stage)
        ensures
            stage == self.stage(),
    {
        self.stage
    }

    /// The bytes of the write that is due, or `None` once the transfer is
    /// complete or has failed.
    pub fn segment(&self) -> (segment: Option<&[u8]>)
        ensures
            bytes_of(segment) == segment_at(self.stage(), self.frame()),
    {
        proof {
            use_type_invariant(self);
        }
        match self.stage {
            Stage::Sync => Some(array_as_slice(&self.preamble)),
            Stage::Pixels => Some(self.frame.as_bytes()),
            _ => None,
        }
    }

    /// Takes the number of bytes that the bus took of the write that was
    /// due. Anything but the whole segment fails the transfer with
    /// `ShortWrite`. Where no write was due, nothing changes. The result is
    /// the standing of the transfer: once failed, it stays so.
    pub fn written(&mut self, count: usize) -> (r: Result<(), TransmitError>)
        ensures
            final(self).frame() == old(self).frame(),
            final(self).stage() == after_write(old(self).stage(), old(self).frame(), count),
            r == verdict(final(self).stage()),
    {
        proof {
            use_type_invariant(&*self);
        }
        match self.stage {
            Stage::Sync => {
                if count == 1 {
                    self.stage = Stage::Pixels;
                } else {
                    self.stage = Stage::Failed(
                        TransmitError::ShortWrite {
                            segment: Segment::Sync,
                            expected: 1,
                            written: count,
                        },
                    );
                }
            },
            Stage::Pixels => {
                let expected = self.frame.as_bytes().len();
                if count == expected {
                    self.stage = Stage::Complete;
                } else {
                    self.stage = Stage::Failed(
                        TransmitError::ShortWrite {
                            segment: Segment::Pixels,
                            expected,
                            written: count,
                        },
                    );
                }
            },
            _ => {},
        }
        match self.stage {
            Stage::Failed(error) => Err(error),
            _ => Ok(()),
        }
    }
}

/// A transfer whose writes are both taken whole is complete after two
/// writes, which together are the wire image of the frame: the
/// synchronization byte and then every pixel byte, one byte and three for
/// each pixel.
pub proof fn law_whole_writes_send_the_wire_image(frame: Seq<u8>, pixels: nat)
    requires
        frame.len() == 3 * pixels,
        frame.len() <= usize::MAX,
    ensures
        ({
            let first = segment_at(Stage::Sync, frame).unwrap();
            let second_stage = after_write(Stage::Sync, frame, first.len() as usize);
            let second = segment_at(second_stage, frame).unwrap();
            let last_stage = after_write(second_stage, frame, second.len() as usize);
            &&& segment_at(Stage::Sync, frame) is Some
            &&& segment_at(second_stage, frame) is Some
            &&& first + second == wire_image(frame)
            &&& first.len() + second.len() == 1 + 3 * pixels
            &&& last_stage == Stage::Complete
            &&& segment_at(last_stage, frame) is None
            &&& verdict(last_stage) is Ok
        }),
{
}

/// A write that falls short of its segment, whichever of the two it is,
/// fails the transfer with `ShortWrite`; after that no write is due, and
/// nothing that is reported changes the standing.
pub proof fn law_short_write_loses_the_frame(stage: Stage, frame: Seq<u8>, written: usize, later: usize)
    requires
        segment_at(stage, frame) matches Some(bytes) && written != bytes.len(),
    ensures
        ({
            let failed = after_write(stage, frame, written);
            &&& failed is Failed
            &&& verdict(failed) is Err
            &&& segment_at(failed, frame) is None
            &&& after_write(failed, frame, later) == failed
        }),
{
}

} // verus!
