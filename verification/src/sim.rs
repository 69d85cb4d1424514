//! Implements functionality for generating a stream of VDIF frames for testing purposes.

use vstd::prelude::*;
use crate::frame::{zeros, VDIFFrame};
use crate::header_encoding::{encode_header, HeaderFields};

verus! {

/// The counters of a [`VDIFSim`].
pub struct SimState {
    /// Size of every generated frame in bytes, header included.
    pub frame_size: u32,
    /// Number of frames within one second, per thread.
    pub frame_rate: u32,
    /// Number of threads.
    pub thread_no: u32,
    /// Frame number of the next frame.
    pub current_frame: u32,
    /// Thread of the next frame.
    pub current_thread: u16,
    /// Second of the next frame.
    pub current_time: u32,
}

impl SimState {
    /// The header of the next frame: valid, not legacy, epoch 3, version 0, a single
    /// channel, real samples, a sample width field of 2 and station 134.
    pub open spec fn header(self) -> HeaderFields {
        HeaderFields {
            is_valid: true,
            is_legacy: false,
            time: self.current_time,
            epoch: 3,
            frameno: self.current_frame,
            version: 0,
            channels: 0,
            size: self.frame_size / 8,
            is_real: true,
            bits_per_sample: 2,
            thread: self.current_thread,
            station: 134,
            edv0: 0,
            edv1: 0,
            edv2: 0,
            edv3: 0,
        }
    }

    /// The counters after one frame was generated. The frame number advances first; when
    /// the last frame of a second was generated it starts again at zero and the thread
    /// advances; after the last thread the thread starts again at zero and the second
    /// advances.
    pub open spec fn advanced(self) -> SimState {
        if self.current_frame >= self.frame_rate - 1 {
            if self.current_thread == self.thread_no - 1 {
                SimState {
                    current_frame: 0,
                    current_thread: 0,
                    current_time: (self.current_time + 1) as u32,
                    ..self
                }
            } else {
                SimState {
                    current_frame: 0,
                    current_thread: (self.current_thread + 1) as u16,
                    ..self
                }
            }
        } else {
            SimState { current_frame: (self.current_frame + 1) as u32, ..self }
        }
    }

    /// The sizes are usable and the counters lie within them.
    pub open spec fn wf(self) -> bool {
        &&& self.frame_size % 8 == 0
        &&& self.frame_size >= 32
        &&& 1 <= self.frame_rate
        &&& 1 <= self.thread_no <= 0x10000
        &&& self.current_thread < self.thread_no
    }
}

/// Allows the generation of test VDIF frames.
pub struct VDIFSim {
    frame_size: u32,
    frame_rate: u32,
    thread_no: u32,
    current_frame: u32,
    current_thread: u16,
    current_time: u32,
}

impl View for VDIFSim {
    type V = SimState;

    closed spec fn view(&self) -> SimState {
        SimState {
            frame_size: self.frame_size,
            frame_rate: self.frame_rate,
            thread_no: self.thread_no,
            current_frame: self.current_frame,
            current_thread: self.current_thread,
            current_time: self.current_time,
        }
    }
}

impl VDIFSim {
    /// Construct a new [`VDIFSim`].
    ///
    /// `frame_size` is the size of every frame in bytes, a multiple of eight that has
    /// room for a header. `frame_rate` is the the number of frames contained within one
    /// second *per* thread.
    pub fn new(frame_size: usize, frame_rate: usize, thread_no: usize) -> (sim: Self)
        requires
            frame_size % 8 == 0,
            32 <= frame_size <= u32::MAX,
            1 <= frame_rate <= u32::MAX,
            1 <= thread_no <= 0x10000,
        ensures
            sim@ == (SimState {
                frame_size: frame_size as u32,
                frame_rate: frame_rate as u32,
                thread_no: thread_no as u32,
                current_frame: 0,
                current_thread: 0,
                current_time: 0,
            }),
            sim@.wf(),
    {
        VDIFSim {
            frame_size: frame_size as u32,
            frame_rate: frame_rate as u32,
            thread_no: thread_no as u32,
            current_frame: 0,
            current_thread: 0,
            current_time: 0,
        }
    }

    /// The second of the next frame.
    pub fn current_time(&self) -> (time: u32)
        ensures
            time == self@.current_time,
    {
        self.current_time
    }

    /// The frame number of the next frame.
    pub fn current_frame(&self) -> (frameno: u32)
        ensures
            frameno == self@.current_frame,
    {
        self.current_frame
    }

    /// The thread of the next frame.
    pub fn current_thread(&self) -> (thread: u16)
        ensures
            thread == self@.current_thread,
    {
        self.current_thread
    }

    /// Generate a [`VDIFFrame`].
    ///
    /// The generated VDIF frame contains the following header fields:
    ///
    /// `
    /// is_valid: true,
    /// is_legacy: false,
    /// time: [current_time],
    /// epoch: 3,
    /// frameno: [current_frame],
    /// version: 0,
    /// channels: 0,
    /// size: frame_size/8,
    /// is_real: true,
    /// bits_per_sample: 2,
    /// thread: [current_thread],
    /// station: 134,
    /// edv0: 0,
    /// edv1: 0,
    /// edv2: 0,
    /// edv3: 0
    /// `
    ///
    /// All data samples are set to zero, and `current_` variables are incremented properly
    /// when this function is called. The internal counters are incremented in the following
    /// order: [current_frame] -> [current_thread] -> [current_time].
    /// The generated VDIF frames are only valid for six months since the `epoch` field is not
    /// handled.
    pub fn generate_frame(&mut self) -> (frame: VDIFFrame)
        requires
            old(self)@.wf(),
            old(self)@.current_time < u32::MAX,
        ensures
            frame@ == old(self)@.header().encoded() + zeros(
                (old(self)@.frame_size / 4 - 8) as nat,
            ),
            frame.wf(),
            final(self)@ == old(self)@.advanced(),
            final(self)@.wf(),
    {
        let mut out = VDIFFrame::new_empty(self.frame_size as usize);
        let outheader = HeaderFields {
            is_valid: true,
            is_legacy: false,
            time: self.current_time,
            epoch: 3,
            frameno: self.current_frame,
            version: 0,
            channels: 0,
            size: self.frame_size / 8,
            is_real: true,
            bits_per_sample: 2,
            thread: self.current_thread,
            station: 134,
            edv0: 0,
            edv1: 0,
            edv2: 0,
            edv3: 0,
        };
        let encoded_header = encode_header(outheader);
        let words = out.as_mut_slice();
        let mut i: usize = 0;
        while i < 8
            invariant
                i <= 8,
                words@.len() == self.frame_size / 4,
                self.frame_size >= 32,
                encoded_header@ == outheader.encoded(),
                forall|j: int| 0 <= j < i ==> #[trigger] words@[j] == encoded_header@[j],
                forall|j: int| i <= j < words@.len() ==> #[trigger] words@[j] == 0,
            decreases 8 - i,
        {
            words[i] = encoded_header[i];
            i = i + 1;
        }
        assert(words@ =~= outheader.encoded() + zeros((self.frame_size / 4 - 8) as nat));
        if self.current_frame >= self.frame_rate - 1 {
            self.current_frame = 0;
            if self.current_thread as u32 == self.thread_no - 1 {
                self.current_thread = 0;
                self.current_time = self.current_time + 1;
            } else {
                self.current_thread = self.current_thread + 1;
            }
        } else {
            self.current_frame = self.current_frame + 1;
        }
        out
    }
}

} // verus!
