//! The fixed capture parameters, and the capture backend of each platform.

use vstd::prelude::*;
use crate::text::text_equals;

verus! {

/// The capture backend that a platform's devices are opened through.
#[derive(Clone, Copy, Debug, PartialEq, Eq, Structural)]
pub enum CaptureBackend {
    V4l2,
    WinRt,
    AvFoundation,
    /// Let the capture library choose.
    Any,
}

/// The backend of the platform that the operating system's name stands for.
pub open spec fn spec_backend_for(os_type: Seq<char>) -> CaptureBackend {
    if os_type == "Linux"@ {
        CaptureBackend::V4l2
    } else if os_type == "Windows"@ {
        CaptureBackend::WinRt
    } else if os_type == "Darwin"@ {
        CaptureBackend::AvFoundation
    } else {
        CaptureBackend::Any
    }
}

/// Picks the backend for an operating system by its name. It is picked once,
/// when the service starts, and handed to whatever opens a device.
pub fn backend_for(os_type: &str) -> (backend: CaptureBackend)
    ensures
        backend == spec_backend_for(os_type@),
{
    if text_equals(os_type, "Linux") {
        CaptureBackend::V4l2
    } else if text_equals(os_type, "Windows") {
        CaptureBackend::WinRt
    } else if text_equals(os_type, "Darwin") {
        CaptureBackend::AvFoundation
    } else {
        CaptureBackend::Any
    }
}

/// How the camera is configured and read.
#[derive(Clone, Copy, Debug, PartialEq, Eq, Structural)]
pub struct VideoSettings {
    pub width: u32,
    pub height: u32,
    pub frame_rate: u32,
    /// Frames that the device may buffer; one keeps the latency low.
    pub buffer_depth: u32,
    /// Quality of the JPEG encoding of each frame, of 100.
    pub jpeg_quality: i32,
    /// Frames read and thrown away after the device was opened.
    pub warmup_reads: u32,
    /// Pause between two warm-up reads, in milliseconds.
    pub warmup_pause_ms: u64,
    /// Pause between two reads of the loop, in milliseconds.
    pub read_interval_ms: u64,
}

/// How the microphone is configured and read.
#[derive(Clone, Copy, Debug, PartialEq, Eq, Structural)]
pub struct AudioSettings {
    pub sample_rate: u32,
    pub channels: u16,
    /// Size of each chunk that is published, in bytes.
    pub chunk_bytes: usize,
    /// Latency asked of the device, in milliseconds.
    pub latency_ms: u64,
    /// Chunks that may wait between the device's callback and the publisher.
    pub handoff_depth: usize,
}

/// Units that may wait in the outbound queue of one session.
pub const OUTBOUND_CAPACITY: usize = 10;

/// The camera's parameters.
pub fn video_settings() -> (settings: VideoSettings)
    ensures
        settings == (VideoSettings {
            width: 320,
            height: 240,
            frame_rate: 15,
            buffer_depth: 1,
            jpeg_quality: 60,
            warmup_reads: 5,
            warmup_pause_ms: 100,
            read_interval_ms: 66,
        }),
{
    VideoSettings {
        width: 320,
        height: 240,
        frame_rate: 15,
        buffer_depth: 1,
        jpeg_quality: 60,
        warmup_reads: 5,
        warmup_pause_ms: 100,
        read_interval_ms: 66,
    }
}

/// The microphone's parameters.
pub fn audio_settings() -> (settings: AudioSettings)
    ensures
        settings == (AudioSettings {
            sample_rate: 44100,
            channels: 2,
            chunk_bytes: 2048,
            latency_ms: 30,
            handoff_depth: 32,
        }),
{
    AudioSettings {
        sample_rate: 44100,
        channels: 2,
        chunk_bytes: 2048,
        latency_ms: 30,
        handoff_depth: 32,
    }
}

} // verus!
