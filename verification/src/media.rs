//! Media units: what the capture loop produces and every viewer receives.

use vstd::prelude::*;

verus! {

/// A unit of the video stream: an encoded frame, or the message of a failure.
#[derive(Debug, PartialEq, Eq)]
pub enum VideoCommand {
    Frame(Vec<u8>),
    Error(String),
}

/// A unit of the audio stream: a chunk of samples, or a text.
#[derive(Debug, PartialEq, Eq)]
pub enum AudioCommand {
    Data(Vec<u8>),
    Text(String),
}

/// What a unit holds: payload bytes, or the characters of a message.
pub enum MediaUnit {
    Frame(Seq<u8>),
    Error(Seq<char>),
}

impl View for VideoCommand {
    type V = MediaUnit;

    open spec fn view(&self) -> MediaUnit {
        match self {
            VideoCommand::Frame(bytes) => MediaUnit::Frame(bytes@),
            VideoCommand::Error(text) => MediaUnit::Error(text@),
        }
    }
}

impl View for AudioCommand {
    type V = MediaUnit;

    open spec fn view(&self) -> MediaUnit {
        match self {
            AudioCommand::Data(bytes) => MediaUnit::Frame(bytes@),
            AudioCommand::Text(text) => MediaUnit::Error(text@),
        }
    }
}

impl Clone for VideoCommand {
    fn clone(&self) -> (copy: VideoCommand)
        ensures
            copy@ == self@,
    {
        match self {
            VideoCommand::Frame(bytes) => VideoCommand::Frame(bytes.clone()),
            VideoCommand::Error(text) => VideoCommand::Error(text.clone()),
        }
    }
}

impl VideoCommand {
    /// The same unit in the vocabulary of the audio stream.
    pub fn into_audio(self) -> (unit: AudioCommand)
        ensures
            unit@ == self@,
    {
        match self {
            VideoCommand::Frame(bytes) => AudioCommand::Data(bytes),
            VideoCommand::Error(text) => AudioCommand::Text(text),
        }
    }
}

impl AudioCommand {
    /// The same unit in the vocabulary of the video stream.
    pub fn into_video(self) -> (unit: VideoCommand)
        ensures
            unit@ == self@,
    {
        match self {
            AudioCommand::Data(bytes) => VideoCommand::Frame(bytes),
            AudioCommand::Text(text) => VideoCommand::Error(text),
        }
    }
}

} // verus!
