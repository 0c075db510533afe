//! Core logic of a rolling screen-capture buffer: the time-windowed packet
//! queue, settings reconciliation, capture lifecycle and graph planning.

pub mod audio;
pub mod bus;
pub mod capture_devices;
pub mod encoders;
pub mod ffmpeg;
pub mod graph;
pub mod gst_capture;
pub mod logger;
pub mod ring_buffer;
pub mod runtime;
pub mod settings;
pub mod text;
pub mod video;
