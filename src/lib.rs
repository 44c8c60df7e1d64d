//! Streaming MPEG audio front end: a staging buffer for chunked input, frame and tag
//! locators over byte windows, and the stream controller that decides, call by call,
//! what the decoding engine is handed.
pub mod contig_buffer;
pub mod mp3;
pub mod easy_mode;
