use vstd::prelude::*;

verus! {

/// The settings of the audio box.
pub trait Config {
    /// The path of the SPI device of the RFID reader.
    fn rfid_spi_dev(&self) -> Option<&str>;

    /// The pause between two polls of the RFID reader, in milliseconds.
    fn rfid_poll_ms(&self) -> Option<u64>;

    /// The directory that holds the audio files.
    fn audio_base_dir(&self) -> Option<&str>;
}

} // verus!
