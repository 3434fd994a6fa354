//! The frontend-facing interface of an emulated machine.

use vstd::prelude::*;

verus! {

/// Describes a single input button that a machine accepts.
pub struct InputButton {
    /// Machine-defined button identifier, passed to `set_input()`.
    pub id: u8,
    /// Human-readable name for display and configuration.
    pub name: &'static str,
}

/// Describes an analog axis that a machine accepts (trackball, spinner).
pub struct AnalogInput {
    /// Machine-defined axis identifier, passed to `set_analog()`.
    pub id: u8,
    /// Human-readable name for display and configuration.
    pub name: &'static str,
}

/// Timing and display configuration for an emulated machine.
pub struct TimingConfig {
    pub cpu_clock_hz: u64,
    pub cycles_per_scanline: u64,
    pub total_scanlines: u64,
    pub display_width: u32,
    pub display_height: u32,
}

impl TimingConfig {
    /// CPU cycles in one frame: scanlines times cycles per scanline.
    pub fn cycles_per_frame(&self) -> (r: u64)
        requires
            self.total_scanlines * self.cycles_per_scanline <= u64::MAX,
        ensures
            r == self.total_scanlines * self.cycles_per_scanline,
    {
        self.total_scanlines * self.cycles_per_scanline
    }

    /// Native display resolution as (width, height).
    pub fn display_size(&self) -> (r: (u32, u32))
        ensures
            r == (self.display_width, self.display_height),
    {
        (self.display_width, self.display_height)
    }
}

/// Video output: display size and frame rendering.
pub trait Renderable {
    /// Native display resolution as (width, height) in pixels.
    fn display_size(&self) -> (u32, u32);

    /// Render the current video state into an RGB24 pixel buffer.
    fn render_frame(&self, buffer: &mut [u8]);

    /// Optional debug overlay text.
    fn overlay_stats(&self) -> (r: Option<String>)
        default_ensures
            r is None,
    {
        None
    }
}

/// Audio output: PCM sample generation.
pub trait AudioSource {
    /// Fill the buffer with mono i16 samples. Returns the number written,
    /// which the buffer holds: at most its length.
    fn fill_audio(&mut self, buffer: &mut [i16]) -> (r: usize)
        ensures
            r <= old(buffer)@.len(),
        default_ensures
            r == 0,
            final(buffer)@ == old(buffer)@,
    {
        0
    }

    /// Native audio sample rate in Hz.
    fn audio_sample_rate(&self) -> (r: u32)
        default_ensures
            r == 0,
    {
        0
    }
}

/// Input handling: buttons and analog axes.
pub trait InputReceiver {
    /// Handle an input event for a machine-defined button.
    fn set_input(&mut self, button: u8, pressed: bool);

    /// The list of input buttons this machine accepts.
    fn input_map(&self) -> &[InputButton];

    /// Handle an analog input event.
    fn set_analog(&mut self, axis: u8, delta: i32) {
    }
}

/// Debug and inspection capabilities.
pub trait MachineDebug {
    /// Number of clock ticks per frame.
    fn cycles_per_frame(&self) -> (r: u64)
        default_ensures
            r == 0,
    {
        0
    }

    /// Advance one cycle. Returns a bitmask of CPUs at instruction boundaries.
    fn debug_tick(&mut self) -> (r: u32)
        default_ensures
            r == 0,
    {
        0
    }
}

} // verus!
