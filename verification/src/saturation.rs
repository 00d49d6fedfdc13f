use vstd::prelude::*;

verus! {

/// The waveshaper a saturater applies to the feedback signal.
#[derive(Debug, Clone, Copy, PartialEq, Eq, Structural)]
pub enum SaturationMode {
    Tape,
    Tube,
    Transistor,
}

/// The state of a saturater as mathematics.
pub struct SaturaterView<S> {
    pub drive: S,
    pub prev: S,
    pub mode: SaturationMode,
}

impl<S> SaturaterView<S> {
    /// Switching the mode keeps the memory of the tape mode as it is.
    pub open spec fn set_mode(self, mode: SaturationMode) -> Self {
        SaturaterView { mode, ..self }
    }

    /// The tape mode remembers the sample it has shaped; the other modes
    /// have no memory to update.
    pub open spec fn remember(self, shaped: S) -> Self {
        if self.mode == SaturationMode::Tape {
            SaturaterView { prev: shaped, ..self }
        } else {
            self
        }
    }
}

/// The state a waveshaper keeps between samples: its drive, its mode, and the
/// last shaped sample, which only the tape mode feeds back into the next one.
#[derive(Debug)]
pub struct Saturater<S> {
    drive: S,
    prev: S,
    mode: SaturationMode,
}

impl<S: Copy> View for Saturater<S> {
    type V = SaturaterView<S>;

    closed spec fn view(&self) -> SaturaterView<S> {
        SaturaterView { drive: self.drive, prev: self.prev, mode: self.mode }
    }
}

impl<S: Copy> Saturater<S> {
    /// A saturater whose memory holds `rest`, the sample of a line at rest.
    pub fn new(drive: S, rest: S, mode: SaturationMode) -> (sat: Self)
        ensures
            sat@ == (SaturaterView { drive, prev: rest, mode }),
    {
        Saturater { drive, prev: rest, mode }
    }

    /// How hard the waveshaper is driven.
    pub fn drive(&self) -> (drive: S)
        ensures
            drive == self@.drive,
    {
        self.drive
    }

    /// The last sample remembered in tape mode.
    pub fn prev(&self) -> (prev: S)
        ensures
            prev == self@.prev,
    {
        self.prev
    }

    /// The waveshaper in use.
    pub fn mode(&self) -> (mode: SaturationMode)
        ensures
            mode == self@.mode,
    {
        self.mode
    }

    /// Switches the waveshaper.
    pub fn set_mode(&mut self, mode: &SaturationMode)
        ensures
            final(self)@ == old(self)@.set_mode(*mode),
    {
        self.mode = *mode;
    }

    /// Takes note of the sample that was just shaped.
    pub fn remember(&mut self, shaped: S)
        ensures
            final(self)@ == old(self)@.remember(shaped),
    {
        match self.mode {
            SaturationMode::Tape => {
                self.prev = shaped;
            },
            _ => {},
        }
    }
}

} // verus!
