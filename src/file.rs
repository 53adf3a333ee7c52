//! The host-side handle of a background cartridge load: idle, in flight, or done with bytes.
//! The host starts the task and polls it; this handle holds the decisions.
use vstd::prelude::*;

verus! {

/// Where a cartridge load stands.
pub enum FileState {
    /// No load has been started, or the last one ended without a file.
    Empty,
    /// A load is in flight; the host holds its task.
    Task,
    /// A load finished with these bytes.
    File(Vec<u8>),
}

/// Where a cartridge load stands, as plain values.
pub enum LoadPhase {
    Idle,
    Pending,
    Ready(Seq<u8>),
}

/// Tracks one background cartridge load.
pub struct FileHandler {
    file: FileState,
}

impl View for FileHandler {
    type V = LoadPhase;

    closed spec fn view(&self) -> LoadPhase {
        match &self.file {
            FileState::Empty => LoadPhase::Idle,
            FileState::Task => LoadPhase::Pending,
            FileState::File(bytes) => LoadPhase::Ready(bytes@),
        }
    }
}

/// The phase after a poll that returned `polled` (`None`: still running; `Some(None)`: no file
/// was chosen or reading it failed; `Some(Some(bytes))`: done). Only a pending load moves.
pub open spec fn phase_after_poll(phase: LoadPhase, polled: Option<Option<Seq<u8>>>) -> LoadPhase {
    match phase {
        LoadPhase::Pending => match polled {
            None => LoadPhase::Pending,
            Some(None) => LoadPhase::Idle,
            Some(Some(bytes)) => LoadPhase::Ready(bytes),
        },
        _ => phase,
    }
}

/// The plain-value form of a poll result.
pub open spec fn polled_view(polled: Option<Option<Vec<u8>>>) -> Option<Option<Seq<u8>>> {
    match polled {
        None => None,
        Some(None) => Some(None),
        Some(Some(bytes)) => Some(Some(bytes@)),
    }
}

impl FileHandler {
    /// An idle handle.
    pub fn new() -> (r: Self)
        ensures
            r@ == LoadPhase::Idle,
    {
        FileHandler { file: FileState::Empty }
    }

    /// Records that the host has started a load; whatever was held before is dropped.
    pub fn load(&mut self)
        ensures
            final(self)@ == LoadPhase::Pending,
    {
        self.file = FileState::Task;
    }

    /// Whether a load is in flight.
    pub fn alive(&self) -> (r: bool)
        ensures
            r == (self@ is Pending),
    {
        match &self.file {
            FileState::Task => true,
            _ => false,
        }
    }

    /// Takes the result of one poll of the host's task and returns whether bytes are ready.
    pub fn tick(&mut self, polled: Option<Option<Vec<u8>>>) -> (r: bool)
        ensures
            final(self)@ == phase_after_poll(old(self)@, polled_view(polled)),
            r == (final(self)@ is Ready),
    {
        let pending = match &self.file {
            FileState::Task => true,
            _ => false,
        };
        if pending {
            match polled {
                None => {},
                Some(None) => self.file = FileState::Empty,
                Some(Some(bytes)) => self.file = FileState::File(bytes),
            }
        }
        match &self.file {
            FileState::File(_) => true,
            _ => false,
        }
    }

    /// Hands out the bytes of a finished load and goes back to idle.
    pub fn take(&mut self) -> (r: Vec<u8>)
        requires
            old(self)@ is Ready,
        ensures
            r@ == old(self)@->Ready_0,
            final(self)@ == LoadPhase::Idle,
    {
        let mut file = FileState::Empty;
        std::mem::swap(&mut self.file, &mut file);
        match file {
            FileState::File(bytes) => bytes,
            _ => Vec::new(),
        }
    }
}

} // verus!
