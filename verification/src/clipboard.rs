//! The clipboard's seat bookkeeping: keyboard focus, the serial of the latest
//! input event, which selection devices exist, what we offer to paste, and
//! the reading and writing of the pipes that carry a selection.
use vstd::prelude::*;
use vstd::utf8::{encode_utf8, valid_utf8};

verus! {

/// Which selection is meant.
#[derive(Clone, Copy, Debug, PartialEq, Eq, Structural)]
pub enum SelectionTarget {
    /// The target is clipboard selection.
    Clipboard,
    /// The target is primary selection.
    Primary,
}

/// A seat capability.
#[derive(Clone, Copy, Debug, PartialEq, Eq, Structural)]
pub enum Capability {
    Keyboard,
    Pointer,
    Touch,
}

/// The part of a pointer event that the clipboard cares about.
#[derive(Clone, Copy, Debug, PartialEq, Eq, Structural)]
pub enum PointerEventKind {
    Press { serial: u32 },
    Release { serial: u32 },
    Other,
}

/// The serial of the last button press or release among `events`, or `serial`
/// when there is none.
pub open spec fn last_button_serial(serial: u32, events: Seq<PointerEventKind>) -> u32
    decreases events.len(),
{
    if events.len() == 0 {
        serial
    } else {
        match events.last() {
            PointerEventKind::Press { serial: s } => s,
            PointerEventKind::Release { serial: s } => s,
            PointerEventKind::Other => last_button_serial(serial, events.drop_last()),
        }
    }
}

/// Why a selection cannot be loaded.
#[derive(Clone, Copy, Debug, PartialEq, Eq, Structural)]
pub enum LoadError {
    /// The bar does not have keyboard focus.
    NoFocus,
    /// Nothing is offered for that selection.
    SelectionEmpty,
    /// None of the offered types is text that the bar reads.
    NoSupportedMime,
}

/// The clipboard state of the bar.
pub struct State {
    pub has_data_device_manager: bool,
    pub has_primary_selection_manager: bool,
    pub has_data_device: bool,
    pub has_primary_device: bool,
    pub has_focus: bool,
    /// The latest serial used to set the selection content.
    pub latest_serial: u32,
    pub data_selection_content: Vec<u8>,
    pub primary_selection_content: Vec<u8>,
    pub exit: bool,
}

impl State {
    /// The clipboard state, given which selection managers the compositor
    /// offers; nothing when it offers neither.
    pub fn new(has_data_device_manager: bool, has_primary_selection_manager: bool) -> (r: Option<Self>)
        ensures
            r is None <==> (!has_data_device_manager && !has_primary_selection_manager),
            r matches Some(s) ==> s.has_data_device_manager == has_data_device_manager
                && s.has_primary_selection_manager == has_primary_selection_manager
                && !s.has_data_device && !s.has_primary_device && !s.has_focus && s.latest_serial == 0
                && s.data_selection_content@.len() == 0 && s.primary_selection_content@.len() == 0
                && !s.exit,
    {
        if !has_data_device_manager && !has_primary_selection_manager {
            return None;
        }
        Some(State {
            has_data_device_manager,
            has_primary_selection_manager,
            has_data_device: false,
            has_primary_device: false,
            has_focus: false,
            latest_serial: 0,
            data_selection_content: Vec::new(),
            primary_selection_content: Vec::new(),
            exit: false,
        })
    }

    /// Stores `contents` as the selection for `ty`. The selection source is
    /// only created when `Some(())` is returned: the seat must have keyboard
    /// focus and the compositor a manager for that selection.
    pub fn store_selection(&mut self, ty: SelectionTarget, contents: String) -> (r: Option<()>)
        requires
            old(self).has_focus && ty == SelectionTarget::Clipboard && old(self).has_data_device_manager
                ==> old(self).has_data_device,
            old(self).has_focus && ty == SelectionTarget::Primary && old(self).has_primary_selection_manager
                ==> old(self).has_primary_device,
        ensures
            r is Some <==> (old(self).has_focus && match ty {
                SelectionTarget::Clipboard => old(self).has_data_device_manager,
                SelectionTarget::Primary => old(self).has_primary_selection_manager,
            }),
            r is Some && ty == SelectionTarget::Clipboard ==> final(self).data_selection_content@ == encode_utf8(contents@)
                && final(self).primary_selection_content == old(self).primary_selection_content,
            r is Some && ty == SelectionTarget::Primary ==> final(self).primary_selection_content@ == encode_utf8(contents@)
                && final(self).data_selection_content == old(self).data_selection_content,
            r is None ==> final(self).data_selection_content == old(self).data_selection_content
                && final(self).primary_selection_content == old(self).primary_selection_content,
            final(self).has_focus == old(self).has_focus,
            final(self).latest_serial == old(self).latest_serial,
            final(self).has_data_device == old(self).has_data_device,
            final(self).has_primary_device == old(self).has_primary_device,
            final(self).has_data_device_manager == old(self).has_data_device_manager,
            final(self).has_primary_selection_manager == old(self).has_primary_selection_manager,
            final(self).exit == old(self).exit,
    {
        if !self.has_focus {
            return None;
        }
        match ty {
            SelectionTarget::Clipboard => {
                if !self.has_data_device_manager {
                    return None;
                }
                self.data_selection_content = contents.as_str().as_bytes_vec();
            },
            SelectionTarget::Primary => {
                if !self.has_primary_selection_manager {
                    return None;
                }
                self.primary_selection_content = contents.as_str().as_bytes_vec();
            },
        }
        Some(())
    }

    /// Whether the selection `ty` can be loaded, given whether its device
    /// has an offer and whether the offer has a supported text type: the bar
    /// needs keyboard focus, then an offer on the selection's device, then a
    /// supported type.
    pub fn check_load(&self, ty: SelectionTarget, has_offer: bool, has_supported_mime: bool) -> (r: Result<(), LoadError>)
        ensures
            r == if !self.has_focus {
                Err(LoadError::NoFocus)
            } else if !(has_offer && match ty {
                SelectionTarget::Clipboard => self.has_data_device,
                SelectionTarget::Primary => self.has_primary_device,
            }) {
                Err(LoadError::SelectionEmpty)
            } else if !has_supported_mime {
                Err(LoadError::NoSupportedMime)
            } else {
                Ok(())
            },
    {
        if !self.has_focus {
            return Err(LoadError::NoFocus);
        }
        let device = match ty {
            SelectionTarget::Clipboard => self.has_data_device,
            SelectionTarget::Primary => self.has_primary_device,
        };
        if !(has_offer && device) {
            return Err(LoadError::SelectionEmpty);
        }
        if !has_supported_mime {
            return Err(LoadError::NoSupportedMime);
        }
        Ok(())
    }

    /// The bytes to send when another client pastes `ty`.
    pub fn selection_content(&self, ty: SelectionTarget) -> (r: &Vec<u8>)
        ensures
            ty == SelectionTarget::Clipboard ==> r == &self.data_selection_content,
            ty == SelectionTarget::Primary ==> r == &self.primary_selection_content,
    {
        match ty {
            SelectionTarget::Clipboard => &self.data_selection_content,
            SelectionTarget::Primary => &self.primary_selection_content,
        }
    }

    /// A seat gained `capability`; returns which devices to create: the data
    /// device and the primary-selection device, each only if it is missing
    /// and its manager exists. Selection devices follow the keyboard.
    pub fn new_capability(&mut self, capability: Capability) -> (r: (bool, bool))
        ensures
            r.0 == (capability == Capability::Keyboard && !old(self).has_data_device && old(self).has_data_device_manager),
            r.1 == (capability == Capability::Keyboard && !old(self).has_primary_device && old(self).has_primary_selection_manager),
            final(self).has_data_device == (old(self).has_data_device || r.0),
            final(self).has_primary_device == (old(self).has_primary_device || r.1),
            final(self).has_focus == old(self).has_focus,
            final(self).latest_serial == old(self).latest_serial,
            final(self).has_data_device_manager == old(self).has_data_device_manager,
            final(self).has_primary_selection_manager == old(self).has_primary_selection_manager,
    {
        let mut create_data = false;
        let mut create_primary = false;
        match capability {
            Capability::Keyboard => {
                if !self.has_data_device && self.has_data_device_manager {
                    self.has_data_device = true;
                    create_data = true;
                }
                if !self.has_primary_device && self.has_primary_selection_manager {
                    self.has_primary_device = true;
                    create_primary = true;
                }
            },
            _ => {},
        }
        (create_data, create_primary)
    }

    /// A seat lost `capability`: losing the keyboard drops both selection devices.
    pub fn remove_capability(&mut self, capability: Capability)
        ensures
            capability == Capability::Keyboard ==> !final(self).has_data_device && !final(self).has_primary_device,
            capability != Capability::Keyboard ==> final(self).has_data_device == old(self).has_data_device
                && final(self).has_primary_device == old(self).has_primary_device,
            final(self).has_focus == old(self).has_focus,
            final(self).latest_serial == old(self).latest_serial,
            final(self).has_data_device_manager == old(self).has_data_device_manager,
            final(self).has_primary_selection_manager == old(self).has_primary_selection_manager,
    {
        match capability {
            Capability::Keyboard => {
                self.has_data_device = false;
                self.has_primary_device = false;
            },
            _ => {},
        }
    }

    /// Button presses and releases carry the serial used for the next selection.
    pub fn pointer_frame(&mut self, events: &Vec<PointerEventKind>)
        ensures
            final(self).latest_serial == last_button_serial(old(self).latest_serial, events@),
            final(self).has_focus == old(self).has_focus,
            final(self).has_data_device == old(self).has_data_device,
            final(self).has_primary_device == old(self).has_primary_device,
            final(self).has_data_device_manager == old(self).has_data_device_manager,
            final(self).has_primary_selection_manager == old(self).has_primary_selection_manager,
    {
        let ghost start = self.latest_serial;
        let mut serial = self.latest_serial;
        let mut i: usize = 0;
        while i < events.len()
            invariant
                i <= events.len(),
                serial == last_button_serial(start, events@.take(i as int)),
            decreases events.len() - i,
        {
            match events[i] {
                PointerEventKind::Press { serial: s } | PointerEventKind::Release { serial: s } => {
                    serial = s;
                },
                PointerEventKind::Other => {},
            }
            assert(events@.take(i + 1).drop_last() =~= events@.take(i as int));
            i = i + 1;
        }
        assert(events@.take(events@.len() as int) =~= events@);
        self.latest_serial = serial;
    }

    /// A key was pressed.
    pub fn keyboard_key(&mut self, serial: u32)
        ensures
            *final(self) == (State { latest_serial: serial, ..*old(self) }),
    {
        self.latest_serial = serial;
    }

    /// The keyboard entered one of our surfaces.
    pub fn keyboard_enter(&mut self, serial: u32)
        ensures
            *final(self) == (State { latest_serial: serial, has_focus: true, ..*old(self) }),
    {
        self.latest_serial = serial;
        self.has_focus = true;
    }

    /// The keyboard left our surfaces.
    pub fn keyboard_leave(&mut self)
        ensures
            *final(self) == (State { latest_serial: 0, has_focus: false, ..*old(self) }),
    {
        self.latest_serial = 0;
        self.has_focus = false;
    }
}

/// What `String::from_utf8_lossy` gives for some bytes: their text, with
/// each invalid sequence replaced by U+FFFD.
pub uninterp spec fn utf8_lossy(bytes: Seq<u8>) -> Seq<char>;

/// Decodes bytes as UTF-8, replacing invalid sequences
/// (`String::from_utf8_lossy`); valid UTF-8 comes back as the text it encodes.
#[verifier::external_body]
fn from_utf8_lossy(bytes: &[u8]) -> (r: String)
    ensures
        r@ == utf8_lossy(bytes@),
        valid_utf8(bytes@) ==> encode_utf8(r@) == bytes@,
{
    String::from_utf8_lossy(bytes).into_owned()
}

/// The text of a selection that has been read in full: its bytes decoded as
/// UTF-8, invalid sequences replaced.
pub fn selection_text(bytes: &Vec<u8>) -> (text: String)
    ensures
        text@ == utf8_lossy(bytes@),
        valid_utf8(bytes@) ==> encode_utf8(text@) == bytes@,
{
    from_utf8_lossy(bytes.as_slice())
}

/// What one `write` to the paste pipe did.
#[derive(Clone, Copy, Debug, PartialEq, Eq, Structural)]
pub enum WriteOutcome {
    /// This many bytes were written.
    Wrote(usize),
    /// The pipe is full for now.
    WouldBlock,
    /// Writing failed.
    Failed,
}

/// What to do after a `write` to the paste pipe.
#[derive(Clone, Copy, Debug, PartialEq, Eq, Structural)]
pub enum WriteStep {
    /// Everything is sent, or sending failed: stop watching the pipe.
    Finish,
    /// Write the rest right away.
    Again,
    /// Wait until the pipe can take more.
    Wait,
}

/// Sending a selection to a client that pastes it: how many of its bytes
/// have been written.
pub struct PipeWriter {
    written: usize,
    total: usize,
}

impl PipeWriter {
    #[verifier::type_invariant]
    spec fn written_fits(self) -> bool {
        self.written <= self.total
    }

    /// How many bytes have been written.
    pub closed spec fn sent(self) -> nat {
        self.written as nat
    }

    /// How many bytes the selection has.
    pub closed spec fn size(self) -> nat {
        self.total as nat
    }

    /// Nothing written yet of a selection of `total` bytes.
    pub fn new(total: usize) -> (w: Self)
        ensures
            w.sent() == 0,
            w.size() == total,
    {
        PipeWriter { written: 0, total }
    }

    /// How many bytes have been written.
    pub fn written(&self) -> (n: usize)
        ensures
            n == self.sent(),
            n <= self.size(),
    {
        proof {
            use_type_invariant(self);
        }
        self.written
    }

    /// Takes what a `write` of the rest did; a write never takes more than
    /// the rest. The selection is finished once the last byte is written.
    pub fn on_write(&mut self, outcome: WriteOutcome) -> (step: WriteStep)
        requires
            outcome matches WriteOutcome::Wrote(n) ==> old(self).sent() + n <= old(self).size(),
        ensures
            final(self).size() == old(self).size(),
            final(self).sent() <= final(self).size(),
            match outcome {
                WriteOutcome::Wrote(n) => {
                    &&& final(self).sent() == old(self).sent() + n
                    &&& step == (if final(self).sent() == final(self).size() {
                        WriteStep::Finish
                    } else {
                        WriteStep::Again
                    })
                },
                WriteOutcome::WouldBlock => step == WriteStep::Wait && final(self).sent() == old(self).sent(),
                WriteOutcome::Failed => step == WriteStep::Finish && final(self).sent() == old(self).sent(),
            },
    {
        proof {
            use_type_invariant(&*self);
        }
        match outcome {
            WriteOutcome::Wrote(n) => {
                let written = self.written + n;
                *self = PipeWriter { written, total: self.total };
                if written == self.total {
                    WriteStep::Finish
                } else {
                    WriteStep::Again
                }
            },
            WriteOutcome::WouldBlock => WriteStep::Wait,
            WriteOutcome::Failed => WriteStep::Finish,
        }
    }
}

/// What one `read` from the selection pipe gave.
pub enum ReadOutcome {
    /// The other client closed the pipe: everything has been read.
    End,
    /// These bytes were read.
    Data(Vec<u8>),
    /// Nothing to read for now.
    WouldBlock,
}

/// Reading the selection that another client offers, until it closes the pipe.
pub struct PipeReader {
    pub content: Vec<u8>,
}

impl PipeReader {
    /// Nothing read yet.
    pub fn new() -> (r: Self)
        ensures
            r.content@.len() == 0,
    {
        PipeReader { content: Vec::new() }
    }

    /// Takes what a `read` gave. At the end, all bytes read are handed back
    /// (and the reader is left empty); otherwise nothing is, and the caller
    /// reads again (after data) or waits.
    pub fn on_read(&mut self, outcome: ReadOutcome) -> (done: Option<Vec<u8>>)
        ensures
            match outcome {
                ReadOutcome::End => done matches Some(all) && all@ == old(self).content@
                    && final(self).content@.len() == 0,
                ReadOutcome::Data(bytes) => done is None && final(self).content@ == old(self).content@ + bytes@,
                ReadOutcome::WouldBlock => done is None && final(self).content@ == old(self).content@,
            },
    {
        match outcome {
            ReadOutcome::End => {
                let mut all = Vec::new();
                std::mem::swap(&mut all, &mut self.content);
                Some(all)
            },
            ReadOutcome::Data(bytes) => {
                let mut bytes = bytes;
                self.content.append(&mut bytes);
                None
            },
            ReadOutcome::WouldBlock => None,
        }
    }
}

} // verus!
