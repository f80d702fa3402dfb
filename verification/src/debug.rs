//! The debug pane: a log pane fed by the device's log frames, and the
//! commands that attach and detach the firmware image they are decoded with.

use crate::decoder::{
    outcome_of, parse_table, table_parsed, DecodeError, DecoderView, Frame, FrameDecoder, Reading,
    ReadingView,
};
use crate::input::{InputEvent, Key};
use crate::log_line::{
    frame_lines, label_of, lemma_frame_has_lines, line_views, stamp_of, indent_of, to_uppercase,
    LineView, LogLine, LEVEL_WIDTH,
};
use crate::log_view::{LogModel, LogView, MalformedPacket, ReadFrameResult, read_view};
use crate::notifications::{EventRx, RxView};
use crate::text::{lines_of, pad_right, spaces, split_lines, split_words, texts, words_of};
use defmt_decoder::Table;
use vstd::prelude::*;

verus! {

/// What the sampling callback of the debug pane hands over: the raw bytes of
/// one delivery, or the text of the error that kept it from reading them.
pub type Sample = Result<Vec<u8>, String>;

/// A command of the debug pane's command line.
#[derive(Debug, Clone, PartialEq, Eq)]
pub enum Action {
    Attach { path: String },
    Detach,
    Help,
}

/// A command as contracts see it.
pub enum ActionView {
    Attach { path: Seq<char> },
    Detach,
    Help,
}

impl View for Action {
    type V = ActionView;

    open spec fn view(&self) -> ActionView {
        match *self {
            Action::Attach { path } => ActionView::Attach { path: path@ },
            Action::Detach => ActionView::Detach,
            Action::Help => ActionView::Help,
        }
    }
}

/// The line is no command.
#[derive(Debug, Clone, Copy, PartialEq, Eq, Structural)]
pub struct InvalidCommand;

impl InvalidCommand {
    /// The text shown for this error.
    pub fn message(&self) -> (r: &'static str)
        ensures
            r@ == "Invalid command"@,
    {
        "Invalid command"
    }
}

/// The command that a line stands for. The line is split into words at
/// whitespace. `attach` followed by one word, `detach` alone and `help` alone
/// are commands; anything else is none.
pub open spec fn parsed_command(line: Seq<char>) -> Option<ActionView> {
    let words = words_of(line);
    if words.len() == 2 && words[0] == "attach"@ {
        Some(ActionView::Attach { path: words[1] })
    } else if words.len() == 1 && words[0] == "detach"@ {
        Some(ActionView::Detach)
    } else if words.len() == 1 && words[0] == "help"@ {
        Some(ActionView::Help)
    } else {
        None
    }
}

fn is_word(word: &String, expected: &str) -> (b: bool)
    ensures
        b == (word@ == expected@),
{
    let e = expected.to_owned();
    *word == e
}

impl Action {
    /// Reads a line of the command line.
    pub fn parse(line: &str) -> (r: Result<Action, InvalidCommand>)
        ensures
            match r {
                Ok(action) => parsed_command(line@) == Some(action@),
                Err(_) => parsed_command(line@) is None,
            },
    {
        let words = split_words(line);
        assert(texts(words@).len() == words@.len());
        if words.len() == 2 && is_word(&words[0], "attach") {
            assert(texts(words@)[0] == words@[0]@);
            assert(texts(words@)[1] == words@[1]@);
            Ok(Action::Attach { path: words[1].clone() })
        } else if words.len() == 1 && is_word(&words[0], "detach") {
            assert(texts(words@)[0] == words@[0]@);
            Ok(Action::Detach)
        } else if words.len() == 1 && is_word(&words[0], "help") {
            assert(texts(words@)[0] == words@[0]@);
            Ok(Action::Help)
        } else {
            assert(words@.len() > 0 ==> texts(words@)[0] == words@[0]@);
            Err(InvalidCommand)
        }
    }
}

/// Why a firmware image could not be attached.
#[derive(Debug, Clone, PartialEq, Eq)]
pub enum AttachError {
    /// The path names no file.
    NoFileName,
    /// The path is no text.
    InvalidPath,
    /// The file could not be read.
    ReadFailed,
    /// The image could not be read for its table; the text says why.
    Parse(String),
    /// The image holds no table.
    NoDefmtSection,
}

/// Why a firmware image could not be attached, as contracts see it.
pub enum AttachFailure {
    NoFileName,
    InvalidPath,
    ReadFailed,
    Parse(Seq<char>),
    NoDefmtSection,
}

impl AttachFailure {
    /// The text shown for this error.
    pub open spec fn message(self) -> Seq<char> {
        match self {
            AttachFailure::NoFileName => "No file name found in ELF path"@,
            AttachFailure::InvalidPath => "Invalid ELF path"@,
            AttachFailure::ReadFailed => "Failed to read ELF"@,
            AttachFailure::Parse(text) => text,
            AttachFailure::NoDefmtSection => "ELF contains no `.defmt` section"@,
        }
    }
}

impl View for AttachError {
    type V = AttachFailure;

    open spec fn view(&self) -> AttachFailure {
        match *self {
            AttachError::NoFileName => AttachFailure::NoFileName,
            AttachError::InvalidPath => AttachFailure::InvalidPath,
            AttachError::ReadFailed => AttachFailure::ReadFailed,
            AttachError::Parse(text) => AttachFailure::Parse(text@),
            AttachError::NoDefmtSection => AttachFailure::NoDefmtSection,
        }
    }
}

impl AttachError {
    /// The text shown for this error.
    pub fn message(&self) -> (r: String)
        ensures
            r@ == self@.message(),
    {
        match self {
            AttachError::NoFileName => "No file name found in ELF path".to_owned(),
            AttachError::InvalidPath => "Invalid ELF path".to_owned(),
            AttachError::ReadFailed => "Failed to read ELF".to_owned(),
            AttachError::Parse(text) => text.clone(),
            AttachError::NoDefmtSection => "ELF contains no `.defmt` section".to_owned(),
        }
    }
}

/// An attached image as contracts see it.
pub struct HandlerModel {
    /// The name of the image's file.
    pub bin_name: Seq<char>,
    /// The decoder for the image's frames.
    pub decoder: DecoderView,
}

impl HandlerModel {
    /// What reading one delivery gives, where the reader of frames, if it
    /// was called, returned `reading`.
    pub open spec fn read(self, raw: Seq<u8>, reading: ReadingView) -> Result<
        Option<Seq<LineView>>,
        MalformedPacket,
    > {
        match self.decoder.received(raw).decoded(reading) {
            Ok(frame) => Ok(Some(frame_lines(frame))),
            Err(DecodeError::UnexpectedEof) => Ok(None),
            Err(DecodeError::Malformed) => Err(MalformedPacket),
        }
    }

    /// The state after one delivery was read.
    pub open spec fn after_read(self, raw: Seq<u8>, reading: ReadingView) -> HandlerModel {
        HandlerModel { decoder: self.decoder.received(raw).after_decode(reading), ..self }
    }

    /// `reading` is what `read` may have returned while the delivery `raw`
    /// was read.
    pub open spec fn met<R: Fn(&Table, &[u8]) -> Reading>(
        self,
        read: R,
        raw: Seq<u8>,
        reading: ReadingView,
    ) -> bool {
        self.decoder.received(raw).met(read, reading)
    }
}

/// What attaching the image `elf` under the name `bin_name` gives: a handler
/// with nothing pending, where the image holds a table.
pub open spec fn handler_for(bin_name: Seq<char>, elf: Seq<u8>) -> Result<
    HandlerModel,
    AttachFailure,
> {
    match table_parsed(elf) {
        Ok(Some(table)) => Ok(
            HandlerModel { bin_name, decoder: DecoderView { table, pending: Seq::empty() } },
        ),
        Ok(None) => Err(AttachFailure::NoDefmtSection),
        Err(text) => Err(AttachFailure::Parse(text)),
    }
}

/// A firmware image that is attached: its name and the decoder for its
/// frames.
pub struct DefmtHandler {
    bin_name: String,
    decoder: FrameDecoder,
}

impl View for DefmtHandler {
    type V = HandlerModel;

    closed spec fn view(&self) -> HandlerModel {
        HandlerModel { bin_name: self.bin_name@, decoder: self.decoder@ }
    }
}

/// What `DefmtHandler::new` returned, as contracts see it.
pub open spec fn attach_view(r: Result<DefmtHandler, AttachError>) -> Result<
    HandlerModel,
    AttachFailure,
> {
    match r {
        Ok(handler) => Ok(handler@),
        Err(e) => Err(e@),
    }
}

impl DefmtHandler {
    /// The handler is in a state that its operations keep.
    pub closed spec fn wf(&self) -> bool {
        self.decoder.wf()
    }

    /// Attaches the firmware image whose bytes are `elf` and whose file is
    /// called `bin_name`.
    pub fn new(bin_name: String, elf: &[u8]) -> (r: Result<DefmtHandler, AttachError>)
        ensures
            attach_view(r) == handler_for(bin_name@, elf@),
            r matches Ok(handler) ==> handler.wf(),
    {
        match parse_table(elf) {
            Ok(Some(table)) => Ok(DefmtHandler { bin_name, decoder: FrameDecoder::new(table) }),
            Ok(None) => Err(AttachError::NoDefmtSection),
            Err(text) => Err(AttachError::Parse(text)),
        }
    }

    /// The name of the image's file.
    pub fn bin_name(&self) -> (r: &str)
        ensures
            r@ == self@.bin_name,
    {
        self.bin_name.as_str()
    }

    /// Renders a frame as the lines that show it.
    pub fn frame2lines(f: &Frame) -> (r: Vec<LogLine>)
        ensures
            line_views(r@) == frame_lines(f@),
            r@.len() >= 1,
    {
        let mut msg = f.message.clone();
        msg.append(" ");
        let mut ts = match &f.timestamp {
            Some(t) => t.clone(),
            None => String::new(),
        };
        ts.append(" ");
        let level = match &f.level {
            Some(l) => to_uppercase(l.as_str()),
            None => " ".to_owned(),
        };
        let label = pad_right(level.as_str(), LEVEL_WIDTH);
        let indent: usize = ts.as_str().len().saturating_add(LEVEL_WIDTH);
        proof {
            reveal_strlit(" ");
            assert(" "@ =~= seq![' ']);
            assert(msg@ =~= f@.message.push(' '));
            assert(ts@ =~= stamp_of(f@));
            assert(label@ == label_of(f@));
            lemma_frame_has_lines(f@);
        }
        let parts = split_lines(msg.as_str());
        let n: usize = parts.len();
        assert(texts(parts@).len() == n);
        let mut lines: Vec<LogLine> = Vec::new();
        let mut i: usize = 0;
        while i < n
            invariant
                n == parts@.len(),
                i <= n,
                texts(parts@) == lines_of(f@.message.push(' ')),
                ts@ == stamp_of(f@),
                label@ == label_of(f@),
                indent == indent_of(f@),
                lines@.len() == i,
                forall|j: int| 0 <= j < i ==> (#[trigger] lines@[j])@ == frame_lines(f@)[j],
            decreases n - i,
        {
            let part = parts[i].clone();
            assert(part@ == texts(parts@)[i as int]);
            let line = if i == 0 {
                LogLine::Record { timestamp: ts.clone(), level: label.clone(), text: part }
            } else {
                let mut text = spaces(indent);
                text.append(part.as_str());
                LogLine::Plain { text }
            };
            lines.push(line);
            i += 1;
        }
        assert(line_views(lines@) =~= frame_lines(f@));
        lines
    }

    /// Takes in the bytes of one delivery and attempts to decode one frame,
    /// whose bytes `read` reads.
    pub fn read_log<R: Fn(&Table, &[u8]) -> Reading>(&mut self, raw: Vec<u8>, read: &R) -> (r:
        ReadFrameResult)
        requires
            old(self).wf(),
            forall|t: &Table, b: &[u8]| call_requires(*read, (t, b)),
        ensures
            final(self).wf(),
            exists|reading: ReadingView|
                {
                    &&& #[trigger] old(self)@.met(*read, raw@, reading)
                    &&& read_view(r) == old(self)@.read(raw@, reading)
                    &&& final(self)@ == old(self)@.after_read(raw@, reading)
                },
    {
        self.decoder.received(raw.as_slice());
        let ghost taken = self.decoder@;
        let frame = self.decoder.decode(read);
        let ghost reading = choose|reading: ReadingView|
            {
                &&& #[trigger] taken.met(*read, reading)
                &&& outcome_of(frame) == taken.decoded(reading)
                &&& self.decoder@ == taken.after_decode(reading)
            };
        let r = match frame {
            Ok(f) => Ok(Some(Self::frame2lines(&f))),
            Err(DecodeError::UnexpectedEof) => Ok(None),
            Err(DecodeError::Malformed) => Err(MalformedPacket),
        };
        assert(old(self)@.met(*read, raw@, reading));
        r
    }
}

/// What is to be done with an event once the debug pane has seen it.
#[derive(Debug, Clone, Copy, PartialEq, Eq, Structural)]
pub enum Forward {
    /// Nothing: the pane has dealt with it, or it means nothing to the pane.
    Nothing,
    /// The command line is to be taken and handed to `handle_cmd`.
    Submit,
    /// The event is for the command line's editor.
    Edit,
}

/// What is to be done once a command has been handled.
#[derive(Debug, Clone, PartialEq, Eq)]
pub enum Request {
    /// Nothing.
    Nothing,
    /// The file at this path is to be read and handed to `attach_elf`.
    Load { path: String },
}

/// What came of loading a firmware image: the name of its file and its
/// bytes, or why there are none.
pub type Loaded = Result<(String, Vec<u8>), AttachError>;

/// What came of loading a firmware image, as contracts see it.
pub open spec fn loaded_view(loaded: Loaded) -> Result<HandlerModel, AttachFailure> {
    match loaded {
        Ok((bin_name, elf)) => handler_for(bin_name@, elf@),
        Err(e) => Err(e@),
    }
}

/// The debug pane as contracts see it.
pub struct DebugModel {
    /// The log pane.
    pub log: LogModel,
    /// The image that is attached, if one is.
    pub defmt: Option<HandlerModel>,
}

impl DebugModel {
    /// The title of the pane.
    pub open spec fn title(self) -> Seq<char> {
        "Debug Information ("@ + (match self.defmt {
            Some(handler) => handler.bin_name,
            None => "None"@,
        }) + ")"@
    }

    /// The state after one sample was taken from the receiver while an image
    /// is attached. A sample that holds bytes is read and what it gives is
    /// logged, where the reader of frames, if it was called, returned
    /// `reading`; a sample that failed is noted.
    pub open spec fn fed(self, sample: Sample, reading: ReadingView) -> DebugModel {
        match self.defmt {
            None => self,
            Some(handler) => match sample {
                Ok(raw) => DebugModel {
                    log: self.log.framed(handler.read(raw@, reading)),
                    defmt: Some(handler.after_read(raw@, reading)),
                },
                Err(e) => DebugModel { log: self.log.noted(e@), ..self },
            },
        }
    }

    /// `reading` is what `read` may have returned while `sample` was taken.
    pub open spec fn met<R: Fn(&Table, &[u8]) -> Reading>(
        self,
        read: R,
        sample: Sample,
        reading: ReadingView,
    ) -> bool {
        match (self.defmt, sample) {
            (Some(handler), Ok(raw)) => handler.met(read, raw@, reading),
            _ => true,
        }
    }

    /// `end` is a state in which taking every sample of `queue`, oldest
    /// first, may leave the pane: each sample is fed with something that
    /// `read` may have returned for it.
    pub open spec fn drains<R: Fn(&Table, &[u8]) -> Reading>(
        self,
        read: R,
        queue: Seq<Sample>,
        end: DebugModel,
    ) -> bool
        decreases queue.len(),
    {
        if queue.len() == 0 {
            end == self
        } else {
            exists|reading: ReadingView|
                {
                    &&& #[trigger] self.met(read, queue[0], reading)
                    &&& self.fed(queue[0], reading).drains(read, queue.drop_first(), end)
                }
        }
    }

    /// The state after an attempt to attach an image.
    pub open spec fn attached(self, outcome: Result<HandlerModel, AttachFailure>) -> DebugModel {
        match outcome {
            Ok(handler) => DebugModel {
                log: self.log.noted("Attached ELF: "@ + handler.bin_name),
                defmt: Some(handler),
            },
            Err(e) => DebugModel {
                log: self.log.noted("Failed to attach ELF: "@ + e.message()),
                defmt: None,
            },
        }
    }

    /// The state after the image was detached.
    pub open spec fn detached(self) -> DebugModel {
        DebugModel {
            log: self.log.noted("No ELF attached so debug logs are not available"@),
            defmt: None,
        }
    }
}

/// The debug pane.
pub struct Debug {
    log_view: LogView,
    defmt: Option<DefmtHandler>,
}

impl View for Debug {
    type V = DebugModel;

    closed spec fn view(&self) -> DebugModel {
        DebugModel {
            log: self.log_view@,
            defmt: match self.defmt {
                Some(handler) => Some(handler@),
                None => None,
            },
        }
    }
}

impl Debug {
    /// The pane is in a state that its operations keep.
    pub closed spec fn wf(&self) -> bool {
        &&& self.log_view.wf()
        &&& self.defmt matches Some(handler) ==> handler.wf()
    }

    /// The pane as it starts. Where an image was asked for, `loaded` is what
    /// came of loading it, and it is attached; else the pane starts detached,
    /// with a word on how to go on where `hint` is set.
    pub fn new(loaded: Option<Loaded>, hint: bool, rx: &mut EventRx<Sample>) -> (r: (Debug, bool))
        ensures
            r.0.wf(),
            match loaded {
                Some(l) => {
                    &&& r.0@ == Self::spec_empty().attached(loaded_view(l))
                    &&& r.1 == loaded_view(l) is Ok
                    &&& final(rx)@ == if r.1 {
                        old(rx)@.started()
                    } else {
                        old(rx)@
                    }
                },
                None => {
                    &&& r.0@ == if hint {
                        DebugModel {
                            log: Self::spec_empty().detached().log.noted(
                                "Try running the command `attach mock-bin`"@,
                            ),
                            defmt: None,
                        }
                    } else {
                        Self::spec_empty().detached()
                    }
                    &&& !r.1
                    &&& final(rx)@ == old(rx)@.stopped()
                },
            },
    {
        let mut debug = Debug { log_view: LogView::default(), defmt: None };
        assert(debug@.log.lines =~= Seq::<LineView>::empty());
        assert(debug@.log == Self::spec_empty().log);
        match loaded {
            Some(l) => {
                let kick = debug.attach_elf(l, rx);
                (debug, kick)
            },
            None => {
                debug.detach_elf(rx);
                if hint {
                    debug.log_view.log_meta("Try running the command `attach mock-bin`");
                }
                (debug, false)
            },
        }
    }

    /// The pane before anything was logged: an empty pane, nothing attached.
    pub open spec fn spec_empty() -> DebugModel {
        DebugModel {
            log: LogModel {
                lines: Seq::empty(),
                vertical: crate::scroll::ScrollView {
                    position: 0,
                    viewport: u16::MAX as nat,
                    content: 0,
                },
                horizontal: crate::scroll::ScrollView {
                    position: 0,
                    viewport: u16::MAX as nat,
                    content: 0,
                },
                widest: 0,
            },
            defmt: None,
        }
    }

    /// The title of the pane: it names the image that is attached.
    pub fn title(&self) -> (r: String)
        ensures
            r@ == self@.title(),
    {
        let mut title = "Debug Information (".to_owned();
        match &self.defmt {
            Some(handler) => title.append(handler.bin_name()),
            None => title.append("None"),
        }
        title.append(")");
        title
    }

    /// The log pane.
    pub fn log_view(&self) -> (r: &LogView)
        ensures
            r@ == self@.log,
            self.wf() ==> r.wf(),
    {
        &self.log_view
    }

    /// Whether an image is attached.
    pub fn is_attached(&self) -> (b: bool)
        ensures
            b == self@.defmt is Some,
    {
        self.defmt.is_some()
    }

    /// Gives the log pane the size of the area in which it is drawn.
    pub fn resize(&mut self, height: u16, width: u16)
        requires
            old(self).wf(),
        ensures
            final(self).wf(),
            final(self)@ == (DebugModel {
                log: old(self)@.log.resized(height as nat, width as nat),
                ..old(self)@
            }),
    {
        self.log_view.resize(height, width);
    }

    /// Takes every sample that waits in the receiver, oldest first, and logs
    /// what it gives: the frame that `read` reads in its bytes, or the word
    /// that it failed. Nothing is taken while no image is attached.
    pub fn update<R: Fn(&Table, &[u8]) -> Reading>(&mut self, rx: &mut EventRx<Sample>, read: &R)
        requires
            old(self).wf(),
            old(self)@.defmt is Some ==> !old(rx)@.severed,
            forall|t: &Table, b: &[u8]| call_requires(*read, (t, b)),
        ensures
            final(self).wf(),
            old(self)@.defmt is None ==> final(self)@ == old(self)@ && final(rx)@ == old(rx)@,
            old(self)@.defmt is Some ==> old(self)@.drains(*read, old(rx)@.queue, final(self)@)
                && final(rx)@ == (RxView { queue: Seq::empty(), ..old(rx)@ }),
    {
        if self.defmt.is_none() {
            return ;
        }
        loop
            invariant
                self.wf(),
                self@.defmt is Some,
                !rx@.severed,
                forall|t: &Table, b: &[u8]| call_requires(*read, (t, b)),
                forall|end: DebugModel| #[trigger]
                    self@.drains(*read, rx@.queue, end) ==> old(self)@.drains(
                        *read,
                        old(rx)@.queue,
                        end,
                    ),
                rx@ == (RxView { queue: rx@.queue, ..old(rx)@ }),
            ensures
                self.wf(),
                old(self)@.drains(*read, old(rx)@.queue, self@),
                rx@ == (RxView { queue: Seq::empty(), ..old(rx)@ }),
            decreases rx@.queue.len(),
        {
            let ghost before = self@;
            let ghost queue = rx@.queue;
            match rx.receive() {
                None => {
                    assert(rx@.queue =~= Seq::<Sample>::empty());
                    assert(self@.drains(*read, rx@.queue, self@));
                    break ;
                },
                Some(data) => {
                    assert(data == queue[0]);
                    assert(rx@.queue == queue.drop_first());
                    self.feed(data, read);
                    assert forall|end: DebugModel| #[trigger]
                        self@.drains(*read, rx@.queue, end) implies before.drains(
                        *read,
                        queue,
                        end,
                    ) by {
                        let reading = choose|reading: ReadingView|
                            #[trigger] before.met(*read, data, reading) && self@ == before.fed(
                                data,
                                reading,
                            );
                        assert(before.met(*read, queue[0], reading));
                        assert(before.fed(queue[0], reading).drains(
                            *read,
                            queue.drop_first(),
                            end,
                        ));
                    }
                },
            }
        }
    }

    fn feed<R: Fn(&Table, &[u8]) -> Reading>(&mut self, data: Sample, read: &R)
        requires
            old(self).wf(),
            old(self)@.defmt is Some,
            forall|t: &Table, b: &[u8]| call_requires(*read, (t, b)),
        ensures
            final(self).wf(),
            exists|reading: ReadingView|
                #[trigger] old(self)@.met(*read, data, reading) && final(self)@ == old(self)@.fed(
                    data,
                    reading,
                ),
            final(self)@.defmt is Some,
    {
        match data {
            Ok(raw) => {
                let mut handler = self.defmt.take().unwrap();
                let ghost held = handler@;
                let frame = handler.read_log(raw, read);
                let ghost reading = choose|reading: ReadingView|
                    {
                        &&& #[trigger] held.met(*read, raw@, reading)
                        &&& read_view(frame) == held.read(raw@, reading)
                        &&& handler@ == held.after_read(raw@, reading)
                    };
                self.defmt = Some(handler);
                self.log_view.log_frame(frame);
                assert(old(self)@.met(*read, data, reading));
                assert(final(self)@ == old(self)@.fed(data, reading));
            },
            Err(e) => {
                self.log_view.log_meta(e.as_str());
                let ghost none: ReadingView = Err(DecodeError::Malformed);
                assert(old(self)@.met(*read, data, none));
                assert(final(self)@ == old(self)@.fed(data, none));
            },
        }
    }

    /// Deals with an event of the terminal. The arrow keys scroll the log;
    /// `Enter` submits the command line; any other key that went down is for
    /// the command line's editor. Nothing else means anything to the pane.
    pub fn handle_event(&mut self, evt: &InputEvent) -> (r: Forward)
        requires
            old(self).wf(),
        ensures
            final(self).wf(),
            final(self)@.defmt == old(self)@.defmt,
            final(self)@.log == match *evt {
                InputEvent::Press(Key::Up) => LogModel {
                    vertical: old(self)@.log.vertical.scrolled_back(),
                    ..old(self)@.log
                },
                InputEvent::Press(Key::Down) => LogModel {
                    vertical: old(self)@.log.vertical.scrolled_forward(),
                    ..old(self)@.log
                },
                InputEvent::Press(Key::Left) => LogModel {
                    horizontal: old(self)@.log.horizontal.scrolled_back(),
                    ..old(self)@.log
                },
                InputEvent::Press(Key::Right) => LogModel {
                    horizontal: old(self)@.log.horizontal.scrolled_forward(),
                    ..old(self)@.log
                },
                _ => old(self)@.log,
            },
            r == match *evt {
                InputEvent::Press(Key::Up) => Forward::Nothing,
                InputEvent::Press(Key::Down) => Forward::Nothing,
                InputEvent::Press(Key::Left) => Forward::Nothing,
                InputEvent::Press(Key::Right) => Forward::Nothing,
                InputEvent::Press(Key::Enter) => Forward::Submit,
                InputEvent::Press(_) => Forward::Edit,
                _ => Forward::Nothing,
            },
    {
        match evt {
            InputEvent::Press(key) => match key {
                Key::Up => {
                    self.log_view.scroll_up();
                    Forward::Nothing
                },
                Key::Down => {
                    self.log_view.scroll_down();
                    Forward::Nothing
                },
                Key::Left => {
                    self.log_view.scroll_left();
                    Forward::Nothing
                },
                Key::Right => {
                    self.log_view.scroll_right();
                    Forward::Nothing
                },
                Key::Enter => Forward::Submit,
                _ => Forward::Edit,
            },
            _ => Forward::Nothing,
        }
    }

    /// Carries out a line of the command line. To attach takes a file: the
    /// path is handed back, for the caller to load and to hand to
    /// `attach_elf`.
    pub fn handle_cmd(&mut self, line: &str, rx: &mut EventRx<Sample>) -> (r: Request)
        requires
            old(self).wf(),
        ensures
            final(self).wf(),
            match parsed_command(line@) {
                Some(ActionView::Attach { path }) => {
                    &&& r matches Request::Load { path: p }
                    &&& p@ == path
                    &&& final(self)@ == old(self)@
                    &&& final(rx)@ == old(rx)@
                },
                Some(ActionView::Detach) => {
                    &&& r is Nothing
                    &&& final(self)@ == old(self)@.detached()
                    &&& final(rx)@ == old(rx)@.stopped()
                },
                Some(ActionView::Help) => {
                    &&& r is Nothing
                    &&& final(self)@ == (DebugModel { log: old(self)@.log.helped(), ..old(self)@ })
                    &&& final(rx)@ == old(rx)@
                },
                None => {
                    &&& r is Nothing
                    &&& final(self)@ == (DebugModel {
                        log: old(self)@.log.noted("Invalid command"@),
                        ..old(self)@
                    })
                    &&& final(rx)@ == old(rx)@
                },
            },
    {
        match Action::parse(line) {
            Ok(action) => match action {
                Action::Attach { path } => Request::Load { path },
                Action::Detach => {
                    self.detach_elf(rx);
                    Request::Nothing
                },
                Action::Help => {
                    self.log_view.display_help();
                    Request::Nothing
                },
            },
            Err(e) => {
                self.log_view.log_meta(e.message());
                Request::Nothing
            },
        }
    }

    /// Attaches what came of loading a firmware image. Where it is attached,
    /// the receiver is started and `true` is returned: the caller then reads
    /// the device's log once, to set the deliveries going.
    pub fn attach_elf(&mut self, loaded: Loaded, rx: &mut EventRx<Sample>) -> (attached: bool)
        requires
            old(self).wf(),
        ensures
            final(self).wf(),
            final(self)@ == old(self)@.attached(loaded_view(loaded)),
            attached == loaded_view(loaded) is Ok,
            final(rx)@ == if attached {
                old(rx)@.started()
            } else {
                old(rx)@
            },
    {
        let outcome = match loaded {
            Ok((bin_name, elf)) => DefmtHandler::new(bin_name, elf.as_slice()),
            Err(e) => Err(e),
        };
        match outcome {
            Ok(defmt) => {
                let mut msg = "Attached ELF: ".to_owned();
                msg.append(defmt.bin_name());
                self.log_view.log_meta(msg.as_str());
                self.defmt = Some(defmt);
                rx.start();
                true
            },
            Err(e) => {
                self.defmt = None;
                let mut msg = "Failed to attach ELF: ".to_owned();
                msg.append(e.message().as_str());
                self.log_view.log_meta(msg.as_str());
                false
            },
        }
    }

    /// Detaches the image and stops the receiver.
    pub fn detach_elf(&mut self, rx: &mut EventRx<Sample>)
        requires
            old(self).wf(),
        ensures
            final(self).wf(),
            final(self)@ == old(self)@.detached(),
            final(rx)@ == old(rx)@.stopped(),
    {
        self.defmt = None;
        self.log_view.log_meta("No ELF attached so debug logs are not available");
        rx.stop();
    }
}

} // verus!
