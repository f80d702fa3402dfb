//! The log pane: a bounded history of lines under two scroll positions.

use crate::log_line::{line_views, LineView, LogLine};
use crate::ring_buffer::{keep_last, lemma_keep_last_push, RingBuffer};
use crate::scroll::{ScrollState, ScrollView};
use vstd::prelude::*;

verus! {

/// How many lines the pane keeps.
pub const MAX_LOGS: usize = 1000;

/// The larger of `start` and the widths of `lines`.
pub open spec fn widest_of(start: usize, lines: Seq<LineView>) -> usize
    decreases lines.len(),
{
    if lines.len() == 0 {
        start
    } else {
        let before = widest_of(start, lines.drop_last());
        if lines.last().width() > before {
            lines.last().width()
        } else {
            before
        }
    }
}

/// The line that shows a word from the viewer itself.
pub open spec fn meta_line(msg: Seq<char>) -> LineView {
    LineView::Meta { text: seq!['<'] + msg + seq!['>'] }
}

/// The lines that say which commands there are.
pub open spec fn help_lines() -> Seq<LineView> {
    seq![
        LineView::Plain { text: "Commands supported:"@ },
        LineView::Plain { text: "help (Display help)"@ },
        LineView::Plain { text: "attach <elf-path> (Attach an ELF file to view defmt logs)"@ },
        LineView::Plain { text: "detach (Detach ELF)"@ },
    ]
}

/// A frame arrived and could not be read.
#[derive(Debug, Clone, Copy, PartialEq, Eq, Structural)]
pub struct MalformedPacket;

impl MalformedPacket {
    /// The text shown for this error.
    pub fn message(&self) -> (r: &'static str)
        ensures
            r@ == "Received malformed defmt packet"@,
    {
        "Received malformed defmt packet"
    }
}

/// What reading one delivery gave: the lines of a frame, nothing yet where
/// the frame has not arrived in full, or word that it could not be read.
pub type ReadFrameResult = Result<Option<Vec<LogLine>>, MalformedPacket>;

/// What reading one delivery gave, as contracts see it.
pub open spec fn read_view(r: ReadFrameResult) -> Result<Option<Seq<LineView>>, MalformedPacket> {
    match r {
        Ok(Some(lines)) => Ok(Some(line_views(lines@))),
        Ok(None) => Ok(None),
        Err(e) => Err(e),
    }
}

/// The log pane as contracts see it.
pub struct LogModel {
    /// The lines held, oldest first.
    pub lines: Seq<LineView>,
    /// The scroll state over the lines.
    pub vertical: ScrollView,
    /// The scroll state over the columns.
    pub horizontal: ScrollView,
    /// The width of the widest line of a record that was ever held.
    pub widest: nat,
}

impl LogModel {
    /// No more lines are held than the pane keeps, and both positions are in
    /// range. The scroll states may be behind the lines: this is the state
    /// between the arrival of lines and `update_scroll`.
    pub open spec fn held(self) -> bool {
        &&& self.lines.len() <= MAX_LOGS
        &&& self.vertical.in_range()
        &&& self.horizontal.in_range()
        &&& self.widest <= usize::MAX
    }

    /// The pane is held, and the scroll states are up to date: the vertical
    /// content is the number of lines, the horizontal content the width of
    /// the widest record.
    pub open spec fn wf(self) -> bool {
        &&& self.held()
        &&& self.vertical.content == self.lines.len()
        &&& self.horizontal.content == self.widest
    }

    /// The state after lines came in and before the scroll states are
    /// brought up to date. Where `measured`, the lines count for the width
    /// of the content.
    pub open spec fn inserted(self, new: Seq<LineView>, measured: bool) -> LogModel {
        LogModel {
            lines: keep_last(self.lines + new, MAX_LOGS as nat),
            widest: if measured {
                widest_of(self.widest as usize, new) as nat
            } else {
                self.widest
            },
            ..self
        }
    }

    /// The state after the scroll states were brought up to date with the
    /// lines held: a vertical position that showed the newest line of
    /// before shows the newest line again, and any other position stays.
    pub open spec fn rescrolled(self) -> LogModel {
        LogModel {
            vertical: self.vertical.followed(self.lines.len()),
            horizontal: self.horizontal.extended(self.widest),
            ..self
        }
    }

    /// The state after `new` lines came in and the scroll states were
    /// brought up to date.
    pub open spec fn appended(self, new: Seq<LineView>, measured: bool) -> LogModel {
        self.inserted(new, measured).rescrolled()
    }

    /// The state after the lines of a frame came in.
    pub open spec fn logged(self, new: Seq<LineView>) -> LogModel {
        self.appended(new, true)
    }

    /// The state after a word from the viewer came in.
    pub open spec fn noted(self, msg: Seq<char>) -> LogModel {
        self.appended(seq![meta_line(msg)], false)
    }

    /// The state after the help was shown.
    pub open spec fn helped(self) -> LogModel {
        self.appended(help_lines(), false)
    }

    /// The state after one delivery was read: the lines of a frame are
    /// logged, a frame that could not be read is noted, and a frame that has
    /// not arrived in full changes nothing.
    pub open spec fn framed(self, r: Result<Option<Seq<LineView>>, MalformedPacket>) -> LogModel {
        match r {
            Ok(Some(lines)) => self.logged(lines),
            Ok(None) => self,
            Err(_) => self.noted("Received malformed defmt packet"@),
        }
    }

    /// The state after the pane took a new size.
    pub open spec fn resized(self, height: nat, width: nat) -> LogModel {
        LogModel {
            vertical: self.vertical.resized(height),
            horizontal: self.horizontal.resized(width),
            ..self
        }
    }
}

/// The log pane.
pub struct LogView {
    y_scroll: ScrollState,
    x_scroll: ScrollState,
    logs: RingBuffer<LogLine, MAX_LOGS>,
    max_log_len: usize,
}

impl View for LogView {
    type V = LogModel;

    closed spec fn view(&self) -> LogModel {
        LogModel {
            lines: line_views(self.logs@),
            vertical: self.y_scroll@,
            horizontal: self.x_scroll@,
            widest: self.max_log_len as nat,
        }
    }
}

impl Default for LogView {
    /// An empty pane whose size is not known yet.
    fn default() -> (r: LogView)
        ensures
            r.wf(),
            r@.lines.len() == 0,
            r@.vertical == (ScrollView { position: 0, viewport: u16::MAX as nat, content: 0 }),
            r@.horizontal == (ScrollView { position: 0, viewport: u16::MAX as nat, content: 0 }),
            r@.widest == 0,
    {
        LogView {
            y_scroll: ScrollState::default(),
            x_scroll: ScrollState::default(),
            logs: RingBuffer::new(),
            max_log_len: 0,
        }
    }
}

impl LogView {
    /// The pane is in a state that its operations keep.
    pub open spec fn wf(&self) -> bool {
        self@.wf()
    }

    /// The lines held, oldest first.
    pub fn lines(&self) -> (r: Vec<&LogLine>)
        requires
            self.wf(),
        ensures
            r@.len() == self@.lines.len(),
            forall|i: int| 0 <= i < r@.len() ==> (#[trigger] r@[i])@ == self@.lines[i],
    {
        self.logs.snapshot()
    }

    /// The number of lines held.
    pub fn len(&self) -> (n: usize)
        requires
            self.wf(),
        ensures
            n == self@.lines.len(),
    {
        self.logs.len()
    }

    /// The scroll state over the lines.
    pub fn vertical(&self) -> (r: ScrollState)
        ensures
            r@ == self@.vertical,
    {
        self.y_scroll
    }

    /// The scroll state over the columns.
    pub fn horizontal(&self) -> (r: ScrollState)
        ensures
            r@ == self@.horizontal,
    {
        self.x_scroll
    }

    /// The width of the widest line of a record that was ever held.
    pub fn max_log_len(&self) -> (r: usize)
        ensures
            r == self@.widest,
    {
        self.max_log_len
    }

    pub fn scroll_up(&mut self)
        requires
            old(self).wf(),
        ensures
            final(self).wf(),
            final(self)@ == (LogModel { vertical: old(self)@.vertical.scrolled_back(), ..old(self)@ }),
    {
        self.y_scroll.scroll_back();
    }

    pub fn scroll_down(&mut self)
        requires
            old(self).wf(),
        ensures
            final(self).wf(),
            final(self)@ == (LogModel {
                vertical: old(self)@.vertical.scrolled_forward(),
                ..old(self)@
            }),
    {
        self.y_scroll.scroll_forward();
    }

    pub fn scroll_left(&mut self)
        requires
            old(self).wf(),
        ensures
            final(self).wf(),
            final(self)@ == (LogModel {
                horizontal: old(self)@.horizontal.scrolled_back(),
                ..old(self)@
            }),
    {
        self.x_scroll.scroll_back();
    }

    pub fn scroll_right(&mut self)
        requires
            old(self).wf(),
        ensures
            final(self).wf(),
            final(self)@ == (LogModel {
                horizontal: old(self)@.horizontal.scrolled_forward(),
                ..old(self)@
            }),
    {
        self.x_scroll.scroll_forward();
    }

    /// Gives the pane the size of the area in which it is drawn.
    pub fn resize(&mut self, height: u16, width: u16)
        requires
            old(self).wf(),
        ensures
            final(self).wf(),
            final(self)@ == old(self)@.resized(height as nat, width as nat),
    {
        self.y_scroll.resize(height);
        self.x_scroll.resize(width);
    }

    /// Updates log pane scroll state after `new_lines` lines came in: the
    /// extents are taken from the lines held, a vertical position that
    /// showed the newest line before they came shows the newest line again,
    /// and any other position stays. The scroll state knows how many lines
    /// there were before, so the answer does not depend on `new_lines`.
    pub fn update_scroll(&mut self, new_lines: usize)
        requires
            old(self)@.held(),
        ensures
            final(self).wf(),
            final(self)@ == old(self)@.rescrolled(),
    {
        self.x_scroll.extend(self.max_log_len);
        let len: usize = self.logs.len();
        self.y_scroll.follow(len);
    }

    /// Inserts `lines` and brings the scroll states up to date.
    fn append(&mut self, lines: Vec<LogLine>, measured: bool)
        requires
            old(self).wf(),
        ensures
            final(self).wf(),
            final(self)@ == old(self)@.appended(line_views(lines@), measured),
    {
        let count: usize = lines.len();
        let ghost start = self.max_log_len;
        let ghost held = self.logs@;
        let ghost new = lines@;
        assert(held + new.take(0) =~= held);
        assert(line_views(new.take(0)) =~= Seq::<LineView>::empty());
        for line in it: lines
            invariant
                it.seq() == new,
                self.y_scroll == old(self).y_scroll,
                self.x_scroll == old(self).x_scroll,
                self.logs.wf(),
                self.logs@ == keep_last(held + new.take(it.index() as int), MAX_LOGS as nat),
                measured ==> self.max_log_len == widest_of(
                    start,
                    line_views(new.take(it.index() as int)),
                ),
                !measured ==> self.max_log_len == start,
        {
            let ghost i = it.index() as int;
            let width: usize = line.width();
            if measured && width > self.max_log_len {
                self.max_log_len = width;
            }
            proof {
                lemma_keep_last_push(held + new.take(i), line, MAX_LOGS as nat);
                assert((held + new.take(i)).push(line) =~= held + new.take(i + 1));
                assert(line_views(new.take(i + 1)).drop_last() =~= line_views(new.take(i)));
                assert(line_views(new.take(i + 1)).last() == line@);
            }
            self.logs.insert(line);
        }
        assert(new.take(new.len() as int) =~= new);
        assert(line_views(self.logs@) =~= keep_last(
            line_views(held) + line_views(new),
            MAX_LOGS as nat,
        ));
        assert(self@ == old(self)@.inserted(line_views(lines@), measured));
        self.update_scroll(count);
    }

    /// Updates cached logs with newly read frame.
    pub fn log_frame(&mut self, frame: ReadFrameResult)
        requires
            old(self).wf(),
        ensures
            final(self).wf(),
            final(self)@ == old(self)@.framed(read_view(frame)),
    {
        match frame {
            Ok(Some(log)) => {
                self.append(log, true);
            },
            Err(e) => {
                self.log_meta(e.message());
            },
            Ok(None) => {},
        }
    }

    /// Logs a word from the viewer itself: `msg` between angle brackets, on a
    /// line of its own.
    pub fn log_meta(&mut self, msg: &str)
        requires
            old(self).wf(),
        ensures
            final(self).wf(),
            final(self)@ == old(self)@.noted(msg@),
    {
        let mut text = "<".to_owned();
        text.append(msg);
        text.append(">");
        proof {
            reveal_strlit("<");
            reveal_strlit(">");
            assert(text@ =~= seq!['<'] + msg@ + seq!['>']);
        }
        let mut lines: Vec<LogLine> = Vec::new();
        lines.push(LogLine::Meta { text });
        assert(line_views(lines@) =~= seq![meta_line(msg@)]);
        self.append(lines, false);
    }

    /// Shows which commands there are.
    pub fn display_help(&mut self)
        requires
            old(self).wf(),
        ensures
            final(self).wf(),
            final(self)@ == old(self)@.helped(),
    {
        let mut lines: Vec<LogLine> = Vec::new();
        lines.push(LogLine::Plain { text: "Commands supported:".to_owned() });
        lines.push(LogLine::Plain { text: "help (Display help)".to_owned() });
        lines.push(
            LogLine::Plain {
                text: "attach <elf-path> (Attach an ELF file to view defmt logs)".to_owned(),
            },
        );
        lines.push(LogLine::Plain { text: "detach (Detach ELF)".to_owned() });
        assert(line_views(lines@) =~= help_lines());
        self.append(lines, false);
    }
}

/// Sticky bottom in the log pane. When lines come in, whether or not the
/// pane is full and older lines leave for them, a vertical position that
/// showed the newest line shows the newest line again, a position short of it
/// stays where it is, and the horizontal position stays in every case.
pub proof fn lemma_pane_follows_the_tail(m: LogModel, new: Seq<LineView>, measured: bool)
    requires
        m.wf(),
    ensures
        m.appended(new, measured).wf(),
        m.vertical.at_tail() ==> m.appended(new, measured).vertical.at_tail(),
        !m.vertical.at_tail() ==> m.appended(new, measured).vertical.position
            == m.vertical.position,
        m.appended(new, measured).horizontal.position == m.horizontal.position,
{
    lemma_widest_grows(m.widest as usize, new);
}

/// The widest of a start and some lines is no less than the start.
pub proof fn lemma_widest_grows(start: usize, lines: Seq<LineView>)
    ensures
        widest_of(start, lines) >= start,
    decreases lines.len(),
{
    if lines.len() > 0 {
        lemma_widest_grows(start, lines.drop_last());
    }
}

} // verus!
