//! The terminal facade: a buffer of pending commands, the raw-mode flag,
//! and a ghost record of what has already been handed to the device.
//!
//! Queuing operations only append to the buffer and are infallible; the
//! buffered commands reach the terminal, in call order, when `execute`
//! flushes them through `crossterm`.

use vstd::prelude::*;

use crossterm::QueueableCommand;

use crate::command::CmdModel;
use crate::command::Command;
use crate::screen::apply_cmds;
use crate::screen::lemma_apply_cmds_append;
use crate::screen::ScreenModel;

verus! {

/// A terminal's row/column extent in character cells.
#[derive(Copy, Clone, Debug, PartialEq, Eq, Structural)]
pub struct Size {
    pub height: u16,
    pub width: u16,
}

/// Zero-based cursor coordinates: `x` is the column, `y` the row.
#[derive(Copy, Clone, Debug, PartialEq, Eq, Structural)]
pub struct Position {
    pub x: u16,
    pub y: u16,
}

/// The mathematical image of a `Terminal`.
#[verifier::ext_equal]
pub struct TermModel {
    /// Commands buffered and not yet flushed, in call order.
    pub queued: Seq<CmdModel>,
    /// Commands already handed to the device, in call order.
    pub emitted: Seq<CmdModel>,
    /// Whether this facade has put the TTY into raw mode.
    pub raw_mode: bool,
}

/// Queuing a command appends it to the buffer and emits nothing.
pub open spec fn spec_queue(m: TermModel, c: CmdModel) -> TermModel {
    TermModel { queued: m.queued.push(c), ..m }
}

/// Flushing hands every buffered command to the device, oldest first,
/// and empties the buffer.
pub open spec fn spec_execute(m: TermModel) -> TermModel {
    TermModel { queued: Seq::empty(), emitted: m.emitted + m.queued, ..m }
}

/// Initialization enables raw mode and queues a full clear followed by a
/// move to the origin.
pub open spec fn spec_initialize(m: TermModel) -> TermModel {
    TermModel {
        raw_mode: true,
        queued: m.queued.push(CmdModel::ClearAll).push(CmdModel::MoveTo { x: 0, y: 0 }),
        ..m
    }
}

/// Termination restores cooked mode and touches nothing else.
pub open spec fn spec_terminate(m: TermModel) -> TermModel {
    TermModel { raw_mode: false, ..m }
}

/// Whether a command can be written in the output protocol: its cursor
/// coordinates are one-based on the wire, so a zero-based coordinate must
/// stay strictly below `u16::MAX` to be representable.
pub open spec fn cmd_in_range(c: CmdModel) -> bool {
    match c {
        CmdModel::MoveTo { x, y } => x < u16::MAX && y < u16::MAX,
        _ => true,
    }
}

/// `std::io::Error` carries the operating-system error behind a failed
/// terminal call; this declaration lets it pass through untouched.
#[verifier::external_type_specification]
#[verifier::external_body]
pub struct ExIoError(std::io::Error);

/// Relies on crossterm::terminal::enable_raw_mode: switches the calling
/// process's TTY into raw mode, or reports the operating-system error.
#[verifier::external_body]
fn ct_enable_raw_mode() -> Result<(), std::io::Error> {
    crossterm::terminal::enable_raw_mode()
}

/// Relies on crossterm::terminal::disable_raw_mode: restores the TTY to
/// cooked mode, or reports the operating-system error.
#[verifier::external_body]
fn ct_disable_raw_mode() -> Result<(), std::io::Error> {
    crossterm::terminal::disable_raw_mode()
}

/// Relies on crossterm::terminal::size: determines the terminal's
/// current (columns, rows), normally by querying the device, with
/// environment-dependent fallbacks when that query fails.  The value
/// depends on the environment, so nothing more is promised of it.
#[verifier::external_body]
fn ct_size() -> Result<(u16, u16), std::io::Error> {
    crossterm::terminal::size()
}

/// Relies on std::io::Write::flush on the standard output: forces the
/// bytes buffered there out to the device.
#[verifier::external_body]
fn ct_flush() -> Result<(), std::io::Error> {
    std::io::Write::flush(&mut std::io::stdout())
}

/// Relies on crossterm's QueueableCommand::queue with cursor::MoveTo:
/// buffers the control sequence that repositions the cursor to the
/// zero-based cell (column `x`, row `y`).  The sequence carries the
/// coordinates one-based, and the crate computes that shift as `x + 1` /
/// `y + 1` on `u16`, so `u16::MAX` is excluded to keep the additions from
/// overflowing.
#[verifier::external_body]
fn ct_queue_move_to(x: u16, y: u16) -> Result<(), std::io::Error>
    requires
        x < u16::MAX,
        y < u16::MAX,
{
    std::io::stdout().queue(crossterm::cursor::MoveTo(x, y)).map(|_| ())
}

/// Relies on crossterm's QueueableCommand::queue with
/// terminal::Clear(ClearType::All): buffers the control sequence that
/// erases the whole screen.
#[verifier::external_body]
fn ct_queue_clear_all() -> Result<(), std::io::Error> {
    std::io::stdout().queue(crossterm::terminal::Clear(crossterm::terminal::ClearType::All)).map(
        |_| (),
    )
}

/// Relies on crossterm's QueueableCommand::queue with
/// terminal::Clear(ClearType::CurrentLine): buffers the control sequence
/// that erases the cursor's row.
#[verifier::external_body]
fn ct_queue_clear_line() -> Result<(), std::io::Error> {
    std::io::stdout().queue(
        crossterm::terminal::Clear(crossterm::terminal::ClearType::CurrentLine),
    ).map(|_| ())
}

/// Relies on crossterm's QueueableCommand::queue with cursor::Hide:
/// buffers the control sequence that makes the cursor invisible.
#[verifier::external_body]
fn ct_queue_hide() -> Result<(), std::io::Error> {
    std::io::stdout().queue(crossterm::cursor::Hide).map(|_| ())
}

/// Relies on crossterm's QueueableCommand::queue with cursor::Show:
/// buffers the control sequence that makes the cursor visible.
#[verifier::external_body]
fn ct_queue_show() -> Result<(), std::io::Error> {
    std::io::stdout().queue(crossterm::cursor::Show).map(|_| ())
}

/// Relies on crossterm's QueueableCommand::queue with style::Print:
/// buffers the text itself for output at the cursor.
#[verifier::external_body]
fn ct_queue_print(s: &str) -> Result<(), std::io::Error> {
    std::io::stdout().queue(crossterm::style::Print(s)).map(|_| ())
}

/// Hand one buffered command to the standard-output stream.
fn emit(c: &Command) -> (r: Result<(), std::io::Error>)
    requires
        cmd_in_range(c@),
{
    match c {
        Command::MoveTo(x, y) => ct_queue_move_to(*x, *y),
        Command::ClearAll => ct_queue_clear_all(),
        Command::ClearLine => ct_queue_clear_line(),
        Command::Hide => ct_queue_hide(),
        Command::Show => ct_queue_show(),
        Command::Print(s) => ct_queue_print(s.as_str()),
    }
}

impl Size {
    /// Package a reported column count and row count as a `Size`, the
    /// columns as `width` and the rows as `height`.
    pub fn from_dims(columns: u16, rows: u16) -> (s: Size)
        ensures
            s.width == columns,
            s.height == rows,
    {
        Size { width: columns, height: rows }
    }
}

/// Law: a queued operation is silent — it appends one command to the
/// buffer and hands nothing to the device until a flush; the mode flag
/// is untouched.
pub proof fn lemma_queue_is_silent(m: TermModel, c: CmdModel)
    ensures
        spec_queue(m, c).emitted == m.emitted,
        spec_queue(m, c).queued == m.queued.push(c),
        spec_queue(m, c).raw_mode == m.raw_mode,
{
}

/// Law: initializing and then terminating, with no operation in
/// between, leaves the TTY mode setting exactly as it stood before
/// initialization, and emits nothing, provided the facade started in
/// cooked mode.
pub proof fn lemma_initialize_terminate_restores_mode(m: TermModel)
    requires
        m.raw_mode == false,
    ensures
        spec_terminate(spec_initialize(m)).raw_mode == m.raw_mode,
        spec_terminate(spec_initialize(m)).emitted == m.emitted,
{
}

/// Law: a flush hands over exactly the buffered commands, in call order.
/// Whatever screen the commands emitted so far have produced, the screen
/// after a flush is that screen with the old buffer applied to it.
pub proof fn lemma_execute_renders_queue(s0: ScreenModel, m: TermModel)
    ensures
        apply_cmds(s0, spec_execute(m).emitted) == apply_cmds(
            apply_cmds(s0, m.emitted),
            m.queued,
        ),
{
    lemma_apply_cmds_append(s0, m.emitted, m.queued);
}

/// The terminal facade.
pub struct Terminal {
    queued: Vec<Command>,
    raw_mode: bool,
    emitted: Ghost<Seq<CmdModel>>,
}

impl View for Terminal {
    type V = TermModel;

    closed spec fn view(&self) -> TermModel {
        TermModel {
            queued: self.queued@.map_values(|c: Command| c@),
            emitted: self.emitted@,
            raw_mode: self.raw_mode,
        }
    }
}

impl Terminal {
    /// Every buffered command is representable in the output protocol,
    /// so a flush can hand each of them over without failing on range.
    #[verifier::type_invariant]
    spec fn wf(&self) -> bool {
        forall|i: int| 0 <= i < self.queued@.len() ==> cmd_in_range(#[trigger] self.queued@[i]@)
    }
    /// A fresh facade: empty buffer, nothing emitted, cooked mode.
    pub fn new() -> (t: Terminal)
        ensures
            t@.queued == Seq::<CmdModel>::empty(),
            t@.emitted == Seq::<CmdModel>::empty(),
            t@.raw_mode == false,
    {
        let t = Terminal { queued: Vec::new(), raw_mode: false, emitted: Ghost(Seq::empty()) };
        proof {
            assert(t@.queued =~= Seq::<CmdModel>::empty());
        }
        t
    }

    /// How many commands sit in the buffer, waiting for a flush.
    pub fn queued_len(&self) -> (n: usize)
        ensures
            n == self@.queued.len(),
    {
        self.queued.len()
    }

    /// Whether this facade has put the TTY into raw mode and not yet
    /// restored it.
    pub fn is_raw_mode(&self) -> (b: bool)
        ensures
            b == self@.raw_mode,
    {
        self.raw_mode
    }

    /// The i-th buffered command, oldest first, or `None` past the end.
    pub fn queued_command(&self, i: usize) -> (r: Option<&Command>)
        ensures
            i < self@.queued.len() ==> (r matches Some(c) && c@ == self@.queued[i as int]),
            i >= self@.queued.len() ==> r is None,
    {
        if i < self.queued.len() {
            Some(&self.queued[i])
        } else {
            None
        }
    }

    /// Append one command to the buffer; nothing reaches the device.
    fn enqueue(&mut self, c: Command)
        requires
            cmd_in_range(c@),
        ensures
            final(self)@ == spec_queue(old(self)@, c@),
    {
        proof {
            use_type_invariant(&*self);
        }
        let ghost cv = c@;
        let mut q: Vec<Command> = Vec::new();
        std::mem::swap(&mut q, &mut self.queued);
        q.push(c);
        proof {
            assert forall|i: int| 0 <= i < q@.len() implies cmd_in_range(#[trigger] q@[i]@) by {
                if i < q@.len() - 1 {
                    assert(q@[i] == old(self).queued@[i]);
                    assert(cmd_in_range(old(self).queued@[i]@));
                }
            }
        }
        std::mem::swap(&mut q, &mut self.queued);
        proof {
            assert(self@ =~= spec_queue(old(self)@, cv));
        }
    }

    /// Queue a cursor move to `pos`; nothing reaches the device yet.
    /// The output protocol carries coordinates one-based, so each must be
    /// strictly below `u16::MAX` to be representable on the wire.
    pub fn move_cursor(&mut self, pos: Position) -> (r: Result<(), std::io::Error>)
        requires
            pos.x < u16::MAX,
            pos.y < u16::MAX,
        ensures
            r.is_ok(),
            final(self)@ == spec_queue(old(self)@, (CmdModel::MoveTo { x: pos.x, y: pos.y })),
    {
        self.enqueue(Command::MoveTo(pos.x, pos.y));
        Ok(())
    }

    /// Queue a full-screen erase; nothing reaches the device yet.
    pub fn clear_screen(&mut self) -> (r: Result<(), std::io::Error>)
        ensures
            r.is_ok(),
            final(self)@ == spec_queue(old(self)@, CmdModel::ClearAll),
    {
        self.enqueue(Command::ClearAll);
        Ok(())
    }

    /// Queue an erase of the cursor's row; nothing reaches the device yet.
    pub fn clear_line(&mut self) -> (r: Result<(), std::io::Error>)
        ensures
            r.is_ok(),
            final(self)@ == spec_queue(old(self)@, CmdModel::ClearLine),
    {
        self.enqueue(Command::ClearLine);
        Ok(())
    }

    /// Queue a command hiding the cursor; nothing reaches the device yet.
    pub fn hide_cursor(&mut self) -> (r: Result<(), std::io::Error>)
        ensures
            r.is_ok(),
            final(self)@ == spec_queue(old(self)@, CmdModel::Hide),
    {
        self.enqueue(Command::Hide);
        Ok(())
    }

    /// Queue a command showing the cursor; nothing reaches the device yet.
    pub fn show_cursor(&mut self) -> (r: Result<(), std::io::Error>)
        ensures
            r.is_ok(),
            final(self)@ == spec_queue(old(self)@, CmdModel::Show),
    {
        self.enqueue(Command::Show);
        Ok(())
    }

    /// Queue `string` for output at the cursor; nothing reaches the
    /// device yet.
    pub fn print(&mut self, string: &str) -> (r: Result<(), std::io::Error>)
        ensures
            r.is_ok(),
            final(self)@ == spec_queue(old(self)@, (CmdModel::Print { text: string@ })),
    {
        self.enqueue(Command::Print(String::from_str(string)));
        Ok(())
    }

    /// Enable raw mode, then queue a full-screen erase and a move of the
    /// cursor to the origin.  Fails, changing nothing, exactly when the
    /// TTY refuses the mode switch.
    pub fn initialize(&mut self) -> (r: Result<(), std::io::Error>)
        ensures
            r.is_ok() ==> final(self)@ == spec_initialize(old(self)@),
            r.is_err() ==> final(self)@ == old(self)@,
    {
        proof {
            use_type_invariant(&*self);
        }
        match ct_enable_raw_mode() {
            Ok(()) => {},
            Err(e) => {
                return Err(e);
            },
        }
        self.raw_mode = true;
        match self.clear_screen() {
            Ok(()) => {},
            Err(e) => {
                return Err(e);
            },
        }
        match self.move_cursor(Position { x: 0, y: 0 }) {
            Ok(()) => {},
            Err(e) => {
                return Err(e);
            },
        }
        proof {
            assert(self@ =~= spec_initialize(old(self)@));
        }
        Ok(())
    }

    /// Restore cooked mode.  Fails, changing nothing, exactly when the
    /// TTY refuses the mode switch.
    pub fn terminate(&mut self) -> (r: Result<(), std::io::Error>)
        ensures
            r.is_ok() ==> final(self)@ == spec_terminate(old(self)@),
            r.is_err() ==> final(self)@ == old(self)@,
    {
        proof {
            use_type_invariant(&*self);
        }
        match ct_disable_raw_mode() {
            Ok(()) => {
                self.raw_mode = false;
                proof {
                    assert(self@ =~= spec_terminate(old(self)@));
                }
                Ok(())
            },
            Err(e) => Err(e),
        }
    }

    /// Query the terminal's current extent; the value is read from the
    /// device on every call and never cached.  `width` holds the column
    /// count and `height` the row count that the device reported; what
    /// those counts are depends on the environment alone, so no more is
    /// promised of them.
    pub fn size() -> (r: Result<Size, std::io::Error>) {
        match ct_size() {
            Ok((w, h)) => Ok(Size::from_dims(w, h)),
            Err(e) => Err(e),
        }
    }

    /// Hand every buffered command to the device, oldest first, then
    /// flush, emptying the buffer.  On success the whole buffer was
    /// emitted in call order; on failure some prefix of it was, and the
    /// commands not yet handed over are dropped rather than retried —
    /// failures propagate with no recovery.
    pub fn execute(&mut self) -> (r: Result<(), std::io::Error>)
        ensures
            final(self)@.queued == Seq::<CmdModel>::empty(),
            final(self)@.raw_mode == old(self)@.raw_mode,
            r.is_ok() ==> final(self)@ == spec_execute(old(self)@),
            r.is_err() ==> exists|k: int|
                0 <= k <= old(self)@.queued.len() && final(self)@.emitted == old(
                    self,
                )@.emitted + old(self)@.queued.take(k),
    {
        proof {
            use_type_invariant(&*self);
        }
        let mut q: Vec<Command> = Vec::new();
        std::mem::swap(&mut q, &mut self.queued);
        let n = q.len();
        let mut i: usize = 0;
        while i < n
            invariant
                i <= n,
                n == q.len(),
                q@ == old(self).queued@,
                forall|j: int| 0 <= j < q@.len() ==> cmd_in_range(#[trigger] q@[j]@),
                self.queued@.len() == 0,
                self.raw_mode == old(self).raw_mode,
                self.emitted@ == old(self)@.emitted + old(self)@.queued.take(i as int),
            decreases n - i,
        {
            match emit(&q[i]) {
                Ok(()) => {},
                Err(e) => {
                    proof {
                        assert(self@.queued =~= Seq::<CmdModel>::empty());
                        assert(0 <= i as int <= old(self)@.queued.len() && self@.emitted == old(
                            self,
                        )@.emitted + old(self)@.queued.take(i as int));
                    }
                    return Err(e);
                },
            }
            proof {
                assert(old(self)@.queued.take(i as int).push(old(self)@.queued[i as int]) =~= old(
                    self,
                )@.queued.take(i as int + 1));
            }
            self.emitted = Ghost(self.emitted@.push(q@[i as int]@));
            i += 1;
        }
        proof {
            assert(old(self)@.queued.take(n as int) =~= old(self)@.queued);
            assert(self@ =~= spec_execute(old(self)@));
        }
        match ct_flush() {
            Ok(()) => Ok(()),
            Err(e) => {
                proof {
                    assert(0 <= old(self)@.queued.len() <= old(self)@.queued.len()
                        && self@.emitted == old(self)@.emitted + old(self)@.queued.take(
                        old(self)@.queued.len() as int,
                    ));
                }
                Err(e)
            },
        }
    }
}

} // verus!
