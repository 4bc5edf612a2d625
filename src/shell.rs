use vstd::prelude::*;

verus! {

/// Most lines the shell remembers.
pub const HISTORY_CAPACITY: usize = 10;

/// Views of a sequence of strings.
pub open spec fn strings_view(v: Seq<String>) -> Seq<Seq<char>> {
    v.map_values(|x: String| x@)
}

/// The space-separated words of `s`, in order; runs of spaces separate
/// like one, and leading or trailing spaces add nothing.
pub open spec fn words(s: Seq<char>) -> Seq<Seq<char>>
    decreases s.len(),
{
    if s.len() == 0 {
        seq![]
    } else {
        let pre = s.drop_last();
        let w = words(pre);
        let c = s.last();
        if c == ' ' {
            w
        } else if pre.len() > 0 && pre.last() != ' ' {
            w.drop_last().push(w.last().push(c))
        } else {
            w.push(seq![c])
        }
    }
}

/// Why a line is not a command.
#[derive(Debug, Clone, Copy, PartialEq, Eq, Structural)]
pub enum ParseError {
    /// The line holds no word.
    Empty,
    /// More words than the shell takes.
    TooManyArgs,
}

/// One shell command: its words, the first being its path.
pub struct Command {
    args: Vec<String>,
}

impl View for Command {
    type V = Seq<Seq<char>>;

    closed spec fn view(&self) -> Seq<Seq<char>> {
        strings_view(self.args@)
    }
}

impl Command {
    pub open spec fn wf(&self) -> bool {
        self@.len() > 0
    }

    /// Splits `s` into words. Fails with `Empty` when there is none.
    pub fn parse(s: &str) -> (r: Result<Command, ParseError>)
        ensures
            words(s@).len() == 0 ==> r == Err::<Command, ParseError>(ParseError::Empty),
            words(s@).len() > 0 ==> (r matches Ok(c) && c.wf() && c@ == words(s@)),
    {
        let n = s.unicode_len();
        let mut args: Vec<String> = Vec::new();
        let mut start: usize = 0;
        let mut in_word = false;
        let mut i: usize = 0;
        while i < n
            invariant
                n == s@.len(),
                i <= n,
                !in_word ==> strings_view(args@) == words(s@.subrange(0, i as int)),
                !in_word ==> (i == 0 || s@[i - 1] == ' '),
                in_word ==> start < i && strings_view(args@).push(s@.subrange(start as int, i as int))
                    == words(s@.subrange(0, i as int)),
                in_word ==> s@[i - 1] != ' ',
            decreases n - i,
        {
            let c = s.get_char(i);
            let ghost pre = s@.subrange(0, i as int);
            let ghost cur = s@.subrange(0, i + 1);
            assert(cur.drop_last() =~= pre);
            if c == ' ' {
                if in_word {
                    let w = s.substring_char(start, i).to_owned();
                    let ghost a0 = args@;
                    args.push(w);
                    assert(strings_view(args@) =~= strings_view(a0).push(w@));
                    in_word = false;
                }
            } else {
                if !in_word {
                    start = i;
                    in_word = true;
                    assert(s@.subrange(i as int, i + 1) =~= seq![c]);
                } else {
                    assert(s@.subrange(start as int, i + 1) =~= s@.subrange(start as int, i as int).push(c));
                }
            }
            i = i + 1;
        }
        if in_word {
            let w = s.substring_char(start, n).to_owned();
            let ghost a0 = args@;
            args.push(w);
            assert(strings_view(args@) =~= strings_view(a0).push(w@));
        }
        assert(s@.subrange(0, n as int) =~= s@);
        if args.len() == 0 {
            Err(ParseError::Empty)
        } else {
            Ok(Command { args })
        }
    }

    /// The command's path: its first word.
    pub fn path(&self) -> (r: &str)
        requires
            self.wf(),
        ensures
            r@ == self@[0],
    {
        self.args[0].as_str()
    }
}

/// Whether two strings hold the same characters.
fn str_eq(a: &str, b: &str) -> (r: bool)
    ensures
        r == (a@ == b@),
{
    let n = a.unicode_len();
    if n != b.unicode_len() {
        return false;
    }
    let mut i: usize = 0;
    while i < n
        invariant
            n == a@.len(),
            n == b@.len(),
            i <= n,
            forall|j: int| 0 <= j < i ==> a@[j] == b@[j],
        decreases n - i,
    {
        if a.get_char(i) != b.get_char(i) {
            return false;
        }
        i = i + 1;
    }
    assert(a@ =~= b@);
    true
}

/// What a command asks the console to show.
pub enum Reply {
    /// The words after the path, to be printed separated by spaces.
    Echo(Vec<String>),
    /// The remembered lines, oldest first, to be printed with their index.
    History(Vec<String>),
    /// Leave the shell.
    Exit,
}

/// `x` is the reply owed to the words `cmd` when the remembered lines,
/// newest first, are `hist`.
pub open spec fn reply_fits(x: Reply, cmd: Seq<Seq<char>>, hist: Seq<Seq<char>>) -> bool {
    match x {
        Reply::Echo(a) => cmd[0] == "echo"@ && strings_view(a@) == cmd.drop_first(),
        Reply::History(a) => cmd[0] == "history"@ && strings_view(a@) == hist.reverse(),
        Reply::Exit => cmd[0] == "exit"@,
    }
}

/// What a submitted line comes to.
pub enum Outcome {
    /// The line holds no word.
    Blank,
    /// A built-in command ran.
    Done(Reply),
    /// The first word names no command.
    Unknown(String),
}

/// How the line editor answers one input byte.
#[derive(Debug, Clone, Copy, PartialEq, Eq, Structural)]
pub enum Edit {
    /// Carriage return or line feed: the line is done.
    Submit,
    /// Ctrl-C: leave the shell.
    Interrupt,
    /// A printable byte was appended; echo it.
    Echo(u8),
    /// The last byte was removed; erase it on screen.
    Erase,
    /// Nothing to do with this byte: ring the bell.
    Bell,
}

/// The line after byte `chr`, and the editor's answer.
pub open spec fn edit_spec(line: Seq<u8>, chr: u8) -> (Seq<u8>, Edit) {
    if chr == 13 || chr == 10 {
        (line, Edit::Submit)
    } else if chr == 3 {
        (line, Edit::Interrupt)
    } else if 32 <= chr <= 126 {
        (line.push(chr), Edit::Echo(chr))
    } else if chr == 8 || chr == 127 {
        if line.len() == 0 {
            (line, Edit::Bell)
        } else {
            (line.drop_last(), Edit::Erase)
        }
    } else {
        (line, Edit::Bell)
    }
}

/// Applies one input byte to the line being typed.
pub fn edit_line(line: &mut Vec<u8>, chr: u8) -> (r: Edit)
    ensures
        (final(line)@, r) == edit_spec(old(line)@, chr),
{
    if chr == 13 || chr == 10 {
        Edit::Submit
    } else if chr == 3 {
        Edit::Interrupt
    } else if 32 <= chr && chr <= 126 {
        line.push(chr);
        Edit::Echo(chr)
    } else if chr == 8 || chr == 127 {
        if line.len() == 0 {
            Edit::Bell
        } else {
            line.pop();
            Edit::Erase
        }
    } else {
        Edit::Bell
    }
}

/// The command shell's state: the recent lines, newest first.
pub struct Shell {
    history: Vec<String>,
}

impl Shell {
    /// The remembered lines, newest first.
    pub closed spec fn history_view(&self) -> Seq<Seq<char>> {
        strings_view(self.history@)
    }

    pub open spec fn wf(&self) -> bool {
        self.history_view().len() <= HISTORY_CAPACITY
    }

    pub fn new() -> (r: Shell)
        ensures
            r.wf(),
            r.history_view() == Seq::<Seq<char>>::empty(),
    {
        let r = Shell { history: Vec::new() };
        assert(r.history_view() =~= Seq::<Seq<char>>::empty());
        r
    }

    /// Remembers `line` as the newest entry, dropping the oldest beyond the
    /// capacity.
    pub fn record(&mut self, line: &str)
        requires
            old(self).wf(),
        ensures
            final(self).wf(),
            final(self).history_view() == ({
                let h = seq![line@] + old(self).history_view();
                if h.len() > HISTORY_CAPACITY {
                    h.subrange(0, HISTORY_CAPACITY as int)
                } else {
                    h
                }
            }),
    {
        let ghost h0 = self.history@;
        self.history.insert(0, line.to_owned());
        let ghost h1 = self.history@;
        assert(strings_view(h1) =~= seq![line@] + strings_view(h0));
        self.history.truncate(HISTORY_CAPACITY);
        assert(h1.len() > HISTORY_CAPACITY ==> strings_view(self.history@) =~= strings_view(h1).subrange(0, HISTORY_CAPACITY as int));
    }

    /// Runs a parsed command: `echo` replies with its other words, `history`
    /// with the remembered lines oldest first, `exit` asks to leave; any
    /// other path is an unknown command.
    pub fn process_command(&self, command: &Command) -> (r: Result<Reply, ()>)
        requires
            command.wf(),
        ensures
            command@[0] == "echo"@ || command@[0] == "history"@ || command@[0] == "exit"@ <==> r is Ok,
            r matches Ok(x) ==> reply_fits(x, command@, self.history_view()),
    {
        proof {
            reveal_strlit("echo");
            reveal_strlit("history");
            reveal_strlit("exit");
            assert("echo"@[1] != "exit"@[1]);
            assert("echo"@ != "history"@ && "exit"@ != "history"@ && "echo"@ != "exit"@);
        }
        let path = command.path();
        if str_eq(path, "echo") {
            let mut out: Vec<String> = Vec::new();
            let mut i: usize = 1;
            while i < command.args.len()
                invariant
                    1 <= i <= command.args@.len(),
                    strings_view(out@) == command@.subrange(1, i as int),
                decreases command.args@.len() - i,
            {
                let ghost o0 = out@;
                out.push(command.args[i].clone());
                assert(strings_view(out@) =~= strings_view(o0).push(command@[i as int]));
                assert(command@.subrange(1, i + 1) =~= command@.subrange(1, i as int).push(command@[i as int]));
                i = i + 1;
            }
            assert(command@.subrange(1, command@.len() as int) =~= command@.drop_first());
            Ok(Reply::Echo(out))
        } else if str_eq(path, "history") {
            let mut out: Vec<String> = Vec::new();
            let mut i: usize = self.history.len();
            while i > 0
                invariant
                    i <= self.history@.len(),
                    strings_view(out@) == self.history_view().subrange(i as int, self.history@.len() as int).reverse(),
                decreases i,
            {
                i = i - 1;
                let ghost o0 = out@;
                out.push(self.history[i].clone());
                assert(strings_view(out@) =~= strings_view(o0).push(self.history_view()[i as int]));
                assert(self.history_view().subrange(i as int, self.history@.len() as int).reverse() =~=
                    self.history_view().subrange(i + 1, self.history@.len() as int).reverse().push(self.history_view()[i as int]));
            }
            assert(self.history_view().subrange(0, self.history@.len() as int) =~= self.history_view());
            Ok(Reply::History(out))
        } else if str_eq(path, "exit") {
            Ok(Reply::Exit)
        } else {
            Err(())
        }
    }

    /// Handles a finished line: remembers it, then runs it as a command.
    pub fn submit_line(&mut self, line: &str) -> (r: Outcome)
        requires
            old(self).wf(),
        ensures
            final(self).wf(),
            final(self).history_view() == ({
                let h = seq![line@] + old(self).history_view();
                if h.len() > HISTORY_CAPACITY {
                    h.subrange(0, HISTORY_CAPACITY as int)
                } else {
                    h
                }
            }),
            words(line@).len() == 0 <==> r is Blank,
            r matches Outcome::Done(x) ==> reply_fits(x, words(line@), final(self).history_view()),
            r matches Outcome::Unknown(p) ==> p@ == words(line@)[0],
            words(line@).len() > 0 && (words(line@)[0] == "echo"@ || words(line@)[0] == "history"@
                || words(line@)[0] == "exit"@) <==> r is Done,
    {
        self.record(line);
        match Command::parse(line) {
            Err(_) => Outcome::Blank,
            Ok(cmd) => match self.process_command(&cmd) {
                Ok(x) => Outcome::Done(x),
                Err(()) => Outcome::Unknown(cmd.path().to_owned()),
            },
        }
    }
}

} // verus!
