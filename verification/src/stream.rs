//! The injectable input source and output sink of a session: the
//! process's standard streams by default, or in-memory buffers for
//! deterministic use.

use vstd::prelude::*;

verus! {

/// Why a line could not be read from the input source.
#[derive(Clone, Copy, PartialEq, Eq, Structural, Debug)]
pub enum ReadError {
    /// An in-memory source has no line left.
    EndOfInput,
    /// The underlying stream failed.
    Stream,
}

/// Relies on `std::io::Stdin::read_line`: reads one line, trailing
/// newline included, from standard input; a read failure is surfaced
/// as [`ReadError::Stream`]. Nothing is assumed about the text read.
#[verifier::external_body]
fn read_line_stdin() -> (r: Result<String, ReadError>) {
    let mut buf = String::new();
    match std::io::stdin().read_line(&mut buf) {
        Ok(_) => Ok(buf),
        Err(_) => Err(ReadError::Stream),
    }
}

/// Relies on `std::io::Write::write_all` on standard output: writes the
/// text to standard output; a write failure is tolerated silently.
#[verifier::external_body]
fn write_stdout(s: &str) {
    let _ = std::io::Write::write_all(&mut std::io::stdout(), s.as_bytes());
}

/// Relies on `std::io::Write::write_all` on standard error: writes the
/// text to standard error; a write failure is tolerated silently.
#[verifier::external_body]
fn write_stderr(s: &str) {
    let _ = std::io::Write::write_all(&mut std::io::stderr(), s.as_bytes());
}

/// Relies on `std::io::Write::flush` on standard output; a flush
/// failure is tolerated silently.
#[verifier::external_body]
fn flush_stdout() {
    let _ = std::io::Write::flush(&mut std::io::stdout());
}

/// Relies on `std::io::Write::flush` on standard error; a flush
/// failure is tolerated silently.
#[verifier::external_body]
fn flush_stderr() {
    let _ = std::io::Write::flush(&mut std::io::stderr());
}

/// Where a session reads lines from: standard input, or an in-memory
/// list of lines.
#[derive(Clone)]
pub enum Source {
    /// The process's standard input.
    Stdin,
    /// An in-memory list of lines, consumed front to back.
    Buffer(Vec<String>),
}

impl Source {
    /// Whether this source is an in-memory buffer.
    pub open spec fn is_buffer(self) -> bool {
        self is Buffer
    }

    /// The lines an in-memory source still holds.
    pub open spec fn lines(self) -> Seq<Seq<char>> {
        match self {
            Source::Buffer(v) => v.deep_view(),
            Source::Stdin => Seq::empty(),
        }
    }

    /// Reads one line. An in-memory source yields its first remaining
    /// line, or [`ReadError::EndOfInput`] when none is left; standard
    /// input blocks for a line of the terminal.
    pub fn read_one(&mut self) -> (r: Result<String, ReadError>)
        ensures
            old(self).is_buffer() ==> match r {
                Ok(line) => old(self).lines().len() > 0 && line@ == old(self).lines()[0]
                    && final(self).is_buffer()
                    && final(self).lines() == old(self).lines().drop_first(),
                Err(e) => old(self).lines().len() == 0 && e == ReadError::EndOfInput && *final(self)
                    == *old(self),
            },
            !old(self).is_buffer() ==> *final(self) == *old(self),
    {
        match self {
            Source::Stdin => read_line_stdin(),
            Source::Buffer(lines) => {
                if lines.len() == 0 {
                    Err(ReadError::EndOfInput)
                } else {
                    let ghost prev = lines.deep_view();
                    let line = lines.remove(0);
                    proof {
                        assert(lines.deep_view() =~= prev.drop_first()) by {
                            assert(forall|k: int|
                                0 <= k < lines.deep_view().len() ==> lines.deep_view()[k]
                                    == prev.drop_first()[k]);
                        }
                    }
                    Ok(line)
                }
            },
        }
    }
}

/// Where a session writes prompts and failure messages to: standard
/// output, standard error, or an in-memory transcript.
#[derive(Clone)]
pub enum Sink {
    /// The process's standard output.
    Stdout,
    /// The process's standard error.
    Stderr,
    /// An in-memory transcript: every write is kept as one chunk.
    Buffer(Vec<String>),
}

impl Sink {
    /// An empty in-memory transcript.
    pub fn buffer() -> (r: Sink)
        ensures
            r.is_buffer(),
            r.chunks() == Seq::<Seq<char>>::empty(),
    {
        let s = Sink::Buffer(Vec::new());
        proof {
            assert(s.chunks() =~= Seq::<Seq<char>>::empty());
        }
        s
    }

    /// Whether this sink is an in-memory transcript.
    pub open spec fn is_buffer(self) -> bool {
        self is Buffer
    }

    /// The chunks an in-memory transcript holds, in the order they were
    /// written.
    pub open spec fn chunks(self) -> Seq<Seq<char>> {
        match self {
            Sink::Buffer(v) => v.deep_view(),
            _ => Seq::empty(),
        }
    }

    /// Writes one chunk of text.
    pub fn put(&mut self, text: &str)
        ensures
            old(self).is_buffer() ==> final(self).is_buffer()
                && final(self).chunks() == old(self).chunks().push(text@),
            !old(self).is_buffer() ==> *final(self) == *old(self),
    {
        match self {
            Sink::Stdout => write_stdout(text),
            Sink::Stderr => write_stderr(text),
            Sink::Buffer(v) => {
                let ghost prev = v.deep_view();
                v.push(text.to_owned());
                proof {
                    assert(v.deep_view() =~= prev.push(text@)) by {
                        assert(forall|k: int|
                            0 <= k < prev.len() ==> v.deep_view()[k] == prev[k]);
                    }
                }
            },
        }
    }

    /// Flushes the underlying stream, where there is one to flush.
    pub fn flush_now(&self) {
        match self {
            Sink::Stdout => flush_stdout(),
            Sink::Stderr => flush_stderr(),
            Sink::Buffer(_) => (),
        }
    }
}

} // verus!
