use vstd::prelude::*;

use crate::utils::media::EventMetadata;

verus! {

/// All lines of `lines`, concatenated in order.
pub open spec fn concat_lines(lines: Seq<Seq<char>>) -> Seq<char>
    decreases lines.len(),
{
    if lines.len() == 0 {
        Seq::empty()
    } else {
        concat_lines(lines.drop_last()) + lines.last()
    }
}

/// A line break inside a message body is written as a space.
pub open spec fn flat_char(c: char) -> char {
    if c == '\n' || c == '\r' {
        ' '
    } else {
        c
    }
}

/// `body` on one line: each line break becomes a space.
pub open spec fn one_line(body: Seq<char>) -> Seq<char> {
    body.map_values(|c: char| flat_char(c))
}

/// A formatted line of the text export: `{timestamp} - {sender}: {body}` and a newline,
/// the body put on one line so that each message takes exactly one line.
pub open spec fn spec_text_line(timestamp: Seq<char>, sender: Seq<char>, body: Seq<char>) -> Seq<char> {
    timestamp + " - "@ + sender + ": "@ + one_line(body) + "\n"@
}

/// `body` with each line break replaced by a space.
pub fn flatten_body(body: &str) -> (flat: String)
    ensures
        flat@ == one_line(body@),
{
    let len = body.unicode_len();
    let mut flat = String::new();
    let mut i: usize = 0;
    while i < len
        invariant
            0 <= i <= len == body@.len(),
            flat@ == one_line(body@.take(i as int)),
        decreases len - i,
    {
        let c = body.get_char(i);
        if c == '\n' || c == '\r' {
            flat.append(" ");
            proof {
                reveal_strlit(" ");
            }
        } else {
            let one = body.substring_char(i, i + 1);
            proof {
                assert(one@ =~= seq![body@[i as int]]);
            }
            flat.append(one);
        }
        proof {
            assert(one_line(body@.take(i + 1)) =~= one_line(body@.take(i as int)).push(
                flat_char(body@[i as int]),
            ));
            assert(flat@ =~= one_line(body@.take(i + 1)));
        }
        i = i + 1;
    }
    proof {
        assert(body@.take(len as int) =~= body@);
    }
    flat
}

/// Temporary buffer for text messages.
pub struct TextBufferInner {
    pub lines: Vec<String>,
}

impl TextBufferInner {
    fn new() -> (inner: Self)
        ensures
            inner.lines@.len() == 0,
    {
        TextBufferInner { lines: Vec::new() }
    }
}

/// Lines of the text export waiting to be appended to `file`.
pub struct TextBuffer {
    pub inner: TextBufferInner,
    pub file: String,
}

impl View for TextBuffer {
    type V = Seq<Seq<char>>;

    /// The buffered lines, oldest first.
    open spec fn view(&self) -> Seq<Seq<char>> {
        self.inner.lines.deep_view()
    }
}

impl TextBuffer {
    pub fn new(file: String) -> (buffer: Self)
        ensures
            buffer@ == Seq::<Seq<char>>::empty(),
            buffer.file@ == file@,
    {
        let buffer = TextBuffer { inner: TextBufferInner::new(), file };
        proof {
            assert(buffer@ =~= Seq::<Seq<char>>::empty());
        }
        buffer
    }

    /// Buffer one more line.
    pub fn push_line(&mut self, line: String)
        ensures
            final(self)@ == old(self)@.push(line@),
            final(self).file == old(self).file,
    {
        self.inner.lines.push(line);
        proof {
            assert(self@ =~= old(self)@.push(line@));
        }
    }

    /// The buffered lines, oldest first.
    pub fn lines(&self) -> (lines: &Vec<String>)
        ensures
            lines.deep_view() == self@,
    {
        &self.inner.lines
    }

    /// Take all buffered lines, concatenated in order, leaving the buffer empty:
    /// what the next write appends to the file.
    pub fn take_output(&mut self) -> (output: String)
        ensures
            output@ == concat_lines(old(self)@),
            final(self)@ == Seq::<Seq<char>>::empty(),
            final(self).file == old(self).file,
    {
        let mut lines: Vec<String> = Vec::new();
        std::mem::swap(&mut lines, &mut self.inner.lines);
        let ghost all = lines.deep_view();
        let mut output = String::new();
        let mut i: usize = 0;
        while i < lines.len()
            invariant
                0 <= i <= lines@.len(),
                all == lines.deep_view(),
                output@ == concat_lines(all.take(i as int)),
            decreases lines@.len() - i,
        {
            output.append(lines[i].as_str());
            proof {
                assert(all.take(i + 1).drop_last() =~= all.take(i as int));
            }
            i = i + 1;
        }
        proof {
            assert(all.take(lines@.len() as int) =~= all);
            assert(self@ =~= Seq::<Seq<char>>::empty());
        }
        output
    }
}

/// The line of the text export for a message `body` with `metadata`.
pub fn format_text_line(timestamp: &str, sender: &str, body: &str) -> (line: String)
    ensures
        line@ == spec_text_line(timestamp@, sender@, body@),
{
    let mut line = String::from_str(timestamp);
    line.append(" - ");
    line.append(sender);
    line.append(": ");
    let flat = flatten_body(body);
    line.append(flat.as_str());
    line.append("\n");
    line
}

/// Format and store a text event into a buffer.
pub fn process_text_event(body: &str, metadata: &EventMetadata, buffer: &mut TextBuffer)
    ensures
        final(buffer)@ == old(buffer)@.push(
            spec_text_line(metadata.timestamp@, metadata.sender@, body@),
        ),
        final(buffer).file == old(buffer).file,
{
    let formatted = format_text_line(metadata.timestamp.as_str(), metadata.sender.as_str(), body);
    buffer.push_line(formatted);
}


/// A write appends what was pushed since the last write, oldest line first: pushing one
/// more line adds exactly that line at the end of the output.
pub proof fn law_write_appends_lines_in_order(lines: Seq<Seq<char>>, line: Seq<char>)
    ensures
        concat_lines(lines.push(line)) == concat_lines(lines) + line,
        concat_lines(Seq::<Seq<char>>::empty()) == Seq::<char>::empty(),
{
    assert(lines.push(line).drop_last() =~= lines);
}


/// Each message takes exactly one line of the text export: where the timestamp and the
/// sender hold no line break, the formatted line ends in its only newline.
pub proof fn law_one_message_per_line(timestamp: Seq<char>, sender: Seq<char>, body: Seq<char>)
    requires
        !timestamp.contains('\n'),
        !sender.contains('\n'),
    ensures
        spec_text_line(timestamp, sender, body).last() == '\n',
        forall|k: int|
            0 <= k < spec_text_line(timestamp, sender, body).len() - 1 ==> #[trigger] spec_text_line(
                timestamp,
                sender,
                body,
            )[k] != '\n',
{
    reveal_strlit(" - ");
    reveal_strlit(": ");
    reveal_strlit("\n");
    let line = spec_text_line(timestamp, sender, body);
    let flat = one_line(body);
    assert forall|k: int| 0 <= k < line.len() - 1 implies #[trigger] line[k] != '\n' by {
        let t = timestamp.len() as int;
        let s = sender.len() as int;
        if k < t {
            assert(line[k] == timestamp[k]);
            if timestamp[k] == '\n' {
                assert(timestamp.contains('\n'));
            }
        } else if k < t + 3 {
        } else if k < t + 3 + s {
            assert(line[k] == sender[k - t - 3]);
            if sender[k - t - 3] == '\n' {
                assert(sender.contains('\n'));
            }
        } else if k < t + 5 + s {
        } else {
            assert(line[k] == flat[k - t - 5 - s]);
        }
    }
}


/// The text line carries the message as sent: the timestamp, then ` - `, the sender, `: `,
/// the body with each of its characters in place (a line break written as a space, every
/// other character unchanged), and a final newline.
pub proof fn law_text_line_carries_the_body(timestamp: Seq<char>, sender: Seq<char>, body: Seq<char>)
    ensures
        ({
            let line = spec_text_line(timestamp, sender, body);
            let t = timestamp.len() as int;
            let sl = sender.len() as int;
            let start = t + sl + 5;
            &&& line.len() == start + body.len() + 1
            &&& line.subrange(0, t) == timestamp
            &&& line.subrange(t, t + 3) == seq![' ', '-', ' ']
            &&& line.subrange(t + 3, t + 3 + sl) == sender
            &&& line.subrange(start - 2, start) == seq![':', ' ']
            &&& forall|k: int|
                0 <= k < body.len() ==> (if body[k] == '\n' || body[k] == '\r' {
                    #[trigger] line[start + k] == ' '
                } else {
                    line[start + k] == body[k]
                })
            &&& line.last() == '\n'
        }),
{
    reveal_strlit(" - ");
    reveal_strlit(": ");
    reveal_strlit("\n");
    let line = spec_text_line(timestamp, sender, body);
    let t = timestamp.len() as int;
    let s = sender.len() as int;
    let start = t + s + 5;
    assert(line.subrange(0, t) =~= timestamp);
    assert(line.subrange(t, t + 3) =~= seq![' ', '-', ' ']);
    assert(line.subrange(t + 3, t + 3 + s) =~= sender);
    assert(line.subrange(start - 2, start) =~= seq![':', ' ']);
    assert forall|k: int| 0 <= k < body.len() implies (if body[k] == '\n' || body[k] == '\r' {
        #[trigger] line[start + k] == ' '
    } else {
        line[start + k] == body[k]
    }) by {
        assert(line[start + k] == one_line(body)[k]);
    }
}

} // verus!
