//! Server-sent events: the byte stream is cut into lines, the lines into frames,
//! and a lost connection is retried with exponential back-off.

use vstd::prelude::*;

use crate::text::{
    chars_of, concat, find_char, index_of, slice, starts_with, starts_with_spec, string_from,
    string_of, trim, trim_end_char, trim_end_spec, trim_spec,
};
use vstd::utf8::{
    decode_utf8, is_continuation_byte, is_leading_byte_width_2, is_leading_byte_width_3,
    is_leading_byte_width_4, valid_utf8,
};

verus! {

// ───────────────────────── bytes to lines ─────────────────────────

/// The text `String::from_utf8_lossy` makes of `bytes`.
pub uninterp spec fn utf8_lossy(bytes: Seq<u8>) -> Seq<char>;

/// Decodes `bytes` as UTF-8, putting U+FFFD in place of each invalid sequence
/// (`String::from_utf8_lossy`). Stated: the result is a function of the bytes,
/// and valid UTF-8 decodes to the characters it encodes; left unsaid is which
/// replacement characters invalid input gets.
#[verifier::external_body]
fn decode_lossy(bytes: &[u8]) -> (s: String)
    ensures
        s@ == utf8_lossy(bytes@),
        valid_utf8(bytes@) ==> s@ == decode_utf8(bytes@),
{
    String::from_utf8_lossy(bytes).into_owned()
}

/// The index of the last byte of `d` that does not continue a character (a
/// byte that is not of the form `10xxxxxx`), or -1 when there is none.
pub open spec fn last_lead(d: Seq<u8>) -> int
    decreases d.len(),
{
    if d.len() == 0 {
        -1
    } else if !is_continuation_byte(d.last()) {
        d.len() - 1
    } else {
        last_lead(d.drop_last())
    }
}

/// How many bytes the character starting with byte `b` takes, by its leading
/// bits (one for any byte that does not start a longer character).
pub open spec fn lead_width(b: u8) -> int {
    if is_leading_byte_width_2(b) {
        2
    } else if is_leading_byte_width_3(b) {
        3
    } else if is_leading_byte_width_4(b) {
        4
    } else {
        1
    }
}

/// Where `d` is cut before decoding: before a last character whose leading
/// byte announces more bytes than have arrived, else at its end.
pub open spec fn complete_len(d: Seq<u8>) -> int {
    let j = last_lead(d);
    if j >= 0 && d.len() - j < lead_width(d[j]) {
        j
    } else {
        d.len() as int
    }
}

/// The last leading byte lies within `d`, and every byte after it continues a
/// character.
pub proof fn lemma_last_lead_range(d: Seq<u8>)
    ensures
        -1 <= last_lead(d) < d.len(),
        last_lead(d) >= 0 ==> !is_continuation_byte(d[last_lead(d)]),
        forall|i: int| last_lead(d) < i < d.len() ==> is_continuation_byte(#[trigger] d[i]),
    decreases d.len(),
{
    if d.len() > 0 && is_continuation_byte(d.last()) {
        lemma_last_lead_range(d.drop_last());
        assert forall|i: int| last_lead(d) < i < d.len() implies is_continuation_byte(
            #[trigger] d[i],
        ) by {
            if i < d.len() - 1 {
                assert(d[i] == d.drop_last()[i]);
            }
        }
    }
}

/// The index of the last byte of `d` that does not continue a character.
fn last_lead_of(d: &Vec<u8>) -> (r: Option<usize>)
    ensures
        match r {
            Some(j) => j as int == last_lead(d@) && j < d@.len(),
            None => last_lead(d@) == -1,
        },
{
    let mut i = d.len();
    assert(d@.take(i as int) =~= d@);
    while i > 0
        invariant
            i <= d@.len(),
            last_lead(d@) == last_lead(d@.take(i as int)),
        decreases i,
    {
        let b = d[i - 1];
        assert(d@.take(i as int).drop_last() =~= d@.take(i - 1));
        assert(d@.take(i as int).last() == b);
        if !(0x80 <= b && b <= 0xbf) {
            return Some(i - 1);
        }
        i = i - 1;
    }
    None
}

/// Where `d` is cut before decoding (see `complete_len`).
fn complete_len_of(d: &Vec<u8>) -> (k: usize)
    ensures
        k as int == complete_len(d@),
{
    match last_lead_of(d) {
        Some(j) => {
            let b = d[j];
            let w: usize = if 0xc0 <= b && b <= 0xdf {
                2
            } else if 0xe0 <= b && b <= 0xef {
                3
            } else if 0xf0 <= b && b <= 0xf7 {
                4
            } else {
                1
            };
            if d.len() - j < w {
                j
            } else {
                d.len()
            }
        },
        None => d.len(),
    }
}

/// The bytes of `v` from `a` to `b`.
fn byte_range(v: &Vec<u8>, a: usize, b: usize) -> (r: Vec<u8>)
    requires
        a <= b <= v@.len(),
    ensures
        r@ == v@.subrange(a as int, b as int),
{
    let mut r: Vec<u8> = Vec::new();
    let mut i = a;
    while i < b
        invariant
            a <= i <= b <= v@.len(),
            r@ == v@.subrange(a as int, i as int),
        decreases b - i,
    {
        r.push(v[i]);
        i = i + 1;
    }
    r
}

/// Text received and not yet cut into lines, and the bytes of a character
/// whose end has not arrived yet.
pub struct LineSplitter {
    buffer: Vec<char>,
    pending: Vec<u8>,
}

impl LineSplitter {
    /// The text held.
    pub closed spec fn buffered(&self) -> Seq<char> {
        self.buffer@
    }

    /// The bytes held back until the rest of their character arrives.
    pub closed spec fn pending(&self) -> Seq<u8> {
        self.pending@
    }

    /// A splitter holding nothing.
    pub fn new() -> (r: LineSplitter)
        ensures
            r.buffered().len() == 0,
            r.pending().len() == 0,
    {
        LineSplitter { buffer: Vec::new(), pending: Vec::new() }
    }

    /// Adds a chunk of the byte stream: the held-back bytes and the chunk are
    /// decoded up to a last character that is still incomplete, whose bytes are
    /// held back in turn.
    pub fn push_chunk(&mut self, chunk: &[u8])
        ensures
            ({
                let d = old(self).pending() + chunk@;
                let k = complete_len(d);
                &&& final(self).buffered() == old(self).buffered() + utf8_lossy(d.take(k))
                &&& valid_utf8(d.take(k)) ==> final(self).buffered() == old(self).buffered()
                    + decode_utf8(d.take(k))
                &&& final(self).pending() == d.skip(k)
            }),
    {
        let mut data: Vec<u8> = Vec::new();
        std::mem::swap(&mut data, &mut self.pending);
        let ghost p = data@;
        let mut i: usize = 0;
        while i < chunk.len()
            invariant
                i <= chunk@.len(),
                data@ == p + chunk@.take(i as int),
            decreases chunk@.len() - i,
        {
            data.push(chunk[i]);
            i = i + 1;
            assert(data@ =~= p + chunk@.take(i as int));
        }
        assert(chunk@.take(chunk@.len() as int) =~= chunk@);
        let k = complete_len_of(&data);
        assert(k <= data@.len()) by {
            if last_lead(data@) >= 0 {
                lemma_last_lead_range(data@);
            }
        }
        let head = byte_range(&data, 0, k);
        self.pending = byte_range(&data, k, data.len());
        assert(head@ =~= data@.take(k as int));
        assert(self.pending@ =~= data@.skip(k as int));
        let text = decode_lossy(head.as_slice());
        let v = chars_of(text.as_str());
        crate::text::extend(&mut self.buffer, &v);
    }

    /// Takes the next complete line, if a newline has arrived: the text before the
    /// first `'\n'`, without trailing `'\r'`s.
    pub fn next_line(&mut self) -> (r: Option<String>)
        ensures
            ({
                let b = old(self).buffered();
                let pos = index_of(b, '\n');
                if pos >= 0 {
                    &&& r matches Some(l)
                    &&& l@ == trim_end_spec(b.take(pos), '\r')
                    &&& final(self).buffered() == b.skip(pos + 1)
                } else {
                    r is None && final(self).buffered() == b
                }
            }),
            final(self).pending() == old(self).pending(),
    {
        match find_char(&self.buffer, '\n') {
            Some(pos) => {
                let n = self.buffer.len();
                assert(pos < n);
                let head = slice(&self.buffer, 0, pos);
                let line = trim_end_char(&head, '\r');
                let rest = slice(&self.buffer, pos + 1, n);
                proof {
                    assert(head@ =~= self.buffer@.take(pos as int));
                    assert(rest@ =~= self.buffer@.skip(pos + 1));
                }
                self.buffer = rest;
                Some(string_of(&line))
            },
            None => None,
        }
    }

    /// Takes every complete line held, in order (see `next_line`), leaving the
    /// text after the last newline.
    pub fn take_lines(&mut self) -> (lines: Vec<String>)
        ensures
            lines@.map_values(|l: String| l@) == complete_lines(old(self).buffered()),
            final(self).buffered() == line_rest(old(self).buffered()),
            final(self).pending() == old(self).pending(),
    {
        let mut lines: Vec<String> = Vec::new();
        loop
            invariant
                lines@.map_values(|l: String| l@) + complete_lines(self.buffered())
                    == complete_lines(old(self).buffered()),
                line_rest(self.buffered()) == line_rest(old(self).buffered()),
                self.pending() == old(self).pending(),
            ensures
                lines@.map_values(|l: String| l@) == complete_lines(old(self).buffered()),
                self.buffered() == line_rest(old(self).buffered()),
                self.pending() == old(self).pending(),
            decreases self.buffered().len(),
        {
            let ghost b = self.buffered();
            let ghost before = lines@;
            match self.next_line() {
                Some(line) => {
                    lines.push(line);
                    proof {
                        crate::seq_util::lemma_first_index_range(b, crate::text::is_char('\n'));
                        assert(lines@.map_values(|l: String| l@) =~= before.map_values(
                            |l: String| l@,
                        ).push(line@));
                        assert(seq![line@] + complete_lines(self.buffered()) =~= complete_lines(
                            b,
                        ));
                        assert(lines@.map_values(|l: String| l@) + complete_lines(self.buffered())
                            =~= before.map_values(|l: String| l@) + complete_lines(b));
                    }
                },
                None => {
                    proof {
                        assert(complete_lines(b) =~= Seq::<Seq<char>>::empty());
                        assert(lines@.map_values(|l: String| l@) =~= lines@.map_values(
                            |l: String| l@,
                        ) + complete_lines(b));
                    }
                    return lines;
                },
            }
        }
    }

    /// At the end of the stream: the rest of the text, unless there is none.
    pub fn finish(&mut self) -> (r: Option<String>)
        ensures
            final(self).buffered().len() == 0,
            final(self).pending().len() == 0,
            last_line(
                r,
                old(self).buffered() + if old(self).pending().len() > 0 {
                    utf8_lossy(old(self).pending())
                } else {
                    Seq::empty()
                },
            ),
            valid_utf8(old(self).pending()) ==> last_line(
                r,
                old(self).buffered() + decode_utf8(old(self).pending()),
            ),
    {
        let mut rest: Vec<char> = Vec::new();
        std::mem::swap(&mut rest, &mut self.buffer);
        let mut held: Vec<u8> = Vec::new();
        std::mem::swap(&mut held, &mut self.pending);
        if held.len() > 0 {
            let text = decode_lossy(held.as_slice());
            let v = chars_of(text.as_str());
            crate::text::extend(&mut rest, &v);
        } else {
            assert(decode_utf8(held@) =~= Seq::<char>::empty());
        }
        if rest.len() == 0 {
            None
        } else {
            Some(string_of(&trim_end_char(&rest, '\r')))
        }
    }
}

/// What the end of the stream gives for the remaining text `rest`: nothing
/// when it is empty, else it as a last line without trailing `'\r'`s.
pub open spec fn last_line(r: Option<String>, rest: Seq<char>) -> bool {
    if rest.len() == 0 {
        r is None
    } else {
        r matches Some(l) && l@ == trim_end_spec(rest, '\r')
    }
}

/// The complete lines of `t`, in order: each piece before a `'\n'`, without
/// trailing `'\r'`s.
pub open spec fn complete_lines(t: Seq<char>) -> Seq<Seq<char>>
    decreases t.len(),
{
    let pos = index_of(t, '\n');
    if 0 <= pos < t.len() {
        seq![trim_end_spec(t.take(pos), '\r')] + complete_lines(t.skip(pos + 1))
    } else {
        Seq::empty()
    }
}

/// The text of `t` after its last `'\n'` (all of it when there is none).
pub open spec fn line_rest(t: Seq<char>) -> Seq<char>
    decreases t.len(),
{
    let pos = index_of(t, '\n');
    if 0 <= pos < t.len() {
        line_rest(t.skip(pos + 1))
    } else {
        t
    }
}

// ───────────────────────── lines to frames ─────────────────────────

/// What an SSE line does to the frame being read (event type, data) and the data
/// of the frame it completes, if any: an empty line ends a frame that has data;
/// `event:` sets the type; `data:` adds a line of data; other lines (comments
/// starting with ':') change nothing. Values are trimmed.
pub open spec fn frame_step(event: Seq<char>, data: Seq<char>, line: Seq<char>) -> (
    Seq<char>,
    Seq<char>,
    Option<Seq<char>>,
) {
    if line.len() == 0 {
        if data.len() > 0 {
            (Seq::empty(), Seq::empty(), Some(data))
        } else {
            (event, data, None)
        }
    } else if starts_with_spec(line, "event:"@) {
        (trim_spec(line.skip(6)), data, None)
    } else if starts_with_spec(line, "data:"@) {
        let sep = if data.len() > 0 {
            seq!['\n']
        } else {
            Seq::empty()
        };
        (event, data + sep + trim_spec(line.skip(5)), None)
    } else {
        (event, data, None)
    }
}

/// The frame being read from an SSE stream.
pub struct FrameDecoder {
    /// The type named by the last `event:` line of the frame.
    pub event_type: String,
    /// The frame's data lines, joined by newlines.
    pub data: String,
}

impl FrameDecoder {
    /// A decoder at the start of a frame.
    pub fn new() -> (r: FrameDecoder)
        ensures
            r.event_type@.len() == 0,
            r.data@.len() == 0,
    {
        FrameDecoder { event_type: String::new(), data: String::new() }
    }

    /// Reads one line; returns the data of the frame it completes.
    pub fn on_line(&mut self, line: &str) -> (r: Option<String>)
        ensures
            ({
                let (e, d, out) = frame_step(old(self).event_type@, old(self).data@, line@);
                &&& final(self).event_type@ == e
                &&& final(self).data@ == d
                &&& match out {
                    Some(x) => r matches Some(s) && s@ == x,
                    None => r is None,
                }
            }),
    {
        let v = chars_of(line);
        if v.len() == 0 {
            if self.data.as_str().is_empty() {
                return None;
            }
            let mut data = String::new();
            std::mem::swap(&mut data, &mut self.data);
            self.event_type = String::new();
            return Some(data);
        }
        let event_prefix = chars_of("event:");
        let data_prefix = chars_of("data:");
        proof {
            reveal_strlit("event:");
            reveal_strlit("data:");
        }
        if starts_with(&v, &event_prefix) {
            let rest = slice(&v, 6, v.len());
            assert(rest@ =~= line@.skip(6));
            let value = trim(&rest);
            self.event_type = string_of(&value);
        } else if starts_with(&v, &data_prefix) {
            let rest = slice(&v, 5, v.len());
            assert(rest@ =~= line@.skip(5));
            let value = trim(&rest);
            let mut d = chars_of(self.data.as_str());
            let ghost d0 = d@;
            if d.len() > 0 {
                d.push('\n');
            }
            crate::text::extend(&mut d, &value);
            proof {
                if d0.len() > 0 {
                    assert(d@ =~= d0 + seq!['\n'] + trim_spec(line@.skip(5)));
                } else {
                    assert(d@ =~= d0 + Seq::<char>::empty() + trim_spec(line@.skip(5)));
                }
            }
            self.data = string_of(&d);
        }
        None
    }
}

// ───────────────────────── reconnecting ─────────────────────────

/// Consecutive failed connections after which the stream gives up.
pub const MAX_RECONNECT_ATTEMPTS: u32 = 30;

/// The first back-off delay, in milliseconds.
pub const RECONNECT_BASE_DELAY_MS: u64 = 1000;

/// The longest back-off delay, in milliseconds.
pub const RECONNECT_MAX_DELAY_MS: u64 = 30000;

/// 2 to the power `e`.
pub open spec fn pow2(e: nat) -> nat
    decreases e,
{
    if e == 0 {
        1
    } else {
        2 * pow2((e - 1) as nat)
    }
}

/// The wait before connecting after `attempts` consecutive attempts: none before
/// the first; then one second, doubling with each attempt up to 32 times, and
/// never more than 30 seconds.
pub open spec fn backoff_delay_ms(attempts: nat) -> nat {
    if attempts == 0 {
        0
    } else {
        let e: nat = if attempts - 1 < 5 {
            (attempts - 1) as nat
        } else {
            5
        };
        let d = (RECONNECT_BASE_DELAY_MS * pow2(e)) as nat;
        if d < RECONNECT_MAX_DELAY_MS {
            d
        } else {
            RECONNECT_MAX_DELAY_MS as nat
        }
    }
}

/// The connection attempts made since the last event arrived.
pub struct Reconnect {
    pub attempts: u32,
}

impl Reconnect {
    /// No attempt made yet.
    pub fn new() -> (r: Reconnect)
        ensures
            r.attempts == 0,
    {
        Reconnect { attempts: 0 }
    }

    /// An event arrived: the connection works, so the count starts over.
    pub fn on_event(&mut self)
        ensures
            final(self).attempts == 0,
    {
        self.attempts = 0;
    }

    /// The connection is needed (at the start, or after it failed or ended): the
    /// wait before the next attempt, or `None` once `MAX_RECONNECT_ATTEMPTS`
    /// attempts have been made in a row.
    pub fn next_attempt(&mut self) -> (r: Option<u64>)
        ensures
            old(self).attempts >= MAX_RECONNECT_ATTEMPTS ==> r is None && final(self).attempts
                == old(self).attempts,
            old(self).attempts < MAX_RECONNECT_ATTEMPTS ==> r == Some(
                backoff_delay_ms(old(self).attempts as nat) as u64,
            ) && final(self).attempts == old(self).attempts + 1,
    {
        if self.attempts >= MAX_RECONNECT_ATTEMPTS {
            return None;
        }
        let delay: u64 = if self.attempts == 0 {
            0
        } else {
            let e: u32 = if self.attempts - 1 < 5 {
                self.attempts - 1
            } else {
                5
            };
            let mut d: u64 = RECONNECT_BASE_DELAY_MS;
            let mut k: u32 = 0;
            while k < e
                invariant
                    k <= e <= 5,
                    d == RECONNECT_BASE_DELAY_MS * pow2(k as nat),
                decreases e - k,
            {
                assert(pow2((k + 1) as nat) == 2 * pow2(k as nat));
                assert(pow2(k as nat) <= 16) by {
                    assert(pow2(0) == 1);
                    assert(pow2(1) == 2);
                    assert(pow2(2) == 4);
                    assert(pow2(3) == 8);
                    assert(pow2(4) == 16);
                }
                d = d * 2;
                k = k + 1;
            }
            if d < RECONNECT_MAX_DELAY_MS {
                d
            } else {
                RECONNECT_MAX_DELAY_MS
            }
        };
        self.attempts = self.attempts + 1;
        Some(delay)
    }
}

/// The event stream's URL for a server at `base_url`: trailing slashes dropped,
/// then `/event`.
pub fn event_url(base_url: &str) -> (r: String)
    ensures
        r@ == trim_end_spec(base_url@, '/') + "/event"@,
{
    let v = chars_of(base_url);
    let base = trim_end_char(&v, '/');
    let b = string_of(&base);
    concat(b.as_str(), "/event")
}

} // verus!
