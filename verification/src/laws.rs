//! Properties that span several operations of the client.

use vstd::prelude::*;

use crate::input::{burst_text, normalize_newlines, paste_step, KeyEvent};
use crate::sse::{
    backoff_delay_ms, complete_len, complete_lines, last_lead, lead_width, lemma_last_lead_range,
    line_rest, pow2, RECONNECT_MAX_DELAY_MS,
};
use crate::state::{
    char_deleted, char_inserted, dialog_closed, dialog_opened, other_mode, scrolled_down,
    scrolled_up, sidebar_toggled, App, ChatMode, Dialog,
};
use crate::state_events::{
    perm_lacks_id, session_created_effect, session_deleted_effect, session_lacks_id,
    permission_replied_effect,
};
use crate::status_map::StatusMap;
use crate::seq_util::{lemma_first_index, lemma_first_index_range};
use crate::text::{index_of, is_char, lemma_find_from, occurs_at, trailing_count, trim_end_spec};
use crate::types::{Session, SessionStatus};
use crate::view::{inline_spans, normal_text};
use vstd::utf8::{
    decode_utf8, decode_utf8_encode_utf8, decode_utf8_split, encode_utf8, encode_utf8_decode_utf8,
    is_char_boundary, is_char_boundary_iff_not_is_continuation_byte,
    is_char_boundary_start_end_of_seq, is_continuation_byte, length_of_first_scalar,
    pop_first_scalar, valid_utf8, valid_utf8_concat, valid_utf8_split,
};

verus! {

// ───────────────────────── sessions and requests ─────────────────────────

/// No two sessions in `s` share an id.
pub open spec fn session_ids_unique(s: Seq<Session>) -> bool {
    forall|i: int, j: int| 0 <= i < j < s.len() ==> s[i].id@ != s[j].id@
}

/// Hearing of the same new session twice changes nothing the second time.
pub proof fn law_session_created_idempotent(a: App, b: App, c: App, s: Session)
    requires
        session_created_effect(a, b, s),
        session_created_effect(b, c, s),
    ensures
        c == b,
{
    if !(exists|i: int| 0 <= i < a.sessions@.len() && a.sessions@[i].id@ == s.id@) {
        assert(b.sessions@[0].id@ == s.id@);
    }
}

/// A new session never gives two sessions the same id.
pub proof fn law_session_created_keeps_ids_unique(a: App, b: App, s: Session)
    requires
        session_ids_unique(a.sessions@),
        session_created_effect(a, b, s),
    ensures
        session_ids_unique(b.sessions@),
{
    if !(exists|i: int| 0 <= i < a.sessions@.len() && a.sessions@[i].id@ == s.id@) {
        let bs = b.sessions@;
        assert forall|i: int, j: int| 0 <= i < j < bs.len() implies bs[i].id@ != bs[j].id@ by {
            assert(bs[j] == a.sessions@[j - 1]);
            if i > 0 {
                assert(bs[i] == a.sessions@[i - 1]);
            }
        }
    }
}

/// After a session is deleted, no session in the list has its id.
pub proof fn law_session_deleted_is_gone(a: App, b: App, s: Session)
    requires
        session_deleted_effect(a, b, s),
    ensures
        forall|i: int| 0 <= i < b.sessions@.len() ==> #[trigger] b.sessions@[i].id@ != s.id@,
{
    assert forall|i: int| 0 <= i < b.sessions@.len() implies #[trigger] b.sessions@[i].id@
        != s.id@ by {
        a.sessions@.lemma_filter_pred(session_lacks_id(s.id@), i);
    }
}

/// After a permission request is answered, no pending request has its id.
pub proof fn law_permission_replied_is_gone(a: App, b: App, request_id: Seq<char>)
    requires
        permission_replied_effect(a, b, request_id),
    ensures
        forall|i: int|
            0 <= i < b.pending_permissions@.len() ==> #[trigger] b.pending_permissions@[i].id@
                != request_id,
{
    assert forall|i: int| 0 <= i < b.pending_permissions@.len() implies #[trigger] b.pending_permissions@[i].id@
        != request_id by {
        a.pending_permissions@.lemma_filter_pred(perm_lacks_id(request_id), i);
    }
}

/// What a write to the status map stores is what a read of the same id gives
/// back; the other ids keep their status.
pub proof fn law_status_read_after_write(
    before: StatusMap,
    after: StatusMap,
    id: Seq<char>,
    status: SessionStatus,
)
    requires
        after@ == before@.insert(id, status),
    ensures
        after@.contains_key(id),
        after@[id] == status,
        forall|k: Seq<char>| k != id ==> (#[trigger] after@.contains_key(k)
            == before@.contains_key(k) && (after@.contains_key(k) ==> after@[k] == before@[k])),
{
}

// ───────────────────────── editing and the screen ─────────────────────────

/// Typing a character and then deleting it with backspace gives back the input
/// and the cursor as they were.
pub proof fn law_insert_then_backspace(a: App, b: App, d: App, c: char)
    requires
        a.input_cursor <= a.input_text@.len(),
        a.input_cursor < usize::MAX,
        char_inserted(a, b, c),
        char_deleted(b, d),
    ensures
        d.input_text@ == a.input_text@,
        d == (App { input_text: d.input_text, ..a }),
{
    let k = a.input_cursor as int;
    assert(a.cursor_pos() == k);
    assert(b.input_cursor == k + 1);
    assert(b.input_text@ == a.input_text@.insert(k, c));
    assert(d.input_text@ == b.input_text@.remove(k));
    assert(a.input_text@.insert(k, c).remove(k) =~= a.input_text@);
    assert(d.input_cursor == a.input_cursor);
}

/// Typing a character keeps the cursor within the input.
pub proof fn law_insert_keeps_cursor_in_text(a: App, b: App, c: char)
    requires
        a.input_cursor <= a.input_text@.len(),
        a.input_cursor < usize::MAX,
        char_inserted(a, b, c),
    ensures
        b.input_cursor <= b.input_text@.len(),
{
}

/// A backspace keeps the cursor within the input.
pub proof fn law_backspace_keeps_cursor_in_text(a: App, b: App)
    requires
        a.input_cursor <= a.input_text@.len(),
        char_deleted(a, b),
    ensures
        b.input_cursor <= b.input_text@.len(),
{
}

/// A paste keeps the cursor within the input, just past the pasted text.
pub proof fn law_paste_keeps_cursor_in_text(a: App, text: Seq<char>, b: App)
    requires
        a.input_cursor <= a.input_text@.len(),
        a.input_text@.len() + text.len() + 2 < usize::MAX,
        paste_step(a, text, b),
    ensures
        b.input_cursor <= b.input_text@.len(),
        b.input_cursor == a.input_cursor + normalize_newlines(text).len(),
{
    crate::input::lemma_normalize_len(text);
}

/// Toggling the sidebar twice leaves the client as it was.
pub proof fn law_sidebar_toggle_twice(a: App, b: App, c: App)
    requires
        sidebar_toggled(a, b),
        sidebar_toggled(b, c),
    ensures
        c == a,
{
}

/// Switching the chat mode twice gives back the mode.
pub proof fn law_mode_toggle_twice(m: ChatMode)
    ensures
        other_mode(other_mode(m)) == m,
        other_mode(m) != m,
{
}

/// Scrolling up one row and back down leaves the client as it was, and so does
/// scrolling down and back up away from the newest messages.
pub proof fn law_scroll_up_then_down(a: App, b: App, c: App)
    requires
        a.message_scroll < usize::MAX,
        scrolled_up(a, b),
        scrolled_down(b, c),
    ensures
        c == a,
{
}

/// Scrolling down one row and back up leaves the client as it was, unless the
/// newest messages were already shown.
pub proof fn law_scroll_down_then_up(a: App, b: App, c: App)
    requires
        a.message_scroll > 0,
        scrolled_down(a, b),
        scrolled_up(b, c),
    ensures
        c == a,
{
}

/// Opening a dialog and closing it is the same as closing the dialog.
pub proof fn law_open_then_close_dialog(a: App, b: App, c: App, d: Dialog)
    requires
        dialog_opened(a, b, d),
        dialog_closed(b, c),
    ensures
        dialog_closed(a, c),
{
}

// ───────────────────────── text ─────────────────────────

/// A text trimmed of the copies of `c` at its end does not end with `c`.
pub proof fn law_trim_end_leaves_no_trailing(s: Seq<char>, c: char)
    ensures
        trim_end_spec(s, c).len() == 0 || trim_end_spec(s, c).last() != c,
        trailing_count(trim_end_spec(s, c), c) == 0,
        trim_end_spec(trim_end_spec(s, c), c) == trim_end_spec(s, c),
    decreases s.len(),
{
    let t = trim_end_spec(s, c);
    if s.len() > 0 && s.last() == c {
        let d = s.drop_last();
        law_trim_end_leaves_no_trailing(d, c);
        crate::text::lemma_trailing_count_bound(d, c);
        assert(t =~= trim_end_spec(d, c));
    } else {
        assert(t =~= s);
    }
    assert(t.take(t.len() as int) =~= t);
}

/// No carriage return is left after newlines are normalized.
pub proof fn law_normalized_has_no_cr(s: Seq<char>)
    ensures
        forall|i: int| 0 <= i < normalize_newlines(s).len() ==> #[trigger] normalize_newlines(s)[i]
            != '\r',
    decreases s.len(),
{
    if s.len() > 0 {
        let n = normalize_newlines(s);
        if s[0] == '\r' && s.len() >= 2 && s[1] == '\n' {
            law_normalized_has_no_cr(s.skip(2));
        } else {
            law_normalized_has_no_cr(s.skip(1));
        }
        assert forall|i: int| 0 <= i < n.len() implies #[trigger] n[i] != '\r' by {
            if i > 0 {
                if s[0] == '\r' && s.len() >= 2 && s[1] == '\n' {
                    assert(n[i] == normalize_newlines(s.skip(2))[i - 1]);
                } else {
                    assert(n[i] == normalize_newlines(s.skip(1))[i - 1]);
                }
            }
        }
    }
}

/// A text without carriage returns is left as it is by newline normalization.
pub proof fn law_normalize_fixes_plain_text(t: Seq<char>)
    requires
        forall|i: int| 0 <= i < t.len() ==> #[trigger] t[i] != '\r',
    ensures
        normalize_newlines(t) == t,
    decreases t.len(),
{
    if t.len() > 0 {
        let r = t.skip(1);
        assert forall|i: int| 0 <= i < r.len() implies #[trigger] r[i] != '\r' by {
            assert(r[i] == t[i + 1]);
        }
        law_normalize_fixes_plain_text(r);
        assert(seq![t[0]] + r =~= t);
    }
}

/// Normalizing newlines twice is the same as once.
pub proof fn law_normalize_idempotent(s: Seq<char>)
    ensures
        normalize_newlines(normalize_newlines(s)) == normalize_newlines(s),
{
    law_normalized_has_no_cr(s);
    law_normalize_fixes_plain_text(normalize_newlines(s));
}

/// The text of a burst of keys holds no carriage return.
pub proof fn law_burst_text_has_no_cr(keys: Seq<KeyEvent>)
    ensures
        forall|i: int| 0 <= i < burst_text(keys).len() ==> #[trigger] burst_text(keys)[i] != '\r',
    decreases keys.len(),
{
    if keys.len() > 0 {
        law_burst_text_has_no_cr(keys.drop_last());
        let t = burst_text(keys.drop_last());
        assert forall|i: int| 0 <= i < burst_text(keys).len() implies #[trigger] burst_text(
            keys,
        )[i] != '\r' by {
            if i < t.len() {
                assert(burst_text(keys)[i] == t[i]);
            }
        }
    }
}

/// A line of assistant text without `*` or `` ` `` is one plain span.
pub proof fn law_plain_line_is_one_span(r: Seq<char>)
    requires
        r.len() > 0,
        !r.contains('*'),
        !r.contains('`'),
    ensures
        inline_spans(r) == seq![(r, normal_text())],
{
    assert forall|j: int| 0 <= j <= r.len() implies !occurs_at(r, "**"@, j) by {
        reveal_strlit("**");
        if occurs_at(r, "**"@, j) {
            assert(r.subrange(j, j + 2)[0] == '*');
            assert(r[j] == '*');
        }
    }
    lemma_find_from(r, "**"@, 0, r.len() as int);
    crate::seq_util::lemma_first_index_range(r, crate::text::is_char('`'));
    if crate::text::index_of(r, '`') >= 0 {
        let q = crate::text::index_of(r, '`');
        assert(r[q] == '`');
    }
}

// ───────────────────────── the event stream ─────────────────────────

/// The bytes of `chunks`, one after the other.
pub open spec fn joined_chunks(chunks: Seq<Seq<u8>>) -> Seq<u8>
    decreases chunks.len(),
{
    if chunks.len() == 0 {
        Seq::empty()
    } else {
        chunks[0] + joined_chunks(chunks.drop_first())
    }
}

/// The text a line splitter that holds back `pending` takes in when it is given
/// `chunks` and then the end of the stream: before each chunk's text, the
/// held-back bytes and the chunk are decoded up to `complete_len` (as
/// `push_chunk` decodes them), and what is held back at the end is decoded last
/// (as `finish` decodes it).
pub open spec fn splitter_text(pending: Seq<u8>, chunks: Seq<Seq<u8>>) -> Seq<char>
    decreases chunks.len(),
{
    if chunks.len() == 0 {
        decode_utf8(pending)
    } else {
        let d = pending + chunks[0];
        let k = complete_len(d);
        decode_utf8(d.take(k)) + splitter_text(d.skip(k), chunks.drop_first())
    }
}

/// Every piece that the splitter decodes along the way (see `splitter_text`) is
/// valid UTF-8, so that `push_chunk` and `finish` give exactly its characters.
pub open spec fn splitter_pieces_valid(pending: Seq<u8>, chunks: Seq<Seq<u8>>) -> bool
    decreases chunks.len(),
{
    if chunks.len() == 0 {
        valid_utf8(pending)
    } else {
        let d = pending + chunks[0];
        let k = complete_len(d);
        valid_utf8(d.take(k)) && splitter_pieces_valid(d.skip(k), chunks.drop_first())
    }
}

proof fn lemma_encode_concat(a: Seq<char>, b: Seq<char>)
    ensures
        encode_utf8(a + b) == encode_utf8(a) + encode_utf8(b),
    decreases a.len(),
{
    if a.len() == 0 {
        assert(a + b =~= b);
        assert(encode_utf8(a) + encode_utf8(b) =~= encode_utf8(b));
    } else {
        assert((a + b).drop_first() =~= a.drop_first() + b);
        assert((a + b)[0] == a[0]);
        lemma_encode_concat(a.drop_first(), b);
        assert(encode_utf8(a + b) =~= encode_utf8(a) + encode_utf8(b));
    }
}

/// Decoding two pieces of valid UTF-8 one after the other gives the text of
/// the whole.
pub proof fn law_decode_concat(a: Seq<u8>, b: Seq<u8>)
    requires
        valid_utf8(a),
        valid_utf8(b),
    ensures
        valid_utf8(a + b),
        decode_utf8(a + b) == decode_utf8(a) + decode_utf8(b),
{
    valid_utf8_concat(a, b);
    decode_utf8_encode_utf8(a);
    decode_utf8_encode_utf8(b);
    lemma_encode_concat(decode_utf8(a), decode_utf8(b));
    encode_utf8_decode_utf8(decode_utf8(a) + decode_utf8(b));
}

/// Where the splitter cuts a prefix of valid UTF-8 is a character boundary of
/// the whole: both sides are valid and decode to the whole's text.
proof fn lemma_cut_on_boundary(r: Seq<u8>, m: int)
    requires
        valid_utf8(r),
        0 <= m <= r.len(),
    ensures
        ({
            let k = complete_len(r.take(m));
            &&& 0 <= k <= m
            &&& valid_utf8(r.take(k))
            &&& valid_utf8(r.skip(k))
            &&& decode_utf8(r) == decode_utf8(r.take(k)) + decode_utf8(r.skip(k))
        }),
{
    let d = r.take(m);
    let j = last_lead(d);
    lemma_last_lead_range(d);
    let k = complete_len(d);
    is_char_boundary_start_end_of_seq(r);
    if j < 0 {
        if m > 0 {
            assert(is_continuation_byte(d[0]));
            is_char_boundary_iff_not_is_continuation_byte(r, 0);
        }
        assert(k == 0);
    } else {
        assert(r[j] == d[j]);
        is_char_boundary_iff_not_is_continuation_byte(r, j);
        if m - j >= lead_width(d[j]) {
            assert(k == m);
            // The character that starts at `j` ends exactly at `m`.
            valid_utf8_split(r, j);
            let s = r.subrange(j, r.len() as int);
            assert(s[0] == r[j]);
            let l = length_of_first_scalar(s);
            assert(l == lead_width(d[j]));
            if m < r.len() {
                assert(valid_utf8(pop_first_scalar(s)));
                if j + l < m {
                    assert(d[j + l] == r[j + l]);
                    assert(is_continuation_byte(d[j + l]));
                    assert(pop_first_scalar(s)[0] == r[j + l]);
                    is_char_boundary_start_end_of_seq(pop_first_scalar(s));
                    is_char_boundary_iff_not_is_continuation_byte(pop_first_scalar(s), 0);
                    assert(false);
                }
                assert(j + l == m);
                assert(pop_first_scalar(s)[0] == r[m]);
                is_char_boundary_start_end_of_seq(pop_first_scalar(s));
                is_char_boundary_iff_not_is_continuation_byte(pop_first_scalar(s), 0);
                is_char_boundary_iff_not_is_continuation_byte(r, m);
            }
        }
    }
    assert(is_char_boundary(r, k));
    valid_utf8_split(r, k);
    decode_utf8_split(r, k);
    assert(r.subrange(0, k) =~= r.take(k));
    assert(r.subrange(k, r.len() as int) =~= r.skip(k));
}

/// A splitter holding back `pending`, given `chunks`, decodes only valid pieces
/// and takes in the text of all its bytes, when these are valid UTF-8.
proof fn lemma_splitter_text(r: Seq<u8>, pending: Seq<u8>, chunks: Seq<Seq<u8>>)
    requires
        valid_utf8(r),
        r == pending + joined_chunks(chunks),
    ensures
        splitter_pieces_valid(pending, chunks),
        splitter_text(pending, chunks) == decode_utf8(r),
    decreases chunks.len(),
{
    if chunks.len() == 0 {
        assert(r =~= pending);
    } else {
        let d = pending + chunks[0];
        let rest = chunks.drop_first();
        let k = complete_len(d);
        assert(r =~= d + joined_chunks(rest));
        assert(r.take(d.len() as int) =~= d);
        lemma_cut_on_boundary(r, d.len() as int);
        assert(r.take(k) =~= d.take(k));
        assert(r.skip(k) =~= d.skip(k) + joined_chunks(rest));
        lemma_splitter_text(r.skip(k), d.skip(k), rest);
    }
}

/// However a byte stream of valid UTF-8 is cut into chunks, the line splitter
/// decodes only valid pieces of it and takes in exactly the text of the whole
/// stream: no character is lost or replaced where a chunk ends inside it.
pub proof fn law_split_stream_decodes_as_whole(chunks: Seq<Seq<u8>>)
    requires
        valid_utf8(joined_chunks(chunks)),
    ensures
        splitter_pieces_valid(Seq::empty(), chunks),
        splitter_text(Seq::empty(), chunks) == decode_utf8(joined_chunks(chunks)),
{
    assert(joined_chunks(chunks) =~= Seq::<u8>::empty() + joined_chunks(chunks));
    lemma_splitter_text(joined_chunks(chunks), Seq::empty(), chunks);
}

/// What the end of the stream gives for the text `rest` left after the last
/// newline (see `finish`): nothing when it is empty, else it as a last line
/// without trailing `'\r'`s.
pub open spec fn last_piece(rest: Seq<char>) -> Seq<Seq<char>> {
    if rest.len() == 0 {
        Seq::empty()
    } else {
        seq![trim_end_spec(rest, '\r')]
    }
}

/// The lines of a whole text: its complete lines, then the text after its last
/// newline when there is any.
pub open spec fn split_lines(t: Seq<char>) -> Seq<Seq<char>> {
    complete_lines(t) + last_piece(line_rest(t))
}

/// The lines a line splitter that holds the text `buf` and the bytes `pending`
/// gives out when it is given `chunks`, each followed by `take_lines`, and then
/// the end of the stream (`finish`); each piece it decodes is taken as UTF-8.
pub open spec fn stream_lines(buf: Seq<char>, pending: Seq<u8>, chunks: Seq<Seq<u8>>) -> Seq<
    Seq<char>,
>
    decreases chunks.len(),
{
    if chunks.len() == 0 {
        last_piece(buf + decode_utf8(pending))
    } else {
        let d = pending + chunks[0];
        let k = complete_len(d);
        let t = buf + decode_utf8(d.take(k));
        complete_lines(t) + stream_lines(line_rest(t), d.skip(k), chunks.drop_first())
    }
}

proof fn lemma_line_rest_has_no_newline(t: Seq<char>)
    ensures
        index_of(line_rest(t), '\n') < 0,
    decreases t.len(),
{
    lemma_first_index_range(t, is_char('\n'));
    if index_of(t, '\n') >= 0 {
        lemma_line_rest_has_no_newline(t.skip(index_of(t, '\n') + 1));
    }
}

/// Cutting the lines of `x` first and then those of what is left with `t`
/// appended gives the lines of `x + t`.
proof fn lemma_lines_concat(x: Seq<char>, t: Seq<char>)
    ensures
        complete_lines(x) + complete_lines(line_rest(x) + t) == complete_lines(x + t),
        line_rest(line_rest(x) + t) == line_rest(x + t),
    decreases x.len(),
{
    let p = is_char('\n');
    lemma_first_index_range(x, p);
    let pos = index_of(x, '\n');
    if pos >= 0 {
        let xt = x + t;
        assert forall|j: int| 0 <= j < pos implies !p(#[trigger] xt[j]) by {
            assert(xt[j] == x[j]);
        }
        assert(xt[pos] == x[pos]);
        lemma_first_index(xt, p, pos);
        assert(xt.take(pos) =~= x.take(pos));
        assert(xt.skip(pos + 1) =~= x.skip(pos + 1) + t);
        lemma_lines_concat(x.skip(pos + 1), t);
        assert(complete_lines(x) + complete_lines(line_rest(x) + t) =~= complete_lines(x + t));
    } else {
        assert(complete_lines(x) =~= Seq::<Seq<char>>::empty());
        assert(complete_lines(x) + complete_lines(line_rest(x) + t) =~= complete_lines(x + t));
    }
}

/// The lines a splitter gives out are the lines of the text it takes in, when
/// that text is valid UTF-8 and what it holds has no newline.
#[verifier::rlimit(40)]
#[verifier::spinoff_prover]
proof fn lemma_stream_lines(buf: Seq<char>, pending: Seq<u8>, chunks: Seq<Seq<u8>>)
    requires
        valid_utf8(pending + joined_chunks(chunks)),
        index_of(buf, '\n') < 0,
        pending.len() == 0 || pending.len() < lead_width(pending[0]),
    ensures
        stream_lines(buf, pending, chunks) == split_lines(buf + splitter_text(pending, chunks)),
    decreases chunks.len(),
{
    if chunks.len() == 0 {
        assert(pending + joined_chunks(chunks) =~= pending);
        assert(pending.len() == 0);
        assert(buf + decode_utf8(pending) =~= buf);
        assert(complete_lines(buf) =~= Seq::<Seq<char>>::empty());
        assert(split_lines(buf) =~= last_piece(buf));
    } else {
        let r = pending + joined_chunks(chunks);
        let d = pending + chunks[0];
        let rest = chunks.drop_first();
        let k = complete_len(d);
        let t = buf + decode_utf8(d.take(k));
        assert(r =~= d + joined_chunks(rest));
        assert(r.take(d.len() as int) =~= d);
        lemma_cut_on_boundary(r, d.len() as int);
        assert(r.take(k) =~= d.take(k));
        assert(r.skip(k) =~= d.skip(k) + joined_chunks(rest));
        lemma_last_lead_range(d);
        if k < d.len() {
            assert(d.skip(k)[0] == d[k]);
        }
        lemma_line_rest_has_no_newline(t);
        lemma_stream_lines(line_rest(t), d.skip(k), rest);
        let s2 = splitter_text(d.skip(k), rest);
        lemma_lines_concat(t, s2);
        assert(buf + splitter_text(pending, chunks) =~= t + s2);
        assert(stream_lines(buf, pending, chunks) =~= split_lines(t + s2));
    }
}

/// However a byte stream of valid UTF-8 is cut into chunks, the line splitter
/// gives out the lines of the whole stream's text: each piece before a newline,
/// without trailing `'\r'`s, and then the text after the last newline if there
/// is any.
pub proof fn law_stream_lines_as_whole(chunks: Seq<Seq<u8>>)
    requires
        valid_utf8(joined_chunks(chunks)),
    ensures
        splitter_pieces_valid(Seq::empty(), chunks),
        stream_lines(Seq::empty(), Seq::empty(), chunks) == split_lines(
            decode_utf8(joined_chunks(chunks)),
        ),
{
    law_split_stream_decodes_as_whole(chunks);
    assert(Seq::<u8>::empty() + joined_chunks(chunks) =~= joined_chunks(chunks));
    assert(index_of(Seq::<char>::empty(), '\n') < 0);
    lemma_stream_lines(Seq::empty(), Seq::empty(), chunks);
    assert(Seq::<char>::empty() + splitter_text(Seq::empty(), chunks) =~= splitter_text(
        Seq::empty(),
        chunks,
    ));
}

/// Two ways of cutting the same valid UTF-8 bytes into chunks give the line
/// splitter the same text and make it give out the same lines.
pub proof fn law_chunking_does_not_matter(c: Seq<Seq<u8>>, d: Seq<Seq<u8>>)
    requires
        valid_utf8(joined_chunks(c)),
        joined_chunks(c) == joined_chunks(d),
    ensures
        splitter_text(Seq::empty(), c) == splitter_text(Seq::empty(), d),
        stream_lines(Seq::empty(), Seq::empty(), c) == stream_lines(
            Seq::empty(),
            Seq::empty(),
            d,
        ),
{
    law_split_stream_decodes_as_whole(c);
    law_split_stream_decodes_as_whole(d);
    law_stream_lines_as_whole(c);
    law_stream_lines_as_whole(d);
}

// ───────────────────────── reconnecting ─────────────────────────

proof fn lemma_pow2_monotone(a: nat, b: nat)
    requires
        a <= b,
    ensures
        pow2(a) <= pow2(b),
    decreases b,
{
    if a < b {
        lemma_pow2_monotone(a, (b - 1) as nat);
    }
}

/// The wait before reconnecting never shrinks as failures add up, and never
/// exceeds the cap.
pub proof fn law_backoff_monotone_and_capped(a: nat, b: nat)
    requires
        a <= b,
    ensures
        backoff_delay_ms(a) <= backoff_delay_ms(b),
        backoff_delay_ms(b) <= RECONNECT_MAX_DELAY_MS,
{
    if a > 0 {
        let ea: nat = if a - 1 < 5 { (a - 1) as nat } else { 5 };
        let eb: nat = if b - 1 < 5 { (b - 1) as nat } else { 5 };
        lemma_pow2_monotone(ea, eb);
    }
}

} // verus!
