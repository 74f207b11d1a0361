//! The terminal's answer to a query for its background color: which bytes
//! make up the answer, and which color it names.

use crate::gfx::text::Rgb24;
use crate::utils::strings::{
    chars_of, find_between, lemma_index_of_first_is, lemma_index_of_first_none,
};
use vstd::prelude::*;
use vstd::string::StrSliceExecFns;
use vstd::utf8::{decode_utf8, valid_utf8};

verus! {

/// The value of a hexadecimal digit, in either case.
pub open spec fn hex_digit(c: char) -> Option<nat> {
    if '0' <= c <= '9' {
        Some((c as nat - '0' as nat) as nat)
    } else if 'a' <= c <= 'f' {
        Some((c as nat - 'a' as nat + 10) as nat)
    } else if 'A' <= c <= 'F' {
        Some((c as nat - 'A' as nat + 10) as nat)
    } else {
        None
    }
}

/// Whether every character is a hexadecimal digit.
pub open spec fn is_hex(s: Seq<char>) -> bool {
    forall|i: int| 0 <= i < s.len() ==> (#[trigger] hex_digit(s[i])) is Some
}

/// The number that the hexadecimal digits write.
pub open spec fn hex_value(s: Seq<char>) -> nat
    decreases s.len(),
{
    if s.len() == 0 {
        0
    } else {
        16 * hex_value(s.drop_last()) + hex_digit(s.last()).unwrap()
    }
}

/// The largest number that so many hexadecimal digits write, for up to four.
pub open spec fn channel_max(digits: nat) -> nat {
    if digits == 0 {
        0
    } else if digits == 1 {
        0xf
    } else if digits == 2 {
        0xff
    } else if digits == 3 {
        0xfff
    } else {
        0xffff
    }
}

/// A color channel written with one to four hexadecimal digits, scaled to a
/// byte and rounded to the nearest. Anything else is no channel.
pub open spec fn scaled_channel(s: Seq<char>) -> Option<u8> {
    if 1 <= s.len() <= 4 && is_hex(s) {
        let max = channel_max(s.len());
        Some(((0xff * hex_value(s) + max / 2) / max) as u8)
    } else {
        None
    }
}

fn hex_digit_value(c: char) -> (value: Option<u32>)
    ensures
        match hex_digit(c) {
            Some(d) => value == Some(d as u32) && d < 16,
            None => value is None,
        },
{
    if '0' <= c && c <= '9' {
        Some(c as u32 - '0' as u32)
    } else if 'a' <= c && c <= 'f' {
        Some(c as u32 - 'a' as u32 + 10)
    } else if 'A' <= c && c <= 'F' {
        Some(c as u32 - 'A' as u32 + 10)
    } else {
        None
    }
}

pub fn hex_to_u8(hex: &str) -> (value: Option<u8>)
    ensures
        value == scaled_channel(hex@),
{
    let digits = chars_of(hex);
    let max: u32 = if digits.len() == 1 {
        0xf
    } else if digits.len() == 2 {
        0xff
    } else if digits.len() == 3 {
        0xfff
    } else if digits.len() == 4 {
        0xffff
    } else {
        return None;
    };
    let mut v: u32 = 0;
    let mut i: usize = 0;
    while i < digits.len()
        invariant
            i <= digits.len() <= 4,
            digits@ == hex@,
            is_hex(hex@.take(i as int)),
            v == hex_value(hex@.take(i as int)),
            v <= channel_max(i as nat),
        decreases digits.len() - i,
    {
        let ghost next = hex@.take(i + 1);
        assert(next.drop_last() == hex@.take(i as int));
        match hex_digit_value(digits[i]) {
            Some(d) => {
                v = 16 * v + d;
            },
            None => {
                assert(hex_digit(hex@[i as int]) is None);
                return None;
            },
        }
        assert forall|j: int| 0 <= j < next.len() implies (#[trigger] hex_digit(next[j])) is Some by {
            if j < i {
                assert(next[j] == hex@.take(i as int)[j]);
            }
        }
        i += 1;
    }
    assert(hex@.take(i as int) == hex@);
    let scaled: u32 = (0xff * v + max / 2) / max;
    Some(scaled as u8)
}

/// Whether `c` is one of the characters that end a reply: BEL, ESC or a
/// backslash.
pub open spec fn is_trailer(c: char) -> bool {
    c == '\x07' || c == '\x1b' || c == '\\'
}

/// The length of `s` without the trailers at its end.
pub open spec fn trimmed_len(s: Seq<char>) -> nat
    decreases s.len(),
{
    if s.len() > 0 && is_trailer(s.last()) {
        trimmed_len(s.drop_last())
    } else {
        s.len()
    }
}

/// `s` without the trailers at its end.
pub open spec fn without_trailers(s: Seq<char>) -> Seq<char> {
    s.take(trimmed_len(s) as int)
}

/// The three fields of a reply's body: what follows the first colon, cut at
/// its slashes. There must be exactly two slashes.
pub open spec fn color_fields(body: Seq<char>) -> Option<(Seq<char>, Seq<char>, Seq<char>)> {
    match body.index_of_first(':') {
        None => None,
        Some(colon) => {
            let rgb = body.skip(colon + 1);
            match rgb.index_of_first('/') {
                None => None,
                Some(first) => {
                    let rest = rgb.skip(first + 1);
                    match rest.index_of_first('/') {
                        None => None,
                        Some(second) => {
                            let last = rest.skip(second + 1);
                            if last.contains('/') {
                                None
                            } else {
                                Some((rgb.take(first), rest.take(second), last))
                            }
                        },
                    }
                },
            }
        },
    }
}

/// The red, green and blue fields of a reply, as they are written.
pub open spec fn reply_fields(reply: Seq<char>) -> Option<(Seq<char>, Seq<char>, Seq<char>)> {
    color_fields(without_trailers(reply))
}

/// The color that a reply names.
pub open spec fn reply_color(reply: Seq<char>) -> Option<Rgb24> {
    match reply_fields(reply) {
        Some(fields) => match (
            scaled_channel(fields.0),
            scaled_channel(fields.1),
            scaled_channel(fields.2),
        ) {
            (Some(r), Some(g), Some(b)) => Some((r, g, b)),
            _ => None,
        },
        None => None,
    }
}

fn is_trailer_char(c: char) -> (r: bool)
    ensures
        r == is_trailer(c),
{
    c == '\x07' || c == '\x1b' || c == '\\'
}

pub fn hex_rgb_from_osc_reply(reply: &str) -> (fields: Option<(&str, &str, &str)>)
    ensures
        match fields {
            Some(f) => reply_fields(reply@) == Some((f.0@, f.1@, f.2@)),
            None => reply_fields(reply@) is None,
        },
{
    let chars = chars_of(reply);
    let mut end: usize = chars.len();
    assert(chars@.take(end as int) == chars@);
    while end > 0 && is_trailer_char(chars[end - 1])
        invariant
            end <= chars.len(),
            trimmed_len(chars@) == trimmed_len(chars@.take(end as int)),
        decreases end,
    {
        assert(chars@.take(end as int).drop_last() == chars@.take(end - 1));
        end -= 1;
    }
    let ghost body = chars@.take(end as int);
    assert(body == without_trailers(reply@));
    assert(body == chars@.subrange(0, end as int));
    let colon = match find_between(&chars, ':', 0, end) {
        Some(k) => k,
        None => {
            return None;
        },
    };
    let ghost rgb = body.skip(colon + 1);
    assert(rgb == chars@.subrange(colon + 1, end as int));
    let first = match find_between(&chars, '/', colon + 1, end) {
        Some(k) => k,
        None => {
            return None;
        },
    };
    let ghost rest = rgb.skip(first - colon);
    assert(rest == chars@.subrange(first + 1, end as int));
    let second = match find_between(&chars, '/', first + 1, end) {
        Some(k) => k,
        None => {
            return None;
        },
    };
    let ghost last = rest.skip(second - first);
    assert(last == chars@.subrange(second + 1, end as int));
    proof {
        last.index_of_first_ensures('/');
    }
    if find_between(&chars, '/', second + 1, end).is_some() {
        return None;
    }
    let r = reply.substring_char(colon + 1, first);
    let g = reply.substring_char(first + 1, second);
    let b = reply.substring_char(second + 1, end);
    assert(r@ == rgb.take(first - colon - 1));
    assert(g@ == rest.take(second - first - 1));
    assert(b@ == last);
    Some((r, g, b))
}

pub fn parse_osc_reply(reply: &str) -> (color: Option<Rgb24>)
    ensures
        color == reply_color(reply@),
{
    match hex_rgb_from_osc_reply(reply) {
        Some((r, g, b)) => match (hex_to_u8(r), hex_to_u8(g), hex_to_u8(b)) {
            (Some(r), Some(g), Some(b)) => Some((r, g, b)),
            _ => None,
        },
        None => None,
    }
}

/// The most bytes that are read for one reply.
pub const MAX_OSC_LEN: usize = 64;

/// The bell character, which ends a reply.
pub const BEL: u8 = 0x07;

/// The escape character. Followed by a backslash it ends a reply too.
pub const ESC: u8 = 0x1b;

/// The number of bytes that a read from the terminal waits for: none.
pub const READ_MIN_BYTES: u8 = 0;

/// How long a read from the terminal waits for a byte, in tenths of a second.
pub const READ_TIMEOUT_TENTHS: u8 = 10;

/// The query for the background color: `ESC ] 1 1 ; ? BEL`.
pub fn background_query() -> (query: Vec<u8>)
    ensures
        query@ == seq![0x1bu8, 0x5d, 0x31, 0x31, 0x3b, 0x3f, 0x07],
{
    let mut query: Vec<u8> = Vec::new();
    query.push(ESC);
    query.push(0x5d);
    query.push(0x31);
    query.push(0x31);
    query.push(0x3b);
    query.push(0x3f);
    query.push(BEL);
    query
}

/// Whether the bytes end with what ends a reply: `BEL`, or `ESC` and a
/// backslash.
pub open spec fn ends_reply(bytes: Seq<u8>) -> bool {
    ||| bytes.len() >= 1 && bytes.last() == BEL
    ||| bytes.len() >= 2 && bytes[bytes.len() - 2] == ESC && bytes.last() == 0x5c
}

/// What one read from the terminal gave: a byte, or nothing in the time
/// allowed.
#[derive(Copy, Clone, Debug)]
pub enum ReadEvent {
    Byte(u8),
    Nothing,
}

/// The bytes of a reply that have come in so far. There are always fewer
/// than `MAX_OSC_LEN` of them.
pub struct ReplyReader {
    buf: Vec<u8>,
}

impl View for ReplyReader {
    type V = Seq<u8>;

    closed spec fn view(&self) -> Seq<u8> {
        self.buf@
    }
}

/// Where reading stands after an event.
pub enum ReplyStep {
    /// The reply is not complete: read on.
    Reading(ReplyReader),
    /// The reply is complete: these are its bytes.
    Complete(Vec<u8>),
    /// No reply will come.
    Failed,
}

/// A step as a value.
pub ghost enum ReplyStepView {
    Reading(Seq<u8>),
    Complete(Seq<u8>),
    Failed,
}

impl View for ReplyStep {
    type V = ReplyStepView;

    open spec fn view(&self) -> ReplyStepView {
        match self {
            ReplyStep::Reading(reader) => ReplyStepView::Reading(reader@),
            ReplyStep::Complete(bytes) => ReplyStepView::Complete(bytes@),
            ReplyStep::Failed => ReplyStepView::Failed,
        }
    }
}

/// The step that follows when `event` comes after the bytes `buffered`.
/// A read that gives nothing fails. A byte is added to the reply: the reply
/// is complete if it now ends as a reply does, fails if it has reached
/// `MAX_OSC_LEN` bytes without, and goes on otherwise.
pub open spec fn step_after(buffered: Seq<u8>, event: ReadEvent) -> ReplyStepView {
    match event {
        ReadEvent::Nothing => ReplyStepView::Failed,
        ReadEvent::Byte(b) => {
            let next = buffered.push(b);
            if ends_reply(next) {
                ReplyStepView::Complete(next)
            } else if next.len() >= MAX_OSC_LEN {
                ReplyStepView::Failed
            } else {
                ReplyStepView::Reading(next)
            }
        },
    }
}

impl ReplyReader {
    #[verifier::type_invariant]
    spec fn within_cap(self) -> bool {
        self.buf@.len() < MAX_OSC_LEN
    }

    pub fn new() -> (reader: Self)
        ensures
            reader@ == Seq::<u8>::empty(),
    {
        ReplyReader { buf: Vec::new() }
    }

    /// The number of bytes read so far.
    pub fn len(&self) -> (n: usize)
        ensures
            n == self@.len(),
            n < MAX_OSC_LEN,
    {
        proof {
            use_type_invariant(self);
        }
        self.buf.len()
    }

    pub fn feed(self, event: ReadEvent) -> (step: ReplyStep)
        ensures
            step@ == step_after(self@, event),
    {
        proof {
            use_type_invariant(&self);
        }
        match event {
            ReadEvent::Nothing => ReplyStep::Failed,
            ReadEvent::Byte(b) => {
                let mut buf = self.buf;
                buf.push(b);
                let n: usize = buf.len();
                if buf[n - 1] == BEL || (n >= 2 && buf[n - 2] == ESC && buf[n - 1] == 0x5c) {
                    ReplyStep::Complete(buf)
                } else if n >= MAX_OSC_LEN {
                    ReplyStep::Failed
                } else {
                    ReplyStep::Reading(ReplyReader { buf })
                }
            },
        }
    }
}

/// Whether the reply to read from `sent` is its first `n` bytes: they end
/// as a reply does, no shorter start of `sent` does, and `n` is within
/// `MAX_OSC_LEN`.
pub open spec fn is_reply_end(sent: Seq<u8>, n: int) -> bool {
    &&& 1 <= n <= sent.len()
    &&& n <= MAX_OSC_LEN
    &&& ends_reply(sent.take(n))
    &&& forall|m: int| 1 <= m < n ==> !ends_reply(#[trigger] sent.take(m))
}

/// The reply that is read from a terminal that sends `sent` and then nothing:
/// the shortest start of `sent` that ends as a reply does, if it is within
/// `MAX_OSC_LEN` bytes.
pub open spec fn accumulated_reply(sent: Seq<u8>) -> Option<Seq<u8>> {
    if exists|n: int| is_reply_end(sent, n) {
        Some(sent.take(choose|n: int| is_reply_end(sent, n)))
    } else {
        None
    }
}

/// Reads a reply from the bytes that a terminal sends, one at a time.
pub fn accumulate_reply(sent: &[u8]) -> (reply: Option<Vec<u8>>)
    ensures
        match reply {
            Some(bytes) => accumulated_reply(sent@) == Some(bytes@),
            None => accumulated_reply(sent@) is None,
        },
{
    let mut reader = ReplyReader::new();
    let mut i: usize = 0;
    assert(sent@.take(0) == Seq::<u8>::empty());
    while i < sent.len()
        invariant
            i <= sent.len(),
            i < MAX_OSC_LEN,
            reader@ == sent@.take(i as int),
            forall|m: int| 1 <= m <= i ==> !ends_reply(#[trigger] sent@.take(m)),
        decreases sent.len() - i,
    {
        assert(sent@.take(i as int).push(sent@[i as int]) == sent@.take(i + 1));
        match reader.feed(ReadEvent::Byte(sent[i])) {
            ReplyStep::Reading(next) => {
                reader = next;
            },
            ReplyStep::Complete(bytes) => {
                assert(is_reply_end(sent@, i + 1));
                return Some(bytes);
            },
            ReplyStep::Failed => {
                assert forall|n: int| !is_reply_end(sent@, n) by {
                    if 1 <= n <= sent@.len() && n <= MAX_OSC_LEN && n > i + 1 {
                    }
                }
                return None;
            },
        }
        i += 1;
    }
    match reader.feed(ReadEvent::Nothing) {
        ReplyStep::Complete(bytes) => Some(bytes),
        _ => None,
    }
}

/// `String::from_utf8` gives the text that the bytes encode, and fails
/// exactly where the bytes are not UTF-8.
#[verifier::external_body]
fn text_of_utf8(bytes: Vec<u8>) -> (text: Option<String>)
    ensures
        text is Some <==> valid_utf8(bytes@),
        text matches Some(s) ==> s@ == decode_utf8(bytes@),
{
    String::from_utf8(bytes).ok()
}

/// The color that the bytes of a reply name. Bytes that are not text name
/// none.
pub open spec fn reply_bytes_color(bytes: Seq<u8>) -> Option<Rgb24> {
    if valid_utf8(bytes) {
        reply_color(decode_utf8(bytes))
    } else {
        None
    }
}

/// The background color that a complete reply names.
pub fn background_from_reply(bytes: Vec<u8>) -> (color: Option<Rgb24>)
    ensures
        color == reply_bytes_color(bytes@),
{
    match text_of_utf8(bytes) {
        Some(text) => parse_osc_reply(text.as_str()),
        None => None,
    }
}

/// The background color of a terminal that answers the query with `sent`
/// and then falls silent.
pub open spec fn background_of(sent: Seq<u8>) -> Option<Rgb24> {
    match accumulated_reply(sent) {
        Some(bytes) => reply_bytes_color(bytes),
        None => None,
    }
}

/// The background color of a terminal, from the bytes with which it
/// answers the query.
pub fn term_background(sent: &[u8]) -> (color: Option<Rgb24>)
    ensures
        color == background_of(sent@),
{
    match accumulate_reply(sent) {
        Some(bytes) => background_from_reply(bytes),
        None => None,
    }
}

/// A terminal that never sends what ends a reply gives no background,
/// however many bytes it sends.
pub proof fn lemma_unterminated_reply_is_absent(sent: Seq<u8>)
    requires
        forall|i: int| 0 <= i < sent.len() ==> sent[i] != BEL,
        forall|i: int| 1 <= i < sent.len() ==> !(sent[i - 1] == ESC && #[trigger] sent[i] == 0x5c),
    ensures
        accumulated_reply(sent) is None,
        background_of(sent) is None,
{
    assert forall|n: int| !is_reply_end(sent, n) by {
        if 1 <= n <= sent.len() {
            let start = sent.take(n);
            assert(start.last() == sent[n - 1]);
            if n >= 2 {
                assert(start[n - 2] == sent[n - 2]);
            }
        }
    }
}

/// A terminal whose first `MAX_OSC_LEN` bytes hold no complete reply gives
/// no background, whatever follows them.
pub proof fn lemma_overlong_reply_is_absent(sent: Seq<u8>)
    requires
        forall|n: int| 1 <= n <= sent.len() && n <= MAX_OSC_LEN ==> !ends_reply(sent.take(n)),
    ensures
        accumulated_reply(sent) is None,
        background_of(sent) is None,
{
}

/// A reply without a colon names no color.
pub proof fn lemma_reply_without_colon_is_absent(reply: Seq<char>)
    requires
        !reply.contains(':'),
    ensures
        reply_fields(reply) is None,
        reply_color(reply) is None,
{
    let body = without_trailers(reply);
    lemma_trimmed_len_bound(reply);
    if body.contains(':') {
        let i = choose|i: int| 0 <= i < body.len() && body[i] == ':';
        assert(reply[i] == ':');
    }
    lemma_index_of_first_none(body, ':');
}

/// A reply with only two fields after its colon names no color.
pub proof fn lemma_reply_with_two_fields_is_absent(
    reply: Seq<char>,
    before: Seq<char>,
    first: Seq<char>,
    second: Seq<char>,
)
    requires
        without_trailers(reply) == before + seq![':'] + first + seq!['/'] + second,
        !before.contains(':'),
        !first.contains('/'),
        !second.contains('/'),
    ensures
        reply_fields(reply) is None,
        reply_color(reply) is None,
{
    let body = without_trailers(reply);
    let colon = before.len() as int;
    assert(body[colon] == ':');
    assert forall|j: int| 0 <= j < colon implies body[j] != ':' by {
        assert(body[j] == before[j]);
    }
    lemma_index_of_first_is(body, ':', colon);
    let rgb = body.skip(colon + 1);
    assert(rgb == first + seq!['/'] + second);
    let slash = first.len() as int;
    assert(rgb[slash] == '/');
    assert forall|j: int| 0 <= j < slash implies rgb[j] != '/' by {
        assert(rgb[j] == first[j]);
    }
    lemma_index_of_first_is(rgb, '/', slash);
    let rest = rgb.skip(slash + 1);
    assert(rest == second);
    lemma_index_of_first_none(rest, '/');
}

/// Taking the trailers off makes a string no longer.
pub proof fn lemma_trimmed_len_bound(s: Seq<char>)
    ensures
        trimmed_len(s) <= s.len(),
    decreases s.len(),
{
    if s.len() > 0 && is_trailer(s.last()) {
        lemma_trimmed_len_bound(s.drop_last());
    }
}

} // verus!
