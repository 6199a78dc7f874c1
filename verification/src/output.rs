//! What the gateway sends to Discord: messages cut into pieces, and replies
//! cut to size.
use vstd::prelude::*;
use vstd::utf8::*;
use crate::text;

verus! {

/// The number of bytes of text that the gateway puts into one message.
pub const DISCORD_LIMIT: usize = 1900;

/// The number of bytes that a piece may take: at least one.
pub open spec fn piece_limit(max: nat) -> nat {
    if max == 0 {
        1
    } else {
        max
    }
}

/// Every character of `s` but for whitespace fits into a piece by itself.
pub open spec fn can_be_cut(s: Seq<char>, max: nat) -> bool {
    forall|i: int|
        0 <= i < s.len() ==> text::is_white_space(#[trigger] s[i]) || text::char_width(s[i]) <= piece_limit(max)
}

/// The part of `s` from which the next piece is taken: the characters that fit
/// into `max` bytes, at least one.
pub open spec fn piece_room(s: Seq<char>, max: nat) -> Seq<char> {
    s.take(
        if text::fitting(s, max as int) == 0 {
            1
        } else {
            text::fitting(s, max as int) as int
        },
    )
}

/// How many characters of `s` stand before the next cut: up to the last line
/// break in the room for the piece, else up to the last space in it, else all of
/// it; never none.
pub open spec fn cut_at(s: Seq<char>, max: nat) -> int {
    let room = piece_room(s, max);
    let cut = match text::last_index(room, '\n') {
        Some(k) => k,
        None => match text::last_index(room, ' ') {
            Some(k) => k,
            None => room.len() as int,
        },
    };
    if cut < 1 {
        1
    } else {
        cut
    }
}

/// The pieces of a text that neither starts nor ends with whitespace.
pub open spec fn pieces(s: Seq<char>, max: nat) -> Seq<Seq<char>>
    decreases s.len(),
{
    if s.len() == 0 {
        seq![]
    } else if text::byte_len(s) <= max {
        seq![s]
    } else {
        let cut = cut_at(s, max);
        let rest = if cut <= s.len() {
            s.skip(cut)
        } else {
            seq![]
        };
        proof {
            text::lemma_trim(rest);
        }
        seq![text::trim(s.take(cut))] + pieces(text::trim(rest), max)
    }
}

/// The largest character boundary of `text` that is not past `max`.
fn last_boundary(text: &str, max: usize) -> (boundary: usize)
    ensures
        boundary == text::byte_len(text@.take(text::fitting(text@, max as int) as int)),
        text::fitting(text@, max as int) <= text@.len(),
{
    let len = text::str_len(text);
    let mut boundary: usize = if max < len { max } else { len };
    let ghost k = text::fitting(text@, max as int) as int;
    let ghost bytes = encode_utf8(text@);
    proof {
        text::lemma_fitting(text@, max as int, 0);
        text::lemma_fitting(text@, max as int, k);
        text::lemma_boundary_of_prefix(text@, k);
        text::lemma_take_grows(text@, k, text@.len() as int);
        assert(text@.take(text@.len() as int) =~= text@);
    }
    while boundary > 0 && !text.is_char_boundary(boundary)
        invariant
            bytes == encode_utf8(text@),
            is_char_boundary(bytes, text::byte_len(text@.take(k)) as int),
            text::byte_len(text@.take(k)) <= boundary <= max,
            boundary <= bytes.len(),
        decreases boundary,
    {
        boundary = boundary - 1;
    }
    proof {
        assert(text@.take(0).len() == 0);
        encode_utf8_valid_utf8(text@);
        let j = text::lemma_prefix_of_boundary(text@, boundary as int);
        text::lemma_fitting(text@, max as int, j);
        text::lemma_take_grows(text@, j, k);
    }
    boundary
}

/// The largest character boundary of `text` that is not past `max`, but at
/// least one.
pub fn char_boundary_at_or_before(text: &str, max: usize) -> (boundary: usize)
    ensures
        boundary == (if text::fitting(text@, max as int) == 0 {
            1
        } else {
            text::byte_len(text@.take(text::fitting(text@, max as int) as int))
        }),
{
    let boundary = last_boundary(text, max);
    proof {
        assert(text@.take(0).len() == 0);
        text::lemma_take_grows(text@, 0, text::fitting(text@, max as int) as int);
    }
    if boundary < 1 {
        1
    } else {
        boundary
    }
}

/// Cuts `text` into the messages in which it is sent, each of at most `max`
/// bytes.
pub fn discord_chunks(text: &str, max: usize) -> (chunks: Vec<String>)
    requires
        can_be_cut(text@, max as nat),
    ensures
        chunks.deep_view() == pieces(text::trim(text@), max as nat),
{
    let mut chunks: Vec<String> = Vec::new();
    let mut remaining: &str = text.trim();
    proof {
        let (a, b) = text::lemma_trim(text@);
        assert forall|i: int| 0 <= i < remaining@.len() implies text::is_white_space(
            #[trigger] remaining@[i],
        ) || text::char_width(remaining@[i]) <= piece_limit(max as nat) by {
            assert(remaining@[i] == text@[a + i]);
        }
        assert(chunks.deep_view() =~= seq![]);
    }
    while text::str_len(remaining) > max
        invariant
            text::is_trimmed(remaining@),
            can_be_cut(remaining@, max as nat),
            chunks.deep_view() + pieces(remaining@, max as nat) == pieces(text::trim(text@), max as nat),
        decreases remaining@.len(),
    {
        let ghost s = remaining@;
        let ghost f = text::fitting(s, max as int) as int;
        let ghost n: int = if f == 0 { 1 } else { f };
        let boundary = char_boundary_at_or_before(remaining, max);
        proof {
            text::lemma_byte_len_first(s.take(1));
            text::lemma_fitting(s, max as int, 1);
            assert(s.take(1).drop_first().len() == 0);
        }
        let (room, _) = text::split(remaining, boundary, Ghost(n));
        let newline = text::rfind(room, '\n');
        let split_at = match newline {
            Some(i) => i,
            None => match text::rfind(room, ' ') {
                Some(i) => i,
                None => boundary,
            },
        };
        let ghost cut = cut_at(s, max as nat);
        proof {
            text::lemma_last_index(room@, '\n');
            text::lemma_last_index(room@, ' ');
            assert(room@ == piece_room(s, max as nat));
            assert(room@[0] == s[0]);
            assert(1 <= cut <= n);
            assert(room@.take(cut) =~= s.take(cut));
            text::lemma_take_grows(s, 0, cut);
        }
        let split_at: usize = if split_at < 1 { 1 } else { split_at };
        let (chunk, rest) = text::split(remaining, split_at, Ghost(cut));
        let ghost before = chunks.deep_view();
        chunks.push(chunk.trim().to_owned());
        remaining = rest.trim();
        proof {
            let (a, b) = text::lemma_trim(rest@);
            assert forall|i: int| 0 <= i < remaining@.len() implies text::is_white_space(
                #[trigger] remaining@[i],
            ) || text::char_width(remaining@[i]) <= piece_limit(max as nat) by {
                assert(remaining@[i] == s[cut + a + i]);
            }
            assert(chunks.deep_view() =~= before.push(text::trim(s.take(cut))));
            assert(chunks.deep_view() + pieces(remaining@, max as nat) =~= before + pieces(
                s,
                max as nat,
            ));
        }
    }
    if !remaining.is_empty() {
        let ghost before = chunks.deep_view();
        chunks.push(remaining.to_owned());
        assert(chunks.deep_view() =~= before + pieces(remaining@, max as nat));
    } else {
        assert(chunks.deep_view() =~= chunks.deep_view() + pieces(remaining@, max as nat));
    }
    chunks
}

/// The mark behind a reply that was cut.
pub const TRUNCATED_MARK: &'static str = "\n...[truncated]";

/// `s` if it fits into `max` bytes; else the characters that do, and the mark.
pub open spec fn truncated(s: Seq<char>, max: nat) -> Seq<char> {
    if text::byte_len(s) <= max {
        s
    } else {
        s.take(text::fitting(s, max as int) as int) + TRUNCATED_MARK@
    }
}

/// Cuts `value` to at most `max` bytes and marks it as cut, where it is longer.
/// No character is split.
pub fn truncate(value: String, max: usize) -> (r: String)
    ensures
        r@ == truncated(value@, max as nat),
{
    if text::str_len(value.as_str()) <= max {
        return value;
    }
    let ghost k = text::fitting(value@, max as int) as int;
    let cut = last_boundary(value.as_str(), max);
    let (kept, _) = text::split(value.as_str(), cut, Ghost(k));
    let mut r = kept.to_owned();
    r.append(TRUNCATED_MARK);
    r
}

/// What is sent of a reply: all of it, or what is left of it after a cut.
pub fn reply_content(content: String) -> (r: String)
    ensures
        r@ == truncated(content@, DISCORD_LIMIT as nat),
{
    truncate(content, DISCORD_LIMIT)
}

/// The text that tells a channel that a turn failed.
pub fn turn_failed(error: &str) -> (r: String)
    ensures
        r@ == "Codex turn failed: "@ + error@,
{
    let mut r = "Codex turn failed: ".to_owned();
    r.append(error);
    r
}

/// The pieces in order, with a gap before each and one behind the last.
pub open spec fn spaced(gaps: Seq<Seq<char>>, parts: Seq<Seq<char>>) -> Seq<char>
    decreases parts.len(),
{
    if parts.len() == 0 {
        gaps[0]
    } else {
        gaps[0] + (parts[0] + spaced(gaps.drop_first(), parts.drop_first()))
    }
}

/// `s` is made of the pieces in order, with nothing but whitespace before, between
/// and behind them.
pub open spec fn holds_in_order(s: Seq<char>, gaps: Seq<Seq<char>>, parts: Seq<Seq<char>>) -> bool {
    &&& gaps.len() == parts.len() + 1
    &&& forall|i: int| 0 <= i < gaps.len() ==> text::is_blank(#[trigger] gaps[i])
    &&& s == spaced(gaps, parts)
}

/// A cut leaves at least one character before it and never passes the room for
/// the piece.
proof fn lemma_cut(s: Seq<char>, max: nat)
    requires
        s.len() > 0,
        text::is_trimmed(s),
        can_be_cut(s, max),
    ensures
        1 <= cut_at(s, max) <= s.len(),
        text::byte_len(s.take(cut_at(s, max))) <= piece_limit(max),
{
    let f = text::fitting(s, max as int) as int;
    let room = piece_room(s, max);
    text::lemma_byte_len_first(s.take(1));
    assert(s.take(1).drop_first().len() == 0);
    text::lemma_fitting(s, max as int, 1);
    text::lemma_fitting(s, max as int, f);
    text::lemma_last_index(room, '\n');
    text::lemma_last_index(room, ' ');
    assert(room[0] == s[0]);
    text::lemma_take_grows(s, cut_at(s, max), room.len() as int);
}

/// Cutting a text off leaves a rest that can be cut too.
proof fn lemma_rest(s: Seq<char>, max: nat, cut: int)
    requires
        can_be_cut(s, max),
        0 <= cut <= s.len(),
    ensures
        can_be_cut(text::trim(s.skip(cut)), max),
        text::is_trimmed(text::trim(s.skip(cut))),
        text::trim(s.skip(cut)).len() <= s.len() - cut,
{
    let rest = text::trim(s.skip(cut));
    let (a, b) = text::lemma_trim(s.skip(cut));
    assert forall|i: int| 0 <= i < rest.len() implies text::is_white_space(#[trigger] rest[i])
        || text::char_width(rest[i]) <= piece_limit(max) by {
        assert(rest[i] == s[cut + a + i]);
    }
}

proof fn lemma_pieces_fit(s: Seq<char>, max: nat)
    requires
        text::is_trimmed(s),
        can_be_cut(s, max),
    ensures
        forall|i: int|
            0 <= i < pieces(s, max).len() ==> {
                let piece = #[trigger] pieces(s, max)[i];
                &&& piece.len() > 0
                &&& text::is_trimmed(piece)
                &&& text::byte_len(piece) <= piece_limit(max)
            },
    decreases s.len(),
{
    if s.len() > 0 && text::byte_len(s) > max {
        let cut = cut_at(s, max);
        lemma_cut(s, max);
        lemma_rest(s, max, cut);
        lemma_pieces_fit(text::trim(s.skip(cut)), max);
        text::lemma_trim(s.take(cut));
        let tail = pieces(text::trim(s.skip(cut)), max);
        assert forall|i: int| 0 <= i < pieces(s, max).len() implies {
            let piece = #[trigger] pieces(s, max)[i];
            &&& piece.len() > 0
            &&& text::is_trimmed(piece)
            &&& text::byte_len(piece) <= piece_limit(max)
        } by {
            if i > 0 {
                assert(pieces(s, max)[i] == tail[i - 1]);
            }
        }
    }
}

/// Whitespace before a text can be put into its first gap.
#[verifier::spinoff_prover]
proof fn lemma_gap_before(
    left: Seq<char>,
    s: Seq<char>,
    gaps: Seq<Seq<char>>,
    parts: Seq<Seq<char>>,
) -> (wider: Seq<Seq<char>>)
    requires
        text::is_blank(left),
        holds_in_order(s, gaps, parts),
    ensures
        holds_in_order(left + s, wider, parts),
{
    let wider = gaps.update(0, left + gaps[0]);
    assert(wider.drop_first() =~= gaps.drop_first());
    assert(left + s =~= spaced(wider, parts));
    wider
}

/// Whitespace behind a text can be put into its last gap.
#[verifier::spinoff_prover]
proof fn lemma_gap_behind(
    s: Seq<char>,
    right: Seq<char>,
    gaps: Seq<Seq<char>>,
    parts: Seq<Seq<char>>,
) -> (wider: Seq<Seq<char>>)
    requires
        text::is_blank(right),
        holds_in_order(s, gaps, parts),
    ensures
        holds_in_order(s + right, wider, parts),
    decreases parts.len(),
{
    if parts.len() == 0 {
        let wider = seq![gaps[0] + right];
        assert(s + right =~= spaced(wider, parts));
        wider
    } else {
        let rest_gaps = gaps.drop_first();
        let rest_parts = parts.drop_first();
        let rest = spaced(rest_gaps, rest_parts);
        assert forall|i: int| 0 <= i < rest_gaps.len() implies text::is_blank(
            #[trigger] rest_gaps[i],
        ) by {
            assert(rest_gaps[i] == gaps[i + 1]);
        }
        let tail = lemma_gap_behind(rest, right, rest_gaps, rest_parts);
        let wider = seq![gaps[0]] + tail;
        assert(wider.drop_first() =~= tail);
        assert(s + right =~= spaced(wider, parts));
        wider
    }
}

/// A piece can be put before a text.
#[verifier::spinoff_prover]
proof fn lemma_piece_before(
    piece: Seq<char>,
    s: Seq<char>,
    gaps: Seq<Seq<char>>,
    parts: Seq<Seq<char>>,
) -> (longer: Seq<Seq<char>>)
    requires
        holds_in_order(s, gaps, parts),
    ensures
        holds_in_order(piece + s, longer, seq![piece] + parts),
{
    let longer = seq![Seq::<char>::empty()] + gaps;
    assert(longer.drop_first() =~= gaps);
    assert((seq![piece] + parts).drop_first() =~= parts);
    assert(piece + s =~= spaced(longer, seq![piece] + parts));
    longer
}

#[verifier::spinoff_prover]
#[verifier::rlimit(40)]
proof fn lemma_pieces_in_order(s: Seq<char>, max: nat) -> (gaps: Seq<Seq<char>>)
    requires
        text::is_trimmed(s),
        can_be_cut(s, max),
    ensures
        holds_in_order(s, gaps, pieces(s, max)),
    decreases s.len(),
{
    let none = Seq::<char>::empty();
    if s.len() == 0 {
        assert(s =~= none);
        seq![none]
    } else if text::byte_len(s) <= max {
        let gaps = lemma_piece_before(s, none, seq![none], seq![]);
        assert(s + none =~= s);
        assert(seq![s] + Seq::<Seq<char>>::empty() =~= pieces(s, max));
        gaps
    } else {
        let cut = cut_at(s, max);
        lemma_cut(s, max);
        lemma_rest(s, max, cut);
        let head = s.take(cut);
        let tail = s.skip(cut);
        let (_, end) = text::lemma_trim(head);
        let (a, b) = text::lemma_trim(tail);
        let rest = text::trim(tail);
        let gaps = lemma_pieces_in_order(rest, max);
        let gaps = lemma_gap_before(tail.take(a), rest, gaps, pieces(rest, max));
        let gaps = lemma_gap_behind(tail.take(a) + rest, tail.skip(b), gaps, pieces(rest, max));
        assert(tail.take(a) + rest + tail.skip(b) =~= tail);
        let gaps = lemma_gap_before(head.skip(end), tail, gaps, pieces(rest, max));
        let gaps = lemma_piece_before(
            text::trim(head),
            head.skip(end) + tail,
            gaps,
            pieces(rest, max),
        );
        assert(text::trim(head) + (head.skip(end) + tail) =~= s);
        gaps
    }
}

/// Every text can be cut into messages of Discord's size.
pub proof fn law_every_text_can_be_sent(s: Seq<char>)
    ensures
        can_be_cut(s, DISCORD_LIMIT as nat),
{
}

/// No message that a text is cut into is empty, starts or ends with whitespace,
/// or takes more bytes than the limit.
pub proof fn law_chunks_fit(s: Seq<char>, max: nat)
    requires
        can_be_cut(s, max),
    ensures
        forall|i: int|
            0 <= i < pieces(text::trim(s), max).len() ==> {
                let piece = #[trigger] pieces(text::trim(s), max)[i];
                &&& piece.len() > 0
                &&& text::is_trimmed(piece)
                &&& text::byte_len(piece) <= piece_limit(max)
            },
{
    assert(s.skip(0) =~= s);
    lemma_rest(s, max, 0);
    lemma_pieces_fit(text::trim(s), max);
}

/// The text is the messages in order, each as it stands, with nothing but
/// whitespace before, between and behind them.
#[verifier::spinoff_prover]
#[verifier::rlimit(40)]
pub proof fn law_chunks_keep_text(s: Seq<char>, max: nat)
    requires
        can_be_cut(s, max),
    ensures
        exists|gaps: Seq<Seq<char>>| #[trigger]
            holds_in_order(s, gaps, pieces(text::trim(s), max)),
{
    assert(s.skip(0) =~= s);
    lemma_rest(s, max, 0);
    let t = text::trim(s);
    let (a, b) = text::lemma_trim(s);
    let gaps = lemma_pieces_in_order(t, max);
    let gaps = lemma_gap_before(s.take(a), t, gaps, pieces(t, max));
    let gaps = lemma_gap_behind(s.take(a) + t, s.skip(b), gaps, pieces(t, max));
    assert(s.take(a) + t + s.skip(b) =~= s);
}

/// A text that fits is sent as one message, a blank one as none.
pub proof fn law_short_text_is_not_cut(s: Seq<char>, max: nat)
    requires
        text::byte_len(text::trim(s)) <= max,
    ensures
        pieces(text::trim(s), max) == (if text::ink(s).len() == 0 {
            seq![]
        } else {
            seq![text::trim(s)]
        }),
        text::is_blank(s) ==> pieces(text::trim(s), max) == Seq::<Seq<char>>::empty(),
        !text::is_blank(s) ==> pieces(text::trim(s), max) == seq![text::trim(s)],
{
    let (a, b) = text::lemma_trim(s);
    if text::is_blank(s) {
        text::lemma_ink_blank(s);
    } else if text::trim(s).len() == 0 {
        let i = choose|i: int| 0 <= i < s.len() && !text::is_white_space(s[i]);
        assert(text::is_white_space(s[i]));
    } else {
        assert(text::trim(s)[0] == s[a]);
    }
    let t = text::trim(s);
    text::lemma_trim(s);
    if t.len() == 0 {
        text::lemma_ink_blank(t);
    } else {
        text::lemma_ink_concat(t.take(1), t.skip(1));
        assert(t.take(1) + t.skip(1) =~= t);
        let pred = |c: char| !text::is_white_space(c);
        t.take(1).lemma_filter_contains(pred, 0);
    }
}

/// The characters that fit into `max` bytes end at a character boundary not past
/// `max`, and none is between the two. There `truncate` cuts, and
/// `char_boundary_at_or_before` finds it where a character fits.
pub proof fn law_boundary_is_the_last(s: Seq<char>, max: nat)
    ensures
        ({
            let boundary = text::byte_len(s.take(text::fitting(s, max as int) as int)) as int;
            &&& is_char_boundary(encode_utf8(s), boundary)
            &&& boundary <= max
            &&& text::fitting(s, max as int) > 0 <==> boundary > 0
            &&& forall|i: int|
                boundary < i <= max ==> !#[trigger] is_char_boundary(encode_utf8(s), i)
        }),
{
    let k = text::fitting(s, max as int) as int;
    text::lemma_fitting(s, max as int, 0);
    text::lemma_fitting(s, max as int, k);
    text::lemma_boundary_of_prefix(s, k);
    text::lemma_take_grows(s, 0, k);
    assert(s.take(0).len() == 0);
    let boundary = text::byte_len(s.take(k)) as int;
    assert forall|i: int| boundary < i <= max implies !#[trigger] is_char_boundary(
        encode_utf8(s),
        i,
    ) by {
        if is_char_boundary(encode_utf8(s), i) {
            let j = text::lemma_prefix_of_boundary(s, i);
            text::lemma_fitting(s, max as int, j);
            text::lemma_take_grows(s, j, k);
        }
    }
}

/// A text that fits is left as it is. Of a longer one, as many characters are kept
/// as fit into `max` bytes, and the mark stands behind them.
pub proof fn law_truncated(s: Seq<char>, max: nat)
    ensures
        text::byte_len(s) <= max ==> truncated(s, max) == s,
        text::byte_len(s) > max ==> exists|k: int|
            0 <= k < s.len() && text::byte_len(#[trigger] s.take(k)) <= max < text::byte_len(
                s.take(k + 1),
            ) && truncated(s, max) == s.take(k) + TRUNCATED_MARK@,
        TRUNCATED_MARK@ == "\n...[truncated]"@,
        text::byte_len(truncated(s, max)) <= max + 15,
{
    reveal_strlit("\n...[truncated]");
    is_ascii_chars_encode_utf8(TRUNCATED_MARK@);
    let k = text::fitting(s, max as int) as int;
    text::lemma_fitting(s, max as int, 0);
    text::lemma_fitting(s, max as int, k);
    if text::byte_len(s) > max {
        assert(s.take(s.len() as int) =~= s);
        text::lemma_fitting(s, max as int, s.len() as int);
        text::lemma_fitting(s, max as int, k + 1);
        text::lemma_encode_concat(s.take(k), TRUNCATED_MARK@);
        assert(text::byte_len(s.take(k)) <= max < text::byte_len(s.take(k + 1)));
    }
}

/// A text can be cut if and only if each of its characters but for whitespace takes no
/// more bytes than the limit, or one where the limit is zero. With a limit of four or
/// more every text can.
pub proof fn law_what_can_be_cut(s: Seq<char>, max: nat)
    ensures
        can_be_cut(s, max) <==> forall|i: int|
            0 <= i < s.len() && !text::is_white_space(#[trigger] s[i]) ==> encode_scalar(
                s[i] as u32,
            ).len() <= max || encode_scalar(s[i] as u32).len() == 1,
        max >= 4 ==> can_be_cut(s, max),
{
    assert forall|c: char|
        #[trigger] text::char_width(c) == encode_scalar(c as u32).len() && 1 <= text::char_width(c)
            <= 4 by {
        text::lemma_char_width(c);
    }
    assert forall|i: int| 0 <= i < s.len() implies (encode_scalar((#[trigger] s[i]) as u32).len()
        <= max || encode_scalar(s[i] as u32).len() == 1 <==> text::char_width(s[i]) <= piece_limit(
        max,
    )) by {
        text::lemma_char_width(s[i]);
    }
}

/// Where a text that is too long for one message is cut. The next message is taken from
/// the first `n` characters, which are all that fit into the limit. It ends before the
/// last line break in them; or before the last space where there is no line break; or
/// with the last of them where there is neither. The rest is cut in the same way.
pub proof fn law_where_chunks_are_cut(s: Seq<char>, max: nat) -> (cut: (int, int))
    requires
        text::is_trimmed(s),
        can_be_cut(s, max),
        text::byte_len(s) > max,
    ensures
        ({
            let (n, k) = cut;
            let limit: nat = if max == 0 {
                1
            } else {
                max
            };
            &&& 1 <= k <= n <= s.len()
            &&& text::byte_len(s.take(n)) <= limit
            &&& n < s.len() ==> text::byte_len(s.take(n + 1)) > limit
            &&& s.take(n).contains('\n') ==> k < n && s[k] == '\n' && !s.subrange(
                k + 1,
                n,
            ).contains('\n')
            &&& !s.take(n).contains('\n') && s.take(n).contains(' ') ==> k < n && s[k] == ' '
                && !s.subrange(k + 1, n).contains(' ')
            &&& !s.take(n).contains('\n') && !s.take(n).contains(' ') ==> k == n
            &&& pieces(s, max) == seq![text::trim(s.take(k))] + pieces(
                text::trim(s.skip(k)),
                max,
            )
        }),
{
    let f = text::fitting(s, max as int) as int;
    let room = piece_room(s, max);
    let n = room.len() as int;
    let k = cut_at(s, max);
    assert(s.len() > 0) by {
        if s.len() == 0 {
            assert(text::byte_len(s) == 0);
        }
    }
    lemma_cut(s, max);
    text::lemma_byte_len_first(s.take(1));
    assert(s.take(1).drop_first().len() == 0);
    text::lemma_fitting(s, max as int, 1);
    text::lemma_fitting(s, max as int, f);
    text::lemma_last_index(room, '\n');
    text::lemma_last_index(room, ' ');
    assert(room =~= s.take(n));
    assert(room[0] == s[0]);
    if n < s.len() {
        text::lemma_fitting(s, max as int, n + 1);
        text::lemma_take_grows(s, 0, n + 1);
    }
    let c = if room.contains('\n') {
        '\n'
    } else {
        ' '
    };
    if room.contains(c) {
        assert(last_of(room, c, k));
        let between = s.subrange(k + 1, n);
        assert forall|j: int| 0 <= j < between.len() implies between[j] != c by {
            assert(between[j] == room[k + 1 + j]);
        }
    }
    (n, k)
}

/// `c` stands at `k` in `s` and nowhere behind it.
spec fn last_of(s: Seq<char>, c: char, k: int) -> bool {
    0 <= k < s.len() && s[k] == c && forall|j: int| k < j < s.len() ==> s[j] != c
}

/// A message takes at most this many bytes.
pub proof fn law_limit()
    ensures
        DISCORD_LIMIT == 1900,
{
}

} // verus!
